use vstd::prelude::*;

use crate::model::{Document, Principal, RequestStatus, Role};
use crate::release::{
    approval_expiry, effective_ttl_hours, grant_expiry, application_refusal, approve_request, approved, check_application, is_new_request, may_decide,
    reject_request, rejected, DownloadRequest, ReleaseError, RequestForm,
};

verus! {

/// The download-request ledger: every request ever made, oldest first.
pub struct Ledger {
    pub rows: Vec<DownloadRequest>,
}

pub open spec fn pending_for(r: DownloadRequest, doc_id: u128, requester_id: u128) -> bool {
    r.status == RequestStatus::Pending && r.document_id == doc_id && r.requester_id == requester_id
}

impl Ledger {
    /// Every row is well formed, identifiers are unique, and no two pending
    /// rows share a document and a requester.
    pub open spec fn wf(&self) -> bool {
        &&& forall|i: int| 0 <= i < self.rows@.len() ==> (#[trigger] self.rows@[i]).wf()
        &&& forall|i: int, j: int|
            0 <= i < self.rows@.len() && 0 <= j < self.rows@.len() && i != j ==> (
            #[trigger] self.rows@[i]).id != (#[trigger] self.rows@[j]).id
        &&& forall|i: int, j: int|
            0 <= i < self.rows@.len() && 0 <= j < self.rows@.len() && i != j && (
            #[trigger] self.rows@[i]).status == RequestStatus::Pending && (
            #[trigger] self.rows@[j]).status == RequestStatus::Pending ==> !(self.rows@[i].document_id
                == self.rows@[j].document_id && self.rows@[i].requester_id
                == self.rows@[j].requester_id)
    }

    pub open spec fn has_pending(&self, doc_id: u128, requester_id: u128) -> bool {
        exists|i: int|
            0 <= i < self.rows@.len() && pending_for(#[trigger] self.rows@[i], doc_id, requester_id)
    }

    pub open spec fn has_id(&self, id: u128) -> bool {
        exists|i: int| 0 <= i < self.rows@.len() && (#[trigger] self.rows@[i]).id == id
    }

    /// Position of the request with this identifier.
    pub open spec fn index_of(&self, id: u128) -> int {
        choose|i: int| 0 <= i < self.rows@.len() && (#[trigger] self.rows@[i]).id == id
    }

    /// The request exists and the approver may decide it.
    pub open spec fn decidable(&self, id: u128, approver: Principal) -> bool {
        self.has_id(id) && may_decide(self.rows@[self.index_of(id)], approver)
    }

    pub fn new() -> (r: Ledger)
        ensures
            r.wf(),
            r.rows@.len() == 0,
    {
        Ledger { rows: Vec::new() }
    }

    fn find_pending(&self, doc_id: u128, requester_id: u128) -> (r: bool)
        ensures
            r == self.has_pending(doc_id, requester_id),
    {
        let mut i: usize = 0;
        while i < self.rows.len()
            invariant
                i <= self.rows@.len(),
                forall|k: int|
                    0 <= k < i ==> !pending_for(#[trigger] self.rows@[k], doc_id, requester_id),
            decreases self.rows@.len() - i,
        {
            let r = &self.rows[i];
            if r.status == RequestStatus::Pending && r.document_id == doc_id && r.requester_id
                == requester_id {
                assert(pending_for(self.rows@[i as int], doc_id, requester_id));
                return true;
            }
            i = i + 1;
        }
        false
    }

    fn position(&self, id: u128) -> (r: Option<usize>)
        requires
            self.wf(),
        ensures
            r.is_none() == !self.has_id(id),
            r.is_some() ==> r.unwrap() == self.index_of(id) && r.unwrap() < self.rows@.len(),
    {
        let mut i: usize = 0;
        while i < self.rows.len()
            invariant
                self.wf(),
                i <= self.rows@.len(),
                forall|k: int| 0 <= k < i ==> (#[trigger] self.rows@[k]).id != id,
            decreases self.rows@.len() - i,
        {
            if self.rows[i].id == id {
                assert(self.rows@[i as int].id == id);
                proof {
                    let j = self.index_of(id);
                    assert(self.rows@[j].id == id);
                    if j != i as int {
                        assert(self.rows@[j].id != self.rows@[i as int].id);
                    }
                }
                return Some(i);
            }
            i = i + 1;
        }
        None
    }

    /// Records a new application. It is refused as `check_application`
    /// refuses it, with `Conflict` while a pending request for the same
    /// document and requester exists, and with `DuplicateId` when `id` is taken.
    pub fn create(
        &mut self,
        doc: Option<&Document>,
        requester: &Principal,
        form: &RequestForm,
        id: u128,
        now: i64,
    ) -> (r: Result<(), ReleaseError>)
        requires
            old(self).wf(),
        ensures
            final(self).wf(),
            match application_refusal(doc, *requester, form) {
                Some(e) => r == Err::<(), ReleaseError>(e) && final(self).rows@ == old(self).rows@,
                None => if old(self).has_pending(doc.unwrap().id, requester.id) {
                    r == Err::<(), ReleaseError>(ReleaseError::Conflict) && final(self).rows@ == old(
                        self,
                    ).rows@
                } else if old(self).has_id(id) {
                    r == Err::<(), ReleaseError>(ReleaseError::DuplicateId) && final(self).rows@
                        == old(self).rows@
                } else {
                    &&& r.is_ok()
                    &&& final(self).rows@.len() == old(self).rows@.len() + 1
                    &&& final(self).rows@.drop_last() == old(self).rows@
                    &&& is_new_request(
                        final(self).rows@.last(),
                        doc.unwrap(),
                        *requester,
                        form,
                        id,
                        now,
                    )
                },
            },
    {
        let row = match check_application(doc, requester, form, id, now) {
            Err(e) => {
                return Err(e);
            },
            Ok(row) => row,
        };
        if self.find_pending(row.document_id, row.requester_id) {
            return Err(ReleaseError::Conflict);
        }
        if self.position(id).is_some() {
            return Err(ReleaseError::DuplicateId);
        }
        let ghost before = self.rows@;
        self.rows.push(row);
        proof {
            assert(self.rows@.drop_last() =~= before);
            let n = before.len() as int;
            assert forall|i: int, j: int|
                0 <= i < self.rows@.len() && 0 <= j < self.rows@.len() && i != j implies (
                #[trigger] self.rows@[i]).id != (#[trigger] self.rows@[j]).id by {
                if i == n {
                    assert(before[j].id == self.rows@[j].id);
                } else if j == n {
                    assert(before[i].id == self.rows@[i].id);
                }
            }
            assert forall|i: int, j: int|
                0 <= i < self.rows@.len() && 0 <= j < self.rows@.len() && i != j && (
                #[trigger] self.rows@[i]).status == RequestStatus::Pending && (
                #[trigger] self.rows@[j]).status == RequestStatus::Pending implies !(
            self.rows@[i].document_id == self.rows@[j].document_id && self.rows@[i].requester_id
                == self.rows@[j].requester_id) by {
                if i == n {
                    assert(!pending_for(before[j], self.rows@[n].document_id, self.rows@[n].requester_id));
                } else if j == n {
                    assert(!pending_for(before[i], self.rows@[n].document_id, self.rows@[n].requester_id));
                }
            }
        }
        Ok(())
    }

    /// Approves the request with this identifier, as `approve_request` does
    /// under the configured lifetime; `ExpiryOutOfRange` when the expiry does
    /// not fit, `NotFound` when there is no such request or the approver may
    /// not decide it.
    pub fn approve(
        &mut self,
        request_id: u128,
        approver: &Principal,
        now: i64,
        configured_ttl: Option<i64>,
    ) -> (r: Result<(), ReleaseError>)
        requires
            old(self).wf(),
        ensures
            final(self).wf(),
            grant_expiry(now, configured_ttl).is_none() ==> r == Err::<(), ReleaseError>(
                ReleaseError::ExpiryOutOfRange,
            ),
            grant_expiry(now, configured_ttl).is_some() && !old(self).decidable(request_id, *approver)
                ==> r == Err::<(), ReleaseError>(ReleaseError::NotFound),
            r.is_ok() == (grant_expiry(now, configured_ttl).is_some() && old(self).decidable(
                request_id,
                *approver,
            )),
            r.is_ok() ==> final(self).rows@ == old(self).rows@.update(
                old(self).index_of(request_id),
                approved(
                    old(self).rows@[old(self).index_of(request_id)],
                    approver.id,
                    now,
                    grant_expiry(now, configured_ttl).unwrap(),
                ),
            ),
            r.is_err() ==> final(self).rows@ == old(self).rows@,
    {
        if approval_expiry(now, effective_ttl_hours(configured_ttl)).is_none() {
            return Err(ReleaseError::ExpiryOutOfRange);
        }
        let i = match self.position(request_id) {
            None => {
                return Err(ReleaseError::NotFound);
            },
            Some(i) => i,
        };
        let ghost before = self.rows@;
        let mut row = self.rows.remove(i);
        let r = approve_request(&mut row, approver, now, configured_ttl);
        self.rows.insert(i, row);
        proof {
            if r.is_ok() {
                assert(self.rows@ =~= before.update(
                    i as int,
                    approved(before[i as int], approver.id, now, grant_expiry(now, configured_ttl).unwrap()),
                ));
                self.lemma_update_keeps_wf(before, i as int);
            } else {
                assert(self.rows@ =~= before);
            }
        }
        r
    }

    /// Rejects the request with this identifier, as `reject_request` does;
    /// `NotFound` when there is none or the approver may not decide it.
    pub fn reject(&mut self, request_id: u128, approver: &Principal, now: i64) -> (r: Result<
        (),
        ReleaseError,
    >)
        requires
            old(self).wf(),
        ensures
            final(self).wf(),
            r.is_ok() == old(self).decidable(request_id, *approver),
            r.is_ok() ==> final(self).rows@ == old(self).rows@.update(
                old(self).index_of(request_id),
                rejected(old(self).rows@[old(self).index_of(request_id)], approver.id, now),
            ),
            r.is_err() ==> r == Err::<(), ReleaseError>(ReleaseError::NotFound) && final(self).rows@
                == old(self).rows@,
    {
        let i = match self.position(request_id) {
            None => {
                return Err(ReleaseError::NotFound);
            },
            Some(i) => i,
        };
        let ghost before = self.rows@;
        let mut row = self.rows.remove(i);
        let r = reject_request(&mut row, approver, now);
        self.rows.insert(i, row);
        proof {
            if r.is_ok() {
                assert(self.rows@ =~= before.update(i as int, rejected(before[i as int], approver.id, now)));
                self.lemma_update_keeps_wf(before, i as int);
            } else {
                assert(self.rows@ =~= before);
            }
        }
        r
    }

    /// Replacing a pending row by a well-formed decided row with the same
    /// identifier keeps the ledger well formed.
    proof fn lemma_update_keeps_wf(&self, before: Seq<DownloadRequest>, k: int)
        requires
            self.rows@.len() == before.len(),
            0 <= k < before.len(),
            forall|i: int| 0 <= i < before.len() && i != k ==> self.rows@[i] == before[i],
            self.rows@[k].id == before[k].id,
            self.rows@[k].status != RequestStatus::Pending,
            self.rows@[k].wf(),
            forall|i: int| 0 <= i < before.len() ==> (#[trigger] before[i]).wf(),
            forall|i: int, j: int|
                0 <= i < before.len() && 0 <= j < before.len() && i != j ==> (#[trigger] before[i]).id
                    != (#[trigger] before[j]).id,
            forall|i: int, j: int|
                0 <= i < before.len() && 0 <= j < before.len() && i != j && (
                #[trigger] before[i]).status == RequestStatus::Pending && (
                #[trigger] before[j]).status == RequestStatus::Pending ==> !(before[i].document_id
                    == before[j].document_id && before[i].requester_id == before[j].requester_id),
        ensures
            self.wf(),
    {
        assert forall|i: int| 0 <= i < self.rows@.len() implies (#[trigger] self.rows@[i]).wf() by {
            if i != k {
                assert(before[i].wf());
            }
        }
        assert forall|i: int, j: int|
            0 <= i < self.rows@.len() && 0 <= j < self.rows@.len() && i != j implies (
            #[trigger] self.rows@[i]).id != (#[trigger] self.rows@[j]).id by {
            assert(before[i].id != before[j].id);
        }
        assert forall|i: int, j: int|
            0 <= i < self.rows@.len() && 0 <= j < self.rows@.len() && i != j && (
            #[trigger] self.rows@[i]).status == RequestStatus::Pending && (
            #[trigger] self.rows@[j]).status == RequestStatus::Pending implies !(
        self.rows@[i].document_id == self.rows@[j].document_id && self.rows@[i].requester_id
            == self.rows@[j].requester_id) by {
            assert(before[i].status == RequestStatus::Pending);
            assert(before[j].status == RequestStatus::Pending);
        }
    }
}

/// A pending request awaits the viewer's decision when the viewer is an admin
/// or owns the document.
pub open spec fn awaits_decision_by(r: DownloadRequest, viewer: Principal) -> bool {
    r.status == RequestStatus::Pending && (viewer.role == Role::Admin || r.owner_id == viewer.id)
}

/// Whether the request awaits the viewer's decision.
pub fn awaits_viewer(r: &DownloadRequest, viewer: &Principal) -> (b: bool)
    ensures
        b == awaits_decision_by(*r, *viewer),
{
    r.status == RequestStatus::Pending && (viewer.role == Role::Admin || r.owner_id == viewer.id)
}

/// Identifiers of the requests awaiting the viewer's decision, oldest first.
pub open spec fn pending_ids_for(rows: Seq<DownloadRequest>, viewer: Principal) -> Seq<u128>
    decreases rows.len(),
{
    if rows.len() == 0 {
        Seq::empty()
    } else {
        let rest = pending_ids_for(rows.drop_last(), viewer);
        if awaits_decision_by(rows.last(), viewer) {
            rest.push(rows.last().id)
        } else {
            rest
        }
    }
}

/// Identifiers of a requester's own requests, newest first.
pub open spec fn own_ids(rows: Seq<DownloadRequest>, requester_id: u128) -> Seq<u128>
    decreases rows.len(),
{
    if rows.len() == 0 {
        Seq::empty()
    } else {
        let rest = own_ids(rows.drop_last(), requester_id);
        if rows.last().requester_id == requester_id {
            seq![rows.last().id] + rest
        } else {
            rest
        }
    }
}

impl Ledger {
    /// The requests awaiting `viewer`'s decision: every pending request for an admin, the
    /// pending requests on the viewer's documents otherwise; oldest first.
    pub fn list_pending(&self, viewer: &Principal) -> (r: Vec<u128>)
        ensures
            r@ == pending_ids_for(self.rows@, *viewer),
    {
        let mut out: Vec<u128> = Vec::new();
        let mut i: usize = 0;
        while i < self.rows.len()
            invariant
                i <= self.rows@.len(),
                out@ == pending_ids_for(self.rows@.take(i as int), *viewer),
            decreases self.rows@.len() - i,
        {
            let r = &self.rows[i];
            assert(self.rows@.take(i as int + 1).drop_last() == self.rows@.take(i as int));
            if awaits_viewer(r, viewer) {
                out.push(r.id);
            }
            i = i + 1;
        }
        assert(self.rows@.take(i as int) == self.rows@);
        out
    }

    /// The requests made by `requester_id`, newest first.
    pub fn list_mine(&self, requester_id: u128) -> (r: Vec<u128>)
        ensures
            r@ == own_ids(self.rows@, requester_id),
    {
        let mut out: Vec<u128> = Vec::new();
        let mut i: usize = 0;
        while i < self.rows.len()
            invariant
                i <= self.rows@.len(),
                out@ == own_ids(self.rows@.take(i as int), requester_id),
            decreases self.rows@.len() - i,
        {
            let r = &self.rows[i];
            assert(self.rows@.take(i as int + 1).drop_last() == self.rows@.take(i as int));
            if r.requester_id == requester_id {
                out.insert(0, r.id);
                assert(out@ =~= seq![r.id] + own_ids(self.rows@.take(i as int), requester_id));
            }
            i = i + 1;
        }
        assert(self.rows@.take(i as int) == self.rows@);
        out
    }
}

/// In a well-formed ledger at most one request is pending for a given
/// document and requester: any two such rows are the same row.
pub proof fn lemma_one_pending_per_pair(l: &Ledger, doc_id: u128, requester_id: u128, i: int, j: int)
    requires
        l.wf(),
        0 <= i < l.rows@.len(),
        0 <= j < l.rows@.len(),
        pending_for(l.rows@[i], doc_id, requester_id),
        pending_for(l.rows@[j], doc_id, requester_id),
    ensures
        i == j,
{
}

/// Once a request has been approved, nobody can decide it again: a reject
/// (or a second approve) that follows fails, and the request stays approved.
pub proof fn lemma_approved_request_is_final(
    l: &Ledger,
    next: &Ledger,
    id: u128,
    approver: Principal,
    now: i64,
    expires_at: i64,
    other: Principal,
)
    requires
        l.wf(),
        l.decidable(id, approver),
        next.rows@ == l.rows@.update(
            l.index_of(id),
            approved(l.rows@[l.index_of(id)], approver.id, now, expires_at),
        ),
    ensures
        next.has_id(id),
        next.index_of(id) == l.index_of(id),
        next.rows@[next.index_of(id)].status == RequestStatus::Approved,
        !next.decidable(id, other),
{
    let k = l.index_of(id);
    assert(next.rows@[k].id == id);
    let m = next.index_of(id);
    if m != k {
        assert(l.rows@[m].id == next.rows@[m].id);
        assert(l.rows@[k].id == id);
    }
}

} // verus!
