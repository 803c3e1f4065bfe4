use vstd::prelude::*;

use crate::kernel::{accessible, doc_accessible};
use crate::model::{Document, Principal, RequestStatus, Role};
use crate::text::{trim_text, trimmed};

verus! {

/// Length of one hour in seconds.
pub const SECONDS_PER_HOUR: i64 = 3600;

/// Approval lifetime, in hours, when none is configured.
pub const DEFAULT_APPROVAL_TTL_HOURS: i64 = 24;

/// One application to download a document. Times are seconds since the Unix epoch.
#[derive(Debug)]
pub struct DownloadRequest {
    pub id: u128,
    pub document_id: u128,
    pub requester_id: u128,
    /// Owner of the referenced document; owners never change.
    pub owner_id: u128,
    pub applicant_name: String,
    pub applicant_company: String,
    pub applicant_contact: String,
    pub message: String,
    pub status: RequestStatus,
    pub approver_id: Option<u128>,
    pub created_at: i64,
    pub updated_at: i64,
    pub approved_at: Option<i64>,
    pub rejected_at: Option<i64>,
    pub expires_at: Option<i64>,
}

impl DownloadRequest {
    /// Decision fields match the status: approval time, expiry and approver
    /// exactly when approved; rejection time and approver exactly when rejected.
    pub open spec fn wf(&self) -> bool {
        &&& (self.approved_at.is_some() <==> self.status == RequestStatus::Approved)
        &&& (self.rejected_at.is_some() <==> self.status == RequestStatus::Rejected)
        &&& (self.expires_at.is_some() <==> self.status == RequestStatus::Approved)
        &&& (self.approver_id.is_some() <==> self.status != RequestStatus::Pending)
    }
}

/// In a well-formed request exactly one decision time is set when it is
/// decided, none while pending, and an expiry exactly when approved.
pub proof fn lemma_decision_times(r: DownloadRequest)
    requires
        r.wf(),
    ensures
        (r.approved_at.is_some() != r.rejected_at.is_some()) <==> r.status != RequestStatus::Pending,
        r.status == RequestStatus::Pending ==> r.approved_at.is_none() && r.rejected_at.is_none(),
        r.expires_at.is_some() <==> r.status == RequestStatus::Approved,
{
}

/// What the requester discloses when applying.
pub struct RequestForm {
    pub applicant_name: String,
    pub applicant_company: String,
    pub applicant_contact: String,
    pub message: Option<String>,
}

/// Why a release operation was refused.
#[derive(Clone, Copy, Debug, PartialEq, Eq, Structural)]
pub enum ReleaseError {
    /// An applicant field is empty once trimmed.
    MissingFields,
    NotFound,
    Forbidden,
    /// Admins and owners download without asking.
    NoNeedToRequest,
    /// The owner lets every user with access download.
    DownloadPreauthorized,
    /// A pending request for this document and requester exists.
    Conflict,
    /// The new request's identifier is taken.
    DuplicateId,
    /// The grant's expiry time is out of range.
    ExpiryOutOfRange,
}

impl ReleaseError {
    pub open spec fn status_spec(&self) -> u16 {
        match self {
            ReleaseError::MissingFields => 400,
            ReleaseError::NoNeedToRequest => 400,
            ReleaseError::DownloadPreauthorized => 400,
            ReleaseError::Forbidden => 403,
            ReleaseError::NotFound => 404,
            ReleaseError::Conflict => 409,
            ReleaseError::DuplicateId => 500,
            ReleaseError::ExpiryOutOfRange => 500,
        }
    }

    /// The HTTP status that reports this refusal.
    pub fn http_status(&self) -> (r: u16)
        ensures
            r == self.status_spec(),
    {
        match self {
            ReleaseError::MissingFields => 400,
            ReleaseError::NoNeedToRequest => 400,
            ReleaseError::DownloadPreauthorized => 400,
            ReleaseError::Forbidden => 403,
            ReleaseError::NotFound => 404,
            ReleaseError::Conflict => 409,
            ReleaseError::DuplicateId => 500,
            ReleaseError::ExpiryOutOfRange => 500,
        }
    }
}

/// The refusal that a new application meets before the ledger is consulted,
/// if any, in the order the checks are made.
pub open spec fn application_refusal(
    doc: Option<&Document>,
    requester: Principal,
    form: &RequestForm,
) -> Option<ReleaseError> {
    if trimmed(form.applicant_name@).len() == 0 || trimmed(form.applicant_company@).len() == 0
        || trimmed(form.applicant_contact@).len() == 0 {
        Some(ReleaseError::MissingFields)
    } else if doc.is_none() {
        Some(ReleaseError::NotFound)
    } else if !accessible(doc.unwrap(), requester) {
        Some(ReleaseError::Forbidden)
    } else if requester.role == Role::Admin || doc.unwrap().owner_id == requester.id {
        Some(ReleaseError::NoNeedToRequest)
    } else if doc.unwrap().download_preauthorized {
        Some(ReleaseError::DownloadPreauthorized)
    } else {
        None
    }
}

/// A new pending request as `create` records it.
pub open spec fn is_new_request(
    r: DownloadRequest,
    doc: &Document,
    requester: Principal,
    form: &RequestForm,
    id: u128,
    now: i64,
) -> bool {
    &&& r.id == id
    &&& r.document_id == doc.id
    &&& r.requester_id == requester.id
    &&& r.owner_id == doc.owner_id
    &&& r.applicant_name@ == trimmed(form.applicant_name@)
    &&& r.applicant_company@ == trimmed(form.applicant_company@)
    &&& r.applicant_contact@ == trimmed(form.applicant_contact@)
    &&& r.message@ == match form.message {
        Some(m) => m@,
        None => Seq::<char>::empty(),
    }
    &&& r.status == RequestStatus::Pending
    &&& r.approver_id.is_none()
    &&& r.created_at == now
    &&& r.updated_at == now
    &&& r.approved_at.is_none()
    &&& r.rejected_at.is_none()
    &&& r.expires_at.is_none()
}

/// The refusal met by an application whose fields are already trimmed.
pub open spec fn trimmed_refusal(
    doc: Option<&Document>,
    requester: Principal,
    name: Seq<char>,
    company: Seq<char>,
    contact: Seq<char>,
) -> Option<ReleaseError> {
    if name.len() == 0 || company.len() == 0 || contact.len() == 0 {
        Some(ReleaseError::MissingFields)
    } else if doc.is_none() {
        Some(ReleaseError::NotFound)
    } else if !accessible(doc.unwrap(), requester) {
        Some(ReleaseError::Forbidden)
    } else if requester.role == Role::Admin || doc.unwrap().owner_id == requester.id {
        Some(ReleaseError::NoNeedToRequest)
    } else if doc.unwrap().download_preauthorized {
        Some(ReleaseError::DownloadPreauthorized)
    } else {
        None
    }
}

/// Checks an application whose applicant fields are already trimmed and
/// builds its pending request.
pub fn application_from_trimmed(
    doc: Option<&Document>,
    requester: &Principal,
    name: String,
    company: String,
    contact: String,
    message: Option<String>,
    id: u128,
    now: i64,
) -> (r: Result<DownloadRequest, ReleaseError>)
    ensures
        match trimmed_refusal(doc, *requester, name@, company@, contact@) {
            Some(e) => r == Err::<DownloadRequest, ReleaseError>(e),
            None => {
                let q = r.unwrap();
                &&& r.is_ok()
                &&& q.id == id
                &&& q.document_id == doc.unwrap().id
                &&& q.requester_id == requester.id
                &&& q.owner_id == doc.unwrap().owner_id
                &&& q.applicant_name == name
                &&& q.applicant_company == company
                &&& q.applicant_contact == contact
                &&& q.message@ == match message {
                    Some(m) => m@,
                    None => Seq::<char>::empty(),
                }
                &&& q.status == RequestStatus::Pending
                &&& q.approver_id.is_none()
                &&& q.created_at == now
                &&& q.updated_at == now
                &&& q.approved_at.is_none()
                &&& q.rejected_at.is_none()
                &&& q.expires_at.is_none()
            },
        },
        r.is_ok() ==> r.unwrap().wf(),
{
    if name.unicode_len() == 0 || company.unicode_len() == 0 || contact.unicode_len() == 0 {
        return Err(ReleaseError::MissingFields);
    }
    let d = match doc {
        None => {
            return Err(ReleaseError::NotFound);
        },
        Some(d) => d,
    };
    if !doc_accessible(d, requester) {
        return Err(ReleaseError::Forbidden);
    }
    if requester.role == Role::Admin || d.owner_id == requester.id {
        return Err(ReleaseError::NoNeedToRequest);
    }
    if d.download_preauthorized {
        return Err(ReleaseError::DownloadPreauthorized);
    }
    let message = match message {
        Some(m) => m,
        None => String::new(),
    };
    Ok(
        DownloadRequest {
            id,
            document_id: d.id,
            requester_id: requester.id,
            owner_id: d.owner_id,
            applicant_name: name,
            applicant_company: company,
            applicant_contact: contact,
            message,
            status: RequestStatus::Pending,
            approver_id: None,
            created_at: now,
            updated_at: now,
            approved_at: None,
            rejected_at: None,
            expires_at: None,
        },
    )
}

/// Checks an application and builds its pending request, which the caller
/// then records (the store enforces one pending request per document and
/// requester).
pub fn check_application(
    doc: Option<&Document>,
    requester: &Principal,
    form: &RequestForm,
    id: u128,
    now: i64,
) -> (r: Result<DownloadRequest, ReleaseError>)
    ensures
        match application_refusal(doc, *requester, form) {
            Some(e) => r == Err::<DownloadRequest, ReleaseError>(e),
            None => r.is_ok() && is_new_request(r.unwrap(), doc.unwrap(), *requester, form, id, now),
        },
        r.is_ok() ==> r.unwrap().wf(),
{
    let name = trim_text(form.applicant_name.as_str());
    let company = trim_text(form.applicant_company.as_str());
    let contact = trim_text(form.applicant_contact.as_str());
    let message = match &form.message {
        Some(m) => Some(m.clone()),
        None => None,
    };
    application_from_trimmed(doc, requester, name, company, contact, message, id, now)
}

/// The approver may decide the request: it is pending, and the approver is
/// an admin or owns the document.
pub open spec fn may_decide(r: DownloadRequest, approver: Principal) -> bool {
    r.status == RequestStatus::Pending && (approver.role == Role::Admin || r.owner_id
        == approver.id)
}

pub open spec fn approved(r: DownloadRequest, approver: u128, now: i64, expires_at: i64) -> DownloadRequest {
    DownloadRequest {
        status: RequestStatus::Approved,
        approver_id: Some(approver),
        approved_at: Some(now),
        updated_at: now,
        expires_at: Some(expires_at),
        ..r
    }
}

pub open spec fn rejected(r: DownloadRequest, approver: u128, now: i64) -> DownloadRequest {
    DownloadRequest {
        status: RequestStatus::Rejected,
        approver_id: Some(approver),
        rejected_at: Some(now),
        updated_at: now,
        ..r
    }
}

/// Approves one request: pending to approved, with the approver, the time,
/// and an expiry `now` plus the configured lifetime (at least one hour).
/// Refused with `ExpiryOutOfRange` when that time does not fit, and with
/// `NotFound` when the approver may not decide the request (already
/// decided, or not the approver's document).
pub fn approve_request(
    req: &mut DownloadRequest,
    approver: &Principal,
    now: i64,
    configured_ttl: Option<i64>,
) -> (r: Result<(), ReleaseError>)
    ensures
        grant_expiry(now, configured_ttl).is_none() ==> r == Err::<(), ReleaseError>(
            ReleaseError::ExpiryOutOfRange,
        ),
        grant_expiry(now, configured_ttl).is_some() && !may_decide(*old(req), *approver) ==> r
            == Err::<(), ReleaseError>(ReleaseError::NotFound),
        r.is_ok() == (grant_expiry(now, configured_ttl).is_some() && may_decide(*old(req), *approver)),
        r.is_ok() ==> *final(req) == approved(
            *old(req),
            approver.id,
            now,
            grant_expiry(now, configured_ttl).unwrap(),
        ),
        r.is_ok() ==> final(req).expires_at == Some(
            (now + ttl_hours_spec(configured_ttl) * SECONDS_PER_HOUR) as i64,
        ),
        r.is_err() ==> *final(req) == *old(req),
        old(req).wf() ==> final(req).wf(),
{
    let expires_at = match approval_expiry(now, effective_ttl_hours(configured_ttl)) {
        None => {
            return Err(ReleaseError::ExpiryOutOfRange);
        },
        Some(t) => t,
    };
    if req.status != RequestStatus::Pending || !(approver.role == Role::Admin || req.owner_id
        == approver.id) {
        return Err(ReleaseError::NotFound);
    }
    req.status = RequestStatus::Approved;
    req.approver_id = Some(approver.id);
    req.approved_at = Some(now);
    req.updated_at = now;
    req.expires_at = Some(expires_at);
    Ok(())
}

/// Rejects one request: pending to rejected, with the approver and the time.
/// Refused with `NotFound` as `approve_request` is.
pub fn reject_request(req: &mut DownloadRequest, approver: &Principal, now: i64) -> (r: Result<
    (),
    ReleaseError,
>)
    ensures
        r.is_ok() == may_decide(*old(req), *approver),
        r.is_ok() ==> *final(req) == rejected(*old(req), approver.id, now),
        r.is_err() ==> *final(req) == *old(req) && r == Err::<(), ReleaseError>(ReleaseError::NotFound),
        old(req).wf() ==> final(req).wf(),
{
    if req.status != RequestStatus::Pending || !(approver.role == Role::Admin || req.owner_id
        == approver.id) {
        return Err(ReleaseError::NotFound);
    }
    req.status = RequestStatus::Rejected;
    req.approver_id = Some(approver.id);
    req.rejected_at = Some(now);
    req.updated_at = now;
    Ok(())
}

/// The lifetime of a grant in hours: the configured value, or the default,
/// and never under one hour.
pub open spec fn ttl_hours_spec(configured: Option<i64>) -> i64 {
    let h = match configured {
        Some(h) => h,
        None => DEFAULT_APPROVAL_TTL_HOURS,
    };
    if h < 1 {
        1
    } else {
        h
    }
}

pub fn effective_ttl_hours(configured: Option<i64>) -> (r: i64)
    ensures
        r == ttl_hours_spec(configured),
        r >= 1,
{
    let h = match configured {
        Some(h) => h,
        None => DEFAULT_APPROVAL_TTL_HOURS,
    };
    if h < 1 {
        1
    } else {
        h
    }
}

/// When a grant made at `now` with a lifetime of `ttl_hours` lapses: `now`
/// plus at least one hour, `None` when that time is out of range.
pub open spec fn expiry_spec(now: i64, ttl_hours: i64) -> Option<i64> {
    let h = if ttl_hours < 1 {
        1
    } else {
        ttl_hours
    };
    let secs = h * SECONDS_PER_HOUR;
    let t = now + secs;
    if secs <= i64::MAX && i64::MIN <= t <= i64::MAX {
        Some(t as i64)
    } else {
        None
    }
}

/// When a grant made at `now` lapses under the configured lifetime.
pub open spec fn grant_expiry(now: i64, configured_ttl: Option<i64>) -> Option<i64> {
    expiry_spec(now, ttl_hours_spec(configured_ttl))
}

/// When a grant made at `now` lapses: `now` plus the lifetime in hours,
/// `None` when that time is out of range.
pub fn approval_expiry(now: i64, ttl_hours: i64) -> (r: Option<i64>)
    ensures
        r == expiry_spec(now, ttl_hours),
{
    let h: i64 = if ttl_hours < 1 {
        1
    } else {
        ttl_hours
    };
    match h.checked_mul(SECONDS_PER_HOUR) {
        None => {
            assert(h * SECONDS_PER_HOUR > i64::MAX) by (nonlinear_arith)
                requires
                    h >= 1,
                    !(i64::MIN <= h * SECONDS_PER_HOUR <= i64::MAX),
            ;
            None
        },
        Some(secs) => now.checked_add(secs),
    }
}

/// The grant is in force at `now`: approved, and not yet expired.
pub open spec fn grant_in_force(r: DownloadRequest, doc_id: u128, user_id: u128, now: i64) -> bool {
    &&& r.document_id == doc_id
    &&& r.requester_id == user_id
    &&& r.status == RequestStatus::Approved
    &&& (r.expires_at.is_none() || r.expires_at.unwrap() > now)
}

pub open spec fn has_grant(rows: Seq<DownloadRequest>, doc_id: u128, user_id: u128, now: i64) -> bool {
    exists|i: int| 0 <= i < rows.len() && grant_in_force(#[trigger] rows[i], doc_id, user_id, now)
}

/// Whether some request grants this user the document at `now`.
pub fn has_active_grant(rows: &Vec<DownloadRequest>, doc_id: u128, user_id: u128, now: i64) -> (r:
    bool)
    ensures
        r == has_grant(rows@, doc_id, user_id, now),
{
    let mut i: usize = 0;
    while i < rows.len()
        invariant
            i <= rows@.len(),
            forall|k: int| 0 <= k < i ==> !grant_in_force(#[trigger] rows@[k], doc_id, user_id, now),
        decreases rows@.len() - i,
    {
        let r = &rows[i];
        if r.document_id == doc_id && r.requester_id == user_id && r.status
            == RequestStatus::Approved && (r.expires_at.is_none() || r.expires_at.unwrap() > now) {
            assert(grant_in_force(rows@[i as int], doc_id, user_id, now));
            return true;
        }
        i = i + 1;
    }
    false
}

/// Outcome of the download gate.
#[derive(Clone, Copy, Debug, PartialEq, Eq, Structural)]
pub enum DownloadDecision {
    Allowed,
    Forbidden,
    ApprovalRequired,
}

pub open spec fn download_decision(
    doc: &Document,
    user: Principal,
    rows: Seq<DownloadRequest>,
    now: i64,
) -> DownloadDecision {
    if !accessible(doc, user) {
        DownloadDecision::Forbidden
    } else if user.role == Role::Admin || doc.owner_id == user.id || doc.download_preauthorized {
        DownloadDecision::Allowed
    } else if has_grant(rows, doc.id, user.id, now) {
        DownloadDecision::Allowed
    } else {
        DownloadDecision::ApprovalRequired
    }
}

/// The download gate: access first, then admin, owner or preauthorization,
/// then a grant in force among `rows`.
pub fn may_download(doc: &Document, user: &Principal, rows: &Vec<DownloadRequest>, now: i64) -> (r:
    DownloadDecision)
    ensures
        r == download_decision(doc, *user, rows@, now),
{
    if !doc_accessible(doc, user) {
        return DownloadDecision::Forbidden;
    }
    if user.role == Role::Admin || doc.owner_id == user.id || doc.download_preauthorized {
        return DownloadDecision::Allowed;
    }
    if has_active_grant(rows, doc.id, user.id, now) {
        DownloadDecision::Allowed
    } else {
        DownloadDecision::ApprovalRequired
    }
}

} // verus!
