use vstd::prelude::*;

use crate::model::{Principal, Role, UserStatus};
use crate::text::same_text;
use crate::users::{UserError, UserRecord};

verus! {

/// The identity store: every account, in creation order.
pub struct Directory {
    pub users: Vec<UserRecord>,
}

pub open spec fn same_email(a: Option<String>, b: Option<String>) -> bool {
    a.is_some() && b.is_some() && a.unwrap()@ == b.unwrap()@
}

/// The account answers to this login identifier, by email or by username.
pub open spec fn answers_to(u: UserRecord, identifier: Seq<char>) -> bool {
    u.username@ == identifier || (u.email.is_some() && u.email.unwrap()@ == identifier)
}

impl Directory {
    /// Every account is well formed; identifiers and usernames are unique,
    /// and so are emails where present.
    pub open spec fn wf(&self) -> bool {
        &&& forall|i: int| 0 <= i < self.users@.len() ==> (#[trigger] self.users@[i]).wf()
        &&& forall|i: int, j: int|
            0 <= i < self.users@.len() && 0 <= j < self.users@.len() && i != j ==> {
                &&& (#[trigger] self.users@[i]).id != (#[trigger] self.users@[j]).id
                &&& self.users@[i].username@ != self.users@[j].username@
                &&& !same_email(self.users@[i].email, self.users@[j].email)
            }
    }

    pub open spec fn has_username(&self, name: Seq<char>) -> bool {
        exists|i: int| 0 <= i < self.users@.len() && (#[trigger] self.users@[i]).username@ == name
    }

    pub open spec fn has_email(&self, email: Option<String>) -> bool {
        exists|i: int| 0 <= i < self.users@.len() && same_email((#[trigger] self.users@[i]).email, email)
    }

    pub open spec fn has_id(&self, id: u128) -> bool {
        exists|i: int| 0 <= i < self.users@.len() && (#[trigger] self.users@[i]).id == id
    }

    pub fn new() -> (r: Directory)
        ensures
            r.wf(),
            r.users@.len() == 0,
    {
        Directory { users: Vec::new() }
    }

    fn username_taken(&self, name: &String) -> (r: bool)
        ensures
            r == self.has_username(name@),
    {
        let mut i: usize = 0;
        while i < self.users.len()
            invariant
                i <= self.users@.len(),
                forall|k: int| 0 <= k < i ==> (#[trigger] self.users@[k]).username@ != name@,
            decreases self.users@.len() - i,
        {
            if self.users[i].username == *name {
                return true;
            }
            i = i + 1;
        }
        false
    }

    fn email_taken(&self, email: &Option<String>) -> (r: bool)
        ensures
            r == self.has_email(*email),
    {
        let e = match email {
            None => {
                return false;
            },
            Some(e) => e,
        };
        let mut i: usize = 0;
        while i < self.users.len()
            invariant
                email.is_some() && email.unwrap() == *e,
                i <= self.users@.len(),
                forall|k: int| 0 <= k < i ==> !same_email((#[trigger] self.users@[k]).email, *email),
            decreases self.users@.len() - i,
        {
            match &self.users[i].email {
                Some(x) => {
                    if *x == *e {
                        assert(same_email(self.users@[i as int].email, *email));
                        return true;
                    }
                },
                None => {},
            }
            i = i + 1;
        }
        false
    }

    /// Position of the account with this identifier, if any.
    pub fn position(&self, id: u128) -> (r: Option<usize>)
        ensures
            r.is_none() == !self.has_id(id),
            r.is_some() ==> r.unwrap() < self.users@.len() && self.users@[r.unwrap() as int].id == id,
    {
        let mut i: usize = 0;
        while i < self.users.len()
            invariant
                i <= self.users@.len(),
                forall|k: int| 0 <= k < i ==> (#[trigger] self.users@[k]).id != id,
            decreases self.users@.len() - i,
        {
            if self.users[i].id == id {
                return Some(i);
            }
            i = i + 1;
        }
        None
    }

    /// Adds an account. Refused when its username, its email or its
    /// identifier is already taken, checked in that order.
    pub fn insert(&mut self, u: UserRecord) -> (r: Result<(), UserError>)
        requires
            old(self).wf(),
            u.wf(),
        ensures
            final(self).wf(),
            old(self).has_username(u.username@) ==> r == Err::<(), UserError>(UserError::UsernameTaken),
            !old(self).has_username(u.username@) && old(self).has_email(u.email) ==> r == Err::<
                (),
                UserError,
            >(UserError::EmailTaken),
            !old(self).has_username(u.username@) && !old(self).has_email(u.email) && old(
                self,
            ).has_id(u.id) ==> r == Err::<(), UserError>(UserError::IdTaken),
            r.is_err() ==> final(self).users@ == old(self).users@,
            r.is_ok() == (!old(self).has_username(u.username@) && !old(self).has_email(u.email)
                && !old(self).has_id(u.id)),
            r.is_ok() ==> final(self).users@ == old(self).users@.push(u),
    {
        if self.username_taken(&u.username) {
            return Err(UserError::UsernameTaken);
        }
        if self.email_taken(&u.email) {
            return Err(UserError::EmailTaken);
        }
        if self.position(u.id).is_some() {
            return Err(UserError::IdTaken);
        }
        let ghost before = self.users@;
        let ghost added = u;
        self.users.push(u);
        proof {
            let n = before.len() as int;
            assert forall|i: int, j: int|
                0 <= i < self.users@.len() && 0 <= j < self.users@.len() && i != j implies {
                &&& (#[trigger] self.users@[i]).id != (#[trigger] self.users@[j]).id
                &&& self.users@[i].username@ != self.users@[j].username@
                &&& !same_email(self.users@[i].email, self.users@[j].email)
            } by {
                if i == n {
                    assert(self.users@[j] == before[j]);
                } else if j == n {
                    assert(self.users@[i] == before[i]);
                }
            }
        }
        Ok(())
    }

    /// Position of the first account that answers to a login identifier.
    pub fn find_login(&self, identifier: &str) -> (r: Option<usize>)
        ensures
            match r {
                Some(i) => i < self.users@.len() && answers_to(self.users@[i as int], identifier@)
                    && forall|k: int| 0 <= k < i ==> !answers_to(#[trigger] self.users@[k], identifier@),
                None => forall|k: int|
                    0 <= k < self.users@.len() ==> !answers_to(#[trigger] self.users@[k], identifier@),
            },
    {
        let mut i: usize = 0;
        while i < self.users.len()
            invariant
                i <= self.users@.len(),
                forall|k: int| 0 <= k < i ==> !answers_to(#[trigger] self.users@[k], identifier@),
            decreases self.users@.len() - i,
        {
            let u = &self.users[i];
            let by_email = match &u.email {
                Some(e) => same_text(e.as_str(), identifier),
                None => false,
            };
            if same_text(u.username.as_str(), identifier) || by_email {
                return Some(i);
            }
            i = i + 1;
        }
        None
    }

    /// Sets the status of the account with this identifier: admins only, and
    /// only accounts with role `user` (others read as absent).
    pub fn set_status(&mut self, caller: &Principal, id: u128, status: UserStatus) -> (r: Result<
        (),
        UserError,
    >)
        requires
            old(self).wf(),
        ensures
            final(self).wf(),
            caller.role != Role::Admin ==> r == Err::<(), UserError>(UserError::Forbidden),
            caller.role == Role::Admin && (forall|i: int|
                0 <= i < old(self).users@.len() && (#[trigger] old(self).users@[i]).id == id
                    ==> old(self).users@[i].role != Role::User) ==> r == Err::<(), UserError>(
                UserError::NotFound,
            ),
            r.is_err() ==> final(self).users@ == old(self).users@,
            r.is_err() ==> r == Err::<(), UserError>(UserError::Forbidden) || r == Err::<(), UserError>(
                UserError::NotFound,
            ),
            r.is_ok() ==> caller.role == Role::Admin && exists|i: int|
                0 <= i < old(self).users@.len() && old(self).users@[i].id == id && old(
                    self,
                ).users@[i].role == Role::User && final(self).users@ == old(self).users@.update(
                    i,
                    UserRecord { status, ..old(self).users@[i] },
                ),
            caller.role == Role::Admin && (exists|i: int|
                0 <= i < old(self).users@.len() && (#[trigger] old(self).users@[i]).id == id
                    && old(self).users@[i].role == Role::User) ==> r.is_ok(),
    {
        if caller.role != Role::Admin {
            return Err(UserError::Forbidden);
        }
        let i = match self.position(id) {
            None => {
                return Err(UserError::NotFound);
            },
            Some(i) => i,
        };
        proof {
            assert forall|k: int|
                0 <= k < self.users@.len() && (#[trigger] self.users@[k]).id == id implies k
                == i as int by {
                if k != i as int {
                    assert(self.users@[k].id != self.users@[i as int].id);
                }
            }
        }
        if self.users[i].role != Role::User {
            return Err(UserError::NotFound);
        }
        let ghost before = self.users@;
        let mut u = self.users.remove(i);
        u.status = status;
        self.users.insert(i, u);
        proof {
            assert(self.users@ =~= before.update(i as int, UserRecord { status, ..before[i as int] }));
            assert forall|a: int, b: int|
                0 <= a < self.users@.len() && 0 <= b < self.users@.len() && a != b implies {
                &&& (#[trigger] self.users@[a]).id != (#[trigger] self.users@[b]).id
                &&& self.users@[a].username@ != self.users@[b].username@
                &&& !same_email(self.users@[a].email, self.users@[b].email)
            } by {
                assert(before[a].id != before[b].id);
            }
            assert forall|a: int| 0 <= a < self.users@.len() implies (#[trigger] self.users@[a]).wf() by {
                assert(before[a].wf());
            }
        }
        Ok(())
    }

    /// Removes the account with this identifier: admins only.
    pub fn remove(&mut self, caller: &Principal, id: u128) -> (r: Result<UserRecord, UserError>)
        requires
            old(self).wf(),
        ensures
            final(self).wf(),
            caller.role != Role::Admin ==> r == Err::<UserRecord, UserError>(UserError::Forbidden),
            caller.role == Role::Admin && !old(self).has_id(id) ==> r == Err::<UserRecord, UserError>(
                UserError::NotFound,
            ),
            r.is_err() ==> final(self).users@ == old(self).users@,
            caller.role == Role::Admin && old(self).has_id(id) ==> r.is_ok(),
            r.is_ok() ==> r.unwrap().id == id && !final(self).has_id(id) && exists|i: int|
                0 <= i < old(self).users@.len() && final(self).users@ == old(self).users@.remove(i),
    {
        if caller.role != Role::Admin {
            return Err(UserError::Forbidden);
        }
        let i = match self.position(id) {
            None => {
                return Err(UserError::NotFound);
            },
            Some(i) => i,
        };
        let ghost before = self.users@;
        let u = self.users.remove(i);
        proof {
            assert forall|k: int| 0 <= k < self.users@.len() implies (#[trigger] self.users@[k]).id != id by {
                if k < i {
                    assert(before[k].id != before[i as int].id);
                } else {
                    assert(self.users@[k] == before[k + 1]);
                    assert(before[k + 1].id != before[i as int].id);
                }
            }
            assert forall|a: int| 0 <= a < self.users@.len() implies (#[trigger] self.users@[a]).wf() by {
                if a < i {
                    assert(before[a].wf());
                } else {
                    assert(before[a + 1].wf());
                }
            }
            assert forall|a: int, b: int|
                0 <= a < self.users@.len() && 0 <= b < self.users@.len() && a != b implies {
                &&& (#[trigger] self.users@[a]).id != (#[trigger] self.users@[b]).id
                &&& self.users@[a].username@ != self.users@[b].username@
                &&& !same_email(self.users@[a].email, self.users@[b].email)
            } by {
                let a2 = if a < i { a } else { a + 1 };
                let b2 = if b < i { b } else { b + 1 };
                assert(self.users@[a] == before[a2]);
                assert(self.users@[b] == before[b2]);
                assert(before[a2].id != before[b2].id);
            }
        }
        Ok(u)
    }
}

} // verus!
