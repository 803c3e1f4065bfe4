use vstd::prelude::*;

use crate::model::{Document, Permission, Principal, Role};

verus! {

/// A user may see the document's metadata and apply for its download.
pub open spec fn accessible(doc: &Document, user: Principal) -> bool {
    ||| user.role == Role::Admin
    ||| doc.owner_id == user.id
    ||| doc.permission == Permission::Public
    ||| (doc.permission == Permission::Specific && doc.allowed_users@.contains(user.id))
}

/// A user may change or delete the document.
pub open spec fn editable(doc: &Document, user: Principal) -> bool {
    user.role == Role::Admin || doc.owner_id == user.id
}

pub fn is_admin(user: &Principal) -> (r: bool)
    ensures
        r == (user.role == Role::Admin),
{
    user.role == Role::Admin
}

fn contains_id(ids: &Vec<u128>, id: u128) -> (r: bool)
    ensures
        r == ids@.contains(id),
{
    let mut i: usize = 0;
    while i < ids.len()
        invariant
            i <= ids@.len(),
            forall|k: int| 0 <= k < i ==> ids@[k] != id,
        decreases ids@.len() - i,
    {
        if ids[i] == id {
            return true;
        }
        i = i + 1;
    }
    false
}

pub fn doc_accessible(doc: &Document, user: &Principal) -> (r: bool)
    ensures
        r == accessible(doc, *user),
{
    if user.role == Role::Admin {
        return true;
    }
    if doc.owner_id == user.id {
        return true;
    }
    if doc.permission == Permission::Public {
        return true;
    }
    doc.permission == Permission::Specific && contains_id(&doc.allowed_users, user.id)
}

pub fn doc_editable(doc: &Document, user: &Principal) -> (r: bool)
    ensures
        r == editable(doc, *user),
{
    user.role == Role::Admin || doc.owner_id == user.id
}

/// Raising a user's role to admin never takes away access to a document.
pub proof fn lemma_accessible_monotone_in_role(doc: &Document, user: Principal)
    requires
        accessible(doc, user),
    ensures
        accessible(doc, Principal { role: Role::Admin, ..user }),
{
}

} // verus!
