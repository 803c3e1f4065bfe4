use vstd::prelude::*;

verus! {

/// Role of a user account.
#[derive(Clone, Copy, Debug, PartialEq, Eq, Structural)]
pub enum Role {
    Admin,
    User,
}

/// Lifecycle status of a user account.
#[derive(Clone, Copy, Debug, PartialEq, Eq, Structural)]
pub enum UserStatus {
    Pending,
    Active,
    Disabled,
}

/// Visibility class of a document.
#[derive(Clone, Copy, Debug, PartialEq, Eq, Structural)]
pub enum Permission {
    Public,
    Private,
    Specific,
}

/// Status of a download request.
#[derive(Clone, Copy, Debug, PartialEq, Eq, Structural)]
pub enum RequestStatus {
    Pending,
    Approved,
    Rejected,
}

/// The authenticated caller of a request: an id and the role its session carries.
#[derive(Clone, Copy, Debug, PartialEq, Eq, Structural)]
pub struct Principal {
    pub id: u128,
    pub role: Role,
}

/// A stored document. Times are seconds since the Unix epoch.
#[derive(Debug)]
pub struct Document {
    pub id: u128,
    pub name: String,
    pub mime_type: String,
    pub size: u64,
    pub notes: String,
    pub owner_id: u128,
    pub permission: Permission,
    pub allowed_users: Vec<u128>,
    pub is_generated: bool,
    pub download_preauthorized: bool,
    pub storage_rel_path: String,
    pub created_at: i64,
    pub updated_at: i64,
}

impl Document {
    /// The allowed-users list is only ever non-empty on a `Specific` document.
    pub open spec fn wf(&self) -> bool {
        self.permission != Permission::Specific ==> self.allowed_users@.len() == 0
    }
}

} // verus!
