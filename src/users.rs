use vstd::prelude::*;

use crate::model::{Principal, Role, UserStatus};
use crate::passwords::{argon2_digest, argon2_verdict, fresh_salt, hash_with_salt, verify_password};
use crate::text::{same_text, trim_text, trimmed};

verus! {

/// A stored user account. Times are seconds since the Unix epoch.
#[derive(Debug)]
pub struct UserRecord {
    pub id: u128,
    pub username: String,
    pub email: Option<String>,
    pub role: Role,
    pub status: UserStatus,
    pub note: String,
    pub password_digest: String,
    pub created_at: i64,
}

impl UserRecord {
    /// Admins are always active.
    pub open spec fn wf(&self) -> bool {
        self.role == Role::Admin ==> self.status == UserStatus::Active
    }
}

/// Why a user operation was refused.
#[derive(Clone, Copy, Debug, PartialEq, Eq, Structural)]
pub enum UserError {
    /// Username or password is blank.
    MissingFields,
    /// The role is neither `admin` nor `user`.
    InvalidRole,
    /// Only admins may do this.
    Forbidden,
    NotFound,
    InvalidCredentials,
    NotActive,
    /// The password hasher refused its input.
    HashFailed,
    /// The stored digest could not be read.
    VerifyFailed,
    /// Another account has this username.
    UsernameTaken,
    /// Another account has this email.
    EmailTaken,
    /// Another account has this identifier.
    IdTaken,
}

impl UserError {
    pub open spec fn status_spec(&self) -> u16 {
        match self {
            UserError::MissingFields => 400,
            UserError::InvalidRole => 400,
            UserError::InvalidCredentials => 401,
            UserError::Forbidden => 403,
            UserError::NotActive => 403,
            UserError::NotFound => 404,
            UserError::HashFailed => 500,
            UserError::VerifyFailed => 500,
            UserError::UsernameTaken => 409,
            UserError::EmailTaken => 409,
            UserError::IdTaken => 500,
        }
    }

    /// The HTTP status that reports this refusal.
    pub fn http_status(&self) -> (r: u16)
        ensures
            r == self.status_spec(),
    {
        match self {
            UserError::MissingFields => 400,
            UserError::InvalidRole => 400,
            UserError::InvalidCredentials => 401,
            UserError::Forbidden => 403,
            UserError::NotActive => 403,
            UserError::NotFound => 404,
            UserError::HashFailed => 500,
            UserError::VerifyFailed => 500,
            UserError::UsernameTaken => 409,
            UserError::EmailTaken => 409,
            UserError::IdTaken => 500,
        }
    }
}

pub open spec fn role_of(s: Seq<char>) -> Option<Role> {
    if s == "admin"@ {
        Some(Role::Admin)
    } else if s == "user"@ {
        Some(Role::User)
    } else {
        None
    }
}

/// The role a stored or submitted text names, if any.
pub fn parse_role(s: &str) -> (r: Option<Role>)
    ensures
        r == role_of(s@),
{
    if same_text(s, "admin") {
        Some(Role::Admin)
    } else if same_text(s, "user") {
        Some(Role::User)
    } else {
        None
    }
}

/// The role a session claim carries: admin only for the text `admin`.
pub fn role_from_claim(s: &str) -> (r: Role)
    ensures
        r == (if s@ == "admin"@ {
            Role::Admin
        } else {
            Role::User
        }),
{
    if same_text(s, "admin") {
        Role::Admin
    } else {
        Role::User
    }
}

pub open spec fn role_text(r: Role) -> Seq<char> {
    match r {
        Role::Admin => "admin"@,
        Role::User => "user"@,
    }
}

pub fn role_str(r: Role) -> (s: &'static str)
    ensures
        s@ == role_text(r),
{
    match r {
        Role::Admin => "admin",
        Role::User => "user",
    }
}

pub open spec fn user_status_of(s: Seq<char>) -> Option<UserStatus> {
    if s == "pending"@ {
        Some(UserStatus::Pending)
    } else if s == "active"@ {
        Some(UserStatus::Active)
    } else if s == "disabled"@ {
        Some(UserStatus::Disabled)
    } else {
        None
    }
}

pub fn parse_user_status(s: &str) -> (r: Option<UserStatus>)
    ensures
        r == user_status_of(s@),
{
    if same_text(s, "pending") {
        Some(UserStatus::Pending)
    } else if same_text(s, "active") {
        Some(UserStatus::Active)
    } else if same_text(s, "disabled") {
        Some(UserStatus::Disabled)
    } else {
        None
    }
}

pub open spec fn user_status_text(s: UserStatus) -> Seq<char> {
    match s {
        UserStatus::Pending => "pending"@,
        UserStatus::Active => "active"@,
        UserStatus::Disabled => "disabled"@,
    }
}

pub fn user_status_str(s: UserStatus) -> (r: &'static str)
    ensures
        r@ == user_status_text(s),
{
    match s {
        UserStatus::Pending => "pending",
        UserStatus::Active => "active",
        UserStatus::Disabled => "disabled",
    }
}

/// The digest was made by argon2 from this password, with some salt.
pub open spec fn digest_of_password(digest: Seq<char>, password: Seq<char>) -> bool {
    exists|salt: Seq<char>| argon2_digest(password, salt) == Some(digest)
}

/// Some salt makes argon2 refuse this password.
pub open spec fn hashing_can_fail(password: Seq<char>) -> bool {
    exists|salt: Seq<char>| (#[trigger] argon2_digest(password, salt)).is_none()
}

/// The account that self-registration creates once the password is hashed.
pub fn pending_user(username: String, note: Option<String>, digest: String, id: u128, now: i64) -> (r:
    UserRecord)
    ensures
        r.id == id,
        r.username == username,
        r.email.is_none(),
        r.role == Role::User,
        r.status == UserStatus::Pending,
        r.note@ == (match note {
            Some(n) => n@,
            None => Seq::<char>::empty(),
        }),
        r.password_digest == digest,
        r.created_at == now,
        r.wf(),
{
    let note = match note {
        Some(n) => n,
        None => String::new(),
    };
    UserRecord {
        id,
        username,
        email: None,
        role: Role::User,
        status: UserStatus::Pending,
        note,
        password_digest: digest,
        created_at: now,
    }
}

pub open spec fn blank_credentials(username: Seq<char>, password: Seq<char>) -> bool {
    trimmed(username).len() == 0 || trimmed(password).len() == 0
}

/// The pending account self-registration creates: trimmed username, no
/// email, the note (empty when none) and the given digest.
pub open spec fn is_registered(
    u: UserRecord,
    username: Seq<char>,
    note: Option<String>,
    digest: Seq<char>,
    id: u128,
    now: i64,
) -> bool {
    &&& u.id == id
    &&& u.username@ == trimmed(username)
    &&& u.email.is_none()
    &&& u.role == Role::User
    &&& u.status == UserStatus::Pending
    &&& u.note@ == (match note {
        Some(n) => n@,
        None => Seq::<char>::empty(),
    })
    &&& u.password_digest@ == digest
    &&& u.created_at == now
    &&& u.wf()
}

/// Self-registration with a given salt: refused when the username or the
/// password is blank, or when argon2 refuses the password with this salt.
pub fn register_with_salt(
    username: &str,
    password: &str,
    note: Option<String>,
    salt: &str,
    id: u128,
    now: i64,
) -> (r: Result<UserRecord, UserError>)
    ensures
        blank_credentials(username@, password@) ==> r == Err::<UserRecord, UserError>(
            UserError::MissingFields,
        ),
        !blank_credentials(username@, password@) ==> match argon2_digest(password@, salt@) {
            Some(d) => r.is_ok() && is_registered(r.unwrap(), username@, note, d, id, now),
            None => r == Err::<UserRecord, UserError>(UserError::HashFailed),
        },
{
    let name = trim_text(username);
    let pass = trim_text(password);
    if name.unicode_len() == 0 || pass.unicode_len() == 0 {
        return Err(UserError::MissingFields);
    }
    match hash_with_salt(password, salt) {
        None => Err(UserError::HashFailed),
        Some(digest) => Ok(pending_user(name, note, digest, id, now)),
    }
}

/// Self-registration: a pending user with the trimmed username, its
/// password hashed with a fresh random salt.
pub fn register(username: &str, password: &str, note: Option<String>, id: u128, now: i64) -> (r:
    Result<UserRecord, UserError>)
    ensures
        blank_credentials(username@, password@) <==> r == Err::<UserRecord, UserError>(
            UserError::MissingFields,
        ),
        r.is_err() ==> r == Err::<UserRecord, UserError>(UserError::MissingFields) || r == Err::<
            UserRecord,
            UserError,
        >(UserError::HashFailed),
        r == Err::<UserRecord, UserError>(UserError::HashFailed) ==> hashing_can_fail(password@),
        r.is_ok() ==> exists|salt: Seq<char>|
            #[trigger] argon2_digest(password@, salt) == Some(r.unwrap().password_digest@)
                && is_registered(r.unwrap(), username@, note, r.unwrap().password_digest@, id, now),
{
    let salt = fresh_salt();
    let r = register_with_salt(username, password, note, salt.as_str(), id, now);
    proof {
        if !blank_credentials(username@, password@) {
            if argon2_digest(password@, salt@).is_none() {
                assert(hashing_can_fail(password@));
            }
        }
    }
    r
}

/// An account created by an admin: active, with the given role and email.
pub fn created_user(
    username: String,
    email: String,
    role: Role,
    digest: String,
    id: u128,
    now: i64,
) -> (r: UserRecord)
    ensures
        r.id == id,
        r.username == username,
        r.email == Some(email),
        r.role == role,
        r.status == UserStatus::Active,
        r.note@ == Seq::<char>::empty(),
        r.password_digest == digest,
        r.created_at == now,
        r.wf(),
{
    UserRecord {
        id,
        username,
        email: Some(email),
        role,
        status: UserStatus::Active,
        note: String::new(),
        password_digest: digest,
        created_at: now,
    }
}

/// The active account an admin creates, with the given digest.
pub open spec fn is_created(
    u: UserRecord,
    username: String,
    email: String,
    role: Seq<char>,
    digest: Seq<char>,
    id: u128,
    now: i64,
) -> bool {
    &&& u.id == id
    &&& u.username == username
    &&& u.email == Some(email)
    &&& Some(u.role) == role_of(role)
    &&& u.status == UserStatus::Active
    &&& u.note@ == Seq::<char>::empty()
    &&& u.password_digest@ == digest
    &&& u.created_at == now
    &&& u.wf()
}

/// Account creation by `caller` with a given salt: admins only, the role
/// must be `admin` or `user`, and argon2 must accept the password with this salt.
pub fn admin_create_with_salt(
    caller: &Principal,
    username: String,
    email: String,
    password: &str,
    role: &str,
    salt: &str,
    id: u128,
    now: i64,
) -> (r: Result<UserRecord, UserError>)
    ensures
        caller.role != Role::Admin ==> r == Err::<UserRecord, UserError>(UserError::Forbidden),
        caller.role == Role::Admin && role_of(role@).is_none() ==> r == Err::<UserRecord, UserError>(
            UserError::InvalidRole,
        ),
        caller.role == Role::Admin && role_of(role@).is_some() ==> match argon2_digest(
            password@,
            salt@,
        ) {
            Some(d) => r.is_ok() && is_created(r.unwrap(), username, email, role@, d, id, now),
            None => r == Err::<UserRecord, UserError>(UserError::HashFailed),
        },
{
    if caller.role != Role::Admin {
        return Err(UserError::Forbidden);
    }
    let role = match parse_role(role) {
        None => {
            return Err(UserError::InvalidRole);
        },
        Some(r) => r,
    };
    match hash_with_salt(password, salt) {
        None => Err(UserError::HashFailed),
        Some(digest) => Ok(created_user(username, email, role, digest, id, now)),
    }
}

/// Account creation by `caller`, the password hashed with a fresh random salt.
pub fn admin_create_user(
    caller: &Principal,
    username: String,
    email: String,
    password: &str,
    role: &str,
    id: u128,
    now: i64,
) -> (r: Result<UserRecord, UserError>)
    ensures
        caller.role != Role::Admin ==> r == Err::<UserRecord, UserError>(UserError::Forbidden),
        caller.role == Role::Admin && role_of(role@).is_none() ==> r == Err::<UserRecord, UserError>(
            UserError::InvalidRole,
        ),
        caller.role == Role::Admin && role_of(role@).is_some() ==> (r.is_err() ==> r == Err::<
            UserRecord,
            UserError,
        >(UserError::HashFailed)),
        r == Err::<UserRecord, UserError>(UserError::HashFailed) ==> hashing_can_fail(password@),
        r.is_ok() ==> exists|salt: Seq<char>|
            #[trigger] argon2_digest(password@, salt) == Some(r.unwrap().password_digest@)
                && is_created(r.unwrap(), username, email, role@, r.unwrap().password_digest@, id, now),
{
    let salt = fresh_salt();
    let r = admin_create_with_salt(caller, username, email, password, role, salt.as_str(), id, now);
    proof {
        if caller.role == Role::Admin && role_of(role@).is_some() {
            if argon2_digest(password@, salt@).is_none() {
                assert(hashing_can_fail(password@));
            }
        }
    }
    r
}

/// Moves a user account to `status`: admins only, and only accounts with
/// role `user` (others read as absent).
fn set_user_status(caller: &Principal, target: Option<UserRecord>, status: UserStatus) -> (r:
    Result<UserRecord, UserError>)
    ensures
        caller.role != Role::Admin ==> r == Err::<UserRecord, UserError>(UserError::Forbidden),
        caller.role == Role::Admin && (target.is_none() || target.unwrap().role != Role::User)
            ==> r == Err::<UserRecord, UserError>(UserError::NotFound),
        caller.role == Role::Admin && target.is_some() && target.unwrap().role == Role::User
            ==> r == Ok::<UserRecord, UserError>(UserRecord { status, ..target.unwrap() }),
{
    if caller.role != Role::Admin {
        return Err(UserError::Forbidden);
    }
    match target {
        None => Err(UserError::NotFound),
        Some(u) => {
            if u.role != Role::User {
                Err(UserError::NotFound)
            } else {
                let mut u = u;
                u.status = status;
                Ok(u)
            }
        },
    }
}

/// Admin approval of an account: it becomes active.
pub fn approve_user(caller: &Principal, target: Option<UserRecord>) -> (r: Result<
    UserRecord,
    UserError,
>)
    ensures
        caller.role != Role::Admin ==> r == Err::<UserRecord, UserError>(UserError::Forbidden),
        caller.role == Role::Admin && (target.is_none() || target.unwrap().role != Role::User)
            ==> r == Err::<UserRecord, UserError>(UserError::NotFound),
        caller.role == Role::Admin && target.is_some() && target.unwrap().role == Role::User
            ==> r == Ok::<UserRecord, UserError>(
            UserRecord { status: UserStatus::Active, ..target.unwrap() },
        ),
        r.is_ok() ==> r.unwrap().wf(),
{
    set_user_status(caller, target, UserStatus::Active)
}

/// Admin disabling of an account: it can no longer log in.
pub fn disable_user(caller: &Principal, target: Option<UserRecord>) -> (r: Result<
    UserRecord,
    UserError,
>)
    ensures
        caller.role != Role::Admin ==> r == Err::<UserRecord, UserError>(UserError::Forbidden),
        caller.role == Role::Admin && (target.is_none() || target.unwrap().role != Role::User)
            ==> r == Err::<UserRecord, UserError>(UserError::NotFound),
        caller.role == Role::Admin && target.is_some() && target.unwrap().role == Role::User
            ==> r == Ok::<UserRecord, UserError>(
            UserRecord { status: UserStatus::Disabled, ..target.unwrap() },
        ),
        r.is_ok() ==> r.unwrap().wf(),
{
    set_user_status(caller, target, UserStatus::Disabled)
}

/// The outcome of a login, given the account found and the verdict of the
/// password check on it.
pub open spec fn login_spec(found: Option<&UserRecord>, verdict: Option<bool>) -> Result<
    Principal,
    UserError,
> {
    match found {
        None => Err(UserError::InvalidCredentials),
        Some(u) => if u.status != UserStatus::Active {
            Err(UserError::NotActive)
        } else {
            match verdict {
                Some(true) => Ok(Principal { id: u.id, role: u.role }),
                Some(false) => Err(UserError::InvalidCredentials),
                None => Err(UserError::VerifyFailed),
            }
        },
    }
}

/// Decides a login from the account found and the password verdict.
pub fn login_outcome(found: Option<&UserRecord>, verdict: Option<bool>) -> (r: Result<
    Principal,
    UserError,
>)
    ensures
        r == login_spec(found, verdict),
{
    match found {
        None => Err(UserError::InvalidCredentials),
        Some(u) => {
            if u.status != UserStatus::Active {
                Err(UserError::NotActive)
            } else {
                match verdict {
                    Some(true) => Ok(Principal { id: u.id, role: u.role }),
                    Some(false) => Err(UserError::InvalidCredentials),
                    None => Err(UserError::VerifyFailed),
                }
            }
        },
    }
}

/// Login of the account found by email or username: only active accounts,
/// and only with the right password; the session takes the stored role.
pub fn login(found: Option<&UserRecord>, password: &str) -> (r: Result<Principal, UserError>)
    ensures
        r == login_spec(
            found,
            match found {
                Some(u) => argon2_verdict(password@, u.password_digest@),
                None => None,
            },
        ),
{
    match found {
        None => login_outcome(None, None),
        Some(u) => {
            if u.status != UserStatus::Active {
                login_outcome(found, None)
            } else {
                let verdict = verify_password(password, u.password_digest.as_str());
                login_outcome(found, verdict)
            }
        },
    }
}

/// The account that start-up recovery leaves: the existing one (matched by
/// email or username) made an active admin with the configured name, email
/// and digest, or a new one.
pub fn bootstrap_record(
    existing: Option<UserRecord>,
    username: String,
    email: String,
    digest: String,
    id: u128,
    now: i64,
) -> (r: UserRecord)
    ensures
        r.username == username,
        r.email == Some(email),
        r.password_digest == digest,
        r.role == Role::Admin,
        r.status == UserStatus::Active,
        existing.is_some() ==> r.id == existing.unwrap().id && r.note == existing.unwrap().note
            && r.created_at == existing.unwrap().created_at,
        existing.is_none() ==> r.id == id && r.note@ == Seq::<char>::empty() && r.created_at == now,
        r.wf(),
{
    match existing {
        Some(u) => UserRecord {
            id: u.id,
            username,
            email: Some(email),
            role: Role::Admin,
            status: UserStatus::Active,
            note: u.note,
            password_digest: digest,
            created_at: u.created_at,
        },
        None => UserRecord {
            id,
            username,
            email: Some(email),
            role: Role::Admin,
            status: UserStatus::Active,
            note: String::new(),
            password_digest: digest,
            created_at: now,
        },
    }
}

/// Start-up recovery of the configured admin account with a given salt;
/// refused exactly when argon2 refuses the password with this salt.
pub fn bootstrap_with_salt(
    existing: Option<UserRecord>,
    username: String,
    email: String,
    password: &str,
    salt: &str,
    id: u128,
    now: i64,
) -> (r: Result<UserRecord, UserError>)
    ensures
        match argon2_digest(password@, salt@) {
            Some(d) => {
                let u = r.unwrap();
                &&& r.is_ok()
                &&& u.username == username
                &&& u.email == Some(email)
                &&& u.password_digest@ == d
                &&& u.role == Role::Admin
                &&& u.status == UserStatus::Active
                &&& existing.is_some() ==> u.id == existing.unwrap().id && u.note
                    == existing.unwrap().note && u.created_at == existing.unwrap().created_at
                &&& existing.is_none() ==> u.id == id && u.note@ == Seq::<char>::empty()
                    && u.created_at == now
            },
            None => r == Err::<UserRecord, UserError>(UserError::HashFailed),
        },
{
    match hash_with_salt(password, salt) {
        None => Err(UserError::HashFailed),
        Some(digest) => Ok(bootstrap_record(existing, username, email, digest, id, now)),
    }
}

/// Start-up recovery of the configured admin account, the password hashed
/// with a fresh random salt; refused only when hashing fails.
pub fn bootstrap_admin(
    existing: Option<UserRecord>,
    username: String,
    email: String,
    password: &str,
    id: u128,
    now: i64,
) -> (r: Result<UserRecord, UserError>)
    ensures
        r.is_err() ==> r == Err::<UserRecord, UserError>(UserError::HashFailed),
        r.is_err() ==> hashing_can_fail(password@),
        r.is_ok() ==> ({
            let u = r.unwrap();
            &&& u.username == username
            &&& u.email == Some(email)
            &&& digest_of_password(u.password_digest@, password@)
            &&& u.role == Role::Admin
            &&& u.status == UserStatus::Active
            &&& existing.is_some() ==> u.id == existing.unwrap().id
            &&& existing.is_none() ==> u.id == id && u.created_at == now
        }),
{
    let salt = fresh_salt();
    let r = bootstrap_with_salt(existing, username, email, password, salt.as_str(), id, now);
    proof {
        if argon2_digest(password@, salt@).is_none() {
            assert(hashing_can_fail(password@));
        } else {
            assert(argon2_digest(password@, salt@) == Some(r.unwrap().password_digest@));
        }
    }
    r
}

/// What other users see of an account.
#[derive(Debug)]
pub struct PublicUser {
    pub id: u128,
    pub username: String,
    /// Empty when the account has none.
    pub email: String,
    pub role: Role,
    pub created_at: i64,
}

pub fn public_user(u: UserRecord) -> (r: PublicUser)
    ensures
        r.id == u.id,
        r.username == u.username,
        r.email@ == (match u.email {
            Some(e) => e@,
            None => Seq::<char>::empty(),
        }),
        r.role == u.role,
        r.created_at == u.created_at,
{
    let email = match u.email {
        Some(e) => e,
        None => String::new(),
    };
    PublicUser { id: u.id, username: u.username, email, role: u.role, created_at: u.created_at }
}

/// The caller's own account; `NotFound` when the session names no account.
pub fn current_user(found: Option<UserRecord>) -> (r: Result<PublicUser, UserError>)
    ensures
        found.is_none() ==> r == Err::<PublicUser, UserError>(UserError::NotFound),
        found.is_some() ==> ({
            let u = found.unwrap();
            let p = r.unwrap();
            &&& r.is_ok()
            &&& p.id == u.id
            &&& p.username == u.username
            &&& p.email@ == (match u.email {
                Some(e) => e@,
                None => Seq::<char>::empty(),
            })
            &&& p.role == u.role
            &&& p.created_at == u.created_at
        }),
{
    match found {
        None => Err(UserError::NotFound),
        Some(u) => Ok(public_user(u)),
    }
}

/// Only admins may list or delete accounts.
pub fn require_admin(caller: &Principal) -> (r: Result<(), UserError>)
    ensures
        r.is_ok() == (caller.role == Role::Admin),
        r.is_err() ==> r == Err::<(), UserError>(UserError::Forbidden),
{
    if caller.role == Role::Admin {
        Ok(())
    } else {
        Err(UserError::Forbidden)
    }
}

} // verus!
