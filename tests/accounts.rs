use docvault::{
    admin_create_user, approve_user, bearer_token, bootstrap_record, current_user, disable_user,
    issue_session, login, login_outcome, open_route, parse_allowed_users, parse_flag,
    parse_permission, parse_role, parse_user_status, permission_str, public_user, register,
    require_admin, role_from_claim, role_str, sanitize_filename, session_accepts,
    session_principal, user_status_str, Permission, Principal, Role, UserError, UserRecord,
    UserStatus, SESSION_SECONDS,
};

fn admin() -> Principal {
    Principal { id: 99, role: Role::Admin }
}

fn record(role: Role, status: UserStatus) -> UserRecord {
    UserRecord {
        id: 7,
        username: "u".to_string(),
        email: None,
        role,
        status,
        note: "t".to_string(),
        password_digest: "x".to_string(),
        created_at: 5,
    }
}

#[test]
fn user_status_gate() {
    let u = register("  carol ", "secret", Some("t".to_string()), 7, 100).unwrap();
    assert_eq!(u.username, "carol");
    assert_eq!(u.status, UserStatus::Pending);
    assert_eq!(u.role, Role::User);
    assert_eq!(u.note, "t");
    assert_eq!(u.email, None);
    assert_ne!(u.password_digest, "secret");
    assert_eq!(login(Some(&u), "secret"), Err(UserError::NotActive));
    assert_eq!(UserError::NotActive.http_status(), 403);

    let u = approve_user(&admin(), Some(u)).unwrap();
    assert_eq!(u.status, UserStatus::Active);
    let p = login(Some(&u), "secret").unwrap();
    assert_eq!(p, Principal { id: 7, role: Role::User });
    assert_eq!(login(Some(&u), "wrong"), Err(UserError::InvalidCredentials));

    let token = issue_session(p.id, p.role, 1000);
    let u = disable_user(&admin(), Some(u)).unwrap();
    assert_eq!(u.status, UserStatus::Disabled);
    assert_eq!(login(Some(&u), "secret"), Err(UserError::NotActive));
    assert!(session_accepts(&token, 1001));
}

#[test]
fn login_refusals() {
    assert_eq!(login(None, "pw"), Err(UserError::InvalidCredentials));
    assert_eq!(UserError::InvalidCredentials.http_status(), 401);
    let broken = record(Role::User, UserStatus::Active);
    assert_eq!(login(Some(&broken), "pw"), Err(UserError::VerifyFailed));
    assert_eq!(UserError::VerifyFailed.http_status(), 500);
    let active = record(Role::Admin, UserStatus::Active);
    assert_eq!(login_outcome(Some(&active), Some(true)), Ok(Principal { id: 7, role: Role::Admin }));
    assert_eq!(login_outcome(Some(&active), Some(false)), Err(UserError::InvalidCredentials));
    assert_eq!(login_outcome(Some(&active), None), Err(UserError::VerifyFailed));
    let pending = record(Role::User, UserStatus::Pending);
    assert_eq!(login_outcome(Some(&pending), Some(true)), Err(UserError::NotActive));
}

#[test]
fn registration_needs_name_and_password() {
    assert_eq!(register("   ", "pw", None, 1, 0).err(), Some(UserError::MissingFields));
    assert_eq!(register("name", " \t", None, 1, 0).err(), Some(UserError::MissingFields));
    assert_eq!(UserError::MissingFields.http_status(), 400);
    let u = register("name", "pw", None, 1, 0).unwrap();
    assert_eq!(u.note, "");
}

#[test]
fn admin_creation() {
    let caller = Principal { id: 1, role: Role::User };
    let r = admin_create_user(&caller, "n".to_string(), "e@x".to_string(), "pw", "user", 2, 0);
    assert_eq!(r.err(), Some(UserError::Forbidden));
    let r = admin_create_user(&admin(), "n".to_string(), "e@x".to_string(), "pw", "root", 2, 0);
    assert_eq!(r.err(), Some(UserError::InvalidRole));
    let u = admin_create_user(&admin(), "n".to_string(), "e@x".to_string(), "pw", "admin", 2, 9)
        .unwrap();
    assert_eq!(u.role, Role::Admin);
    assert_eq!(u.status, UserStatus::Active);
    assert_eq!(u.email, Some("e@x".to_string()));
    assert_eq!(u.created_at, 9);
    assert_eq!(login(Some(&u), "pw"), Ok(Principal { id: 2, role: Role::Admin }));
}

#[test]
fn lifecycle_transitions_only_touch_plain_users() {
    let caller = Principal { id: 1, role: Role::User };
    assert_eq!(
        approve_user(&caller, Some(record(Role::User, UserStatus::Pending))).err(),
        Some(UserError::Forbidden)
    );
    assert_eq!(approve_user(&admin(), None).err(), Some(UserError::NotFound));
    assert_eq!(
        disable_user(&admin(), Some(record(Role::Admin, UserStatus::Active))).err(),
        Some(UserError::NotFound)
    );
    assert_eq!(UserError::NotFound.http_status(), 404);
    assert_eq!(require_admin(&caller), Err(UserError::Forbidden));
    assert_eq!(require_admin(&admin()), Ok(()));
}

#[test]
fn bootstrap_overwrites_or_creates() {
    let existing = record(Role::User, UserStatus::Disabled);
    let u = bootstrap_record(Some(existing), "admin".to_string(), "a@x".to_string(), "d".to_string(), 50, 60);
    assert_eq!(u.id, 7);
    assert_eq!(u.created_at, 5);
    assert_eq!(u.role, Role::Admin);
    assert_eq!(u.status, UserStatus::Active);
    assert_eq!(u.username, "admin");
    assert_eq!(u.email, Some("a@x".to_string()));
    assert_eq!(u.password_digest, "d");
    let u = bootstrap_record(None, "admin".to_string(), "a@x".to_string(), "d".to_string(), 50, 60);
    assert_eq!(u.id, 50);
    assert_eq!(u.created_at, 60);
    assert_eq!(u.note, "");
}

#[test]
fn session_window() {
    let t: i64 = 1_000_000;
    let c = issue_session(3, Role::User, t);
    assert_eq!(c.expires_at, t + SESSION_SECONDS);
    assert!(session_accepts(&c, t));
    assert!(session_accepts(&c, t + 86_399));
    assert!(!session_accepts(&c, t + 86_400));
    assert!(!session_accepts(&c, t + 86_401));
    assert_eq!(session_principal(&c), Principal { id: 3, role: Role::User });
}

#[test]
fn unknown_account_is_not_found() {
    assert_eq!(current_user(None).err(), Some(UserError::NotFound));
    let me = current_user(Some(record(Role::User, UserStatus::Active))).unwrap();
    assert_eq!(me.id, 7);
    assert_eq!(me.email, "");
    let mut r = record(Role::User, UserStatus::Active);
    r.email = Some("m@x".to_string());
    assert_eq!(public_user(r).email, "m@x");
}

#[test]
fn bearer_header_parsing() {
    assert_eq!(bearer_token("Bearer abc.def"), Some("abc.def"));
    assert_eq!(bearer_token("Bearer "), None);
    assert_eq!(bearer_token("Basic abc"), None);
    assert_eq!(bearer_token("bearer abc"), None);
    assert_eq!(bearer_token(""), None);
}

#[test]
fn open_routes() {
    assert!(open_route(true, "/documents"));
    assert!(open_route(false, "/healthz"));
    assert!(open_route(false, "/auth/login"));
    assert!(open_route(false, "/auth/register"));
    assert!(!open_route(false, "/me"));
    assert!(!open_route(false, "/auth/login/x"));
}

#[test]
fn role_status_and_permission_texts() {
    assert_eq!(role_from_claim("admin"), Role::Admin);
    assert_eq!(role_from_claim("Admin"), Role::User);
    assert_eq!(role_from_claim("user"), Role::User);
    assert_eq!(parse_role("user"), Some(Role::User));
    assert_eq!(parse_role("owner"), None);
    assert_eq!(role_str(Role::Admin), "admin");
    assert_eq!(parse_user_status("disabled"), Some(UserStatus::Disabled));
    assert_eq!(parse_user_status("gone"), None);
    assert_eq!(user_status_str(UserStatus::Pending), "pending");
    for p in [Permission::Public, Permission::Private, Permission::Specific] {
        assert_eq!(parse_permission(permission_str(p)), Some(p));
    }
    assert_eq!(parse_permission("PUBLIC"), None);
}

#[test]
fn filename_sanitizing() {
    assert_eq!(sanitize_filename("a/b\\c.txt"), "a_b_c.txt");
    assert_eq!(sanitize_filename("plain.txt"), "plain.txt");
    assert_eq!(sanitize_filename(""), "");
    assert_eq!(sanitize_filename("ü/ß"), "ü_ß");
}

#[test]
fn generated_flag_parsing() {
    assert!(parse_flag("1"));
    assert!(parse_flag(" TRUE "));
    assert!(parse_flag("True"));
    assert!(!parse_flag("yes"));
    assert!(!parse_flag("0"));
    assert!(!parse_flag(""));
}

#[test]
fn allowed_users_list_parsing() {
    let a = "550e8400-e29b-41d4-a716-446655440000";
    let b = "6ba7b810-9dad-11d1-80b4-00c04fd430c8";
    let ids = parse_allowed_users(&format!("{a}, not-an-id ,{b},"));
    assert_eq!(
        ids,
        vec![0x550e8400_e29b_41d4_a716_446655440000u128, 0x6ba7b810_9dad_11d1_80b4_00c04fd430c8u128]
    );
    assert!(parse_allowed_users("").is_empty());
}

#[test]
fn trimmed_flag_reading() {
    assert!(docvault::flag_from_trimmed("tRuE"));
    assert!(docvault::flag_from_trimmed("1"));
    assert!(!docvault::flag_from_trimmed(" 1"));
    assert!(!docvault::flag_from_trimmed("truee"));
}

#[test]
fn blob_path_layout() {
    assert_eq!(docvault::storage_rel_path("abc", "x/y\\z.bin"), "abc/x_y_z.bin");
    assert_eq!(docvault::storage_rel_path("abc", ""), "abc/");
}

#[test]
fn salted_paths_are_deterministic() {
    let salt = "c2FsdHNhbHRzYWx0";
    let a = docvault::register_with_salt("ann", "pw", None, salt, 1, 0).unwrap();
    let b = docvault::register_with_salt("bob", "pw", None, salt, 2, 0).unwrap();
    assert_eq!(a.password_digest, b.password_digest);
    assert_ne!(a.password_digest, "pw");
    assert_eq!(docvault::register_with_salt("ann", "pw", None, "!", 1, 0).err(), Some(UserError::HashFailed));
    assert_eq!(docvault::register_with_salt(" ", "pw", None, "!", 1, 0).err(), Some(UserError::MissingFields));

    let c = docvault::admin_create_with_salt(&admin(), "c".to_string(), "c@x".to_string(), "pw", "user", salt, 3, 0)
        .unwrap();
    assert_eq!(c.password_digest, a.password_digest);
    assert_eq!(c.status, UserStatus::Active);
    assert_eq!(
        docvault::admin_create_with_salt(&admin(), "c".to_string(), "c@x".to_string(), "pw", "user", "!", 3, 0).err(),
        Some(UserError::HashFailed)
    );

    let d = docvault::bootstrap_with_salt(None, "root".to_string(), "r@x".to_string(), "pw", salt, 4, 9).unwrap();
    assert_eq!(d.password_digest, a.password_digest);
    assert_eq!(d.role, Role::Admin);
    assert_eq!(
        docvault::bootstrap_with_salt(None, "root".to_string(), "r@x".to_string(), "pw", "!", 4, 9).err(),
        Some(UserError::HashFailed)
    );
    assert_eq!(login(Some(&c), "pw"), Ok(Principal { id: 3, role: Role::User }));
}

#[test]
fn current_user_shows_every_public_field() {
    let mut r = record(Role::Admin, UserStatus::Active);
    r.email = Some("z@x".to_string());
    let me = current_user(Some(r)).unwrap();
    assert_eq!(me.id, 7);
    assert_eq!(me.username, "u");
    assert_eq!(me.email, "z@x");
    assert_eq!(me.role, Role::Admin);
    assert_eq!(me.created_at, 5);
}
