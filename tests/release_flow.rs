use docvault::{
    approval_expiry, delete_document, doc_accessible, download_document, effective_ttl_hours,
    list_visible, patch_document, upload_document, Document, DocumentError, DocumentPatch,
    FilePart, Ledger, Permission, Principal, ReleaseError, RequestForm, RequestStatus, Role,
    UploadForm,
};

const A: u128 = 1;
const B: u128 = 2;
const C: u128 = 3;
const D: u128 = 4;

fn user(id: u128) -> Principal {
    Principal { id, role: Role::User }
}

fn admin(id: u128) -> Principal {
    Principal { id, role: Role::Admin }
}

fn form(permission: &str, allowed: Vec<u128>, bytes: &[u8]) -> UploadForm {
    UploadForm {
        file: Some(FilePart {
            file_name: Some("report.pdf".to_string()),
            content_type: Some("application/pdf".to_string()),
            bytes: bytes.to_vec(),
        }),
        notes: "n".to_string(),
        permission: Some(permission.to_string()),
        allowed_users: allowed,
        is_generated: false,
    }
}

fn upload(owner: u128, id: u128, permission: &str, allowed: Vec<u128>) -> Document {
    upload_document(&user(owner), form(permission, allowed, b"hello"), id, 1000).unwrap().0
}

/// D1 private, D2 public, D3 specific to B, all owned by A.
fn three_docs() -> Vec<Document> {
    vec![
        upload(A, 11, "private", vec![]),
        upload(A, 12, "public", vec![]),
        upload(A, 13, "specific", vec![B]),
    ]
}

fn application() -> RequestForm {
    RequestForm {
        applicant_name: "b".to_string(),
        applicant_company: "co".to_string(),
        applicant_contact: "x@y".to_string(),
        message: None,
    }
}

fn no_changes() -> DocumentPatch {
    DocumentPatch {
        name: None,
        notes: None,
        permission: None,
        allowed_users: None,
        download_preauthorized: None,
    }
}

fn ids(docs: &[Document]) -> Vec<u128> {
    docs.iter().map(|d| d.id).collect()
}

#[test]
fn visibility_filter_per_viewer() {
    assert_eq!(ids(&list_visible(three_docs(), &user(A))), vec![11, 12, 13]);
    assert_eq!(ids(&list_visible(three_docs(), &user(B))), vec![12, 13]);
    assert_eq!(ids(&list_visible(three_docs(), &admin(C))), vec![11, 12, 13]);
    assert_eq!(ids(&list_visible(three_docs(), &user(D))), vec![12]);
}

#[test]
fn download_gate_with_approval() {
    let d1 = upload(A, 11, "public", vec![]);
    let mut ledger = Ledger::new();
    let denied = download_document(Some(&d1), &user(B), &ledger.rows, 2000);
    assert_eq!(denied.err(), Some(DocumentError::ApprovalRequired));
    assert_eq!(DocumentError::ApprovalRequired.http_status(), 403);

    assert_eq!(ledger.create(Some(&d1), &user(B), &application(), 100, 2000), Ok(()));
    assert_eq!(
        ledger.create(Some(&d1), &user(B), &application(), 101, 2001),
        Err(ReleaseError::Conflict)
    );
    assert_eq!(ReleaseError::Conflict.http_status(), 409);

    assert_eq!(ledger.approve(100, &user(A), 2002, None), Ok(()));
    assert_eq!(ledger.rows[0].expires_at, Some(2002 + 24 * 3600));
    let plan = download_document(Some(&d1), &user(B), &ledger.rows, 2003).unwrap();
    assert_eq!(plan.storage_rel_path, d1.storage_rel_path);
    assert_eq!(plan.mime_type, "application/pdf");
    assert_eq!(plan.content_disposition, "attachment; filename=\"report.pdf\"");
}

#[test]
fn expired_grant_is_not_honoured() {
    let d1 = upload(A, 11, "public", vec![]);
    let mut ledger = Ledger::new();
    ledger.create(Some(&d1), &user(B), &application(), 100, 0).unwrap();
    assert_eq!(effective_ttl_hours(Some(1)), 1);
    ledger.approve(100, &user(A), 0, Some(1)).unwrap();
    assert_eq!(ledger.rows[0].expires_at, Some(3600));
    let later = download_document(Some(&d1), &user(B), &ledger.rows, 7200);
    assert_eq!(later.err(), Some(DocumentError::ApprovalRequired));
    assert_eq!(ledger.rows[0].status, RequestStatus::Approved);
    assert_eq!(ledger.create(Some(&d1), &user(B), &application(), 101, 7200), Ok(()));
}

#[test]
fn preauthorized_document_downloads_directly() {
    let d3 = upload(A, 13, "specific", vec![B]);
    let mut changes = no_changes();
    changes.download_preauthorized = Some(true);
    let d3 = patch_document(Some(d3), &user(A), changes, 3000).unwrap();
    assert!(d3.download_preauthorized);
    let none = Ledger::new();
    assert!(download_document(Some(&d3), &user(B), &none.rows, 3001).is_ok());
    assert_eq!(
        download_document(Some(&d3), &user(D), &none.rows, 3001).err(),
        Some(DocumentError::Forbidden)
    );
}

#[test]
fn admin_may_decide_any_request_others_may_not() {
    let d1 = upload(A, 11, "public", vec![]);
    let mut ledger = Ledger::new();
    ledger.create(Some(&d1), &user(B), &application(), 100, 0).unwrap();
    assert_eq!(ledger.approve(100, &user(D), 1, Some(1)), Err(ReleaseError::NotFound));
    assert_eq!(ledger.rows[0].status, RequestStatus::Pending);
    assert_eq!(ledger.approve(100, &admin(C), 1, Some(1)), Ok(()));
    assert_eq!(ledger.rows[0].approver_id, Some(C));
}

#[test]
fn allowed_users_cleared_unless_specific() {
    let d = upload(A, 11, "public", vec![B, D]);
    assert!(d.allowed_users.is_empty());
    let d = upload(A, 12, "specific", vec![B, D]);
    assert_eq!(d.allowed_users, vec![B, D]);
    let mut changes = no_changes();
    changes.permission = Some("private".to_string());
    let d = patch_document(Some(d), &user(A), changes, 5).unwrap();
    assert_eq!(d.permission, Permission::Private);
    assert!(d.allowed_users.is_empty());
    let mut changes = no_changes();
    changes.allowed_users = Some(vec![B]);
    let d = patch_document(Some(d), &user(A), changes, 6).unwrap();
    assert!(d.allowed_users.is_empty());
}

#[test]
fn decision_times_follow_status() {
    let d1 = upload(A, 11, "public", vec![]);
    let mut ledger = Ledger::new();
    ledger.create(Some(&d1), &user(B), &application(), 100, 0).unwrap();
    ledger.create(Some(&d1), &user(D), &application(), 101, 0).unwrap();
    let r = &ledger.rows[0];
    assert!(r.approved_at.is_none() && r.rejected_at.is_none() && r.expires_at.is_none());
    ledger.approve(100, &user(A), 7, Some(2)).unwrap();
    ledger.reject(101, &user(A), 8).unwrap();
    let approved = &ledger.rows[0];
    assert_eq!(approved.approved_at, Some(7));
    assert_eq!(approved.rejected_at, None);
    assert_eq!(approved.expires_at, Some(7 + 2 * 3600));
    assert_eq!(approved.updated_at, 7);
    let rejected = &ledger.rows[1];
    assert_eq!(rejected.status, RequestStatus::Rejected);
    assert_eq!(rejected.rejected_at, Some(8));
    assert_eq!(rejected.approved_at, None);
    assert_eq!(rejected.expires_at, None);
}

#[test]
fn one_pending_request_per_document_and_requester() {
    let d1 = upload(A, 11, "public", vec![]);
    let d2 = upload(A, 12, "public", vec![]);
    let mut ledger = Ledger::new();
    assert_eq!(ledger.create(Some(&d1), &user(B), &application(), 100, 0), Ok(()));
    assert_eq!(
        ledger.create(Some(&d1), &user(B), &application(), 101, 0),
        Err(ReleaseError::Conflict)
    );
    assert_eq!(ledger.create(Some(&d2), &user(B), &application(), 102, 0), Ok(()));
    assert_eq!(ledger.create(Some(&d1), &user(D), &application(), 103, 0), Ok(()));
    ledger.reject(100, &user(A), 1).unwrap();
    assert_eq!(ledger.create(Some(&d1), &user(B), &application(), 104, 2), Ok(()));
    let pending = ledger
        .rows
        .iter()
        .filter(|r| r.status == RequestStatus::Pending && r.document_id == 11 && r.requester_id == B)
        .count();
    assert_eq!(pending, 1);
}

#[test]
fn access_is_monotone_in_role() {
    for d in three_docs() {
        for id in [A, B, D] {
            if doc_accessible(&d, &user(id)) {
                assert!(doc_accessible(&d, &admin(id)));
            }
            assert!(doc_accessible(&d, &admin(id)));
        }
    }
}

#[test]
fn upload_keeps_the_bytes_for_download() {
    let payload = vec![0u8, 1, 2, 255, 10, 13];
    let (doc, bytes) = upload_document(&user(A), form("private", vec![], &payload), 11, 0).unwrap();
    assert_eq!(bytes, payload);
    assert_eq!(doc.size, 6);
    let plan = download_document(Some(&doc), &user(A), &Vec::new(), 1).unwrap();
    assert_eq!(plan.storage_rel_path, doc.storage_rel_path);
}

#[test]
fn storage_path_is_id_and_sanitized_name() {
    let id: u128 = 0x550e8400_e29b_41d4_a716_446655440000;
    let mut f = form("public", vec![], b"x");
    f.file.as_mut().unwrap().file_name = Some("a/b\\c.txt".to_string());
    let (doc, _) = upload_document(&user(A), f, id, 0).unwrap();
    assert_eq!(doc.storage_rel_path, "550e8400-e29b-41d4-a716-446655440000/a_b_c.txt");
    assert_eq!(doc.name, "a/b\\c.txt");
}

#[test]
fn upload_defaults_and_errors() {
    let f = UploadForm {
        file: Some(FilePart { file_name: None, content_type: None, bytes: vec![] }),
        notes: String::new(),
        permission: None,
        allowed_users: vec![B],
        is_generated: true,
    };
    let (doc, _) = upload_document(&user(A), f, 9, 0).unwrap();
    assert_eq!(doc.name, "upload.bin");
    assert_eq!(doc.mime_type, "application/octet-stream");
    assert_eq!(doc.permission, Permission::Public);
    assert!(doc.allowed_users.is_empty());
    assert!(doc.is_generated);
    assert!(!doc.download_preauthorized);
    assert_eq!(doc.size, 0);

    let bad = upload_document(&user(A), form("secret", vec![], b"x"), 9, 0);
    assert_eq!(bad.err(), Some(DocumentError::InvalidPermission));
    assert_eq!(DocumentError::InvalidPermission.http_status(), 400);
    let mut nofile = form("public", vec![], b"x");
    nofile.file = None;
    assert_eq!(upload_document(&user(A), nofile, 9, 0).err(), Some(DocumentError::FileRequired));
}

#[test]
fn patch_with_no_changes_only_touches_update_time() {
    let d = upload(A, 13, "specific", vec![B]);
    let p = patch_document(Some(upload(A, 13, "specific", vec![B])), &user(A), no_changes(), 5000)
        .unwrap();
    assert_eq!(p.id, d.id);
    assert_eq!(p.name, d.name);
    assert_eq!(p.mime_type, d.mime_type);
    assert_eq!(p.size, d.size);
    assert_eq!(p.notes, d.notes);
    assert_eq!(p.owner_id, d.owner_id);
    assert_eq!(p.permission, d.permission);
    assert_eq!(p.allowed_users, d.allowed_users);
    assert_eq!(p.is_generated, d.is_generated);
    assert_eq!(p.download_preauthorized, d.download_preauthorized);
    assert_eq!(p.storage_rel_path, d.storage_rel_path);
    assert_eq!(p.created_at, d.created_at);
    assert_eq!(p.updated_at, 5000);
    assert_ne!(d.updated_at, 5000);
}

#[test]
fn patch_errors() {
    assert_eq!(patch_document(None, &user(A), no_changes(), 1).err(), Some(DocumentError::NotFound));
    let d = upload(A, 11, "public", vec![]);
    assert_eq!(patch_document(Some(d), &user(B), no_changes(), 1).err(), Some(DocumentError::Forbidden));
    let mut changes = no_changes();
    changes.permission = Some("Public".to_string());
    let d = upload(A, 11, "public", vec![]);
    assert_eq!(
        patch_document(Some(d), &admin(C), changes, 1).err(),
        Some(DocumentError::InvalidPermission)
    );
    let mut changes = no_changes();
    changes.name = Some("new.txt".to_string());
    changes.notes = Some("changed".to_string());
    let d = upload(A, 11, "public", vec![]);
    let p = patch_document(Some(d), &admin(C), changes, 1).unwrap();
    assert_eq!(p.name, "new.txt");
    assert_eq!(p.notes, "changed");
}

#[test]
fn approve_then_reject_fails() {
    let d1 = upload(A, 11, "public", vec![]);
    let mut ledger = Ledger::new();
    ledger.create(Some(&d1), &user(B), &application(), 100, 0).unwrap();
    assert_eq!(ledger.approve(100, &user(A), 1, Some(1)), Ok(()));
    assert_eq!(ledger.reject(100, &user(A), 2), Err(ReleaseError::NotFound));
    assert_eq!(ledger.reject(100, &admin(C), 2), Err(ReleaseError::NotFound));
    assert_eq!(ledger.approve(100, &admin(C), 2, Some(1)), Err(ReleaseError::NotFound));
    assert_eq!(ledger.rows[0].status, RequestStatus::Approved);
    assert_eq!(ledger.rows[0].expires_at, Some(3601));
    assert_eq!(ledger.approve(999, &admin(C), 2, Some(1)), Err(ReleaseError::NotFound));
}

#[test]
fn application_refusals() {
    let public = upload(A, 11, "public", vec![]);
    let private = upload(A, 12, "private", vec![]);
    let mut pre = upload(A, 13, "public", vec![]);
    pre.download_preauthorized = true;
    let mut ledger = Ledger::new();
    let mut blank = application();
    blank.applicant_company = "   ".to_string();
    assert_eq!(ledger.create(Some(&public), &user(B), &blank, 1, 0), Err(ReleaseError::MissingFields));
    assert_eq!(ledger.create(None, &user(B), &application(), 1, 0), Err(ReleaseError::NotFound));
    assert_eq!(ledger.create(Some(&private), &user(B), &application(), 1, 0), Err(ReleaseError::Forbidden));
    assert_eq!(ledger.create(Some(&public), &user(A), &application(), 1, 0), Err(ReleaseError::NoNeedToRequest));
    assert_eq!(ledger.create(Some(&public), &admin(C), &application(), 1, 0), Err(ReleaseError::NoNeedToRequest));
    assert_eq!(ledger.create(Some(&pre), &user(B), &application(), 1, 0), Err(ReleaseError::DownloadPreauthorized));
    assert!(ledger.rows.is_empty());
    assert_eq!(ledger.create(Some(&public), &user(B), &application(), 1, 0), Ok(()));
    assert_eq!(ledger.create(Some(&private), &admin(C), &application(), 1, 0), Err(ReleaseError::NoNeedToRequest));
    let other = upload(A, 14, "public", vec![]);
    assert_eq!(ledger.create(Some(&other), &user(B), &application(), 1, 0), Err(ReleaseError::DuplicateId));
    assert_eq!(ReleaseError::MissingFields.http_status(), 400);
    assert_eq!(ReleaseError::Forbidden.http_status(), 403);
    assert_eq!(ReleaseError::NotFound.http_status(), 404);
    assert_eq!(ReleaseError::DuplicateId.http_status(), 500);
}

#[test]
fn application_fields_are_trimmed() {
    let public = upload(A, 11, "public", vec![]);
    let mut ledger = Ledger::new();
    let f = RequestForm {
        applicant_name: "  Bo  ".to_string(),
        applicant_company: "\tco\n".to_string(),
        applicant_contact: " x@y".to_string(),
        message: Some(" hi ".to_string()),
    };
    ledger.create(Some(&public), &user(B), &f, 5, 42).unwrap();
    let r = &ledger.rows[0];
    assert_eq!(r.applicant_name, "Bo");
    assert_eq!(r.applicant_company, "co");
    assert_eq!(r.applicant_contact, "x@y");
    assert_eq!(r.message, " hi ");
    assert_eq!(r.owner_id, A);
    assert_eq!(r.created_at, 42);
}

#[test]
fn list_pending_and_own_requests() {
    let d1 = upload(A, 11, "public", vec![]);
    let d2 = upload(D, 12, "public", vec![]);
    let mut ledger = Ledger::new();
    ledger.create(Some(&d1), &user(B), &application(), 100, 0).unwrap();
    ledger.create(Some(&d2), &user(B), &application(), 101, 1).unwrap();
    ledger.create(Some(&d1), &user(D), &application(), 102, 2).unwrap();
    assert_eq!(ledger.list_pending(&user(A)), vec![100, 102]);
    assert_eq!(ledger.list_pending(&admin(C)), vec![100, 101, 102]);
    assert_eq!(ledger.list_mine(B), vec![101, 100]);
    ledger.approve(100, &user(A), 3, Some(1)).unwrap();
    assert_eq!(ledger.list_pending(&user(A)), vec![102]);
    assert_eq!(ledger.list_mine(B), vec![101, 100]);
}

#[test]
fn delete_decisions() {
    let d = upload(A, 11, "public", vec![]);
    assert_eq!(delete_document(None, &user(A)), Err(DocumentError::NotFound));
    assert_eq!(delete_document(Some(&d), &user(B)), Err(DocumentError::Forbidden));
    assert_eq!(delete_document(Some(&d), &user(A)), Ok(d.storage_rel_path.clone()));
    assert_eq!(delete_document(Some(&d), &admin(C)), Ok(d.storage_rel_path.clone()));
    assert_eq!(download_document(None, &user(A), &Vec::new(), 0).err(), Some(DocumentError::NotFound));
}

#[test]
fn grant_lifetime_arithmetic() {
    assert_eq!(effective_ttl_hours(None), 24);
    assert_eq!(effective_ttl_hours(Some(0)), 1);
    assert_eq!(effective_ttl_hours(Some(-5)), 1);
    assert_eq!(effective_ttl_hours(Some(5)), 5);
    assert_eq!(approval_expiry(100, 0), Some(3700));
    assert_eq!(approval_expiry(100, 2), Some(7300));
    assert_eq!(approval_expiry(i64::MAX - 10, 1), None);
    assert_eq!(approval_expiry(0, i64::MAX), None);
}

#[test]
fn application_from_trimmed_fields() {
    let public = upload(A, 11, "public", vec![]);
    let r = docvault::application_from_trimmed(
        Some(&public),
        &user(B),
        "b".to_string(),
        "co".to_string(),
        "x@y".to_string(),
        Some("m".to_string()),
        5,
        9,
    )
    .unwrap();
    assert_eq!(r.applicant_name, "b");
    assert_eq!(r.message, "m");
    assert_eq!(r.status, RequestStatus::Pending);
    assert_eq!(r.created_at, 9);
    let blank = docvault::application_from_trimmed(
        Some(&public),
        &user(B),
        String::new(),
        "co".to_string(),
        "x@y".to_string(),
        None,
        5,
        9,
    );
    assert_eq!(blank.err(), Some(ReleaseError::MissingFields));
    let spaces = docvault::application_from_trimmed(
        Some(&public),
        &user(B),
        " ".to_string(),
        "co".to_string(),
        "x@y".to_string(),
        None,
        5,
        9,
    );
    assert!(spaces.is_ok());
}

#[test]
fn approval_expiry_follows_configured_lifetime() {
    let d1 = upload(A, 11, "public", vec![]);
    let mut ledger = Ledger::new();
    ledger.create(Some(&d1), &user(B), &application(), 100, 0).unwrap();
    assert_eq!(
        ledger.approve(100, &user(A), i64::MAX - 10, None),
        Err(ReleaseError::ExpiryOutOfRange)
    );
    assert_eq!(ReleaseError::ExpiryOutOfRange.http_status(), 500);
    assert_eq!(ledger.rows[0].status, RequestStatus::Pending);
    let mut row = ledger.rows.remove(0);
    assert_eq!(docvault::approve_request(&mut row, &user(A), 50, Some(0)), Ok(()));
    assert_eq!(row.expires_at, Some(50 + 3600));
    assert_eq!(row.approved_at, Some(50));
    assert_eq!(row.approver_id, Some(A));
    assert_eq!(
        docvault::approve_request(&mut row, &user(A), 60, Some(3)),
        Err(ReleaseError::NotFound)
    );
    assert_eq!(row.expires_at, Some(50 + 3600));
}
