use vstd::prelude::*;

use crate::ids::{uuid_string, uuid_text};
use crate::kernel::{accessible, doc_accessible, doc_editable, editable};
use crate::model::{Document, Permission, Principal};
use crate::release::{download_decision, may_download, DownloadDecision, DownloadRequest};
use crate::text::{same_text, sanitize_filename, sanitized};

verus! {

/// Why a document operation was refused.
#[derive(Clone, Copy, Debug, PartialEq, Eq, Structural)]
pub enum DocumentError {
    NotFound,
    Forbidden,
    /// The permission is none of `public`, `private`, `specific`.
    InvalidPermission,
    /// The upload carries no file.
    FileRequired,
    /// The user may see the document but holds no grant to download it.
    ApprovalRequired,
}

impl DocumentError {
    pub open spec fn status_spec(&self) -> u16 {
        match self {
            DocumentError::InvalidPermission => 400,
            DocumentError::FileRequired => 400,
            DocumentError::Forbidden => 403,
            DocumentError::ApprovalRequired => 403,
            DocumentError::NotFound => 404,
        }
    }

    /// The HTTP status that reports this refusal.
    pub fn http_status(&self) -> (r: u16)
        ensures
            r == self.status_spec(),
    {
        match self {
            DocumentError::InvalidPermission => 400,
            DocumentError::FileRequired => 400,
            DocumentError::Forbidden => 403,
            DocumentError::ApprovalRequired => 403,
            DocumentError::NotFound => 404,
        }
    }
}

/// The permission a text names, if any.
pub open spec fn permission_of(s: Seq<char>) -> Option<Permission> {
    if s == "public"@ {
        Some(Permission::Public)
    } else if s == "private"@ {
        Some(Permission::Private)
    } else if s == "specific"@ {
        Some(Permission::Specific)
    } else {
        None
    }
}

pub fn parse_permission(s: &str) -> (r: Option<Permission>)
    ensures
        r == permission_of(s@),
{
    if same_text(s, "public") {
        Some(Permission::Public)
    } else if same_text(s, "private") {
        Some(Permission::Private)
    } else if same_text(s, "specific") {
        Some(Permission::Specific)
    } else {
        None
    }
}

pub open spec fn permission_text(p: Permission) -> Seq<char> {
    match p {
        Permission::Public => "public"@,
        Permission::Private => "private"@,
        Permission::Specific => "specific"@,
    }
}

/// The stored name of a permission.
pub fn permission_str(p: Permission) -> (r: &'static str)
    ensures
        r@ == permission_text(p),
{
    match p {
        Permission::Public => "public",
        Permission::Private => "private",
        Permission::Specific => "specific",
    }
}

/// Reading back the stored name of a permission gives the permission.
pub proof fn lemma_permission_text_round_trip(p: Permission)
    ensures
        permission_of(permission_text(p)) == Some(p),
{
    reveal_strlit("public");
    reveal_strlit("private");
    reveal_strlit("specific");
    assert("public"@.len() == 6 && "private"@.len() == 7 && "specific"@.len() == 8);
}

/// The file part of an upload.
pub struct FilePart {
    pub file_name: Option<String>,
    pub content_type: Option<String>,
    pub bytes: Vec<u8>,
}

/// The fields of an upload form, as read from the request.
pub struct UploadForm {
    pub file: Option<FilePart>,
    pub notes: String,
    /// `None` when the form names no permission: the document is public.
    pub permission: Option<String>,
    pub allowed_users: Vec<u128>,
    pub is_generated: bool,
}

pub open spec fn requested_permission(form: &UploadForm) -> Option<Permission> {
    match form.permission {
        Some(p) => permission_of(p@),
        None => Some(Permission::Public),
    }
}

pub open spec fn upload_name(f: &FilePart) -> Seq<char> {
    match f.file_name {
        Some(n) => n@,
        None => "upload.bin"@,
    }
}

pub open spec fn upload_mime(f: &FilePart) -> Seq<char> {
    match f.content_type {
        Some(m) => m@,
        None => "application/octet-stream"@,
    }
}

/// Where a document's bytes live under the blob root.
pub open spec fn storage_path(id: u128, name: Seq<char>) -> Seq<char> {
    uuid_text(id) + "/"@ + sanitized(name)
}

/// The blob path for a document: its identifier's text, a slash, and the
/// sanitized display name.
pub fn storage_rel_path(id_text: &str, name: &str) -> (r: String)
    ensures
        r@ == id_text@ + "/"@ + sanitized(name@),
{
    String::from_str(id_text).concat("/").concat(sanitize_filename(name).as_str())
}

/// The document that an upload creates, and the bytes to store at its path.
pub open spec fn is_uploaded(
    d: Document,
    bytes: Seq<u8>,
    owner: Principal,
    form: &UploadForm,
    id: u128,
    now: i64,
) -> bool {
    let f = form.file.unwrap();
    &&& d.id == id
    &&& d.name@ == upload_name(&f)
    &&& d.mime_type@ == upload_mime(&f)
    &&& d.size == f.bytes@.len()
    &&& bytes == f.bytes@
    &&& d.notes@ == form.notes@
    &&& d.owner_id == owner.id
    &&& Some(d.permission) == requested_permission(form)
    &&& d.allowed_users@ == (if d.permission == Permission::Specific {
        form.allowed_users@
    } else {
        Seq::empty()
    })
    &&& d.is_generated == form.is_generated
    &&& !d.download_preauthorized
    &&& d.storage_rel_path@ == storage_path(id, upload_name(&f))
    &&& d.created_at == now
    &&& d.updated_at == now
}

/// Builds the document for an upload by `owner`. The caller stores the
/// returned bytes at the document's storage path, then records the document.
pub fn upload_document(owner: &Principal, form: UploadForm, id: u128, now: i64) -> (r: Result<
    (Document, Vec<u8>),
    DocumentError,
>)
    requires
        form.file.is_some() ==> form.file.unwrap().bytes@.len() <= u64::MAX,
    ensures
        requested_permission(&form).is_none() ==> r == Err::<(Document, Vec<u8>), DocumentError>(
            DocumentError::InvalidPermission,
        ),
        requested_permission(&form).is_some() && form.file.is_none() ==> r == Err::<
            (Document, Vec<u8>),
            DocumentError,
        >(DocumentError::FileRequired),
        requested_permission(&form).is_some() && form.file.is_some() ==> r.is_ok() && is_uploaded(
            r.unwrap().0,
            r.unwrap().1@,
            *owner,
            &form,
            id,
            now,
        ),
        r.is_ok() ==> r.unwrap().0.wf(),
{
    let ghost form0 = form;
    let permission = match &form.permission {
        Some(p) => parse_permission(p.as_str()),
        None => Some(Permission::Public),
    };
    let permission = match permission {
        None => {
            return Err(DocumentError::InvalidPermission);
        },
        Some(p) => p,
    };
    let UploadForm { file, notes, permission: _, allowed_users, is_generated } = form;
    let mut allowed_users = allowed_users;
    if permission != Permission::Specific {
        allowed_users.clear();
    }
    let FilePart { file_name, content_type, bytes } = match file {
        None => {
            return Err(DocumentError::FileRequired);
        },
        Some(f) => f,
    };
    let name = match file_name {
        Some(n) => n,
        None => String::from_str("upload.bin"),
    };
    let mime_type = match content_type {
        Some(m) => m,
        None => String::from_str("application/octet-stream"),
    };
    let rel_path = storage_rel_path(uuid_string(id).as_str(), name.as_str());
    let size = bytes.len() as u64;
    let doc = Document {
        id,
        name,
        mime_type,
        size,
        notes,
        owner_id: owner.id,
        permission,
        allowed_users,
        is_generated,
        download_preauthorized: false,
        storage_rel_path: rel_path,
        created_at: now,
        updated_at: now,
    };
    proof {
        assert(doc.allowed_users@ =~= (if doc.permission == Permission::Specific {
            form0.allowed_users@
        } else {
            Seq::empty()
        }));
    }
    Ok((doc, bytes))
}

/// The owner of a freshly uploaded document may download it at once, from
/// the path where the upload's bytes were stored, whatever the ledger holds.
pub proof fn lemma_owner_downloads_upload(
    d: Document,
    bytes: Seq<u8>,
    owner: Principal,
    form: &UploadForm,
    id: u128,
    now: i64,
    rows: Seq<DownloadRequest>,
    later: i64,
)
    requires
        is_uploaded(d, bytes, owner, form, id, now),
    ensures
        download_decision(&d, owner, rows, later) == DownloadDecision::Allowed,
        d.storage_rel_path@ == storage_path(id, upload_name(&form.file.unwrap())),
        bytes == form.file.unwrap().bytes@,
        d.size == bytes.len(),
{
}

/// The changes a patch asks for; `None` keeps the field.
pub struct DocumentPatch {
    pub name: Option<String>,
    pub notes: Option<String>,
    pub permission: Option<String>,
    pub allowed_users: Option<Vec<u128>>,
    pub download_preauthorized: Option<bool>,
}

pub open spec fn patched_permission(doc: &Document, ch: &DocumentPatch) -> Option<Permission> {
    match ch.permission {
        Some(p) => permission_of(p@),
        None => Some(doc.permission),
    }
}

/// The document after a patch: provided fields replace the old ones, the
/// allowed users are cleared unless the permission is `specific`, and the
/// update time is `now`.
pub open spec fn is_patched(r: Document, doc: &Document, ch: &DocumentPatch, now: i64) -> bool {
    &&& r.id == doc.id
    &&& r.name@ == (match ch.name {
        Some(n) => n@,
        None => doc.name@,
    })
    &&& r.mime_type == doc.mime_type
    &&& r.size == doc.size
    &&& r.notes@ == (match ch.notes {
        Some(n) => n@,
        None => doc.notes@,
    })
    &&& r.owner_id == doc.owner_id
    &&& Some(r.permission) == patched_permission(doc, ch)
    &&& r.allowed_users@ == (if r.permission == Permission::Specific {
        match ch.allowed_users {
            Some(a) => a@,
            None => doc.allowed_users@,
        }
    } else {
        Seq::empty()
    })
    &&& r.is_generated == doc.is_generated
    &&& r.download_preauthorized == (match ch.download_preauthorized {
        Some(b) => b,
        None => doc.download_preauthorized,
    })
    &&& r.storage_rel_path == doc.storage_rel_path
    &&& r.created_at == doc.created_at
    &&& r.updated_at == now
}

/// Applies a patch by `editor` to the document, if there is one.
pub fn patch_document(
    existing: Option<Document>,
    editor: &Principal,
    changes: DocumentPatch,
    now: i64,
) -> (r: Result<Document, DocumentError>)
    ensures
        existing.is_none() ==> r == Err::<Document, DocumentError>(DocumentError::NotFound),
        existing.is_some() && !editable(&existing.unwrap(), *editor) ==> r == Err::<
            Document,
            DocumentError,
        >(DocumentError::Forbidden),
        existing.is_some() && editable(&existing.unwrap(), *editor) && patched_permission(
            &existing.unwrap(),
            &changes,
        ).is_none() ==> r == Err::<Document, DocumentError>(DocumentError::InvalidPermission),
        existing.is_some() && editable(&existing.unwrap(), *editor) && patched_permission(
            &existing.unwrap(),
            &changes,
        ).is_some() ==> r.is_ok() && is_patched(r.unwrap(), &existing.unwrap(), &changes, now),
        r.is_ok() ==> r.unwrap().wf(),
{
    let ghost old_doc = existing;
    let ghost ch = changes;
    let doc = match existing {
        None => {
            return Err(DocumentError::NotFound);
        },
        Some(d) => d,
    };
    if !doc_editable(&doc, editor) {
        return Err(DocumentError::Forbidden);
    }
    let permission = match &changes.permission {
        Some(p) => parse_permission(p.as_str()),
        None => Some(doc.permission),
    };
    let permission = match permission {
        None => {
            return Err(DocumentError::InvalidPermission);
        },
        Some(p) => p,
    };
    let DocumentPatch { name, notes, permission: _, allowed_users, download_preauthorized } =
        changes;
    let Document {
        id,
        name: old_name,
        mime_type,
        size,
        notes: old_notes,
        owner_id,
        permission: _,
        allowed_users: old_allowed,
        is_generated,
        download_preauthorized: old_preauthorized,
        storage_rel_path,
        created_at,
        updated_at: _,
    } = doc;
    let mut allowed_users = match allowed_users {
        Some(a) => a,
        None => old_allowed,
    };
    if permission != Permission::Specific {
        allowed_users.clear();
    }
    let name = match name {
        Some(n) => n,
        None => old_name,
    };
    let notes = match notes {
        Some(n) => n,
        None => old_notes,
    };
    let download_preauthorized = match download_preauthorized {
        Some(b) => b,
        None => old_preauthorized,
    };
    let r = Document {
        id,
        name,
        mime_type,
        size,
        notes,
        owner_id,
        permission,
        allowed_users,
        is_generated,
        download_preauthorized,
        storage_rel_path,
        created_at,
        updated_at: now,
    };
    proof {
        assert(r.allowed_users@ =~= (if r.permission == Permission::Specific {
            match ch.allowed_users {
                Some(a) => a@,
                None => old_doc.unwrap().allowed_users@,
            }
        } else {
            Seq::empty()
        }));
    }
    Ok(r)
}

/// A patch that restates a well-formed document's own values changes
/// nothing but the update time.
pub proof fn lemma_patch_unchanged_fields(r: Document, doc: &Document, ch: &DocumentPatch, now: i64)
    requires
        doc.wf(),
        is_patched(r, doc, ch, now),
        ch.name.is_some() ==> ch.name.unwrap()@ == doc.name@,
        ch.notes.is_some() ==> ch.notes.unwrap()@ == doc.notes@,
        ch.permission.is_some() ==> permission_of(ch.permission.unwrap()@) == Some(doc.permission),
        ch.allowed_users.is_some() ==> ch.allowed_users.unwrap()@ == doc.allowed_users@,
        ch.download_preauthorized.is_some() ==> ch.download_preauthorized.unwrap()
            == doc.download_preauthorized,
    ensures
        r.id == doc.id,
        r.name@ == doc.name@,
        r.mime_type == doc.mime_type,
        r.size == doc.size,
        r.notes@ == doc.notes@,
        r.owner_id == doc.owner_id,
        r.permission == doc.permission,
        r.allowed_users@ == doc.allowed_users@,
        r.is_generated == doc.is_generated,
        r.download_preauthorized == doc.download_preauthorized,
        r.storage_rel_path == doc.storage_rel_path,
        r.created_at == doc.created_at,
{
}

/// How to answer a permitted download.
pub struct DownloadPlan {
    pub storage_rel_path: String,
    pub mime_type: String,
    pub content_disposition: String,
}

pub open spec fn disposition_of(name: Seq<char>) -> Seq<char> {
    "attachment; filename=\""@ + name + "\""@
}

/// Decides a download of the document, if there is one, by `user` at `now`;
/// `rows` are the user's requests for it.
pub fn download_document(
    doc: Option<&Document>,
    user: &Principal,
    rows: &Vec<DownloadRequest>,
    now: i64,
) -> (r: Result<DownloadPlan, DocumentError>)
    ensures
        doc.is_none() ==> r == Err::<DownloadPlan, DocumentError>(DocumentError::NotFound),
        doc.is_some() ==> match download_decision(doc.unwrap(), *user, rows@, now) {
            DownloadDecision::Forbidden => r == Err::<DownloadPlan, DocumentError>(
                DocumentError::Forbidden,
            ),
            DownloadDecision::ApprovalRequired => r == Err::<DownloadPlan, DocumentError>(
                DocumentError::ApprovalRequired,
            ),
            DownloadDecision::Allowed => {
                &&& r.is_ok()
                &&& r.unwrap().storage_rel_path@ == doc.unwrap().storage_rel_path@
                &&& r.unwrap().mime_type@ == doc.unwrap().mime_type@
                &&& r.unwrap().content_disposition@ == disposition_of(doc.unwrap().name@)
            },
        },
{
    let d = match doc {
        None => {
            return Err(DocumentError::NotFound);
        },
        Some(d) => d,
    };
    match may_download(d, user, rows, now) {
        DownloadDecision::Forbidden => Err(DocumentError::Forbidden),
        DownloadDecision::ApprovalRequired => Err(DocumentError::ApprovalRequired),
        DownloadDecision::Allowed => {
            let disposition = String::from_str("attachment; filename=\"").concat(
                d.name.as_str(),
            ).concat("\"");
            Ok(
                DownloadPlan {
                    storage_rel_path: d.storage_rel_path.clone(),
                    mime_type: d.mime_type.clone(),
                    content_disposition: disposition,
                },
            )
        },
    }
}

/// Decides a deletion of the document, if there is one, by `requester`;
/// gives the storage path whose file is then removed.
pub fn delete_document(doc: Option<&Document>, requester: &Principal) -> (r: Result<
    String,
    DocumentError,
>)
    ensures
        doc.is_none() ==> r == Err::<String, DocumentError>(DocumentError::NotFound),
        doc.is_some() && !editable(doc.unwrap(), *requester) ==> r == Err::<String, DocumentError>(
            DocumentError::Forbidden,
        ),
        doc.is_some() && editable(doc.unwrap(), *requester) ==> r.is_ok() && r.unwrap()@
            == doc.unwrap().storage_rel_path@,
{
    match doc {
        None => Err(DocumentError::NotFound),
        Some(d) => {
            if doc_editable(d, requester) {
                Ok(d.storage_rel_path.clone())
            } else {
                Err(DocumentError::Forbidden)
            }
        },
    }
}

/// The documents a viewer may see, in their order.
pub open spec fn visible(docs: Seq<Document>, viewer: Principal) -> Seq<Document>
    decreases docs.len(),
{
    if docs.len() == 0 {
        Seq::empty()
    } else {
        let rest = visible(docs.drop_last(), viewer);
        if accessible(&docs.last(), viewer) {
            rest.push(docs.last())
        } else {
            rest
        }
    }
}

/// Keeps the documents that `viewer` may see, in their order.
pub fn list_visible(docs: Vec<Document>, viewer: &Principal) -> (r: Vec<Document>)
    ensures
        r@ == visible(docs@, *viewer),
{
    let ghost all = docs@;
    let mut rest = docs;
    let mut out: Vec<Document> = Vec::new();
    let n = rest.len();
    let mut k: usize = 0;
    while rest.len() > 0
        invariant
            all.len() == n,
            k <= all.len(),
            k + rest@.len() == all.len(),
            rest@ == all.skip(k as int),
            out@ == visible(all.take(k as int), *viewer),
        decreases rest@.len(),
    {
        let d = rest.remove(0);
        assert(all.take(k as int + 1).drop_last() == all.take(k as int));
        assert(all.take(k as int + 1).last() == d);
        if doc_accessible(&d, viewer) {
            out.push(d);
        }
        assert(rest@ =~= all.skip(k as int + 1));
        k = k + 1;
    }
    assert(all.take(k as int) =~= all);
    out
}

} // verus!
