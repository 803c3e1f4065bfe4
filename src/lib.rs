//! Authorization and release engine of a multi-user document repository:
//! access predicates over documents, the download-request state machine,
//! the user lifecycle gate and the session validity window.

pub mod model;
pub mod kernel;
pub mod ids;
pub mod text;
pub mod release;
pub mod ledger;
pub mod documents;
pub mod passwords;
pub mod users;
pub mod session;
pub mod directory;

pub use model::{Document, Permission, Principal, RequestStatus, Role, UserStatus};
pub use kernel::{doc_accessible, doc_editable, is_admin};
pub use text::{flag_from_trimmed, parse_allowed_users, parse_flag, same_text, same_text_ignore_ascii_case, sanitize_filename};
pub use release::{
    application_from_trimmed, approval_expiry, approve_request, check_application, effective_ttl_hours, has_active_grant,
    may_download, reject_request, DownloadDecision, DownloadRequest, ReleaseError, RequestForm,
    DEFAULT_APPROVAL_TTL_HOURS, SECONDS_PER_HOUR,
};
pub use ledger::{awaits_viewer, Ledger};
pub use documents::{
    delete_document, download_document, list_visible, parse_permission, patch_document,
    permission_str, storage_rel_path, upload_document, DocumentError, DocumentPatch, DownloadPlan, FilePart,
    UploadForm,
};
pub use users::{
    admin_create_user, admin_create_with_salt, approve_user, bootstrap_admin, bootstrap_record,
    bootstrap_with_salt, created_user, register_with_salt,
    current_user, disable_user, login, login_outcome, parse_role, parse_user_status,
    pending_user, public_user, register, require_admin, role_from_claim, role_str,
    user_status_str, PublicUser, UserError, UserRecord,
};
pub use session::{
    bearer_token, issue_session, open_route, session_accepts, session_principal, SessionClaims,
    SESSION_SECONDS,
};
pub use directory::Directory;
