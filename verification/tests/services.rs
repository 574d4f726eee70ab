use charac::base::{Base, InsertBase};
use charac::crypter::{decrypt_token, encrypt_token, NONCE_LEN};
use charac::errors::{
    AuthError, DatabaseError, EncryptionError, Error, PermissionError, UserError, WorkspaceError,
};
use charac::field::{Field, FieldKind, FieldPatch, InsertField, Numerical, TextBased};
use charac::ids::{BaseId, UserId};
use charac::service::approved;
use charac::table::{migration_counts, migration_warning, PaginationParams, RecordPatch};
use charac::user::{User, UserPatch, UserService, UserServiceError};

const KEY: [u8; 32] = [7u8; 32];

#[test]
fn encrypted_tokens_decrypt_back() {
    let token = "my-secret-token";
    let encrypted = encrypt_token(&KEY, token).unwrap();
    assert_eq!(encrypted.len(), NONCE_LEN + token.len() + 16);
    assert_eq!(decrypt_token(&KEY, &encrypted).unwrap(), token);
    let unicode = "jeton-é-🔑";
    let e = encrypt_token(&KEY, unicode).unwrap();
    assert_eq!(decrypt_token(&KEY, &e).unwrap(), unicode);
    let empty = encrypt_token(&KEY, "").unwrap();
    assert_eq!(decrypt_token(&KEY, &empty).unwrap(), "");
}

#[test]
fn two_encryptions_use_fresh_nonces() {
    let a = encrypt_token(&KEY, "same").unwrap();
    let b = encrypt_token(&KEY, "same").unwrap();
    assert_ne!(a[..NONCE_LEN], b[..NONCE_LEN]);
}

#[test]
fn bad_ciphertexts_are_refused() {
    assert_eq!(decrypt_token(&KEY, &[1, 2, 3]), Err(UserServiceError::EncryptionError));
    let mut e = encrypt_token(&KEY, "token").unwrap();
    let last = e.len() - 1;
    e[last] ^= 1;
    assert_eq!(decrypt_token(&KEY, &e), Err(UserServiceError::EncryptionError));
    let e = encrypt_token(&KEY, "token").unwrap();
    assert_eq!(decrypt_token(&[8u8; 32], &e), Err(UserServiceError::EncryptionError));
}

#[test]
fn error_messages() {
    assert_eq!(AuthError::SessionExpired.message(), "Session has expired");
    assert_eq!(UserError::UpdateFailed("boom".to_string()).message(), "Failed to update user: boom");
    assert_eq!(
        PermissionError::MissingPermission("edit".to_string()).message(),
        "User lacks permission 'edit' in this workspace"
    );
    assert_eq!(WorkspaceError::DeletionFailed("x".to_string()).message(), "Cannot delete workspace: x");
    assert_eq!(EncryptionError::InvalidNonce.message(), "Invalid or missing nonce");
    assert_eq!(DatabaseError::QueryFailed("q".to_string()).message(), "Database query failed: q");
    assert_eq!(Error::Db("down".to_string()).message(), "database error: down");
    assert_eq!(Error::from(AuthError::IpMismatch).message(), "authentication error: IP address mismatch with session");
    assert_eq!(Error::from(UserError::NotFound).message(), "user error: User does not exist");
    assert_eq!(Error::from(PermissionError::AdminRequired).message(), "permission error: Admin role required");
    assert_eq!(Error::from(WorkspaceError::NameTaken).message(), "workspace error: Workspace name already exists");
    assert_eq!(Error::from(EncryptionError::InvalidKey).message(), "encryption error: Invalid encryption key");
    assert_eq!(Error::from(DatabaseError::DuplicateEntry).message(), "database error: Duplicate entry in database");
    assert_eq!(UserServiceError::BrokenToken.message(), "broken");
}

fn sample_field() -> Field {
    Field::from_insert(InsertField {
        name: "price".to_string(),
        description: None,
        is_primary: false,
        is_nullable: true,
        is_unique: false,
        config: FieldKind::Number(Numerical::Number),
    })
}

#[test]
fn fields_are_made_and_patched() {
    let mut f = sample_field();
    assert!(f.id.is_none());
    assert!(!f.is_deleted);
    assert_eq!(f.name, "price");
    f.apply_patch(FieldPatch {
        name: Some("cost".to_string()),
        description: Some("in cents".to_string()),
        is_primary: None,
        is_nullable: Some(false),
        is_unique: None,
        config: Some(FieldKind::Text(TextBased::Email)),
    });
    assert_eq!(f.name, "cost");
    assert_eq!(f.description.as_deref(), Some("in cents"));
    assert!(!f.is_nullable);
    assert!(!f.is_primary);
    assert!(matches!(f.config, FieldKind::Text(TextBased::Email)));
    let before = (f.name.clone(), f.description.clone(), f.created_at);
    f.apply_patch(FieldPatch { name: None, description: None, is_primary: None, is_nullable: None, is_unique: None, config: None });
    assert_eq!((f.name.clone(), f.description.clone(), f.created_at), before);
}

#[test]
fn bases_are_made_unsaved() {
    let b = Base::from_insert(InsertBase { name: "Sales".to_string(), owner: UserId("u1".to_string()) });
    assert!(b.id.is_none() && b.created_at.is_none() && b.updated_at.is_none());
    assert!(!b.is_deleted);
    assert_eq!(b.name, "Sales");
    assert_eq!(b.owner, UserId("u1".to_string()));
    let _ = BaseId("b".to_string());
}

fn sample_user(id: Option<&str>) -> User {
    User {
        id: id.map(|s| UserId(s.to_string())),
        first_name: "Ada".to_string(),
        last_name: "Lovelace".to_string(),
        email: "ada@example.com".to_string(),
        role: "admin".to_string(),
        is_deleted: false,
        created_at: None,
        updated_at: None,
    }
}

#[test]
fn users_cannot_delete_themselves() {
    let mut s = UserService { user: sample_user(Some("u1")) };
    let r = s.apply_self_patch(UserPatch {
        first_name: Some("Augusta".to_string()),
        last_name: None,
        email: None,
        is_deleted: Some(true),
    });
    assert_eq!(r.unwrap(), UserId("u1".to_string()));
    assert_eq!(s.user.first_name, "Augusta");
    assert_eq!(s.user.last_name, "Lovelace");
    assert!(!s.user.is_deleted);
    let mut s = UserService { user: sample_user(None) };
    let r = s.apply_self_patch(UserPatch { first_name: None, last_name: None, email: Some("x@y.z".to_string()), is_deleted: None });
    assert_eq!(r.err(), Some(UserServiceError::UserNonExistant));
    assert_eq!(s.user.email, "x@y.z");
}

#[test]
fn names_are_approved() {
    assert!(approved("valid_name"));
    assert!(approved("a"));
    assert!(approved("exactly_twenty_chars"));
    assert!(!approved(""));
    assert!(!approved("too_long_name_that_exceeds_thirty_characters"));
    assert!(!approved("héllo"));
    assert!(!approved("invalid!char"));
    assert!(approved("My-Base_2"));
    assert!(approved("two words"));
    assert!(approved("a.b"));
    assert!(!approved("!"));
}

#[test]
fn pagination_defaults() {
    assert_eq!(PaginationParams { offset: None, limit: None }.resolve(), (50, 0));
    assert_eq!(PaginationParams { offset: Some(20), limit: Some(10) }.resolve(), (10, 20));
}

#[test]
fn merge_query_lists_changed_cells() {
    let p = RecordPatch { changed_cells: None };
    assert_eq!(p.merge_query(), "UPDATE $record_id SET updated_at = time::now();");
    let p = RecordPatch { changed_cells: Some(vec![]) };
    assert_eq!(p.merge_query(), "UPDATE $record_id SET  , updated_at = time::now();");
}

#[test]
fn migration_counts_and_warning() {
    let c = migration_counts(&vec![Some(true), None, Some(false), Some(true), Some(false)]);
    assert_eq!((c.affected_records, c.successful_records, c.failed_records), (5, 3, 2));
    let c = migration_counts(&vec![]);
    assert_eq!((c.affected_records, c.successful_records, c.failed_records), (0, 0, 0));
    assert_eq!(migration_warning(2, 5), "2 out of 5 records will fail conversion");
}
