//! Errors of the services and the messages that describe them.

use crate::text::{joined, joined3};
use vstd::prelude::*;

verus! {

/// Why a user could not be authenticated.
#[derive(Debug)]
pub enum AuthError {
    InvalidToken,
    TokenExpired,
    VerificationFailed,
    BrokenAuthResponse,
    SessionNotFound,
    SessionExpired,
    IpMismatch,
    UserAgentMismatch,
}

impl AuthError {
    /// The message that describes this error.
    pub open spec fn spec_message(self) -> Seq<char> {
        match self {
            AuthError::InvalidToken => "Invalid or expired authentication token"@,
            AuthError::TokenExpired => "Authentication token has expired"@,
            AuthError::VerificationFailed => "Failed to verify authentication credentials"@,
            AuthError::BrokenAuthResponse => "Broken or malformed authentication response"@,
            AuthError::SessionNotFound => "Session token does not exist"@,
            AuthError::SessionExpired => "Session has expired"@,
            AuthError::IpMismatch => "IP address mismatch with session"@,
            AuthError::UserAgentMismatch => "User agent mismatch with session"@,
        }
    }

    /// The message that describes this error.
    pub fn message(&self) -> (r: String)
        ensures
            r@ == self.spec_message(),
    {
        match self {
            AuthError::InvalidToken => "Invalid or expired authentication token".to_owned(),
            AuthError::TokenExpired => "Authentication token has expired".to_owned(),
            AuthError::VerificationFailed => "Failed to verify authentication credentials".to_owned(),
            AuthError::BrokenAuthResponse => "Broken or malformed authentication response".to_owned(),
            AuthError::SessionNotFound => "Session token does not exist".to_owned(),
            AuthError::SessionExpired => "Session has expired".to_owned(),
            AuthError::IpMismatch => "IP address mismatch with session".to_owned(),
            AuthError::UserAgentMismatch => "User agent mismatch with session".to_owned(),
        }
    }
}

/// Why an operation on a user failed.
#[derive(Debug)]
pub enum UserError {
    NotFound,
    AlreadyExists,
    Deleted,
    UpdateFailed(String),
    CannotDeleteSelf,
}

impl UserError {
    /// The message that describes this error.
    pub open spec fn spec_message(self) -> Seq<char> {
        match self {
            UserError::NotFound => "User does not exist"@,
            UserError::AlreadyExists => "User already exists"@,
            UserError::Deleted => "User account has been deleted"@,
            UserError::UpdateFailed(s) => "Failed to update user: "@ + s@,
            UserError::CannotDeleteSelf => "Cannot delete self"@,
        }
    }

    /// The message that describes this error.
    pub fn message(&self) -> (r: String)
        ensures
            r@ == self.spec_message(),
    {
        match self {
            UserError::NotFound => "User does not exist".to_owned(),
            UserError::AlreadyExists => "User already exists".to_owned(),
            UserError::Deleted => "User account has been deleted".to_owned(),
            UserError::UpdateFailed(s) => joined("Failed to update user: ", s.as_str()),
            UserError::CannotDeleteSelf => "Cannot delete self".to_owned(),
        }
    }
}

/// Why a user may not do something.
#[derive(Debug)]
pub enum PermissionError {
    Insufficient,
    AdminRequired,
    OwnerRequired,
    MissingPermission(String),
}

impl PermissionError {
    /// The message that describes this error.
    pub open spec fn spec_message(self) -> Seq<char> {
        match self {
            PermissionError::Insufficient => "Insufficient permissions for this operation"@,
            PermissionError::AdminRequired => "Admin role required"@,
            PermissionError::OwnerRequired => "Workspace owner permissions required"@,
            PermissionError::MissingPermission(s) => "User lacks permission '"@ + s@ + "' in this workspace"@,
        }
    }

    /// The message that describes this error.
    pub fn message(&self) -> (r: String)
        ensures
            r@ == self.spec_message(),
    {
        match self {
            PermissionError::Insufficient => "Insufficient permissions for this operation".to_owned(),
            PermissionError::AdminRequired => "Admin role required".to_owned(),
            PermissionError::OwnerRequired => "Workspace owner permissions required".to_owned(),
            PermissionError::MissingPermission(s) => joined3("User lacks permission '", s.as_str(), "' in this workspace"),
        }
    }
}

/// Why an operation on a workspace failed.
#[derive(Debug)]
pub enum WorkspaceError {
    NotFound,
    Deleted,
    DeletionFailed(String),
    NameTaken,
    UserRelationshipFailed,
}

impl WorkspaceError {
    /// The message that describes this error.
    pub open spec fn spec_message(self) -> Seq<char> {
        match self {
            WorkspaceError::NotFound => "Workspace does not exist"@,
            WorkspaceError::Deleted => "Workspace has been deleted"@,
            WorkspaceError::DeletionFailed(s) => "Cannot delete workspace: "@ + s@,
            WorkspaceError::NameTaken => "Workspace name already exists"@,
            WorkspaceError::UserRelationshipFailed => "Failed to create workspace user relationship"@,
        }
    }

    /// The message that describes this error.
    pub fn message(&self) -> (r: String)
        ensures
            r@ == self.spec_message(),
    {
        match self {
            WorkspaceError::NotFound => "Workspace does not exist".to_owned(),
            WorkspaceError::Deleted => "Workspace has been deleted".to_owned(),
            WorkspaceError::DeletionFailed(s) => joined("Cannot delete workspace: ", s.as_str()),
            WorkspaceError::NameTaken => "Workspace name already exists".to_owned(),
            WorkspaceError::UserRelationshipFailed => "Failed to create workspace user relationship".to_owned(),
        }
    }
}

/// Why encrypting or decrypting failed.
#[derive(Debug)]
pub enum EncryptionError {
    EncryptionFailed,
    DecryptionFailed,
    InvalidKey,
    InvalidNonce,
    AuthenticationFailed,
}

impl EncryptionError {
    /// The message that describes this error.
    pub open spec fn spec_message(self) -> Seq<char> {
        match self {
            EncryptionError::EncryptionFailed => "Failed to encrypt data"@,
            EncryptionError::DecryptionFailed => "Failed to decrypt data"@,
            EncryptionError::InvalidKey => "Invalid encryption key"@,
            EncryptionError::InvalidNonce => "Invalid or missing nonce"@,
            EncryptionError::AuthenticationFailed => "Encryption authentication failed - data may be corrupted"@,
        }
    }

    /// The message that describes this error.
    pub fn message(&self) -> (r: String)
        ensures
            r@ == self.spec_message(),
    {
        match self {
            EncryptionError::EncryptionFailed => "Failed to encrypt data".to_owned(),
            EncryptionError::DecryptionFailed => "Failed to decrypt data".to_owned(),
            EncryptionError::InvalidKey => "Invalid encryption key".to_owned(),
            EncryptionError::InvalidNonce => "Invalid or missing nonce".to_owned(),
            EncryptionError::AuthenticationFailed => "Encryption authentication failed - data may be corrupted".to_owned(),
        }
    }
}

/// Why a database operation failed.
#[derive(Debug)]
pub enum DatabaseError {
    QueryFailed(String),
    TransactionFailed(String),
    SerializationError,
    InvalidRecordId,
    DuplicateEntry,
}

impl DatabaseError {
    /// The message that describes this error.
    pub open spec fn spec_message(self) -> Seq<char> {
        match self {
            DatabaseError::QueryFailed(s) => "Database query failed: "@ + s@,
            DatabaseError::TransactionFailed(s) => "Transaction failed: "@ + s@,
            DatabaseError::SerializationError => "Data serialization/deserialization error"@,
            DatabaseError::InvalidRecordId => "Invalid record ID"@,
            DatabaseError::DuplicateEntry => "Duplicate entry in database"@,
        }
    }

    /// The message that describes this error.
    pub fn message(&self) -> (r: String)
        ensures
            r@ == self.spec_message(),
    {
        match self {
            DatabaseError::QueryFailed(s) => joined("Database query failed: ", s.as_str()),
            DatabaseError::TransactionFailed(s) => joined("Transaction failed: ", s.as_str()),
            DatabaseError::SerializationError => "Data serialization/deserialization error".to_owned(),
            DatabaseError::InvalidRecordId => "Invalid record ID".to_owned(),
            DatabaseError::DuplicateEntry => "Duplicate entry in database".to_owned(),
        }
    }
}

/// Any error of the services.
#[derive(Debug)]
pub enum Error {
    Db(String),
    Auth(AuthError),
    User(UserError),
    Permission(PermissionError),
    Workspace(WorkspaceError),
    Encryption(EncryptionError),
    Database(DatabaseError),
}

impl Error {
    /// The message that describes this error: its family, then the message
    /// of the error inside.
    pub open spec fn spec_message(self) -> Seq<char> {
        match self {
            Error::Db(s) => "database error: "@ + s@,
            Error::Auth(e) => "authentication error: "@ + e.spec_message(),
            Error::User(e) => "user error: "@ + e.spec_message(),
            Error::Permission(e) => "permission error: "@ + e.spec_message(),
            Error::Workspace(e) => "workspace error: "@ + e.spec_message(),
            Error::Encryption(e) => "encryption error: "@ + e.spec_message(),
            Error::Database(e) => "database error: "@ + e.spec_message(),
        }
    }

    /// The message that describes this error.
    pub fn message(&self) -> (r: String)
        ensures
            r@ == self.spec_message(),
    {
        match self {
            Error::Db(s) => joined("database error: ", s.as_str()),
            Error::Auth(e) => joined("authentication error: ", e.message().as_str()),
            Error::User(e) => joined("user error: ", e.message().as_str()),
            Error::Permission(e) => joined("permission error: ", e.message().as_str()),
            Error::Workspace(e) => joined("workspace error: ", e.message().as_str()),
            Error::Encryption(e) => joined("encryption error: ", e.message().as_str()),
            Error::Database(e) => joined("database error: ", e.message().as_str()),
        }
    }
}

impl From<AuthError> for Error {
    fn from(e: AuthError) -> (r: Error) {
        Error::Auth(e)
    }
}

impl vstd::std_specs::convert::FromSpecImpl<AuthError> for Error {
    open spec fn obeys_from_spec() -> bool {
        true
    }

    open spec fn from_spec(e: AuthError) -> Error {
        Error::Auth(e)
    }
}

impl From<UserError> for Error {
    fn from(e: UserError) -> (r: Error) {
        Error::User(e)
    }
}

impl vstd::std_specs::convert::FromSpecImpl<UserError> for Error {
    open spec fn obeys_from_spec() -> bool {
        true
    }

    open spec fn from_spec(e: UserError) -> Error {
        Error::User(e)
    }
}

impl From<PermissionError> for Error {
    fn from(e: PermissionError) -> (r: Error) {
        Error::Permission(e)
    }
}

impl vstd::std_specs::convert::FromSpecImpl<PermissionError> for Error {
    open spec fn obeys_from_spec() -> bool {
        true
    }

    open spec fn from_spec(e: PermissionError) -> Error {
        Error::Permission(e)
    }
}

impl From<WorkspaceError> for Error {
    fn from(e: WorkspaceError) -> (r: Error) {
        Error::Workspace(e)
    }
}

impl vstd::std_specs::convert::FromSpecImpl<WorkspaceError> for Error {
    open spec fn obeys_from_spec() -> bool {
        true
    }

    open spec fn from_spec(e: WorkspaceError) -> Error {
        Error::Workspace(e)
    }
}

impl From<EncryptionError> for Error {
    fn from(e: EncryptionError) -> (r: Error) {
        Error::Encryption(e)
    }
}

impl vstd::std_specs::convert::FromSpecImpl<EncryptionError> for Error {
    open spec fn obeys_from_spec() -> bool {
        true
    }

    open spec fn from_spec(e: EncryptionError) -> Error {
        Error::Encryption(e)
    }
}

impl From<DatabaseError> for Error {
    fn from(e: DatabaseError) -> (r: Error) {
        Error::Database(e)
    }
}

impl vstd::std_specs::convert::FromSpecImpl<DatabaseError> for Error {
    open spec fn obeys_from_spec() -> bool {
        true
    }

    open spec fn from_spec(e: DatabaseError) -> Error {
        Error::Database(e)
    }
}

} // verus!
