//! Users, their sessions, and what a user may change of their own account.

use crate::ids::UserId;
use crate::time::Datetime;
use vstd::prelude::*;

verus! {

/// A session presented by a browser: its token and where it comes from.
pub struct SessionI {
    pub token: String,
    pub ip: String,
    pub agent: String,
}

/// How a user proves who they are: a token of the outside identity
/// provider, or a session opened earlier.
pub enum AuthMethod {
    HCA(String),
    Session(SessionI),
}

/// Why a user operation failed.
#[derive(Debug, PartialEq, Eq, Structural)]
pub enum UserServiceError {
    UserAlreadyExists,
    SessionTokenNonExistant,
    UserNonExistant,
    NotEnoughPermission,
    BrokenToken,
    EncryptionError,
}

impl UserServiceError {
    /// The message that describes this error.
    pub open spec fn spec_message(self) -> Seq<char> {
        match self {
            UserServiceError::UserAlreadyExists => "the user already exists"@,
            UserServiceError::SessionTokenNonExistant => "the session token doesnt exist"@,
            UserServiceError::UserNonExistant => "the user doesnt exist"@,
            UserServiceError::NotEnoughPermission => "the user dont have enough permission"@,
            UserServiceError::BrokenToken => "broken"@,
            UserServiceError::EncryptionError => "encryption error"@,
        }
    }

    /// The message that describes this error.
    pub fn message(&self) -> (r: String)
        ensures
            r@ == self.spec_message(),
    {
        match self {
            UserServiceError::UserAlreadyExists => "the user already exists".to_owned(),
            UserServiceError::SessionTokenNonExistant => "the session token doesnt exist".to_owned(),
            UserServiceError::UserNonExistant => "the user doesnt exist".to_owned(),
            UserServiceError::NotEnoughPermission => "the user dont have enough permission".to_owned(),
            UserServiceError::BrokenToken => "broken".to_owned(),
            UserServiceError::EncryptionError => "encryption error".to_owned(),
        }
    }
}

/// A user account.
pub struct User {
    pub id: Option<UserId>,
    pub first_name: String,
    pub last_name: String,
    pub email: String,
    pub role: String,
    pub is_deleted: bool,
    pub created_at: Option<Datetime>,
    pub updated_at: Option<Datetime>,
}

/// A change to a user account: each present setting replaces the user's own.
pub struct UserPatch {
    pub first_name: Option<String>,
    pub last_name: Option<String>,
    pub email: Option<String>,
    pub is_deleted: Option<bool>,
}

/// The user `u` after the patch `p`.
pub open spec fn user_patched(u: User, p: UserPatch) -> User {
    User {
        first_name: match p.first_name {
            Some(v) => v,
            None => u.first_name,
        },
        last_name: match p.last_name {
            Some(v) => v,
            None => u.last_name,
        },
        email: match p.email {
            Some(v) => v,
            None => u.email,
        },
        is_deleted: match p.is_deleted {
            Some(v) => v,
            None => u.is_deleted,
        },
        ..u
    }
}

/// The patch a user may apply to their own account: the same patch, except
/// that it can never mark the account deleted.
pub open spec fn self_patch(p: UserPatch) -> UserPatch {
    UserPatch {
        is_deleted: if p.is_deleted == Some(true) {
            Some(false)
        } else {
            p.is_deleted
        },
        ..p
    }
}

impl User {
    /// Apply a patch: each setting present in it replaces the user's own.
    pub fn apply_patch(&mut self, patch: UserPatch)
        ensures
            *final(self) == user_patched(*old(self), patch),
    {
        let UserPatch { first_name, last_name, email, is_deleted } = patch;
        if let Some(v) = first_name {
            self.first_name = v;
        }
        if let Some(v) = last_name {
            self.last_name = v;
        }
        if let Some(v) = email {
            self.email = v;
        }
        if let Some(v) = is_deleted {
            self.is_deleted = v;
        }
    }
}

/// The services of one signed-in user.
pub struct UserService {
    pub user: User,
}

impl UserService {
    /// Apply a change that the user makes to their own account and give
    /// the key of the account to store it under.  A user cannot delete their
    /// own account this way, so a deletion in the patch is turned into a
    /// restoration; an account without a key is reported as not existing.
    pub fn apply_self_patch(&mut self, patch: UserPatch) -> (r: Result<UserId, UserServiceError>)
        ensures
            final(self).user == user_patched(old(self).user, self_patch(patch)),
            patch.first_name matches Some(v) ==> final(self).user.first_name == v,
            patch.first_name is None ==> final(self).user.first_name == old(self).user.first_name,
            patch.last_name matches Some(v) ==> final(self).user.last_name == v,
            patch.last_name is None ==> final(self).user.last_name == old(self).user.last_name,
            patch.email matches Some(v) ==> final(self).user.email == v,
            patch.email is None ==> final(self).user.email == old(self).user.email,
            patch.is_deleted is Some ==> !final(self).user.is_deleted,
            patch.is_deleted is None ==> final(self).user.is_deleted == old(self).user.is_deleted,
            final(self).user.id == old(self).user.id,
            match old(self).user.id {
                Some(id) => r == Ok::<UserId, UserServiceError>(id),
                None => r == Err::<UserId, UserServiceError>(UserServiceError::UserNonExistant),
            },
    {
        let mut patch = patch;
        if patch.is_deleted == Some(true) {
            patch.is_deleted = Some(false);
        }
        self.user.apply_patch(patch);
        match &self.user.id {
            Some(id) => Ok(UserId(id.0.clone())),
            None => Err(UserServiceError::UserNonExistant),
        }
    }
}

/// A user's own change never leaves the account deleted when it was not.
pub proof fn lemma_self_patch_never_deletes(u: User, p: UserPatch)
    requires
        !u.is_deleted,
    ensures
        !user_patched(u, self_patch(p)).is_deleted,
{
}

/// Each setting present in a patch replaces the user's own, and each
/// absent one keeps it; the key, role and time stamps never change.
pub proof fn lemma_user_patch_replaces(u: User, p: UserPatch)
    ensures
        p.first_name matches Some(v) ==> user_patched(u, p).first_name == v,
        p.first_name is None ==> user_patched(u, p).first_name == u.first_name,
        p.last_name matches Some(v) ==> user_patched(u, p).last_name == v,
        p.last_name is None ==> user_patched(u, p).last_name == u.last_name,
        p.email matches Some(v) ==> user_patched(u, p).email == v,
        p.email is None ==> user_patched(u, p).email == u.email,
        p.is_deleted matches Some(b) ==> user_patched(u, p).is_deleted == b,
        p.is_deleted is None ==> user_patched(u, p).is_deleted == u.is_deleted,
        user_patched(u, p).id == u.id,
        user_patched(u, p).role == u.role,
        user_patched(u, p).created_at == u.created_at,
        user_patched(u, p).updated_at == u.updated_at,
{
}

} // verus!
