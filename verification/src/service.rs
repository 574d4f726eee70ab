//! Shared rules of the services, and the services that hold a signed-in
//! user's context.

use crate::ids::{UserId, WorkspaceId, WorkspaceUserId};
use vstd::prelude::*;
use crate::text::chars_of;

verus! {

/// Is `name` acceptable as a short name: not empty, ASCII only, at most 20
/// characters (one byte each), and without `!`?
pub open spec fn approved_name(name: Seq<char>) -> bool {
    &&& 0 < name.len() <= 20
    &&& forall|i: int| 0 <= i < name.len() ==> (#[trigger] name[i] as u32) < 128 && name[i] != '!'
}

/// Is `string` acceptable as a short name: not empty, ASCII only, at most
/// 20 bytes long, and without `!`?  An ASCII string has one byte per
/// character, so that is at most 20 characters.
pub fn approved(string: &str) -> (r: bool)
    ensures
        r == approved_name(string@),
{
    let chars = chars_of(string);
    if chars.len() == 0 || chars.len() > 20 {
        return false;
    }
    let mut i: usize = 0;
    while i < chars.len()
        invariant
            chars@ == string@,
            i <= chars.len(),
            forall|j: int| 0 <= j < i ==> (#[trigger] chars@[j] as u32) < 128 && chars@[j] != '!',
        decreases chars.len() - i,
    {
        let c = chars[i];
        if (c as u32) >= 128 || c == '!' {
            return false;
        }
        i = i + 1;
    }
    true
}

/// The service behind the API tokens.
#[derive(Debug)]
pub struct ApiService {}

/// A workspace.
pub struct Workspace {
    pub id: Option<WorkspaceId>,
    pub name: String,
    pub owner: UserId,
    pub is_deleted: bool,
}

/// The membership of a user in a workspace.
pub struct WorkspaceUser {
    pub id: Option<WorkspaceUserId>,
    pub user: UserId,
    pub workspace: WorkspaceId,
}

/// The services of one member of one workspace.
pub struct WorkspaceService {
    pub workspace_user: WorkspaceUser,
    pub workspace_user_record_id: WorkspaceUserId,
    pub workspace: Workspace,
    pub workspace_record_id: WorkspaceId,
}

} // verus!
