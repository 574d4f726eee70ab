//! Bases: named groups of tables inside a workspace, each with one owner.
//!
//! Only authorized users of the parent workspace (typically the owner or
//! admins) may modify or soft-delete a base.

use crate::ids::{BaseId, UserId};
use crate::time::Datetime;
use vstd::prelude::*;

verus! {

/// A base.
#[derive(Debug, Clone, PartialEq)]
pub struct Base {
    pub id: Option<BaseId>,
    pub created_at: Option<Datetime>,
    pub updated_at: Option<Datetime>,
    pub is_deleted: bool,
    pub owner: UserId,
    pub name: String,
}

/// What a new base is made from.
#[derive(Debug, Clone)]
pub struct InsertBase {
    pub name: String,
    pub owner: UserId,
}

/// A change to a base.
#[derive(Debug, Clone)]
pub struct BasePatch {
    pub is_deleted: Option<bool>,
    pub name: Option<String>,
}

impl Base {
    /// A new base made from `insert`: not yet stored (no id and no time
    /// stamps) and not deleted.
    pub fn from_insert(insert: InsertBase) -> (b: Base)
        ensures
            b.id is None,
            b.created_at is None,
            b.updated_at is None,
            !b.is_deleted,
            b.name == insert.name,
            b.owner == insert.owner,
    {
        Base {
            id: None,
            created_at: None,
            updated_at: None,
            is_deleted: false,
            name: insert.name,
            owner: insert.owner,
        }
    }
}

} // verus!
