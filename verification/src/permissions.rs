//! Permission masks.
//!
//! Each kind of permission is a set of flags held as the bits of a `u32`
//! mask; flag number `k` is bit `1 << k`.  A user's permissions are kept
//! per workspace, per base, per table, per field and per record.

use std::collections::HashMap;

use crate::ids::{BaseId, FieldId, RecordId, TableId, WorkspaceUserId};
use vstd::prelude::*;

verus! {

/// The mask holds every bit of `bits`.
pub open spec fn mask_contains(mask: u32, bits: u32) -> bool {
    mask & bits == bits
}

/// The mask with `bits` added.
pub open spec fn mask_set(mask: u32, bits: u32) -> u32 {
    mask | bits
}

/// The mask with `bits` removed.
pub open spec fn mask_unset(mask: u32, bits: u32) -> u32 {
    mask & !bits
}

proof fn lemma_bit_nonzero(i: u32)
    requires
        i < 32,
    ensures
        1u32 << i != 0,
{
    assert(i < 32 ==> 1u32 << i != 0) by (bit_vector);
}

proof fn lemma_distinct_bits(i: u32, j: u32)
    requires
        i < 32,
        j < 32,
        i != j,
    ensures
        (1u32 << i) & (1u32 << j) == 0,
{
    assert(i < 32 && j < 32 && i != j ==> (1u32 << i) & (1u32 << j) == 0) by (bit_vector);
}

/// After adding a flag, the mask holds it.
pub proof fn lemma_set_then_contains(mask: u32, bits: u32)
    ensures
        mask_contains(mask_set(mask, bits), bits),
{
    assert((mask | bits) & bits == bits) by (bit_vector);
}

/// After removing a non-empty flag, the mask no longer holds it.
pub proof fn lemma_unset_then_not_contains(mask: u32, bits: u32)
    requires
        bits != 0,
    ensures
        !mask_contains(mask_unset(mask, bits), bits),
{
    assert(bits != 0 ==> (mask & !bits) & bits != bits) by (bit_vector);
}

/// Adding a flag keeps every flag the mask already held.
pub proof fn lemma_set_keeps_others(mask: u32, bits: u32, other: u32)
    requires
        mask_contains(mask, other),
    ensures
        mask_contains(mask_set(mask, bits), other),
{
    assert(mask & other == other ==> (mask | bits) & other == other) by (bit_vector);
}

/// Removing a flag leaves every flag with other bits as it was.
pub proof fn lemma_unset_keeps_disjoint(mask: u32, bits: u32, other: u32)
    requires
        bits & other == 0,
    ensures
        mask_contains(mask_unset(mask, bits), other) == mask_contains(mask, other),
{
    assert(bits & other == 0 ==> (((mask & !bits) & other == other) == (mask & other == other)))
        by (bit_vector);
}

/// Adding a flag twice is the same as adding it once.
pub proof fn lemma_set_idempotent(mask: u32, bits: u32)
    ensures
        mask_set(mask_set(mask, bits), bits) == mask_set(mask, bits),
{
    assert((mask | bits) | bits == mask | bits) by (bit_vector);
}

/// Removing a flag that was just added to a mask without it gives the
/// mask back.
pub proof fn lemma_unset_undoes_set(mask: u32, bits: u32)
    requires
        mask & bits == 0,
    ensures
        mask_unset(mask_set(mask, bits), bits) == mask,
{
    assert(mask & bits == 0 ==> (mask | bits) & !bits == mask) by (bit_vector);
}

/// Toggling a flag twice gives the mask back.
pub proof fn lemma_toggle_twice(mask: u32, bits: u32)
    ensures
        (mask ^ bits) ^ bits == mask,
{
    assert((mask ^ bits) ^ bits == mask) by (bit_vector);
}

/// One permission on a workspace; each flag is one bit of a [`WorkspacePermissions`] mask.
#[derive(Clone, Copy, Debug, PartialEq, Eq, Structural)]
pub enum WorkspacePermission {
    Edit,
    Delete,
    ManageRoles,
    ManageUsers,
    ExportData,
    ManageIntegrations,
    ViewAuditLogs,
}

impl WorkspacePermission {
    /// The position of this flag's bit in a mask.
    pub open spec fn spec_index(self) -> u32 {
        match self {
            WorkspacePermission::Edit => 0u32,
            WorkspacePermission::Delete => 1u32,
            WorkspacePermission::ManageRoles => 2u32,
            WorkspacePermission::ManageUsers => 3u32,
            WorkspacePermission::ExportData => 4u32,
            WorkspacePermission::ManageIntegrations => 5u32,
            WorkspacePermission::ViewAuditLogs => 6u32,
        }
    }

    /// The bit of this flag in a mask.
    pub open spec fn spec_bit(self) -> u32 {
        1u32 << self.spec_index()
    }

    /// The bit of this flag in a mask.
    pub fn bit(&self) -> (b: u32)
        ensures
            b == self.spec_bit(),
            b != 0,
    {
        let i: u32 = match self {
            WorkspacePermission::Edit => 0,
            WorkspacePermission::Delete => 1,
            WorkspacePermission::ManageRoles => 2,
            WorkspacePermission::ManageUsers => 3,
            WorkspacePermission::ExportData => 4,
            WorkspacePermission::ManageIntegrations => 5,
            WorkspacePermission::ViewAuditLogs => 6,
        };
        proof { lemma_bit_nonzero(i); }
        1u32 << i
    }
}

/// Two different [`WorkspacePermission`] flags occupy different bits.
pub proof fn lemma_workspace_permission_bits_disjoint(a: WorkspacePermission, b: WorkspacePermission)
    requires
        a != b,
    ensures
        a.spec_bit() & b.spec_bit() == 0,
{
    lemma_distinct_bits(a.spec_index(), b.spec_index());
}

/// A set of [`WorkspacePermission`] flags held as the bits of a `u32`.
#[derive(Clone, Copy, Debug, PartialEq, Eq, Structural)]
pub struct WorkspacePermissions {
    pub mask: u32,
}

impl WorkspacePermissions {
    /// Every flag of this kind of mask.
    pub open spec fn spec_all_bits() -> u32 { 0x7fu32 }

    /// The empty mask.
    pub fn none() -> (m: Self)
        ensures
            m.mask == 0,
    {
        WorkspacePermissions { mask: 0 }
    }

    /// The mask holding every flag.
    pub fn all() -> (m: Self)
        ensures
            m.mask == Self::spec_all_bits(),
    {
        WorkspacePermissions { mask: 0x7f }
    }

    /// The mask with exactly these bits.
    pub fn from_bits(mask: u32) -> (m: Self)
        ensures
            m.mask == mask,
    {
        WorkspacePermissions { mask }
    }

    /// The bits of this mask.
    pub fn bits(&self) -> (b: u32)
        ensures
            b == self.mask,
    {
        self.mask
    }

    /// Does the mask hold the flag?
    pub fn contains(&self, flag: WorkspacePermission) -> (r: bool)
        ensures
            r == mask_contains(self.mask, flag.spec_bit()),
    {
        let b = flag.bit();
        (self.mask & b) == b
    }

    /// Add the flag to the mask.
    pub fn set(&mut self, flag: WorkspacePermission)
        ensures
            final(self).mask == mask_set(old(self).mask, flag.spec_bit()),
    {
        self.mask = self.mask | flag.bit();
    }

    /// Remove the flag from the mask.
    pub fn unset(&mut self, flag: WorkspacePermission)
        ensures
            final(self).mask == mask_unset(old(self).mask, flag.spec_bit()),
    {
        self.mask = self.mask & !flag.bit();
    }

    /// Flip the flag in the mask.
    pub fn toggle(&mut self, flag: WorkspacePermission)
        ensures
            final(self).mask == old(self).mask ^ flag.spec_bit(),
    {
        self.mask = self.mask ^ flag.bit();
    }

    /// Is the mask empty?
    pub fn is_none(&self) -> (r: bool)
        ensures
            r == (self.mask == 0),
    {
        self.mask == 0
    }

    /// Does the mask hold every flag of its kind?
    pub fn is_all(&self) -> (r: bool)
        ensures
            r == mask_contains(self.mask, Self::spec_all_bits()),
    {
        (self.mask & 0x7f) == 0x7f
    }
}

/// One permission on the users of a workspace; each flag is one bit of a [`WorkspaceUsersPermissions`] mask.
#[derive(Clone, Copy, Debug, PartialEq, Eq, Structural)]
pub enum WorkspaceUsersPermission {
    Invite,
    Desactivate,
    Activate,
    Ban,
    Promote,
    Demote,
    ViewDeletedUsers,
}

impl WorkspaceUsersPermission {
    /// The position of this flag's bit in a mask.
    pub open spec fn spec_index(self) -> u32 {
        match self {
            WorkspaceUsersPermission::Invite => 0u32,
            WorkspaceUsersPermission::Desactivate => 1u32,
            WorkspaceUsersPermission::Activate => 2u32,
            WorkspaceUsersPermission::Ban => 3u32,
            WorkspaceUsersPermission::Promote => 4u32,
            WorkspaceUsersPermission::Demote => 5u32,
            WorkspaceUsersPermission::ViewDeletedUsers => 6u32,
        }
    }

    /// The bit of this flag in a mask.
    pub open spec fn spec_bit(self) -> u32 {
        1u32 << self.spec_index()
    }

    /// The bit of this flag in a mask.
    pub fn bit(&self) -> (b: u32)
        ensures
            b == self.spec_bit(),
            b != 0,
    {
        let i: u32 = match self {
            WorkspaceUsersPermission::Invite => 0,
            WorkspaceUsersPermission::Desactivate => 1,
            WorkspaceUsersPermission::Activate => 2,
            WorkspaceUsersPermission::Ban => 3,
            WorkspaceUsersPermission::Promote => 4,
            WorkspaceUsersPermission::Demote => 5,
            WorkspaceUsersPermission::ViewDeletedUsers => 6,
        };
        proof { lemma_bit_nonzero(i); }
        1u32 << i
    }
}

/// Two different [`WorkspaceUsersPermission`] flags occupy different bits.
pub proof fn lemma_workspace_users_permission_bits_disjoint(a: WorkspaceUsersPermission, b: WorkspaceUsersPermission)
    requires
        a != b,
    ensures
        a.spec_bit() & b.spec_bit() == 0,
{
    lemma_distinct_bits(a.spec_index(), b.spec_index());
}

/// A set of [`WorkspaceUsersPermission`] flags held as the bits of a `u32`.
#[derive(Clone, Copy, Debug, PartialEq, Eq, Structural)]
pub struct WorkspaceUsersPermissions {
    pub mask: u32,
}

impl WorkspaceUsersPermissions {
    /// Every flag of this kind of mask.
    pub open spec fn spec_all_bits() -> u32 { 0x7fu32 }

    /// The empty mask.
    pub fn none() -> (m: Self)
        ensures
            m.mask == 0,
    {
        WorkspaceUsersPermissions { mask: 0 }
    }

    /// The mask holding every flag.
    pub fn all() -> (m: Self)
        ensures
            m.mask == Self::spec_all_bits(),
    {
        WorkspaceUsersPermissions { mask: 0x7f }
    }

    /// The mask with exactly these bits.
    pub fn from_bits(mask: u32) -> (m: Self)
        ensures
            m.mask == mask,
    {
        WorkspaceUsersPermissions { mask }
    }

    /// The bits of this mask.
    pub fn bits(&self) -> (b: u32)
        ensures
            b == self.mask,
    {
        self.mask
    }

    /// Does the mask hold the flag?
    pub fn contains(&self, flag: WorkspaceUsersPermission) -> (r: bool)
        ensures
            r == mask_contains(self.mask, flag.spec_bit()),
    {
        let b = flag.bit();
        (self.mask & b) == b
    }

    /// Add the flag to the mask.
    pub fn set(&mut self, flag: WorkspaceUsersPermission)
        ensures
            final(self).mask == mask_set(old(self).mask, flag.spec_bit()),
    {
        self.mask = self.mask | flag.bit();
    }

    /// Remove the flag from the mask.
    pub fn unset(&mut self, flag: WorkspaceUsersPermission)
        ensures
            final(self).mask == mask_unset(old(self).mask, flag.spec_bit()),
    {
        self.mask = self.mask & !flag.bit();
    }

    /// Flip the flag in the mask.
    pub fn toggle(&mut self, flag: WorkspaceUsersPermission)
        ensures
            final(self).mask == old(self).mask ^ flag.spec_bit(),
    {
        self.mask = self.mask ^ flag.bit();
    }

    /// Is the mask empty?
    pub fn is_none(&self) -> (r: bool)
        ensures
            r == (self.mask == 0),
    {
        self.mask == 0
    }

    /// Does the mask hold every flag of its kind?
    pub fn is_all(&self) -> (r: bool)
        ensures
            r == mask_contains(self.mask, Self::spec_all_bits()),
    {
        (self.mask & 0x7f) == 0x7f
    }
}

/// One permission on a base; each flag is one bit of a [`BasePermissions`] mask.
#[derive(Clone, Copy, Debug, PartialEq, Eq, Structural)]
pub enum BasePermission {
    View,
    Edit,
    Delete,
    ManageTables,
    ManageViews,
    ManageUsers,
}

impl BasePermission {
    /// The position of this flag's bit in a mask.
    pub open spec fn spec_index(self) -> u32 {
        match self {
            BasePermission::View => 0u32,
            BasePermission::Edit => 1u32,
            BasePermission::Delete => 2u32,
            BasePermission::ManageTables => 3u32,
            BasePermission::ManageViews => 4u32,
            BasePermission::ManageUsers => 5u32,
        }
    }

    /// The bit of this flag in a mask.
    pub open spec fn spec_bit(self) -> u32 {
        1u32 << self.spec_index()
    }

    /// The bit of this flag in a mask.
    pub fn bit(&self) -> (b: u32)
        ensures
            b == self.spec_bit(),
            b != 0,
    {
        let i: u32 = match self {
            BasePermission::View => 0,
            BasePermission::Edit => 1,
            BasePermission::Delete => 2,
            BasePermission::ManageTables => 3,
            BasePermission::ManageViews => 4,
            BasePermission::ManageUsers => 5,
        };
        proof { lemma_bit_nonzero(i); }
        1u32 << i
    }
}

/// Two different [`BasePermission`] flags occupy different bits.
pub proof fn lemma_base_permission_bits_disjoint(a: BasePermission, b: BasePermission)
    requires
        a != b,
    ensures
        a.spec_bit() & b.spec_bit() == 0,
{
    lemma_distinct_bits(a.spec_index(), b.spec_index());
}

/// A set of [`BasePermission`] flags held as the bits of a `u32`.
#[derive(Clone, Copy, Debug, PartialEq, Eq, Structural)]
pub struct BasePermissions {
    pub mask: u32,
}

impl BasePermissions {
    /// Every flag of this kind of mask.
    pub open spec fn spec_all_bits() -> u32 { 0x3fu32 }

    /// The empty mask.
    pub fn none() -> (m: Self)
        ensures
            m.mask == 0,
    {
        BasePermissions { mask: 0 }
    }

    /// The mask holding every flag.
    pub fn all() -> (m: Self)
        ensures
            m.mask == Self::spec_all_bits(),
    {
        BasePermissions { mask: 0x3f }
    }

    /// The mask with exactly these bits.
    pub fn from_bits(mask: u32) -> (m: Self)
        ensures
            m.mask == mask,
    {
        BasePermissions { mask }
    }

    /// The bits of this mask.
    pub fn bits(&self) -> (b: u32)
        ensures
            b == self.mask,
    {
        self.mask
    }

    /// Does the mask hold the flag?
    pub fn contains(&self, flag: BasePermission) -> (r: bool)
        ensures
            r == mask_contains(self.mask, flag.spec_bit()),
    {
        let b = flag.bit();
        (self.mask & b) == b
    }

    /// Add the flag to the mask.
    pub fn set(&mut self, flag: BasePermission)
        ensures
            final(self).mask == mask_set(old(self).mask, flag.spec_bit()),
    {
        self.mask = self.mask | flag.bit();
    }

    /// Remove the flag from the mask.
    pub fn unset(&mut self, flag: BasePermission)
        ensures
            final(self).mask == mask_unset(old(self).mask, flag.spec_bit()),
    {
        self.mask = self.mask & !flag.bit();
    }

    /// Flip the flag in the mask.
    pub fn toggle(&mut self, flag: BasePermission)
        ensures
            final(self).mask == old(self).mask ^ flag.spec_bit(),
    {
        self.mask = self.mask ^ flag.bit();
    }

    /// Is the mask empty?
    pub fn is_none(&self) -> (r: bool)
        ensures
            r == (self.mask == 0),
    {
        self.mask == 0
    }

    /// Does the mask hold every flag of its kind?
    pub fn is_all(&self) -> (r: bool)
        ensures
            r == mask_contains(self.mask, Self::spec_all_bits()),
    {
        (self.mask & 0x3f) == 0x3f
    }
}

/// One permission on a table; each flag is one bit of a [`TablePermissions`] mask.
#[derive(Clone, Copy, Debug, PartialEq, Eq, Structural)]
pub enum TablePermission {
    CreateRecords,
    EditRecords,
    DeleteRecords,
    ViewRecords,
    CreateFields,
    EditFields,
    DeleteFields,
    ViewFields,
    CreateViews,
    EditViews,
    DeleteViews,
    ViewViews,
    Archive,
    Edit,
    Delete,
    View,
    BulkImport,
    LockSchema,
    ExportTable,
}

impl TablePermission {
    /// The position of this flag's bit in a mask.
    pub open spec fn spec_index(self) -> u32 {
        match self {
            TablePermission::CreateRecords => 0u32,
            TablePermission::EditRecords => 1u32,
            TablePermission::DeleteRecords => 2u32,
            TablePermission::ViewRecords => 3u32,
            TablePermission::CreateFields => 4u32,
            TablePermission::EditFields => 5u32,
            TablePermission::DeleteFields => 6u32,
            TablePermission::ViewFields => 7u32,
            TablePermission::CreateViews => 8u32,
            TablePermission::EditViews => 9u32,
            TablePermission::DeleteViews => 10u32,
            TablePermission::ViewViews => 11u32,
            TablePermission::Archive => 12u32,
            TablePermission::Edit => 13u32,
            TablePermission::Delete => 14u32,
            TablePermission::View => 15u32,
            TablePermission::BulkImport => 16u32,
            TablePermission::LockSchema => 17u32,
            TablePermission::ExportTable => 18u32,
        }
    }

    /// The bit of this flag in a mask.
    pub open spec fn spec_bit(self) -> u32 {
        1u32 << self.spec_index()
    }

    /// The bit of this flag in a mask.
    pub fn bit(&self) -> (b: u32)
        ensures
            b == self.spec_bit(),
            b != 0,
    {
        let i: u32 = match self {
            TablePermission::CreateRecords => 0,
            TablePermission::EditRecords => 1,
            TablePermission::DeleteRecords => 2,
            TablePermission::ViewRecords => 3,
            TablePermission::CreateFields => 4,
            TablePermission::EditFields => 5,
            TablePermission::DeleteFields => 6,
            TablePermission::ViewFields => 7,
            TablePermission::CreateViews => 8,
            TablePermission::EditViews => 9,
            TablePermission::DeleteViews => 10,
            TablePermission::ViewViews => 11,
            TablePermission::Archive => 12,
            TablePermission::Edit => 13,
            TablePermission::Delete => 14,
            TablePermission::View => 15,
            TablePermission::BulkImport => 16,
            TablePermission::LockSchema => 17,
            TablePermission::ExportTable => 18,
        };
        proof { lemma_bit_nonzero(i); }
        1u32 << i
    }
}

/// Two different [`TablePermission`] flags occupy different bits.
pub proof fn lemma_table_permission_bits_disjoint(a: TablePermission, b: TablePermission)
    requires
        a != b,
    ensures
        a.spec_bit() & b.spec_bit() == 0,
{
    lemma_distinct_bits(a.spec_index(), b.spec_index());
}

/// A set of [`TablePermission`] flags held as the bits of a `u32`.
#[derive(Clone, Copy, Debug, PartialEq, Eq, Structural)]
pub struct TablePermissions {
    pub mask: u32,
}

impl TablePermissions {
    /// Every flag of this kind of mask.
    pub open spec fn spec_all_bits() -> u32 { 0x7ffffu32 }

    /// The empty mask.
    pub fn none() -> (m: Self)
        ensures
            m.mask == 0,
    {
        TablePermissions { mask: 0 }
    }

    /// The mask holding every flag.
    pub fn all() -> (m: Self)
        ensures
            m.mask == Self::spec_all_bits(),
    {
        TablePermissions { mask: 0x7ffff }
    }

    /// The mask with exactly these bits.
    pub fn from_bits(mask: u32) -> (m: Self)
        ensures
            m.mask == mask,
    {
        TablePermissions { mask }
    }

    /// The bits of this mask.
    pub fn bits(&self) -> (b: u32)
        ensures
            b == self.mask,
    {
        self.mask
    }

    /// Does the mask hold the flag?
    pub fn contains(&self, flag: TablePermission) -> (r: bool)
        ensures
            r == mask_contains(self.mask, flag.spec_bit()),
    {
        let b = flag.bit();
        (self.mask & b) == b
    }

    /// Add the flag to the mask.
    pub fn set(&mut self, flag: TablePermission)
        ensures
            final(self).mask == mask_set(old(self).mask, flag.spec_bit()),
    {
        self.mask = self.mask | flag.bit();
    }

    /// Remove the flag from the mask.
    pub fn unset(&mut self, flag: TablePermission)
        ensures
            final(self).mask == mask_unset(old(self).mask, flag.spec_bit()),
    {
        self.mask = self.mask & !flag.bit();
    }

    /// Flip the flag in the mask.
    pub fn toggle(&mut self, flag: TablePermission)
        ensures
            final(self).mask == old(self).mask ^ flag.spec_bit(),
    {
        self.mask = self.mask ^ flag.bit();
    }

    /// Is the mask empty?
    pub fn is_none(&self) -> (r: bool)
        ensures
            r == (self.mask == 0),
    {
        self.mask == 0
    }

    /// Does the mask hold every flag of its kind?
    pub fn is_all(&self) -> (r: bool)
        ensures
            r == mask_contains(self.mask, Self::spec_all_bits()),
    {
        (self.mask & 0x7ffff) == 0x7ffff
    }
}

/// One permission on a field; each flag is one bit of a [`FieldPermissions`] mask.
#[derive(Clone, Copy, Debug, PartialEq, Eq, Structural)]
pub enum FieldPermission {
    View,
    Edit,
    Delete,
    Comment,
}

impl FieldPermission {
    /// The position of this flag's bit in a mask.
    pub open spec fn spec_index(self) -> u32 {
        match self {
            FieldPermission::View => 0u32,
            FieldPermission::Edit => 1u32,
            FieldPermission::Delete => 2u32,
            FieldPermission::Comment => 3u32,
        }
    }

    /// The bit of this flag in a mask.
    pub open spec fn spec_bit(self) -> u32 {
        1u32 << self.spec_index()
    }

    /// The bit of this flag in a mask.
    pub fn bit(&self) -> (b: u32)
        ensures
            b == self.spec_bit(),
            b != 0,
    {
        let i: u32 = match self {
            FieldPermission::View => 0,
            FieldPermission::Edit => 1,
            FieldPermission::Delete => 2,
            FieldPermission::Comment => 3,
        };
        proof { lemma_bit_nonzero(i); }
        1u32 << i
    }
}

/// Two different [`FieldPermission`] flags occupy different bits.
pub proof fn lemma_field_permission_bits_disjoint(a: FieldPermission, b: FieldPermission)
    requires
        a != b,
    ensures
        a.spec_bit() & b.spec_bit() == 0,
{
    lemma_distinct_bits(a.spec_index(), b.spec_index());
}

/// A set of [`FieldPermission`] flags held as the bits of a `u32`.
#[derive(Clone, Copy, Debug, PartialEq, Eq, Structural)]
pub struct FieldPermissions {
    pub mask: u32,
}

impl FieldPermissions {
    /// Every flag of this kind of mask.
    pub open spec fn spec_all_bits() -> u32 { 0xfu32 }

    /// The empty mask.
    pub fn none() -> (m: Self)
        ensures
            m.mask == 0,
    {
        FieldPermissions { mask: 0 }
    }

    /// The mask holding every flag.
    pub fn all() -> (m: Self)
        ensures
            m.mask == Self::spec_all_bits(),
    {
        FieldPermissions { mask: 0xf }
    }

    /// The mask with exactly these bits.
    pub fn from_bits(mask: u32) -> (m: Self)
        ensures
            m.mask == mask,
    {
        FieldPermissions { mask }
    }

    /// The bits of this mask.
    pub fn bits(&self) -> (b: u32)
        ensures
            b == self.mask,
    {
        self.mask
    }

    /// Does the mask hold the flag?
    pub fn contains(&self, flag: FieldPermission) -> (r: bool)
        ensures
            r == mask_contains(self.mask, flag.spec_bit()),
    {
        let b = flag.bit();
        (self.mask & b) == b
    }

    /// Add the flag to the mask.
    pub fn set(&mut self, flag: FieldPermission)
        ensures
            final(self).mask == mask_set(old(self).mask, flag.spec_bit()),
    {
        self.mask = self.mask | flag.bit();
    }

    /// Remove the flag from the mask.
    pub fn unset(&mut self, flag: FieldPermission)
        ensures
            final(self).mask == mask_unset(old(self).mask, flag.spec_bit()),
    {
        self.mask = self.mask & !flag.bit();
    }

    /// Flip the flag in the mask.
    pub fn toggle(&mut self, flag: FieldPermission)
        ensures
            final(self).mask == old(self).mask ^ flag.spec_bit(),
    {
        self.mask = self.mask ^ flag.bit();
    }

    /// Is the mask empty?
    pub fn is_none(&self) -> (r: bool)
        ensures
            r == (self.mask == 0),
    {
        self.mask == 0
    }

    /// Does the mask hold every flag of its kind?
    pub fn is_all(&self) -> (r: bool)
        ensures
            r == mask_contains(self.mask, Self::spec_all_bits()),
    {
        (self.mask & 0xf) == 0xf
    }
}

/// One permission on a record; each flag is one bit of a [`RecordPermissions`] mask.
#[derive(Clone, Copy, Debug, PartialEq, Eq, Structural)]
pub enum RecordPermission {
    View,
    Edit,
    Delete,
    Comment,
    Share,
}

impl RecordPermission {
    /// The position of this flag's bit in a mask.
    pub open spec fn spec_index(self) -> u32 {
        match self {
            RecordPermission::View => 0u32,
            RecordPermission::Edit => 1u32,
            RecordPermission::Delete => 2u32,
            RecordPermission::Comment => 3u32,
            RecordPermission::Share => 4u32,
        }
    }

    /// The bit of this flag in a mask.
    pub open spec fn spec_bit(self) -> u32 {
        1u32 << self.spec_index()
    }

    /// The bit of this flag in a mask.
    pub fn bit(&self) -> (b: u32)
        ensures
            b == self.spec_bit(),
            b != 0,
    {
        let i: u32 = match self {
            RecordPermission::View => 0,
            RecordPermission::Edit => 1,
            RecordPermission::Delete => 2,
            RecordPermission::Comment => 3,
            RecordPermission::Share => 4,
        };
        proof { lemma_bit_nonzero(i); }
        1u32 << i
    }
}

/// Two different [`RecordPermission`] flags occupy different bits.
pub proof fn lemma_record_permission_bits_disjoint(a: RecordPermission, b: RecordPermission)
    requires
        a != b,
    ensures
        a.spec_bit() & b.spec_bit() == 0,
{
    lemma_distinct_bits(a.spec_index(), b.spec_index());
}

/// A set of [`RecordPermission`] flags held as the bits of a `u32`.
#[derive(Clone, Copy, Debug, PartialEq, Eq, Structural)]
pub struct RecordPermissions {
    pub mask: u32,
}

impl RecordPermissions {
    /// Every flag of this kind of mask.
    pub open spec fn spec_all_bits() -> u32 { 0x1fu32 }

    /// The empty mask.
    pub fn none() -> (m: Self)
        ensures
            m.mask == 0,
    {
        RecordPermissions { mask: 0 }
    }

    /// The mask holding every flag.
    pub fn all() -> (m: Self)
        ensures
            m.mask == Self::spec_all_bits(),
    {
        RecordPermissions { mask: 0x1f }
    }

    /// The mask with exactly these bits.
    pub fn from_bits(mask: u32) -> (m: Self)
        ensures
            m.mask == mask,
    {
        RecordPermissions { mask }
    }

    /// The bits of this mask.
    pub fn bits(&self) -> (b: u32)
        ensures
            b == self.mask,
    {
        self.mask
    }

    /// Does the mask hold the flag?
    pub fn contains(&self, flag: RecordPermission) -> (r: bool)
        ensures
            r == mask_contains(self.mask, flag.spec_bit()),
    {
        let b = flag.bit();
        (self.mask & b) == b
    }

    /// Add the flag to the mask.
    pub fn set(&mut self, flag: RecordPermission)
        ensures
            final(self).mask == mask_set(old(self).mask, flag.spec_bit()),
    {
        self.mask = self.mask | flag.bit();
    }

    /// Remove the flag from the mask.
    pub fn unset(&mut self, flag: RecordPermission)
        ensures
            final(self).mask == mask_unset(old(self).mask, flag.spec_bit()),
    {
        self.mask = self.mask & !flag.bit();
    }

    /// Flip the flag in the mask.
    pub fn toggle(&mut self, flag: RecordPermission)
        ensures
            final(self).mask == old(self).mask ^ flag.spec_bit(),
    {
        self.mask = self.mask ^ flag.bit();
    }

    /// Is the mask empty?
    pub fn is_none(&self) -> (r: bool)
        ensures
            r == (self.mask == 0),
    {
        self.mask == 0
    }

    /// Does the mask hold every flag of its kind?
    pub fn is_all(&self) -> (r: bool)
        ensures
            r == mask_contains(self.mask, Self::spec_all_bits()),
    {
        (self.mask & 0x1f) == 0x1f
    }
}

/// What a user may do in a workspace, its users and its bases.
#[derive(Clone, PartialEq, Eq)]
pub struct UserPermissions {
    pub workspace: WorkspacePermissions,
    pub workspace_users: HashMap<WorkspaceUserId, WorkspaceUsersPermissions>,
    pub bases: HashMap<BaseId, BaseSubPermissions>,
}

/// What a user may do in one base and its tables.
#[derive(Clone, PartialEq, Eq)]
pub struct BaseSubPermissions {
    pub base: BasePermissions,
    pub tables: HashMap<TableId, TableSubPermissions>,
}

/// What a user may do in one table, its fields and its records.
#[derive(Clone, PartialEq, Eq)]
pub struct TableSubPermissions {
    pub table: TablePermissions,
    pub fields: HashMap<FieldId, FieldPermissions>,
    pub records: HashMap<RecordId, RecordPermissions>,
}

} // verus!
