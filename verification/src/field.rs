//! Fields: the typed columns of a table, their kinds and their settings.
//!
//! Field kinds are grouped in families (text, numbers, selections, links,
//! dates and times, users, custom types); migrations move data between the
//! kinds of one family.

use crate::ids::{FieldId, TableId};
use crate::time::{now, Datetime};
use vstd::prelude::*;

verus! {

/// The kind of a field, by family.
#[derive(Debug, Clone, PartialEq)]
pub enum FieldKind {
    Text(TextBased),
    Number(Numerical),
    Select(SelectBased),
    Relation(LinksBased),
    DateTime(DateTimeBased),
    User(UserBased),
    Custom(CustomTypes),
}

/// Text kinds.
#[derive(Clone, Copy, Debug, PartialEq, Eq, Hash, Structural)]
pub enum TextBased {
    SingleLineText,
    LongText,
    RichText,
    Email,
    PhoneNumber,
    Url,
}

/// Numeric kinds; a currency is named by its ISO 4217 letter code.
#[derive(Debug, Clone, PartialEq)]
pub enum Numerical {
    Number,
    Decimal { precision: u8, scale: u8 },
    Percent { scale: u8 },
    Currency { currency: String },
}

/// One choice of a selection field.
#[derive(Clone, Debug, PartialEq)]
pub struct SelectOption {
    pub label: String,
}

/// Selection kinds, with their choices.
#[derive(Debug, Clone, PartialEq)]
pub enum SelectBased {
    SingleSelect { types: Vec<SelectOption> },
    MultipleSelect { types: Vec<SelectOption> },
}

/// How the records of two tables are related by a link field.
#[derive(Clone, Copy, Debug, PartialEq, Eq, Hash, Structural)]
pub enum RelationType {
    ManyToMany,
    HasMany,
    OneToOne,
}

/// How many records a link value may point to.
#[derive(Clone, Copy, Debug, PartialEq, Eq, Hash, Structural)]
pub enum LinkType {
    OneToOne,
    HasMany,
    ManyToMany,
}

/// How a roll-up field folds the values it collects.
#[derive(Clone, Copy, Debug, PartialEq, Eq, Hash, Structural)]
pub enum AggregateFunction {
    Count,
    Max,
    Min,
    Avg,
    Sum,
    CountDistinct,
    SumDistinct,
    AvgDistinct,
}

/// Link kinds: a plain link to another table, a look-up of a field through
/// a link, and a roll-up of a field through a link.
#[derive(Debug, Clone, PartialEq)]
pub enum LinksBased {
    Link { relation: RelationType, foreign_table: TableId },
    Lookup { link_field: FieldId, lookup_field: FieldId },
    Rollup { link_field: FieldId, rollup_field: FieldId, aggregate: AggregateFunction },
}

/// The kind of file an attachment holds.
#[derive(Clone, Debug, PartialEq)]
pub enum FileType {
    Image,
    Video,
    Audio,
    Pdf,
    Document,
    Archive,
    Other(String),
}

/// The icon a rating is drawn with.
#[derive(Clone, Copy, Debug, PartialEq, Eq, Hash, Structural)]
pub enum RatingIcon {
    Star,
    Circle,
}

/// Kinds that do not migrate to any other kind.
#[derive(Debug, Clone, PartialEq)]
pub enum CustomTypes {
    Attachement { file_type: FileType },
    CheckBox,
    Rating { icon: RatingIcon, max: u8 },
    Json,
}

/// How a date is written: `ISO` is 2026-01-27, `US` is MM/DD/YYYY, `EU` is
/// DD/MM/YYYY.
#[derive(Clone, Debug, PartialEq)]
#[allow(clippy::upper_case_acronyms)]
pub enum DateFormat {
    ISO,
    US,
    EU,
    Custom(String),
}

/// How a time of day is written.
#[derive(Clone, Copy, Debug, PartialEq, Eq, Hash, Structural)]
pub enum TimeFormat {
    H24,
    H12,
}

/// Date and time kinds.
#[derive(Debug, Clone, PartialEq)]
#[allow(inconsistent_fields)]
pub enum DateTimeBased {
    Date { format: DateFormat },
    Time { format: TimeFormat },
    DateTime { date: DateFormat, time: TimeFormat },
    Duration,
    CreatedTime { date: DateFormat, time: TimeFormat },
    LastModifiedTime { date: DateFormat, time: TimeFormat },
}

/// User kinds.
#[derive(Clone, Copy, Debug, PartialEq, Eq, Hash, Structural)]
pub enum UserBased {
    SingleUser,
    MultipleUsers,
}

/// A field of a table.
#[derive(Debug, Clone, PartialEq)]
pub struct Field {
    pub id: Option<FieldId>,
    pub created_at: Datetime,
    pub updated_at: Datetime,
    pub is_deleted: bool,
    pub config: FieldKind,
    pub is_primary: bool,
    pub is_nullable: bool,
    pub is_unique: bool,
    pub name: String,
    pub description: Option<String>,
}

/// What a new field is made from.
pub struct InsertField {
    pub name: String,
    pub description: Option<String>,
    pub is_primary: bool,
    pub is_nullable: bool,
    pub is_unique: bool,
    pub config: FieldKind,
}

/// A change to a field: each present setting replaces the field's own.
pub struct FieldPatch {
    pub name: Option<String>,
    pub description: Option<String>,
    pub is_primary: Option<bool>,
    pub is_nullable: Option<bool>,
    pub is_unique: Option<bool>,
    pub config: Option<FieldKind>,
}

/// The field `f` after the patch `p`: each setting present in the patch
/// replaces the field's own; everything else stays.
pub open spec fn patched(f: Field, p: FieldPatch) -> Field {
    Field {
        id: f.id,
        created_at: f.created_at,
        updated_at: f.updated_at,
        is_deleted: f.is_deleted,
        config: match p.config {
            Some(c) => c,
            None => f.config,
        },
        is_primary: match p.is_primary {
            Some(b) => b,
            None => f.is_primary,
        },
        is_nullable: match p.is_nullable {
            Some(b) => b,
            None => f.is_nullable,
        },
        is_unique: match p.is_unique {
            Some(b) => b,
            None => f.is_unique,
        },
        name: match p.name {
            Some(n) => n,
            None => f.name,
        },
        description: match p.description {
            Some(d) => Some(d),
            None => f.description,
        },
    }
}

/// The patch that changes nothing.
pub open spec fn empty_patch() -> FieldPatch {
    FieldPatch {
        name: None,
        description: None,
        is_primary: None,
        is_nullable: None,
        is_unique: None,
        config: None,
    }
}

impl Field {
    /// A new field made from `insert`: not yet stored (no id), not deleted,
    /// stamped with the current time.
    pub fn from_insert(insert: InsertField) -> (f: Field)
        ensures
            f.id is None,
            f.created_at.secs >= 0 && f.updated_at.secs >= 0,
            !f.is_deleted,
            f.config == insert.config,
            f.is_primary == insert.is_primary,
            f.is_nullable == insert.is_nullable,
            f.is_unique == insert.is_unique,
            f.name == insert.name,
            f.description == insert.description,
    {
        let created_at = now();
        let updated_at = now();
        Field {
            id: None,
            created_at,
            updated_at,
            is_deleted: false,
            config: insert.config,
            is_primary: insert.is_primary,
            is_nullable: insert.is_nullable,
            is_unique: insert.is_unique,
            name: insert.name,
            description: insert.description,
        }
    }

    /// Apply a patch: each setting present in it replaces the field's own.
    pub fn apply_patch(&mut self, patch: FieldPatch)
        ensures
            *final(self) == patched(*old(self), patch),
            patch.name matches Some(v) ==> final(self).name == v,
            patch.name is None ==> final(self).name == old(self).name,
            patch.description matches Some(v) ==> final(self).description == Some(v),
            patch.description is None ==> final(self).description == old(self).description,
            patch.config matches Some(v) ==> final(self).config == v,
            patch.config is None ==> final(self).config == old(self).config,
            patch.is_primary matches Some(b) ==> final(self).is_primary == b,
            patch.is_primary is None ==> final(self).is_primary == old(self).is_primary,
            patch.is_nullable matches Some(b) ==> final(self).is_nullable == b,
            patch.is_nullable is None ==> final(self).is_nullable == old(self).is_nullable,
            patch.is_unique matches Some(b) ==> final(self).is_unique == b,
            patch.is_unique is None ==> final(self).is_unique == old(self).is_unique,
            final(self).id == old(self).id,
            final(self).created_at == old(self).created_at,
            final(self).updated_at == old(self).updated_at,
            final(self).is_deleted == old(self).is_deleted,
    {
        let FieldPatch { name, description, is_primary, is_nullable, is_unique, config } = patch;
        if let Some(v) = config {
            self.config = v;
        }
        if let Some(v) = is_primary {
            self.is_primary = v;
        }
        if let Some(v) = is_nullable {
            self.is_nullable = v;
        }
        if let Some(v) = is_unique {
            self.is_unique = v;
        }
        if let Some(v) = name {
            self.name = v;
        }
        if let Some(v) = description {
            self.description = Some(v);
        }
    }
}

/// Each setting present in a patch replaces the field's own, and each
/// absent one keeps it.
pub proof fn lemma_patch_replaces_settings(f: Field, p: FieldPatch)
    ensures
        p.name matches Some(v) ==> patched(f, p).name == v,
        p.name is None ==> patched(f, p).name == f.name,
        p.description matches Some(v) ==> patched(f, p).description == Some(v),
        p.description is None ==> patched(f, p).description == f.description,
        p.config matches Some(v) ==> patched(f, p).config == v,
        p.config is None ==> patched(f, p).config == f.config,
        p.is_primary matches Some(b) ==> patched(f, p).is_primary == b,
        p.is_primary is None ==> patched(f, p).is_primary == f.is_primary,
        p.is_nullable matches Some(b) ==> patched(f, p).is_nullable == b,
        p.is_nullable is None ==> patched(f, p).is_nullable == f.is_nullable,
        p.is_unique matches Some(b) ==> patched(f, p).is_unique == b,
        p.is_unique is None ==> patched(f, p).is_unique == f.is_unique,
{
}

/// Applying the empty patch leaves a field as it was.
pub proof fn lemma_empty_patch_identity(f: Field)
    ensures
        patched(f, empty_patch()) == f,
{
}

/// Applying the same patch twice is the same as applying it once.
pub proof fn lemma_patch_idempotent(f: Field, p: FieldPatch)
    ensures
        patched(patched(f, p), p) == patched(f, p),
{
}

/// A patch never touches the identity, the time stamps or the deletion mark.
pub proof fn lemma_patch_keeps_identity(f: Field, p: FieldPatch)
    ensures
        patched(f, p).id == f.id,
        patched(f, p).created_at == f.created_at,
        patched(f, p).updated_at == f.updated_at,
        patched(f, p).is_deleted == f.is_deleted,
{
}

} // verus!
