//! The table service: the context of one user working in one table, and
//! the decisions it makes before and after talking to the database.

use crate::cell::{CellValue, Value};
use crate::decimal::{digits, u64_text};
use crate::field::FieldKind;
use crate::ids::{BaseId, TableId, UserId};
use crate::permissions::{mask_contains, TablePermission, TablePermissions};
use crate::text::{chars_of, joined3, string_of};
use crate::time::now;
use vstd::prelude::*;

verus! {

/// A table of a base.
pub struct Table {
    pub id: Option<TableId>,
    pub name: String,
    pub base: BaseId,
    pub is_deleted: bool,
}

/// One user's context in one table.
pub struct TableService {
    pub table: Table,
    pub user: UserId,
    pub base: BaseId,
    pub table_record_id: TableId,
}

/// The settings of a field as the front end shows them.
pub struct FieldConfigFR {
    pub is_deleted: bool,
    pub config: FieldKind,
    pub is_primary: bool,
    pub is_nullable: bool,
    pub is_unique: bool,
    pub name: String,
    pub description: Option<String>,
}

/// Which page of records to list.
pub struct PaginationParams {
    pub offset: Option<u32>,
    pub limit: Option<u32>,
}

/// How many records a page holds when no limit is given.
pub const DEFAULT_PAGE_LIMIT: u32 = 50;

impl PaginationParams {
    /// The limit and the number of records to skip: 50 and 0 unless given.
    pub fn resolve(&self) -> (r: (u32, u32))
        ensures
            r.0 == (match self.limit {
                Some(l) => l,
                None => DEFAULT_PAGE_LIMIT,
            }),
            r.1 == (match self.offset {
                Some(o) => o,
                None => 0u32,
            }),
    {
        let limit = match self.limit {
            Some(l) => l,
            None => DEFAULT_PAGE_LIMIT,
        };
        let skip = match self.offset {
            Some(o) => o,
            None => 0,
        };
        (limit, skip)
    }
}

/// A change to a record: new cells, by field name.
pub struct RecordPatch {
    pub changed_cells: Option<Vec<(String, CellValue)>>,
}

/// The assignment of the `i`-th changed cell, stored under the field name
/// `key`, in an update query.
pub open spec fn assignment(key: Seq<char>, i: nat) -> Seq<char> {
    "cells."@ + key + " = $cells["@ + digits(i) + "]"@
}

/// The assignments of the changed cells named `keys`, separated by commas.
pub open spec fn assignments(keys: Seq<Seq<char>>) -> Seq<char>
    decreases keys.len(),
{
    if keys.len() == 0 {
        Seq::empty()
    } else if keys.len() == 1 {
        assignment(keys[0], 0)
    } else {
        assignments(keys.drop_last()) + seq![','] + assignment(keys.last(), (keys.len() - 1) as nat)
    }
}

/// The field names of changed cells.
pub open spec fn cell_keys(cells: Seq<(String, CellValue)>) -> Seq<Seq<char>> {
    Seq::new(cells.len(), |i: int| cells[i].0@)
}

/// The update query for a record patch: one assignment per changed cell
/// and a new modification time.
pub open spec fn merge_query_text(patch: RecordPatch) -> Seq<char> {
    match patch.changed_cells {
        Some(cells) => "UPDATE $record_id SET "@ + assignments(cell_keys(cells@))
            + " , updated_at = time::now();"@,
        None => "UPDATE $record_id SET updated_at = time::now();"@,
    }
}

/// Appends the characters of `s` to `out`.
fn append(out: &mut Vec<char>, s: &str)
    ensures
        final(out)@ == old(out)@ + s@,
{
    let v = chars_of(s);
    append_chars(out, &v);
}

/// Appends `v` to `out`.
fn append_chars(out: &mut Vec<char>, v: &Vec<char>)
    ensures
        final(out)@ == old(out)@ + v@,
{
    let ghost start = out@;
    let mut i: usize = 0;
    while i < v.len()
        invariant
            i <= v.len(),
            out@ == start + v@.take(i as int),
        decreases v.len() - i,
    {
        out.push(v[i]);
        assert(start + v@.take(i + 1) =~= (start + v@.take(i as int)).push(v@[i as int]));
        i = i + 1;
    }
    assert(v@.take(v.len() as int) =~= v@);
}

impl RecordPatch {
    /// The update query that writes this patch into a record.
    pub fn merge_query(&self) -> (q: String)
        ensures
            q@ == merge_query_text(*self),
    {
        match &self.changed_cells {
            Some(cells) => {
                let mut out: Vec<char> = Vec::new();
                append(&mut out, "UPDATE $record_id SET ");
                let ghost prefix = out@;
                let ghost keys = cell_keys(cells@);
                let mut i: usize = 0;
                assert(keys.take(0) =~= Seq::<Seq<char>>::empty());
                assert(prefix =~= prefix + assignments(keys.take(0)));
                while i < cells.len()
                    invariant
                        i <= cells.len(),
                        keys == cell_keys(cells@),
                        out@ == prefix + assignments(keys.take(i as int)),
                    decreases cells.len() - i,
                {
                    let ghost before = out@;
                    if i > 0 {
                        out.push(',');
                    }
                    append(&mut out, "cells.");
                    append(&mut out, cells[i].0.as_str());
                    append(&mut out, " = $cells[");
                    let d = u64_text(i as u64);
                    append_chars(&mut out, &d);
                    append(&mut out, "]");
                    proof {
                        let t = keys.take(i + 1);
                        assert(t.drop_last() =~= keys.take(i as int));
                        assert(t.last() == cells@[i as int].0@);
                        assert(out@ =~= prefix + assignments(t));
                    }
                    i = i + 1;
                }
                assert(keys.take(cells.len() as int) =~= keys);
                append(&mut out, " , updated_at = time::now();");
                string_of(&out)
            },
            None => "UPDATE $record_id SET updated_at = time::now();".to_owned(),
        }
    }
}

/// How many records convert: a record converts when it has no cell for the
/// field (`None`) or its cell converts (`Some(true)`).
pub open spec fn count_convertible(outcomes: Seq<Option<bool>>) -> nat
    decreases outcomes.len(),
{
    if outcomes.len() == 0 {
        0
    } else {
        count_convertible(outcomes.drop_last()) + if outcomes.last() == Some(false) {
            0nat
        } else {
            1nat
        }
    }
}

/// Does a record with this outcome keep its cell through a change of kind:
/// it has no cell for the field, or its cell converts?
pub open spec fn keeps_cell(o: Option<bool>) -> bool {
    o != Some(false)
}

/// The number of records that convert is the number of outcomes that are
/// not `Some(false)`.
pub proof fn lemma_count_convertible_is_filter(outcomes: Seq<Option<bool>>)
    ensures
        count_convertible(outcomes) == outcomes.filter(|o: Option<bool>| keeps_cell(o)).len(),
    decreases outcomes.len(),
{
    reveal(Seq::filter);
    if outcomes.len() > 0 {
        lemma_count_convertible_is_filter(outcomes.drop_last());
    }
}

/// Counting over a table with one more record: no records convert in an
/// empty table, and one more record adds one exactly when it has no cell
/// for the field or its cell converts.
pub proof fn lemma_count_convertible_push(outcomes: Seq<Option<bool>>, o: Option<bool>)
    ensures
        count_convertible(Seq::empty()) == 0,
        count_convertible(outcomes.push(o)) == count_convertible(outcomes) + if keeps_cell(o) {
            1int
        } else {
            0int
        },
{
    assert(outcomes.push(o).drop_last() =~= outcomes);
}

/// At most every record converts; when no cell fails, every record
/// converts, and when every cell fails, none does.
pub proof fn lemma_count_convertible_bounds(outcomes: Seq<Option<bool>>)
    ensures
        count_convertible(outcomes) <= outcomes.len(),
        (forall|i: int| 0 <= i < outcomes.len() ==> #[trigger] outcomes[i] != Some(false))
            ==> count_convertible(outcomes) == outcomes.len(),
        (forall|i: int| 0 <= i < outcomes.len() ==> #[trigger] outcomes[i] == Some(false))
            ==> count_convertible(outcomes) == 0,
    decreases outcomes.len(),
{
    if outcomes.len() > 0 {
        let d = outcomes.drop_last();
        lemma_count_convertible_bounds(d);
        assert(forall|i: int| 0 <= i < d.len() ==> d[i] == outcomes[i]);
        assert(outcomes.last() == outcomes[outcomes.len() - 1]);
    }
}

/// How a change of field kind would go over the records of a table.
pub struct MigrationCounts {
    pub affected_records: usize,
    pub successful_records: usize,
    pub failed_records: usize,
}

/// Counts, over the records of a table, those whose cell for the field
/// converts to a new kind (`outcomes[i]` is `None` when record `i` has no
/// cell for the field, else whether its cell converts).
pub fn migration_counts(outcomes: &Vec<Option<bool>>) -> (c: MigrationCounts)
    ensures
        c.affected_records == outcomes.len(),
        c.successful_records == count_convertible(outcomes@),
        c.failed_records == outcomes.len() - count_convertible(outcomes@),
        c.successful_records == outcomes@.filter(|o: Option<bool>| keeps_cell(o)).len(),
        c.successful_records + c.failed_records == outcomes.len(),
        (forall|i: int| 0 <= i < outcomes.len() ==> #[trigger] outcomes@[i] != Some(false)) ==> (
        c.successful_records == outcomes.len() && c.failed_records == 0),
{
    let mut successful: usize = 0;
    let mut i: usize = 0;
    while i < outcomes.len()
        invariant
            i <= outcomes.len(),
            successful == count_convertible(outcomes@.take(i as int)),
            successful <= i,
        decreases outcomes.len() - i,
    {
        assert(outcomes@.take(i + 1).drop_last() =~= outcomes@.take(i as int));
        match outcomes[i] {
            Some(false) => {},
            _ => {
                successful = successful + 1;
            },
        }
        i = i + 1;
    }
    assert(outcomes@.take(outcomes.len() as int) =~= outcomes@);
    proof {
        lemma_count_convertible_is_filter(outcomes@);
        lemma_count_convertible_bounds(outcomes@);
    }
    MigrationCounts {
        affected_records: outcomes.len(),
        successful_records: successful,
        failed_records: outcomes.len() - successful,
    }
}

/// The warning shown when some records will not convert.
pub fn migration_warning(failed: usize, total: usize) -> (w: String)
    ensures
        w@ == digits(failed as nat) + " out of "@ + digits(total as nat)
            + " records will fail conversion"@,
{
    let mut out = u64_text(failed as u64);
    append(&mut out, " out of ");
    let t = u64_text(total as u64);
    append_chars(&mut out, &t);
    append(&mut out, " records will fail conversion");
    string_of(&out)
}

/// How a change of field kind treats the values a field already holds.
#[derive(Clone, Copy, Debug, PartialEq, Eq, Hash, Structural)]
pub enum MigrationStrategy {
    /// The kind does not change: nothing to do.
    NoOp,
    /// Every value carries over.
    Safe,
    /// Some values may not carry over.
    Risky,
    /// Values are lost.
    Destructive,
}

/// The name of a strategy, as written in messages.
pub open spec fn strategy_name(s: MigrationStrategy) -> Seq<char> {
    match s {
        MigrationStrategy::NoOp => "NoOp"@,
        MigrationStrategy::Safe => "Safe"@,
        MigrationStrategy::Risky => "Risky"@,
        MigrationStrategy::Destructive => "Destructive"@,
    }
}

/// Does a strategy put stored values at risk?
pub open spec fn loses_data(s: MigrationStrategy) -> bool {
    s == MigrationStrategy::Risky || s == MigrationStrategy::Destructive
}

/// The name of a strategy, as written in messages.
pub fn migration_strategy_name(s: MigrationStrategy) -> (r: &'static str)
    ensures
        r@ == strategy_name(s),
{
    match s {
        MigrationStrategy::NoOp => "NoOp",
        MigrationStrategy::Safe => "Safe",
        MigrationStrategy::Risky => "Risky",
        MigrationStrategy::Destructive => "Destructive",
    }
}

/// Whether a change of a field's kind by this strategy may go ahead
/// unasked: a strategy that loses data is refused with a warning naming it,
/// a change to the same kind is refused as needing no work.
pub fn migration_gate(s: MigrationStrategy) -> (r: Result<(), String>)
    ensures
        loses_data(s) ==> (r matches Err(e) && e@ == "Migration is "@ + strategy_name(s)
            + ". Data loss might occur."@),
        s == MigrationStrategy::NoOp ==> (r matches Err(e) && e@ == "No operation needed"@),
        s == MigrationStrategy::Safe ==> r is Ok,
{
    match s {
        MigrationStrategy::Risky | MigrationStrategy::Destructive => Err(
            joined3("Migration is ", migration_strategy_name(s), ". Data loss might occur."),
        ),
        MigrationStrategy::NoOp => Err("No operation needed".to_owned()),
        MigrationStrategy::Safe => Ok(()),
    }
}

/// Whether an edit of a field may replace its settings unasked: an edit
/// whose change of kind would lose data is refused with that strategy.
pub fn update_gate(s: MigrationStrategy) -> (r: Result<(), MigrationStrategy>)
    ensures
        loses_data(s) ==> r == Err::<(), MigrationStrategy>(s),
        !loses_data(s) ==> r is Ok,
{
    match s {
        MigrationStrategy::Risky | MigrationStrategy::Destructive => Err(s),
        _ => Ok(()),
    }
}

/// The positions, in order, of the records whose cell converts
/// (`outcomes[i] == Some(true)`); records without a cell for the field or
/// whose cell does not convert are left as they are.
pub open spec fn converting_indices(outcomes: Seq<Option<bool>>) -> Seq<int>
    decreases outcomes.len(),
{
    if outcomes.len() == 0 {
        Seq::empty()
    } else if outcomes.last() == Some(true) {
        converting_indices(outcomes.drop_last()).push(outcomes.len() - 1)
    } else {
        converting_indices(outcomes.drop_last())
    }
}

/// The records whose cell a change of field kind rewrites: those whose cell
/// converts to the new kind (`outcomes[i]` is `None` when record `i` has no
/// cell for the field, else whether its cell converts).
pub fn records_to_migrate(outcomes: &Vec<Option<bool>>) -> (r: Vec<usize>)
    ensures
        r@.len() == converting_indices(outcomes@).len(),
        forall|k: int| 0 <= k < r@.len() ==> r@[k] as int == #[trigger] converting_indices(outcomes@)[k],
        forall|i: int|
            0 <= i < outcomes@.len() ==> (r@.contains(i as usize) <==> #[trigger] outcomes@[i]
                == Some(true)),
        forall|x: usize| r@.contains(x) ==> (x as int) < outcomes@.len(),
        forall|k: int, l: int| 0 <= k < l < r@.len() ==> #[trigger] r@[k] < #[trigger] r@[l],
{
    let mut r: Vec<usize> = Vec::new();
    let mut i: usize = 0;
    while i < outcomes.len()
        invariant
            i <= outcomes.len(),
            r@.len() == converting_indices(outcomes@.take(i as int)).len(),
            forall|k: int| 0 <= k < r@.len() ==> r@[k] as int == #[trigger] converting_indices(outcomes@.take(i as int))[k],
        decreases outcomes.len() - i,
    {
        assert(outcomes@.take(i + 1).drop_last() =~= outcomes@.take(i as int));
        match outcomes[i] {
            Some(true) => {
                r.push(i);
            },
            _ => {},
        }
        i = i + 1;
    }
    assert(outcomes@.take(outcomes.len() as int) =~= outcomes@);
    proof {
        let o = outcomes@;
        lemma_migrated_records_convert(o);
        assert forall|i: int| 0 <= i < o.len() implies (r@.contains(i as usize) <==> #[trigger] o[i]
            == Some(true)) by {
            if r@.contains(i as usize) {
                let k = choose|k: int| 0 <= k < r@.len() && r@[k] == i as usize;
                assert(converting_indices(o)[k] == i);
            }
            if o[i] == Some(true) {
                let k = choose|k: int|
                    0 <= k < converting_indices(o).len() && converting_indices(o)[k] == i;
                assert(r@[k] as int == i);
            }
        }
        assert forall|x: usize| r@.contains(x) implies (x as int) < o.len() by {
            let k = choose|k: int| 0 <= k < r@.len() && r@[k] == x;
            assert(converting_indices(o)[k] == x as int);
        }
        assert forall|k: int, l: int| 0 <= k < l < r@.len() implies #[trigger] r@[k]
            < #[trigger] r@[l] by {
            assert(converting_indices(o)[k] < converting_indices(o)[l]);
        }
    }
    r
}

/// The records a change of field kind rewrites are exactly those whose
/// cell converts: every one of them exists and converts, every record that
/// converts is among them, and they come in increasing order.
pub proof fn lemma_migrated_records_convert(outcomes: Seq<Option<bool>>)
    ensures
        forall|i: int|
            0 <= i < outcomes.len() && #[trigger] outcomes[i] == Some(true) ==> exists|k: int|
                0 <= k < converting_indices(outcomes).len() && converting_indices(outcomes)[k] == i,
        forall|k: int|
            0 <= k < converting_indices(outcomes).len() ==> {
                let i = #[trigger] converting_indices(outcomes)[k];
                0 <= i < outcomes.len() && outcomes[i] == Some(true)
            },
        forall|k: int, l: int|
            0 <= k < l < converting_indices(outcomes).len() ==> #[trigger] converting_indices(
                outcomes,
            )[k] < #[trigger] converting_indices(outcomes)[l],
    decreases outcomes.len(),
{
    if outcomes.len() > 0 {
        let d = outcomes.drop_last();
        lemma_migrated_records_convert(d);
        assert forall|k: int|
            0 <= k < converting_indices(outcomes).len() implies {
                let i = #[trigger] converting_indices(outcomes)[k];
                0 <= i < outcomes.len() && outcomes[i] == Some(true)
            } by {
            if k < converting_indices(d).len() {
                assert(converting_indices(outcomes)[k] == converting_indices(d)[k]);
            }
        }
        assert forall|k: int, l: int|
            0 <= k < l < converting_indices(outcomes).len() implies #[trigger] converting_indices(
                outcomes,
            )[k] < #[trigger] converting_indices(outcomes)[l] by {
            assert(converting_indices(outcomes)[k] == converting_indices(d)[k]);
            if l < converting_indices(d).len() {
                assert(converting_indices(outcomes)[l] == converting_indices(d)[l]);
            }
        }
        assert forall|i: int|
            0 <= i < outcomes.len() && #[trigger] outcomes[i] == Some(true) implies exists|k: int|
                0 <= k < converting_indices(outcomes).len() && converting_indices(outcomes)[k]
                    == i by {
            if i < outcomes.len() - 1 {
                assert(d[i] == outcomes[i]);
                let k = choose|k: int|
                    0 <= k < converting_indices(d).len() && converting_indices(d)[k] == i;
                assert(converting_indices(outcomes)[k] == converting_indices(d)[k]);
            } else {
                let k = converting_indices(d).len() as int;
                assert(converting_indices(outcomes)[k] == i);
            }
        }
    }
}

/// A record rewritten by a change of field kind keeps its cell's key and
/// creation time, takes the converted value, and is stamped now.
pub fn migrated_cell(cell: CellValue, value: Value) -> (r: CellValue)
    ensures
        r.id == cell.id,
        r.created_at == cell.created_at,
        r.value == value,
        r.updated_at.secs >= 0,
        r.updated_at.nanos < 1_000_000_000,
{
    CellValue { id: cell.id, created_at: cell.created_at, updated_at: now(), value }
}

/// Whether `update_record` lets a user with the table permissions `perms`
/// write cells: only a user whose mask holds the `Edit` flag may.  (The
/// model of table permissions has no separate admin flag.)
pub fn update_record_allowed(perms: &TablePermissions) -> (r: bool)
    ensures
        r == mask_contains(perms.mask, TablePermission::Edit.spec_bit()),
{
    perms.contains(TablePermission::Edit)
}

} // verus!
