//! Typed record identifiers.
//!
//! Every stored entity is addressed by a record key; a newtype per table
//! keeps keys of different tables apart.

use crate::text::joined3;
use vstd::prelude::*;

verus! {

/// Key of a cell.
#[derive(Clone, Debug, PartialEq, Eq, Hash)]
pub struct CellId(pub String);

/// Key of a field (a column of a table).
#[derive(Clone, Debug, PartialEq, Eq, Hash)]
pub struct FieldId(pub String);

/// Key of a table.
#[derive(Clone, Debug, PartialEq, Eq, Hash)]
pub struct TableId(pub String);

/// Key of a record (a row of a table).
#[derive(Clone, Debug, PartialEq, Eq, Hash)]
pub struct RecordId(pub String);

/// Key of a base (a group of tables inside a workspace).
#[derive(Clone, Debug, PartialEq, Eq, Hash)]
pub struct BaseId(pub String);

/// Key of a user.
#[derive(Clone, Debug, PartialEq, Eq, Hash)]
pub struct UserId(pub String);

/// Key of a workspace.
#[derive(Clone, Debug, PartialEq, Eq, Hash)]
pub struct WorkspaceId(pub String);

/// Key of the membership of a user in a workspace.
#[derive(Clone, Debug, PartialEq, Eq, Hash)]
pub struct WorkspaceUserId(pub String);

/// The table name and the text key that
/// `surrealdb::types::RecordId::parse_simple` reads from `text`, or `None`
/// when it refuses the text.
pub uninterp spec fn record_id_reading(text: Seq<char>) -> Option<(Seq<char>, Seq<char>)>;

/// The plain view of an optional pair of strings.
pub open spec fn pair_view(p: Option<(String, String)>) -> Option<(Seq<char>, Seq<char>)> {
    match p {
        Some((a, b)) => Some((a@, b@)),
        None => None,
    }
}

/// Is `i` the position of the first `:` in `s`?
pub open spec fn first_colon(s: Seq<char>, i: int) -> bool {
    &&& 0 <= i < s.len()
    &&& s[i] == ':'
    &&& forall|j: int| 0 <= j < i ==> s[j] != ':'
}

/// `surrealdb::types::RecordId::parse_simple` on `text`, as its table name
/// and its key.  The contract names the result and states what the crate's
/// source shows: text without `:` is refused, and text without backticks is
/// split at its first `:` into the table and the key, both kept as written.
/// The parser always makes a text key; any other key is reported as `None`.
#[verifier::external_body]
fn parse_record_id(text: &str) -> (r: Option<(String, String)>)
    ensures
        pair_view(r) == record_id_reading(text@),
        !text@.contains(':') ==> r is None,
        forall|i: int|
            !text@.contains('`') && #[trigger] first_colon(text@, i) ==> pair_view(r) == Some(
                (text@.take(i), text@.skip(i + 1)),
            ),
{
    match surrealdb::types::RecordId::parse_simple(text) {
        Ok(id) => match id.key {
            surrealdb::types::RecordIdKey::String(key) => Some((id.table.into_string(), key)),
            _ => None,
        },
        Err(_) => None,
    }
}

/// The key that `text` names in the table `table`: the key of the record id
/// `table:text`, or `None` when that is not a record id.  For a table name
/// without `:` or backticks and a text without backticks, the key is the
/// text itself.
pub fn key_from_text(table: &str, text: &str) -> (r: Option<String>)
    ensures
        match record_id_reading(table@ + ":"@ + text@) {
            Some(p) => r matches Some(k) && k@ == p.1,
            None => r is None,
        },
        !table@.contains(':') && !table@.contains('`') && !text@.contains('`') ==> (r matches Some(
            k,
        ) && k@ == text@),
{
    let full = joined3(table, ":", text);
    proof {
        reveal_strlit(":");
        let s = full@;
        let n = table@.len() as int;
        if !table@.contains(':') && !table@.contains('`') && !text@.contains('`') {
            assert(s[n] == ':');
            assert forall|j: int| 0 <= j < n implies s[j] != ':' by {
                assert(s[j] == table@[j]);
            }
            assert(first_colon(s, n));
            assert(!s.contains('`')) by {
                if s.contains('`') {
                    let j = choose|j: int| 0 <= j < s.len() && s[j] == '`';
                    if j < n {
                        assert(table@[j] == '`');
                    } else if j > n {
                        assert(text@[j - n - 1] == '`');
                    }
                }
            }
            assert(s.take(n) =~= table@);
            assert(s.skip(n + 1) =~= text@);
        }
    }
    match parse_record_id(full.as_str()) {
        Some((_, key)) => Some(key),
        None => None,
    }
}

/// The key of the table named by `text`; refused when `table:text` is not a
/// record id.
pub fn table_id_from_text(text: &str) -> (r: Result<TableId, String>)
    ensures
        match record_id_reading("table:"@ + text@) {
            Some(p) => r matches Ok(t) && t.0@ == p.1,
            None => r matches Err(e) && e@ == "coudlnt parse table id"@,
        },
{
    proof {
        reveal_strlit("table");
        reveal_strlit(":");
        reveal_strlit("table:");
        assert("table"@ + ":"@ =~= "table:"@);
    }
    match key_from_text("table", text) {
        Some(k) => Ok(TableId(k)),
        None => Err("coudlnt parse table id".to_owned()),
    }
}

/// The key of the record named by `text`; refused when `record:text` is not
/// a record id.
pub fn record_id_from_text(text: &str) -> (r: Result<RecordId, String>)
    ensures
        match record_id_reading("record:"@ + text@) {
            Some(p) => r matches Ok(t) && t.0@ == p.1,
            None => r matches Err(e) && e@ == "coudlnt parse record id"@,
        },
{
    proof {
        reveal_strlit("record");
        reveal_strlit(":");
        reveal_strlit("record:");
        assert("record"@ + ":"@ =~= "record:"@);
    }
    match key_from_text("record", text) {
        Some(k) => Ok(RecordId(k)),
        None => Err("coudlnt parse record id".to_owned()),
    }
}

/// The key of the field named by `text`; refused when `field:text` is not
/// a record id.
pub fn field_id_from_text(text: &str) -> (r: Result<FieldId, String>)
    ensures
        match record_id_reading("field:"@ + text@) {
            Some(p) => r matches Ok(t) && t.0@ == p.1,
            None => r matches Err(e) && e@ == "coudlnt parse field id"@,
        },
{
    proof {
        reveal_strlit("field");
        reveal_strlit(":");
        reveal_strlit("field:");
        assert("field"@ + ":"@ =~= "field:"@);
    }
    match key_from_text("field", text) {
        Some(k) => Ok(FieldId(k)),
        None => Err("coudlnt parse field id".to_owned()),
    }
}

/// The key of the base named by `text`; refused when `base:text` is not
/// a record id.
pub fn base_id_from_text(text: &str) -> (r: Result<BaseId, String>)
    ensures
        match record_id_reading("base:"@ + text@) {
            Some(p) => r matches Ok(t) && t.0@ == p.1,
            None => r matches Err(e) && e@ == "coudlnt parse the base id"@,
        },
{
    proof {
        reveal_strlit("base");
        reveal_strlit(":");
        reveal_strlit("base:");
        assert("base"@ + ":"@ =~= "base:"@);
    }
    match key_from_text("base", text) {
        Some(k) => Ok(BaseId(k)),
        None => Err("coudlnt parse the base id".to_owned()),
    }
}

} // verus!
