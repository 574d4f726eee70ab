//! Points in time and lengths of time, as plain numbers.

use vstd::prelude::*;

verus! {

/// A point in time: seconds since the Unix epoch (UTC) and the nanoseconds
/// within that second.
#[derive(Clone, Copy, Debug, PartialEq, Eq, Hash, Structural)]
pub struct Datetime {
    pub secs: i64,
    pub nanos: u32,
}

/// A length of time: whole seconds and the nanoseconds beyond them.
#[derive(Clone, Copy, Debug, PartialEq, Eq, Hash, Structural)]
pub struct Duration {
    pub secs: u64,
    pub nanos: u32,
}

impl Duration {
    /// A duration of `secs` seconds and `nanos` nanoseconds.
    pub fn new(secs: u64, nanos: u32) -> (d: Duration)
        ensures
            d.secs == secs,
            d.nanos == nanos,
    {
        Duration { secs, nanos }
    }
}

/// The current time, read from the system clock through `chrono::Utc::now`.
/// The clock can say anything: the contract only claims what `Utc::now`
/// guarantees of every reading, a time at or after the epoch with fewer
/// than a billion nanoseconds.
#[verifier::external_body]
pub(crate) fn now() -> (t: Datetime)
    ensures
        t.secs >= 0,
        t.nanos < 1_000_000_000,
{
    let t = chrono::Utc::now();
    Datetime { secs: t.timestamp(), nanos: t.timestamp_subsec_nanos() }
}

/// The point in time that `surrealdb::types::Datetime::from_str` reads from
/// `text` (the database's own date grammar), or `None` when it refuses the
/// text.
pub uninterp spec fn datetime_reading(text: Seq<char>) -> Option<Datetime>;

/// `surrealdb::types::Datetime::from_str` on `text`, as seconds and
/// nanoseconds since the epoch; the contract names the result.
#[verifier::external_body]
pub(crate) fn read_datetime(text: &str) -> (r: Option<Datetime>)
    ensures
        r == datetime_reading(text@),
{
    match text.parse::<surrealdb::types::Datetime>() {
        Ok(d) => Some(Datetime { secs: d.timestamp(), nanos: d.timestamp_subsec_nanos() }),
        Err(_) => None,
    }
}

} // verus!
