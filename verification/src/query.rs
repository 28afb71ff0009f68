//! Pagination parameters for list endpoints.

use vstd::prelude::*;

use crate::primitives::Timestamp;

verus! {

/// Pagination for a list endpoint: only items created before `before` are
/// returned, at most `limit` of them.
#[derive(Debug, Clone, Copy, PartialEq, Eq)]
pub struct ListQuery {
    pub before: Timestamp,
    pub limit: i64,
}

/// The number of items a list query returns when the payload names no
/// limit.
pub fn default_limit() -> (r: i64)
    ensures
        r == 25,
{
    25
}

/// Relies on `time::OffsetDateTime::now_utc` and `unix_timestamp`: the
/// current instant of the system clock, as whole seconds since the Unix
/// epoch. Nothing is promised of the clock's reading.
#[verifier::external_body]
fn default_before() -> Timestamp {
    Timestamp { unix_seconds: time::OffsetDateTime::now_utc().unix_timestamp() }
}

impl ListQuery {
    /// Build a query from the optional payload fields against a given
    /// current instant: a missing bound falls back to `now`, a missing
    /// limit to the default of 25.
    pub fn resolve(before: Option<Timestamp>, limit: Option<i64>, now: Timestamp) -> (q: ListQuery)
        ensures
            q.before == (match before {
                Some(b) => b,
                None => now,
            }),
            q.limit == (match limit {
                Some(l) => l,
                None => 25i64,
            }),
    {
        ListQuery {
            before: match before {
                Some(b) => b,
                None => now,
            },
            limit: match limit {
                Some(l) => l,
                None => default_limit(),
            },
        }
    }

    /// Build a query from the optional payload fields, reading the system
    /// clock when no explicit bound was given. Whatever the clock returns,
    /// explicit fields are kept and a missing limit becomes 25.
    pub fn from_parts(before: Option<Timestamp>, limit: Option<i64>) -> (q: ListQuery)
        ensures
            before matches Some(b) ==> q.before == b,
            q.limit == (match limit {
                Some(l) => l,
                None => 25i64,
            }),
    {
        let now = default_before();
        Self::resolve(before, limit, now)
    }

    /// The field-level bound on the limit: between 0 and 200 items.
    pub fn is_valid(&self) -> (r: bool)
        ensures
            r == (0 <= self.limit <= 200),
    {
        0 <= self.limit && self.limit <= 200
    }
}

} // verus!
