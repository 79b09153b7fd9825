//! Plain values for what the database hands back: identifiers as stored, and
//! timestamps.

use vstd::prelude::*;
use uuid::Uuid;

verus! {

/// An identifier as it is bound to and read from a query: the `Uuid` itself.
#[derive(Clone, Copy, Debug)]
pub struct DbUuid(pub Uuid);

impl DbUuid {
    /// Wraps an identifier for binding.
    pub fn from_uuid(id: Uuid) -> (r: DbUuid)
        ensures
            r.0 == id,
    {
        DbUuid(id)
    }

    /// The identifier held.
    pub fn into_inner(self) -> (r: Uuid)
        ensures
            r == self.0,
    {
        self.0
    }
}

/// A UTC instant: whole seconds since the Unix epoch and the nanoseconds past
/// them (`nanos < 1_000_000_000`, or up to `1_999_999_999` in a leap second).
#[derive(Clone, Copy, Debug, PartialEq, Eq, Structural)]
pub struct Timestamp {
    pub secs: i64,
    pub nanos: u32,
}

} // verus!
