//! Manual task validations: opening a pending validation reuses the row that
//! is already pending for the component rather than piling up duplicates.

use vstd::prelude::*;
use uuid::Uuid;

verus! {

/// What opening a pending validation does, given what is already pending.
#[derive(Debug, Clone, Copy)]
pub enum PendingDecision {
    /// A row is already pending: hand back its id, insert nothing.
    Reuse(Uuid),
    /// Nothing is pending: insert a new pending row with this id.
    Create(Uuid),
}

/// Decides how to open a pending validation: reuse the pending row if there
/// is one (so that cancel-and-retry does not pile rows up), else create one
/// with the fresh id.
pub fn open_pending_decision(existing: Option<Uuid>, fresh: Uuid) -> (r: PendingDecision)
    ensures
        r == match existing {
            Some(id) => PendingDecision::Reuse(id),
            None => PendingDecision::Create(fresh),
        },
{
    match existing {
        Some(id) => PendingDecision::Reuse(id),
        None => PendingDecision::Create(fresh),
    }
}

impl PendingDecision {
    /// The id of the pending row once the decision is carried out.
    pub fn pending_id(&self) -> (r: Uuid)
        ensures
            r == match *self {
                PendingDecision::Reuse(id) => id,
                PendingDecision::Create(id) => id,
            },
    {
        match self {
            PendingDecision::Reuse(id) => *id,
            PendingDecision::Create(id) => *id,
        }
    }
}

} // verus!
