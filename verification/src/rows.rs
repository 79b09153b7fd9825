//! Rows read by the core, failover, resolution and log queries.

use vstd::prelude::*;
use crate::db::DbUuid;

verus! {

/// An application with an active primary profile and a disaster-recovery
/// profile set to fail over automatically.
#[derive(Debug)]
pub struct FailoverCandidate {
    pub application_id: DbUuid,
    pub application_name: String,
    pub active_profile_id: DbUuid,
    pub active_profile_name: String,
    pub dr_profile_id: DbUuid,
    pub dr_profile_name: String,
}

/// How many components of a referenced application there are, and how many
/// of them are running, degraded and failed.
#[derive(Debug, Clone, Copy, PartialEq, Eq, Structural)]
pub struct AppStateCount {
    pub total: i64,
    pub running: i64,
    pub degraded: i64,
    pub failed: i64,
}

/// The counts read for an application, or all zero when they could not be
/// read.
pub fn state_counts_or_zero(read: Option<AppStateCount>) -> (r: AppStateCount)
    ensures
        r == match read {
            Some(c) => c,
            None => AppStateCount { total: 0, running: 0, degraded: 0, failed: 0 },
        },
{
    match read {
        Some(c) => c,
        None => AppStateCount { total: 0, running: 0, degraded: 0, failed: 0 },
    }
}

/// A hostname rewriting rule: a search pattern and its replacement.
#[derive(Debug)]
pub struct PatternRuleRow {
    pub search_pattern: String,
    pub replace_pattern: String,
}

/// The fields of a component that log access is checked against.
#[derive(Debug)]
pub struct LogComponentRow {
    pub id: DbUuid,
    pub application_id: DbUuid,
    pub organization_id: DbUuid,
    pub name: String,
    pub agent_id: Option<DbUuid>,
}

} // verus!
