//! Component lookups: resolving a host name to the agent that runs on it.

use vstd::prelude::*;
use uuid::Uuid;

verus! {

/// The next step of resolving a host to an active agent.
#[derive(Debug, Clone, Copy)]
pub enum HostLookupStep {
    /// The host is resolved to this agent.
    Resolved(Uuid),
    /// No agent has that host name: look among the agents' IP addresses.
    ByIpAddress,
}

/// After looking the host up by agent host name: resolved when an agent was
/// found, else the lookup goes on among IP addresses.
pub fn after_hostname_lookup(by_hostname: Option<Uuid>) -> (r: HostLookupStep)
    ensures
        r == match by_hostname {
            Some(id) => HostLookupStep::Resolved(id),
            None => HostLookupStep::ByIpAddress,
        },
{
    match by_hostname {
        Some(id) => HostLookupStep::Resolved(id),
        None => HostLookupStep::ByIpAddress,
    }
}

} // verus!
