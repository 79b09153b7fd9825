//! Cluster members: the physical instances of a fan-out component, the
//! merge of a partial update onto a stored member, the pairing of members with
//! their cached FSM state, and the aggregation of member states into the
//! parent component's state.

use vstd::prelude::*;
use uuid::Uuid;
use serde_json::Value;
use crate::db::Timestamp;
use crate::outside::same_uuid;
use crate::text::text_eq;

verus! {

// ============================================================================
// Domain types
// ============================================================================

/// One physical instance of a fan-out component.
#[derive(Debug, Clone)]
pub struct ClusterMember {
    pub id: Uuid,
    pub component_id: Uuid,
    pub hostname: String,
    pub agent_id: Uuid,
    pub site_id: Option<Uuid>,
    pub check_cmd_override: Option<String>,
    pub start_cmd_override: Option<String>,
    pub stop_cmd_override: Option<String>,
    pub install_path: Option<String>,
    pub env_vars_override: Option<Value>,
    pub member_order: i32,
    pub is_enabled: bool,
    pub tags: Value,
    pub created_at: Timestamp,
    pub updated_at: Timestamp,
}

/// The cached FSM state of one member, as read for aggregation.
#[derive(Debug, Clone)]
pub struct ClusterMemberState {
    pub cluster_member_id: Uuid,
    pub current_state: String,
    pub last_check_at: Option<Timestamp>,
    pub last_check_exit_code: Option<i16>,
    pub last_check_duration_ms: Option<i32>,
    pub last_stdout: Option<String>,
    pub updated_at: Timestamp,
}

/// A member together with its current FSM state (for UI listing).
#[derive(Debug, Clone)]
pub struct ClusterMemberWithState {
    pub member: ClusterMember,
    pub current_state: String,
    pub last_check_at: Option<Timestamp>,
    pub last_check_exit_code: Option<i16>,
}

/// The state columns read for listing: which member, its state, and its last
/// check.
#[derive(Debug, Clone)]
pub struct StoredMemberState {
    pub cluster_member_id: Uuid,
    pub current_state: String,
    pub last_check_at: Option<Timestamp>,
    pub last_check_exit_code: Option<i16>,
}

/// What a new member is created with.
#[derive(Debug, Clone)]
pub struct CreateClusterMember {
    pub component_id: Uuid,
    pub hostname: String,
    pub agent_id: Uuid,
    pub site_id: Option<Uuid>,
    pub check_cmd_override: Option<String>,
    pub start_cmd_override: Option<String>,
    pub stop_cmd_override: Option<String>,
    pub install_path: Option<String>,
    pub env_vars_override: Option<Value>,
    pub member_order: i32,
    pub is_enabled: bool,
    pub tags: Value,
}

/// A partial update: `None` keeps the stored value; for a nullable column,
/// `Some(None)` clears it.
#[derive(Debug, Clone)]
pub struct UpdateClusterMember {
    pub hostname: Option<String>,
    pub agent_id: Option<Uuid>,
    pub site_id: Option<Option<Uuid>>,
    pub check_cmd_override: Option<Option<String>>,
    pub start_cmd_override: Option<Option<String>>,
    pub stop_cmd_override: Option<Option<String>>,
    pub install_path: Option<Option<String>>,
    pub env_vars_override: Option<Option<Value>>,
    pub member_order: Option<i32>,
    pub is_enabled: Option<bool>,
    pub tags: Option<Value>,
}

/// The update that changes nothing.
pub open spec fn no_changes() -> UpdateClusterMember {
    UpdateClusterMember {
        hostname: None,
        agent_id: None,
        site_id: None,
        check_cmd_override: None,
        start_cmd_override: None,
        stop_cmd_override: None,
        install_path: None,
        env_vars_override: None,
        member_order: None,
        is_enabled: None,
        tags: None,
    }
}

impl Default for UpdateClusterMember {
    fn default() -> (r: UpdateClusterMember)
        ensures
            r == no_changes(),
    {
        UpdateClusterMember {
            hostname: None,
            agent_id: None,
            site_id: None,
            check_cmd_override: None,
            start_cmd_override: None,
            stop_cmd_override: None,
            install_path: None,
            env_vars_override: None,
            member_order: None,
            is_enabled: None,
            tags: None,
        }
    }
}

/// The per-member configuration pushed to an agent in fan-out mode; its
/// commands are already resolved (override, else the component's command).
#[derive(Debug, Clone)]
pub struct AgentMemberConfig {
    pub member_id: Uuid,
    pub component_id: Uuid,
    pub hostname: String,
    pub check_cmd: Option<String>,
    pub start_cmd: Option<String>,
    pub stop_cmd: Option<String>,
    pub env_vars: Value,
}

/// The member configuration as the agent protocol carries it.
#[derive(Debug, Clone)]
pub struct ClusterMemberConfig {
    pub member_id: Uuid,
    pub hostname: String,
    pub check_cmd: Option<String>,
    pub start_cmd: Option<String>,
    pub stop_cmd: Option<String>,
    pub env_vars: Value,
}

impl AgentMemberConfig {
    /// The protocol form: every field but the component id, unchanged.
    pub fn into_protocol(self) -> (r: ClusterMemberConfig)
        ensures
            r.member_id == self.member_id,
            r.hostname == self.hostname,
            r.check_cmd == self.check_cmd,
            r.start_cmd == self.start_cmd,
            r.stop_cmd == self.stop_cmd,
            r.env_vars == self.env_vars,
    {
        ClusterMemberConfig {
            member_id: self.member_id,
            hostname: self.hostname,
            check_cmd: self.check_cmd,
            start_cmd: self.start_cmd,
            stop_cmd: self.stop_cmd,
            env_vars: self.env_vars,
        }
    }
}

// ============================================================================
// Partial update
// ============================================================================

/// The values written back by an update: every column a caller may change.
#[derive(Debug, Clone)]
pub struct MemberUpdate {
    pub hostname: String,
    pub agent_id: Uuid,
    pub site_id: Option<Uuid>,
    pub check_cmd_override: Option<String>,
    pub start_cmd_override: Option<String>,
    pub stop_cmd_override: Option<String>,
    pub install_path: Option<String>,
    pub env_vars_override: Option<Value>,
    pub member_order: i32,
    pub is_enabled: bool,
    pub tags: Value,
}

/// `Some(v)` gives `v`; `None` keeps `kept`.
pub open spec fn or_keep<T>(given: Option<T>, kept: T) -> T {
    match given {
        Some(v) => v,
        None => kept,
    }
}

/// The changeable columns of a stored member, as they stand.
pub open spec fn member_values(m: ClusterMember) -> MemberUpdate {
    MemberUpdate {
        hostname: m.hostname,
        agent_id: m.agent_id,
        site_id: m.site_id,
        check_cmd_override: m.check_cmd_override,
        start_cmd_override: m.start_cmd_override,
        stop_cmd_override: m.stop_cmd_override,
        install_path: m.install_path,
        env_vars_override: m.env_vars_override,
        member_order: m.member_order,
        is_enabled: m.is_enabled,
        tags: m.tags,
    }
}

/// The columns that an update writes: each given field replaces the stored
/// one, each absent field keeps it.
pub open spec fn resolved_update(existing: ClusterMember, input: UpdateClusterMember) -> MemberUpdate {
    MemberUpdate {
        hostname: or_keep(input.hostname, existing.hostname),
        agent_id: or_keep(input.agent_id, existing.agent_id),
        site_id: or_keep(input.site_id, existing.site_id),
        check_cmd_override: or_keep(input.check_cmd_override, existing.check_cmd_override),
        start_cmd_override: or_keep(input.start_cmd_override, existing.start_cmd_override),
        stop_cmd_override: or_keep(input.stop_cmd_override, existing.stop_cmd_override),
        install_path: or_keep(input.install_path, existing.install_path),
        env_vars_override: or_keep(input.env_vars_override, existing.env_vars_override),
        member_order: or_keep(input.member_order, existing.member_order),
        is_enabled: or_keep(input.is_enabled, existing.is_enabled),
        tags: or_keep(input.tags, existing.tags),
    }
}

/// The stored member after its changeable columns are set to `values`
/// (identity and timestamps kept).
pub open spec fn with_values(m: ClusterMember, values: MemberUpdate) -> ClusterMember {
    ClusterMember {
        id: m.id,
        component_id: m.component_id,
        hostname: values.hostname,
        agent_id: values.agent_id,
        site_id: values.site_id,
        check_cmd_override: values.check_cmd_override,
        start_cmd_override: values.start_cmd_override,
        stop_cmd_override: values.stop_cmd_override,
        install_path: values.install_path,
        env_vars_override: values.env_vars_override,
        member_order: values.member_order,
        is_enabled: values.is_enabled,
        tags: values.tags,
        created_at: m.created_at,
        updated_at: m.updated_at,
    }
}

/// Merges a partial update onto the stored member: the values that the
/// update statement writes.
pub fn resolve_update(existing: ClusterMember, input: UpdateClusterMember) -> (r: MemberUpdate)
    ensures
        r == resolved_update(existing, input),
{
    let ClusterMember {
        hostname: e_hostname,
        agent_id: e_agent_id,
        site_id: e_site_id,
        check_cmd_override: e_check,
        start_cmd_override: e_start,
        stop_cmd_override: e_stop,
        install_path: e_install,
        env_vars_override: e_env,
        member_order: e_order,
        is_enabled: e_enabled,
        tags: e_tags,
        ..
    } = existing;
    let UpdateClusterMember {
        hostname,
        agent_id,
        site_id,
        check_cmd_override,
        start_cmd_override,
        stop_cmd_override,
        install_path,
        env_vars_override,
        member_order,
        is_enabled,
        tags,
    } = input;
    MemberUpdate {
        hostname: match hostname { Some(v) => v, None => e_hostname },
        agent_id: match agent_id { Some(v) => v, None => e_agent_id },
        site_id: match site_id { Some(v) => v, None => e_site_id },
        check_cmd_override: match check_cmd_override { Some(v) => v, None => e_check },
        start_cmd_override: match start_cmd_override { Some(v) => v, None => e_start },
        stop_cmd_override: match stop_cmd_override { Some(v) => v, None => e_stop },
        install_path: match install_path { Some(v) => v, None => e_install },
        env_vars_override: match env_vars_override { Some(v) => v, None => e_env },
        member_order: match member_order { Some(v) => v, None => e_order },
        is_enabled: match is_enabled { Some(v) => v, None => e_enabled },
        tags: match tags { Some(v) => v, None => e_tags },
    }
}

// ============================================================================
// Members with their state
// ============================================================================

/// The state read last for member `id` in `states` (later rows win), if any.
pub open spec fn latest_state(states: Seq<StoredMemberState>, id: Uuid) -> Option<StoredMemberState>
    decreases states.len(),
{
    if states.len() == 0 {
        None
    } else if states.last().cluster_member_id == id {
        Some(states.last())
    } else {
        latest_state(states.drop_last(), id)
    }
}

/// The label given to a member that has no cached state yet.
pub open spec fn unknown_label() -> Seq<char> {
    "UNKNOWN"@
}

/// `r` is member `m` paired with the state found for it (`UNKNOWN` and no
/// check when none was found).
pub open spec fn paired_with_state(r: ClusterMemberWithState, m: ClusterMember, found: Option<StoredMemberState>) -> bool {
    &&& r.member == m
    &&& match found {
        Some(s) => {
            &&& r.current_state@ == s.current_state@
            &&& r.last_check_at == s.last_check_at
            &&& r.last_check_exit_code == s.last_check_exit_code
        },
        None => {
            &&& r.current_state@ == unknown_label()
            &&& r.last_check_at is None
            &&& r.last_check_exit_code is None
        },
    }
}

/// The index of the state read last for member `id`, if any.
fn find_latest_state(states: &Vec<StoredMemberState>, id: &Uuid) -> (r: Option<usize>)
    ensures
        match r {
            Some(j) => j < states@.len() && latest_state(states@, *id) == Some(states@[j as int]),
            None => latest_state(states@, *id) is None,
        },
{
    let mut j: usize = states.len();
    assert(states@.take(j as int) =~= states@);
    while j > 0
        invariant
            j <= states@.len(),
            latest_state(states@, *id) == latest_state(states@.take(j as int), *id),
        decreases j,
    {
        let ghost prefix = states@.take(j as int);
        assert(prefix.drop_last() =~= states@.take(j - 1));
        if same_uuid(&states[j - 1].cluster_member_id, id) {
            return Some(j - 1);
        }
        j = j - 1;
    }
    assert(states@.take(0) =~= Seq::<StoredMemberState>::empty());
    None
}

/// Pairs each member, in order, with the state read last for it; a member
/// with no state is `UNKNOWN`, with no check.
pub fn attach_states(members: Vec<ClusterMember>, states: &Vec<StoredMemberState>) -> (r: Vec<ClusterMemberWithState>)
    ensures
        r@.len() == members@.len(),
        forall|i: int| 0 <= i < r@.len() ==> paired_with_state(
            #[trigger] r@[i], members@[i], latest_state(states@, members@[i].id)),
{
    let ghost given = members@;
    let mut rest = members;
    let mut out: Vec<ClusterMemberWithState> = Vec::new();
    let n: usize = rest.len();
    let mut k: usize = 0;
    while k < n
        invariant
            n == given.len(),
            k <= n,
            rest@ == given.subrange(k as int, n as int),
            out@.len() == k,
            forall|i: int| 0 <= i < k ==> paired_with_state(
                #[trigger] out@[i], given[i], latest_state(states@, given[i].id)),
        decreases n - k,
    {
        let m = rest.remove(0);
        assert(m == given[k as int]);
        let found = find_latest_state(states, &m.id);
        let entry = match found {
            Some(j) => {
                let s = &states[j];
                ClusterMemberWithState {
                    member: m,
                    current_state: s.current_state.clone(),
                    last_check_at: s.last_check_at,
                    last_check_exit_code: s.last_check_exit_code,
                }
            },
            None => ClusterMemberWithState {
                member: m,
                current_state: "UNKNOWN".to_owned(),
                last_check_at: None,
                last_check_exit_code: None,
            },
        };
        out.push(entry);
        assert(rest@ =~= given.subrange(k + 1, n as int));
        k = k + 1;
    }
    out
}

// ============================================================================
// FSM aggregation
// ============================================================================

/// The state label of a running member.
pub open spec fn running_label() -> Seq<char> {
    "RUNNING"@
}

/// The state label of a stopped member.
pub open spec fn stopped_label() -> Seq<char> {
    "STOPPED"@
}

/// The label of a partly healthy component.
pub open spec fn degraded_label() -> Seq<char> {
    "DEGRADED"@
}

/// The label of a failed component.
pub open spec fn failed_label() -> Seq<char> {
    "FAILED"@
}

/// How many members of the snapshot are in state `label`.
pub open spec fn count_in_state(states: Seq<ClusterMemberState>, label: Seq<char>) -> nat
    decreases states.len(),
{
    if states.len() == 0 {
        0
    } else {
        count_in_state(states.drop_last(), label) + if states.last().current_state@ == label {
            1nat
        } else {
            0nat
        }
    }
}

/// The parent component's state for `total` members of which `running` run
/// and `stopped` are stopped, under `policy` (`None` when there is no member).
///
/// - all members stopped: `STOPPED`, whatever the policy;
/// - `any_healthy`: `RUNNING` when one member runs, else `FAILED`;
/// - `quorum`: `RUNNING` when at least `total / 2 + 1` members run (a strict
///   majority), `DEGRADED` when at least one runs, else `FAILED`;
/// - `threshold_pct`: `RUNNING` when the running share, in percent, reaches
///   `min_pct`; `DEGRADED` when it reaches 50%; below 50%, `FAILED`;
/// - any other policy, `all_healthy` among them: `RUNNING` when all run,
///   `FAILED` when none does, else `DEGRADED`.
pub open spec fn aggregate_state(total: nat, running: nat, stopped: nat, policy: Seq<char>, min_pct: int) -> Option<Seq<char>> {
    if total == 0 {
        None
    } else if stopped == total {
        Some(stopped_label())
    } else if policy == "any_healthy"@ {
        if running > 0 { Some(running_label()) } else { Some(failed_label()) }
    } else if policy == "quorum"@ {
        if running >= total / 2 + 1 {
            Some(running_label())
        } else if running > 0 {
            Some(degraded_label())
        } else {
            Some(failed_label())
        }
    } else if policy == "threshold_pct"@ {
        if running * 100 >= min_pct * total {
            Some(running_label())
        } else if running * 2 >= total {
            Some(degraded_label())
        } else {
            Some(failed_label())
        }
    } else {
        if running == total {
            Some(running_label())
        } else if running == 0 {
            Some(failed_label())
        } else {
            Some(degraded_label())
        }
    }
}

/// The parent component's state derived from a snapshot of member states.
pub open spec fn derived_state(states: Seq<ClusterMemberState>, policy: Seq<char>, min_pct: int) -> Option<Seq<char>> {
    aggregate_state(
        states.len(),
        count_in_state(states, running_label()),
        count_in_state(states, stopped_label()),
        policy,
        min_pct,
    )
}

/// The characters of a returned label, if any.
pub open spec fn label_view(r: Option<&str>) -> Option<Seq<char>> {
    match r {
        Some(s) => Some(s@),
        None => None,
    }
}

/// No more members are in a state than there are members.
pub proof fn lemma_count_bounded(states: Seq<ClusterMemberState>, label: Seq<char>)
    ensures
        count_in_state(states, label) <= states.len(),
    decreases states.len(),
{
    if states.len() > 0 {
        lemma_count_bounded(states.drop_last(), label);
    }
}

/// Derives the parent component's state from a snapshot of member states
/// (see `aggregate_state` for the policies). Returns `None` for an empty
/// snapshot: the caller keeps the component's manually set state.
pub fn derive_component_state(
    member_states: &[ClusterMemberState],
    policy: &str,
    min_healthy_pct: i16,
) -> (r: Option<&'static str>)
    ensures
        label_view(r) == derived_state(member_states@, policy@, min_healthy_pct as int),
{
    let total: usize = member_states.len();
    if total == 0 {
        return None;
    }
    let mut running: usize = 0;
    let mut stopped: usize = 0;
    let mut i: usize = 0;
    while i < total
        invariant
            total == member_states@.len(),
            i <= total,
            running == count_in_state(member_states@.take(i as int), running_label()),
            stopped == count_in_state(member_states@.take(i as int), stopped_label()),
            running <= i,
            stopped <= i,
        decreases total - i,
    {
        let ghost prefix = member_states@.take(i + 1);
        assert(prefix.drop_last() =~= member_states@.take(i as int));
        proof {
            lemma_count_bounded(member_states@.take(i as int), running_label());
        }
        let label = member_states[i].current_state.as_str();
        if text_eq(label, "RUNNING") {
            running = running + 1;
        }
        if text_eq(label, "STOPPED") {
            stopped = stopped + 1;
        }
        i = i + 1;
    }
    assert(member_states@.take(total as int) =~= member_states@);

    if stopped == total {
        return Some("STOPPED");
    }
    if text_eq(policy, "any_healthy") {
        if running > 0 { Some("RUNNING") } else { Some("FAILED") }
    } else if text_eq(policy, "quorum") {
        let quorum: usize = total / 2 + 1;
        if running >= quorum {
            Some("RUNNING")
        } else if running > 0 {
            Some("DEGRADED")
        } else {
            Some("FAILED")
        }
    } else if text_eq(policy, "threshold_pct") {
        if meets_percentage(running, total, min_healthy_pct) {
            Some("RUNNING")
        } else if running >= total - running {
            Some("DEGRADED")
        } else {
            Some("FAILED")
        }
    } else {
        if running == total {
            Some("RUNNING")
        } else if running == 0 {
            Some("FAILED")
        } else {
            Some("DEGRADED")
        }
    }
}

/// Whether `part` out of `total` reaches `pct` percent, computed exactly.
fn meets_percentage(part: usize, total: usize, pct: i16) -> (r: bool)
    requires
        part <= total,
    ensures
        r == (part * 100 >= pct * total),
{
    if pct <= 0 {
        assert(part * 100 >= 0) by (nonlinear_arith);
        assert(pct * total <= 0) by (nonlinear_arith)
            requires pct <= 0;
        true
    } else {
        let lhs: u128 = (part as u128) * 100;
        assert((pct as u128) * (total as u128) <= 32767 * 0xffff_ffff_ffff_ffff) by (nonlinear_arith)
            requires 0 < pct <= 32767, total <= 0xffff_ffff_ffff_ffff;
        let rhs: u128 = (pct as u128) * (total as u128);
        lhs >= rhs
    }
}

} // verus!
