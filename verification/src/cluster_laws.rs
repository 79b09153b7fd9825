//! Laws of the cluster-member logic: what the aggregation of member states,
//! the merge of partial updates and the listing of members with their
//! cached state promise for every input.

use vstd::prelude::*;
use uuid::Uuid;
use crate::cluster_members::{
    aggregate_state, count_in_state, lemma_count_bounded, degraded_label, derived_state, failed_label, member_values,
    latest_state, no_changes, paired_with_state, resolved_update, running_label, stopped_label,
    with_values, ClusterMember, ClusterMemberState, ClusterMemberWithState, StoredMemberState,
    UpdateClusterMember,
};

verus! {

broadcast use vstd::seq_lib::group_to_multiset_ensures;

/// The state labels of a snapshot, member by member.
pub open spec fn state_labels(states: Seq<ClusterMemberState>) -> Seq<Seq<char>> {
    states.map_values(|s: ClusterMemberState| s.current_state@)
}

proof fn lemma_count_is_multiplicity(states: Seq<ClusterMemberState>, label: Seq<char>)
    ensures
        count_in_state(states, label) == state_labels(states).to_multiset().count(label),
    decreases states.len(),
{
    if states.len() > 0 {
        let init = states.drop_last();
        lemma_count_is_multiplicity(init, label);
        assert(state_labels(states) =~= state_labels(init).push(states.last().current_state@));
    } else {
        assert(state_labels(states) =~= Seq::<Seq<char>>::empty());
    }
}

proof fn lemma_count_all(states: Seq<ClusterMemberState>, label: Seq<char>)
    requires
        forall|i: int| 0 <= i < states.len() ==> (#[trigger] states[i]).current_state@ == label,
    ensures
        count_in_state(states, label) == states.len(),
    decreases states.len(),
{
    if states.len() > 0 {
        let init = states.drop_last();
        assert forall|i: int| 0 <= i < init.len() implies (#[trigger] init[i]).current_state@ == label by {
            assert(init[i] == states[i]);
        }
        lemma_count_all(init, label);
    }
}

proof fn lemma_count_none(states: Seq<ClusterMemberState>, label: Seq<char>)
    requires
        forall|i: int| 0 <= i < states.len() ==> (#[trigger] states[i]).current_state@ != label,
    ensures
        count_in_state(states, label) == 0,
    decreases states.len(),
{
    if states.len() > 0 {
        let init = states.drop_last();
        assert forall|i: int| 0 <= i < init.len() implies (#[trigger] init[i]).current_state@ != label by {
            assert(init[i] == states[i]);
        }
        lemma_count_none(init, label);
    }
}

proof fn lemma_count_below_len(states: Seq<ClusterMemberState>, label: Seq<char>, k: int)
    requires
        0 <= k < states.len(),
        states[k].current_state@ != label,
    ensures
        count_in_state(states, label) < states.len(),
    decreases states.len(),
{
    let init = states.drop_last();
    if k == states.len() - 1 {
        lemma_count_bounded(init, label);
    } else {
        assert(init[k] == states[k]);
        lemma_count_below_len(init, label, k);
    }
}

/// A snapshot has a derived state exactly when it has at least one member.
pub proof fn law_state_exists_iff_members(states: Seq<ClusterMemberState>, policy: Seq<char>, min_pct: int)
    ensures
        derived_state(states, policy, min_pct) is None <==> states.len() == 0,
{
}

/// When every member is stopped, the component is stopped, whatever the
/// policy and threshold.
pub proof fn law_all_stopped_is_stopped(states: Seq<ClusterMemberState>, policy: Seq<char>, min_pct: int)
    requires
        states.len() > 0,
        forall|i: int| 0 <= i < states.len() ==> (#[trigger] states[i]).current_state@ == stopped_label(),
    ensures
        derived_state(states, policy, min_pct) == Some(stopped_label()),
{
    lemma_count_all(states, stopped_label());
}

/// The derived state depends only on how many members are in each state, not
/// on their order: two snapshots holding the same labels give the same
/// result.
pub proof fn law_order_does_not_matter(
    a: Seq<ClusterMemberState>,
    b: Seq<ClusterMemberState>,
    policy: Seq<char>,
    min_pct: int,
)
    requires
        state_labels(a).to_multiset() == state_labels(b).to_multiset(),
    ensures
        derived_state(a, policy, min_pct) == derived_state(b, policy, min_pct),
{
    lemma_count_is_multiplicity(a, running_label());
    lemma_count_is_multiplicity(b, running_label());
    lemma_count_is_multiplicity(a, stopped_label());
    lemma_count_is_multiplicity(b, stopped_label());
    assert(state_labels(a).len() == a.len());
    assert(state_labels(b).len() == b.len());
    assert(state_labels(a).to_multiset().len() == a.len());
    assert(state_labels(b).to_multiset().len() == b.len());
}

/// A policy that is none of `any_healthy`, `quorum` and `threshold_pct` is
/// read as `all_healthy`.
pub proof fn law_unknown_policy_is_all_healthy(states: Seq<ClusterMemberState>, policy: Seq<char>, min_pct: int)
    requires
        policy != "any_healthy"@,
        policy != "quorum"@,
        policy != "threshold_pct"@,
    ensures
        derived_state(states, policy, min_pct) == derived_state(states, "all_healthy"@, min_pct),
{
    reveal_strlit("all_healthy");
    reveal_strlit("any_healthy");
    reveal_strlit("quorum");
    reveal_strlit("threshold_pct");
    assert("all_healthy"@[1] != "any_healthy"@[1]);
    assert("all_healthy"@.len() != "quorum"@.len());
    assert("all_healthy"@.len() != "threshold_pct"@.len());
}

/// When every member runs, the component runs under every policy (for
/// `threshold_pct`, with a threshold of at most 100%).
pub proof fn law_all_running_is_running(states: Seq<ClusterMemberState>, policy: Seq<char>, min_pct: int)
    requires
        states.len() > 0,
        min_pct <= 100,
        forall|i: int| 0 <= i < states.len() ==> (#[trigger] states[i]).current_state@ == running_label(),
    ensures
        derived_state(states, policy, min_pct) == Some(running_label()),
{
    reveal_strlit("RUNNING");
    reveal_strlit("STOPPED");
    lemma_count_all(states, running_label());
    assert forall|i: int| 0 <= i < states.len() implies (#[trigger] states[i]).current_state@ != stopped_label() by {
        assert(states[i].current_state@[0] != stopped_label()[0]);
    }
    lemma_count_none(states, stopped_label());
    let n: nat = states.len();
    assert(n * 100 >= min_pct * n) by (nonlinear_arith)
        requires min_pct <= 100, n > 0;
}

/// When no member runs and not all are stopped, the component has failed
/// under every policy (for `threshold_pct`, with a positive threshold).
pub proof fn law_nothing_running_is_failed(
    states: Seq<ClusterMemberState>,
    policy: Seq<char>,
    min_pct: int,
    k: int,
)
    requires
        min_pct > 0,
        0 <= k < states.len(),
        states[k].current_state@ != stopped_label(),
        forall|i: int| 0 <= i < states.len() ==> (#[trigger] states[i]).current_state@ != running_label(),
    ensures
        derived_state(states, policy, min_pct) == Some(failed_label()),
{
    lemma_count_none(states, running_label());
    lemma_count_below_len(states, stopped_label(), k);
    let n: nat = states.len();
    assert(0 < min_pct * n) by (nonlinear_arith)
        requires min_pct > 0, n > 0;
}

/// Health order of a derived label: failed below degraded below running.
pub open spec fn health_rank(label: Option<Seq<char>>) -> int {
    if label == Some(running_label()) {
        2
    } else if label == Some(degraded_label()) {
        1
    } else {
        0
    }
}

/// One more running member (taken from those neither running nor stopped)
/// never makes the component less healthy, under any policy and threshold.
pub proof fn law_more_running_never_less_healthy(
    total: nat,
    running: nat,
    stopped: nat,
    policy: Seq<char>,
    min_pct: int,
)
    requires
        running + 1 + stopped <= total,
    ensures
        health_rank(aggregate_state(total, running + 1, stopped, policy, min_pct))
            >= health_rank(aggregate_state(total, running, stopped, policy, min_pct)),
{
    reveal_strlit("RUNNING");
    reveal_strlit("DEGRADED");
    reveal_strlit("FAILED");
    reveal_strlit("STOPPED");
    assert(running_label()[0] != degraded_label()[0]);
    assert(running_label()[0] != failed_label()[0]);
    assert(degraded_label()[0] != failed_label()[0]);
    assert((running + 1) * 100 >= running * 100) by (nonlinear_arith);
}

/// An update that gives no field writes the member back as it stands.
pub proof fn law_empty_update_changes_nothing(m: ClusterMember)
    ensures
        resolved_update(m, no_changes()) == member_values(m),
{
}

/// Applying the same update a second time changes nothing more.
pub proof fn law_update_is_idempotent(m: ClusterMember, u: UpdateClusterMember)
    ensures
        resolved_update(with_values(m, resolved_update(m, u)), u) == resolved_update(m, u),
{
}

/// A field that the update gives is written as given, a clearing `Some(None)`
/// included; a field it omits keeps the stored value. Identity stays.
pub proof fn law_update_writes_given_fields(m: ClusterMember, u: UpdateClusterMember)
    ensures
        u.hostname matches Some(x) ==> resolved_update(m, u).hostname == x,
        u.hostname is None ==> resolved_update(m, u).hostname == m.hostname,
        u.agent_id matches Some(x) ==> resolved_update(m, u).agent_id == x,
        u.agent_id is None ==> resolved_update(m, u).agent_id == m.agent_id,
        u.site_id matches Some(x) ==> resolved_update(m, u).site_id == x,
        u.site_id is None ==> resolved_update(m, u).site_id == m.site_id,
        u.check_cmd_override matches Some(x) ==> resolved_update(m, u).check_cmd_override == x,
        u.check_cmd_override is None ==> resolved_update(m, u).check_cmd_override == m.check_cmd_override,
        u.start_cmd_override matches Some(x) ==> resolved_update(m, u).start_cmd_override == x,
        u.start_cmd_override is None ==> resolved_update(m, u).start_cmd_override == m.start_cmd_override,
        u.stop_cmd_override matches Some(x) ==> resolved_update(m, u).stop_cmd_override == x,
        u.stop_cmd_override is None ==> resolved_update(m, u).stop_cmd_override == m.stop_cmd_override,
        u.install_path matches Some(x) ==> resolved_update(m, u).install_path == x,
        u.install_path is None ==> resolved_update(m, u).install_path == m.install_path,
        u.env_vars_override matches Some(x) ==> resolved_update(m, u).env_vars_override == x,
        u.env_vars_override is None ==> resolved_update(m, u).env_vars_override == m.env_vars_override,
        u.member_order matches Some(x) ==> resolved_update(m, u).member_order == x,
        u.member_order is None ==> resolved_update(m, u).member_order == m.member_order,
        u.is_enabled matches Some(x) ==> resolved_update(m, u).is_enabled == x,
        u.is_enabled is None ==> resolved_update(m, u).is_enabled == m.is_enabled,
        u.tags matches Some(x) ==> resolved_update(m, u).tags == x,
        u.tags is None ==> resolved_update(m, u).tags == m.tags,
        with_values(m, resolved_update(m, u)).id == m.id,
        with_values(m, resolved_update(m, u)).component_id == m.component_id,
{
}

proof fn lemma_labels_differ()
    ensures
        running_label() != stopped_label(),
        running_label() != degraded_label(),
        running_label() != failed_label(),
        degraded_label() != stopped_label(),
        degraded_label() != failed_label(),
{
    reveal_strlit("RUNNING");
    reveal_strlit("DEGRADED");
    reveal_strlit("FAILED");
    reveal_strlit("STOPPED");
    assert(running_label()[0] != stopped_label()[0]);
    assert(running_label()[0] != degraded_label()[0]);
    assert(running_label()[0] != failed_label()[0]);
    assert(degraded_label()[0] != stopped_label()[0]);
    assert(degraded_label()[0] != failed_label()[0]);
}

proof fn lemma_count_positive(states: Seq<ClusterMemberState>, label: Seq<char>, k: int)
    requires
        0 <= k < states.len(),
        states[k].current_state@ == label,
    ensures
        count_in_state(states, label) >= 1,
    decreases states.len(),
{
    let init = states.drop_last();
    if k < states.len() - 1 {
        assert(init[k] == states[k]);
        lemma_count_positive(init, label, k);
    }
}

/// Under `all_healthy` (and any policy other than `any_healthy`, `quorum`
/// and `threshold_pct`), a component with some members running and some not
/// running is degraded, whatever state the others are in.
pub proof fn law_all_healthy_partly_running_is_degraded(
    states: Seq<ClusterMemberState>,
    policy: Seq<char>,
    min_pct: int,
    i: int,
    k: int,
)
    requires
        policy != "any_healthy"@,
        policy != "quorum"@,
        policy != "threshold_pct"@,
        0 <= i < states.len(),
        states[i].current_state@ == running_label(),
        0 <= k < states.len(),
        states[k].current_state@ != running_label(),
    ensures
        derived_state(states, policy, min_pct) == Some(degraded_label()),
{
    lemma_labels_differ();
    lemma_count_positive(states, running_label(), i);
    lemma_count_below_len(states, running_label(), k);
    lemma_count_below_len(states, stopped_label(), i);
}

/// Under `all_healthy` (and any policy other than `any_healthy`, `quorum`
/// and `threshold_pct`), the component runs only when every member runs.
pub proof fn law_all_healthy_running_needs_every_member(
    states: Seq<ClusterMemberState>,
    policy: Seq<char>,
    min_pct: int,
)
    requires
        policy != "any_healthy"@,
        policy != "quorum"@,
        policy != "threshold_pct"@,
        derived_state(states, policy, min_pct) == Some(running_label()),
    ensures
        states.len() > 0,
        forall|k: int| 0 <= k < states.len() ==> (#[trigger] states[k]).current_state@ == running_label(),
{
    lemma_labels_differ();
    assert(count_in_state(states, running_label()) == states.len());
    assert forall|k: int| 0 <= k < states.len() implies (#[trigger] states[k]).current_state@ == running_label() by {
        if states[k].current_state@ != running_label() {
            lemma_count_below_len(states, running_label(), k);
        }
    }
}

/// Under `any_healthy`, unless every member is stopped, the component runs
/// when at least one member runs and has failed when none does.
pub proof fn law_any_healthy_runs_on_one_running_member(
    states: Seq<ClusterMemberState>,
    min_pct: int,
    k: int,
)
    requires
        0 <= k < states.len(),
        states[k].current_state@ != stopped_label(),
    ensures
        (exists|i: int| 0 <= i < states.len() && (#[trigger] states[i]).current_state@ == running_label())
            ==> derived_state(states, "any_healthy"@, min_pct) == Some(running_label()),
        (forall|i: int| 0 <= i < states.len() ==> (#[trigger] states[i]).current_state@ != running_label())
            ==> derived_state(states, "any_healthy"@, min_pct) == Some(failed_label()),
{
    lemma_count_below_len(states, stopped_label(), k);
    if exists|i: int| 0 <= i < states.len() && (#[trigger] states[i]).current_state@ == running_label() {
        let i = choose|i: int| 0 <= i < states.len() && (#[trigger] states[i]).current_state@ == running_label();
        lemma_count_positive(states, running_label(), i);
    }
    if forall|i: int| 0 <= i < states.len() ==> (#[trigger] states[i]).current_state@ != running_label() {
        lemma_count_none(states, running_label());
    }
}

/// Under `quorum`, unless every member is stopped, the component runs when a
/// strict majority of its members runs, is degraded when some but no
/// majority run, and has failed when none runs.
pub proof fn law_quorum_is_strict_majority(states: Seq<ClusterMemberState>, min_pct: int, k: int)
    requires
        0 <= k < states.len(),
        states[k].current_state@ != stopped_label(),
    ensures
        2 * count_in_state(states, running_label()) > states.len()
            ==> derived_state(states, "quorum"@, min_pct) == Some(running_label()),
        0 < count_in_state(states, running_label()) && 2 * count_in_state(states, running_label()) <= states.len()
            ==> derived_state(states, "quorum"@, min_pct) == Some(degraded_label()),
        count_in_state(states, running_label()) == 0
            ==> derived_state(states, "quorum"@, min_pct) == Some(failed_label()),
{
    reveal_strlit("quorum");
    reveal_strlit("any_healthy");
    assert("quorum"@ != "any_healthy"@) by {
        assert("quorum"@.len() != "any_healthy"@.len());
    }
    lemma_count_below_len(states, stopped_label(), k);
}

/// Under `threshold_pct`, unless every member is stopped, the component runs
/// when the running share, in percent, reaches the threshold; otherwise it
/// is degraded when at least half of the members run, and has failed below
/// half.
pub proof fn law_threshold_by_running_share(states: Seq<ClusterMemberState>, min_pct: int, k: int)
    requires
        0 <= k < states.len(),
        states[k].current_state@ != stopped_label(),
    ensures
        100 * count_in_state(states, running_label()) >= min_pct * states.len()
            ==> derived_state(states, "threshold_pct"@, min_pct) == Some(running_label()),
        100 * count_in_state(states, running_label()) < min_pct * states.len()
            && 100 * count_in_state(states, running_label()) >= 50 * states.len()
            ==> derived_state(states, "threshold_pct"@, min_pct) == Some(degraded_label()),
        100 * count_in_state(states, running_label()) < min_pct * states.len()
            && 100 * count_in_state(states, running_label()) < 50 * states.len()
            ==> derived_state(states, "threshold_pct"@, min_pct) == Some(failed_label()),
{
    reveal_strlit("quorum");
    reveal_strlit("any_healthy");
    reveal_strlit("threshold_pct");
    assert("threshold_pct"@ != "any_healthy"@) by {
        assert("threshold_pct"@.len() != "any_healthy"@.len());
    }
    assert("threshold_pct"@ != "quorum"@) by {
        assert("threshold_pct"@.len() != "quorum"@.len());
    }
    lemma_count_below_len(states, stopped_label(), k);
}

proof fn lemma_latest_is_last_match(states: Seq<StoredMemberState>, id: Uuid, j: int)
    requires
        0 <= j < states.len(),
        states[j].cluster_member_id == id,
        forall|k: int| j < k < states.len() ==> (#[trigger] states[k]).cluster_member_id != id,
    ensures
        latest_state(states, id) == Some(states[j]),
    decreases states.len(),
{
    if j < states.len() - 1 {
        let init = states.drop_last();
        assert(states.last() == states[states.len() - 1]);
        assert forall|k: int| j < k < init.len() implies (#[trigger] init[k]).cluster_member_id != id by {
            assert(init[k] == states[k]);
        }
        lemma_latest_is_last_match(init, id, j);
    }
}

proof fn lemma_latest_none(states: Seq<StoredMemberState>, id: Uuid)
    requires
        forall|k: int| 0 <= k < states.len() ==> (#[trigger] states[k]).cluster_member_id != id,
    ensures
        latest_state(states, id) is None,
    decreases states.len(),
{
    if states.len() > 0 {
        let init = states.drop_last();
        assert(states.last() == states[states.len() - 1]);
        assert forall|k: int| 0 <= k < init.len() implies (#[trigger] init[k]).cluster_member_id != id by {
            assert(init[k] == states[k]);
        }
        lemma_latest_none(init, id);
    }
}

/// Listing members with their state: entry `i` is member `i`, and when state
/// row `j` is the last row read for that member, the entry carries that
/// row's state, check time and exit code, each as stored.
pub proof fn law_listed_member_carries_its_last_state_row(
    members: Seq<ClusterMember>,
    states: Seq<StoredMemberState>,
    r: Seq<ClusterMemberWithState>,
    i: int,
    j: int,
)
    requires
        r.len() == members.len(),
        forall|n: int| 0 <= n < r.len() ==> paired_with_state(
            #[trigger] r[n], members[n], latest_state(states, members[n].id)),
        0 <= i < members.len(),
        0 <= j < states.len(),
        states[j].cluster_member_id == members[i].id,
        forall|k: int| j < k < states.len() ==> (#[trigger] states[k]).cluster_member_id != members[i].id,
    ensures
        r[i].member == members[i],
        r[i].current_state@ == states[j].current_state@,
        r[i].last_check_at == states[j].last_check_at,
        r[i].last_check_exit_code == states[j].last_check_exit_code,
{
    lemma_latest_is_last_match(states, members[i].id, j);
    assert(paired_with_state(r[i], members[i], latest_state(states, members[i].id)));
}

/// Listing members with their state: a member with no state row is listed as
/// `UNKNOWN`, with no check time and no exit code.
pub proof fn law_member_without_state_row_is_unknown(
    members: Seq<ClusterMember>,
    states: Seq<StoredMemberState>,
    r: Seq<ClusterMemberWithState>,
    i: int,
)
    requires
        r.len() == members.len(),
        forall|n: int| 0 <= n < r.len() ==> paired_with_state(
            #[trigger] r[n], members[n], latest_state(states, members[n].id)),
        0 <= i < members.len(),
        forall|k: int| 0 <= k < states.len() ==> (#[trigger] states[k]).cluster_member_id != members[i].id,
    ensures
        r[i].member == members[i],
        r[i].current_state@ == "UNKNOWN"@,
        r[i].last_check_at is None,
        r[i].last_check_exit_code is None,
{
    lemma_latest_none(states, members[i].id);
    assert(paired_with_state(r[i], members[i], latest_state(states, members[i].id)));
}

} // verus!
