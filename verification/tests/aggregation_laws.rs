use appcontrol_repository::cluster_members::{derive_component_state, ClusterMemberState};
use appcontrol_repository::db::Timestamp;
use uuid::Uuid;

fn state(s: &str) -> ClusterMemberState {
    ClusterMemberState {
        cluster_member_id: Uuid::new_v4(),
        current_state: s.to_string(),
        last_check_at: None,
        last_check_exit_code: None,
        last_check_duration_ms: None,
        last_stdout: None,
        updated_at: Timestamp { secs: 1_700_000_000, nanos: 0 },
    }
}

fn states(labels: &[&str]) -> Vec<ClusterMemberState> {
    labels.iter().map(|l| state(l)).collect()
}

#[test]
fn stopped_cluster_is_stopped_under_every_policy() {
    let s = states(&["STOPPED", "STOPPED", "STOPPED"]);
    for policy in ["all_healthy", "any_healthy", "quorum", "threshold_pct", "other"] {
        assert_eq!(derive_component_state(&s, policy, 60), Some("STOPPED"));
    }
}

#[test]
fn unknown_policy_reads_as_all_healthy() {
    let s = states(&["RUNNING", "FAILED", "RUNNING"]);
    assert_eq!(
        derive_component_state(&s, "something_else", 10),
        derive_component_state(&s, "all_healthy", 10)
    );
    assert_eq!(derive_component_state(&s, "", 10), Some("DEGRADED"));
}

#[test]
fn order_of_members_does_not_matter() {
    let a = states(&["RUNNING", "FAILED", "STOPPED", "RUNNING", "UNKNOWN"]);
    let b = states(&["UNKNOWN", "RUNNING", "RUNNING", "STOPPED", "FAILED"]);
    for policy in ["all_healthy", "any_healthy", "quorum", "threshold_pct"] {
        assert_eq!(
            derive_component_state(&a, policy, 40),
            derive_component_state(&b, policy, 40)
        );
    }
}

#[test]
fn all_running_is_running_under_every_policy() {
    let s = states(&["RUNNING", "RUNNING", "RUNNING"]);
    for policy in ["all_healthy", "any_healthy", "quorum", "threshold_pct"] {
        assert_eq!(derive_component_state(&s, policy, 100), Some("RUNNING"));
    }
}

#[test]
fn nothing_running_is_failed_under_every_policy() {
    let s = states(&["FAILED", "STOPPED", "UNKNOWN"]);
    for policy in ["all_healthy", "any_healthy", "quorum", "threshold_pct"] {
        assert_eq!(derive_component_state(&s, policy, 1), Some("FAILED"));
    }
}

#[test]
fn threshold_below_half_is_failed() {
    // 1 of 3 running: 33%, under the threshold and under 50%.
    let s = states(&["RUNNING", "FAILED", "FAILED"]);
    assert_eq!(derive_component_state(&s, "threshold_pct", 75), Some("FAILED"));
}

#[test]
fn threshold_is_exact_percentage() {
    // 57 of 100 running meets a 57% threshold exactly.
    let mut labels = vec!["RUNNING"; 57];
    labels.extend(vec!["FAILED"; 43]);
    let s = states(&labels);
    assert_eq!(derive_component_state(&s, "threshold_pct", 57), Some("RUNNING"));
    assert_eq!(derive_component_state(&s, "threshold_pct", 58), Some("DEGRADED"));
}

#[test]
fn threshold_of_zero_or_less_is_always_met() {
    let s = states(&["FAILED", "FAILED"]);
    assert_eq!(derive_component_state(&s, "threshold_pct", 0), Some("RUNNING"));
    assert_eq!(derive_component_state(&s, "threshold_pct", -5), Some("RUNNING"));
}

#[test]
fn threshold_above_hundred_is_never_met() {
    let s = states(&["RUNNING", "RUNNING"]);
    assert_eq!(derive_component_state(&s, "threshold_pct", 101), Some("DEGRADED"));
}

#[test]
fn quorum_needs_strict_majority() {
    let s = states(&["RUNNING", "RUNNING", "FAILED", "FAILED"]);
    assert_eq!(derive_component_state(&s, "quorum", 100), Some("DEGRADED"));
    let s = states(&["RUNNING", "RUNNING", "RUNNING", "FAILED"]);
    assert_eq!(derive_component_state(&s, "quorum", 100), Some("RUNNING"));
}

#[test]
fn more_running_never_less_healthy() {
    let rank = |r: Option<&str>| match r {
        Some("RUNNING") => 2,
        Some("DEGRADED") => 1,
        _ => 0,
    };
    for policy in ["all_healthy", "any_healthy", "quorum", "threshold_pct"] {
        for running in 0..4 {
            let mut before = vec!["RUNNING"; running];
            before.extend(vec!["FAILED"; 4 - running]);
            let mut after = vec!["RUNNING"; running + 1];
            after.extend(vec!["FAILED"; 3 - running]);
            let b = derive_component_state(&states(&before), policy, 70);
            let a = derive_component_state(&states(&after), policy, 70);
            assert!(rank(a) >= rank(b));
        }
    }
}

#[test]
fn lowercase_states_are_not_running() {
    let s = states(&["running", "Running"]);
    assert_eq!(derive_component_state(&s, "any_healthy", 100), Some("FAILED"));
}
