use appcontrol_repository::cluster_members::{derive_component_state, ClusterMemberState};
use appcontrol_repository::db::Timestamp;
use chrono::Utc;
use uuid::Uuid;

fn now() -> Timestamp {
    let t = Utc::now();
    Timestamp {
        secs: t.timestamp(),
        nanos: t.timestamp_subsec_nanos(),
    }
}

fn make_state(s: &str) -> ClusterMemberState {
    ClusterMemberState {
        cluster_member_id: Uuid::new_v4(),
        current_state: s.to_string(),
        last_check_at: None,
        last_check_exit_code: None,
        last_check_duration_ms: None,
        last_stdout: None,
        updated_at: now(),
    }
}

#[test]
fn all_healthy_all_running() {
    let states = vec![make_state("RUNNING"), make_state("RUNNING")];
    assert_eq!(
        derive_component_state(&states, "all_healthy", 100),
        Some("RUNNING")
    );
}

#[test]
fn all_healthy_partial_running_is_degraded() {
    let states = vec![make_state("RUNNING"), make_state("FAILED")];
    assert_eq!(
        derive_component_state(&states, "all_healthy", 100),
        Some("DEGRADED")
    );
}

#[test]
fn all_healthy_none_running_is_failed() {
    let states = vec![make_state("FAILED"), make_state("FAILED")];
    assert_eq!(
        derive_component_state(&states, "all_healthy", 100),
        Some("FAILED")
    );
}

#[test]
fn all_stopped_is_stopped() {
    let states = vec![make_state("STOPPED"), make_state("STOPPED")];
    assert_eq!(
        derive_component_state(&states, "all_healthy", 100),
        Some("STOPPED")
    );
}

#[test]
fn any_healthy_one_running_is_running() {
    let states = vec![make_state("RUNNING"), make_state("FAILED")];
    assert_eq!(
        derive_component_state(&states, "any_healthy", 100),
        Some("RUNNING")
    );
}

#[test]
fn quorum_majority_running_is_running() {
    let states = vec![
        make_state("RUNNING"),
        make_state("RUNNING"),
        make_state("FAILED"),
    ];
    assert_eq!(
        derive_component_state(&states, "quorum", 100),
        Some("RUNNING")
    );
}

#[test]
fn quorum_split_is_degraded() {
    let states = vec![
        make_state("RUNNING"),
        make_state("FAILED"),
        make_state("FAILED"),
    ];
    assert_eq!(
        derive_component_state(&states, "quorum", 100),
        Some("DEGRADED")
    );
}

#[test]
fn threshold_pct_meets_threshold() {
    let states = vec![
        make_state("RUNNING"),
        make_state("RUNNING"),
        make_state("RUNNING"),
        make_state("FAILED"),
    ];
    // 75% running, threshold 75 → RUNNING
    assert_eq!(
        derive_component_state(&states, "threshold_pct", 75),
        Some("RUNNING")
    );
}

#[test]
fn threshold_pct_below_threshold_above_50_degraded() {
    let states = vec![
        make_state("RUNNING"),
        make_state("RUNNING"),
        make_state("FAILED"),
        make_state("FAILED"),
    ];
    // 50% — below threshold 80 but ≥ 50% → DEGRADED
    assert_eq!(
        derive_component_state(&states, "threshold_pct", 80),
        Some("DEGRADED")
    );
}

#[test]
fn empty_members_returns_none() {
    assert_eq!(derive_component_state(&[], "all_healthy", 100), None);
}
