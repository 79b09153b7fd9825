use appcontrol_repository::cluster_members::{
    attach_states, resolve_update, AgentMemberConfig, ClusterMember, StoredMemberState,
    UpdateClusterMember,
};
use appcontrol_repository::db::Timestamp;
use appcontrol_repository::member_groups::group_by_component;
use serde_json::Value;
use uuid::Uuid;

fn js(text: &str) -> Value {
    serde_json::from_str(text).unwrap()
}

fn member(hostname: &str) -> ClusterMember {
    ClusterMember {
        id: Uuid::new_v4(),
        component_id: Uuid::new_v4(),
        hostname: hostname.to_string(),
        agent_id: Uuid::new_v4(),
        site_id: Some(Uuid::new_v4()),
        check_cmd_override: Some("healthcheck".to_string()),
        start_cmd_override: None,
        stop_cmd_override: Some("stop.sh".to_string()),
        install_path: Some("/opt/app".to_string()),
        env_vars_override: Some(js(r#"{"A":"1"}"#)),
        member_order: 3,
        is_enabled: true,
        tags: js(r#"["blue"]"#),
        created_at: Timestamp { secs: 10, nanos: 0 },
        updated_at: Timestamp { secs: 20, nanos: 5 },
    }
}

#[test]
fn empty_update_writes_member_back() {
    let m = member("node-a");
    let copy = m.clone();
    let r = resolve_update(m, UpdateClusterMember::default());
    assert_eq!(r.hostname, copy.hostname);
    assert_eq!(r.agent_id, copy.agent_id);
    assert_eq!(r.site_id, copy.site_id);
    assert_eq!(r.check_cmd_override, copy.check_cmd_override);
    assert_eq!(r.start_cmd_override, copy.start_cmd_override);
    assert_eq!(r.stop_cmd_override, copy.stop_cmd_override);
    assert_eq!(r.install_path, copy.install_path);
    assert_eq!(r.env_vars_override, copy.env_vars_override);
    assert_eq!(r.member_order, copy.member_order);
    assert_eq!(r.is_enabled, copy.is_enabled);
    assert_eq!(r.tags, copy.tags);
}

#[test]
fn given_fields_replace_and_clear() {
    let m = member("node-a");
    let agent = Uuid::new_v4();
    let update = UpdateClusterMember {
        hostname: Some("node-b".to_string()),
        agent_id: Some(agent),
        site_id: Some(None),
        check_cmd_override: Some(None),
        start_cmd_override: Some(Some("start.sh".to_string())),
        member_order: Some(7),
        is_enabled: Some(false),
        tags: Some(js(r#"[]"#)),
        ..Default::default()
    };
    let r = resolve_update(m, update);
    assert_eq!(r.hostname, "node-b");
    assert_eq!(r.agent_id, agent);
    assert_eq!(r.site_id, None);
    assert_eq!(r.check_cmd_override, None);
    assert_eq!(r.start_cmd_override.as_deref(), Some("start.sh"));
    assert_eq!(r.stop_cmd_override.as_deref(), Some("stop.sh"));
    assert_eq!(r.install_path.as_deref(), Some("/opt/app"));
    assert_eq!(r.env_vars_override, Some(js(r#"{"A":"1"}"#)));
    assert_eq!(r.member_order, 7);
    assert!(!r.is_enabled);
    assert_eq!(r.tags, js(r#"[]"#));
}

#[test]
fn update_applied_twice_is_the_same() {
    let m = member("node-a");
    let update = UpdateClusterMember {
        hostname: Some("node-c".to_string()),
        install_path: Some(None),
        ..Default::default()
    };
    let once = resolve_update(m.clone(), update.clone());
    let mut m2 = m.clone();
    m2.hostname = once.hostname.clone();
    m2.install_path = once.install_path.clone();
    let twice = resolve_update(m2, update);
    assert_eq!(once.hostname, twice.hostname);
    assert_eq!(once.install_path, twice.install_path);
    assert_eq!(once.stop_cmd_override, twice.stop_cmd_override);
}

fn stored(id: Uuid, s: &str, code: Option<i16>) -> StoredMemberState {
    StoredMemberState {
        cluster_member_id: id,
        current_state: s.to_string(),
        last_check_at: Some(Timestamp { secs: 99, nanos: 1 }),
        last_check_exit_code: code,
    }
}

#[test]
fn members_without_state_are_unknown() {
    let a = member("a");
    let b = member("b");
    let (ida, idb) = (a.id, b.id);
    let states = vec![stored(ida, "RUNNING", Some(0))];
    let r = attach_states(vec![a, b], &states);
    assert_eq!(r.len(), 2);
    assert_eq!(r[0].member.id, ida);
    assert_eq!(r[0].current_state, "RUNNING");
    assert_eq!(r[0].last_check_exit_code, Some(0));
    assert_eq!(r[0].last_check_at, Some(Timestamp { secs: 99, nanos: 1 }));
    assert_eq!(r[1].member.id, idb);
    assert_eq!(r[1].current_state, "UNKNOWN");
    assert_eq!(r[1].last_check_at, None);
    assert_eq!(r[1].last_check_exit_code, None);
}

#[test]
fn later_state_row_wins() {
    let a = member("a");
    let id = a.id;
    let states = vec![
        stored(id, "FAILED", Some(1)),
        stored(Uuid::new_v4(), "RUNNING", Some(0)),
        stored(id, "STOPPED", Some(2)),
    ];
    let r = attach_states(vec![a], &states);
    assert_eq!(r[0].current_state, "STOPPED");
    assert_eq!(r[0].last_check_exit_code, Some(2));
}

#[test]
fn no_members_no_rows() {
    let r = attach_states(Vec::new(), &vec![stored(Uuid::new_v4(), "RUNNING", None)]);
    assert!(r.is_empty());
}

#[test]
fn protocol_form_keeps_fields() {
    let cfg = AgentMemberConfig {
        member_id: Uuid::new_v4(),
        component_id: Uuid::new_v4(),
        hostname: "h1".to_string(),
        check_cmd: Some("c".to_string()),
        start_cmd: None,
        stop_cmd: Some("s".to_string()),
        env_vars: js(r#"{"K":"V"}"#),
    };
    let id = cfg.member_id;
    let p = cfg.into_protocol();
    assert_eq!(p.member_id, id);
    assert_eq!(p.hostname, "h1");
    assert_eq!(p.check_cmd.as_deref(), Some("c"));
    assert_eq!(p.start_cmd, None);
    assert_eq!(p.stop_cmd.as_deref(), Some("s"));
    assert_eq!(p.env_vars, js(r#"{"K":"V"}"#));
}

#[test]
fn agent_configs_are_grouped_by_component() {
    let c1 = Uuid::new_v4();
    let c2 = Uuid::new_v4();
    let cfg = |c: Uuid, h: &str| AgentMemberConfig {
        member_id: Uuid::new_v4(),
        component_id: c,
        hostname: h.to_string(),
        check_cmd: None,
        start_cmd: None,
        stop_cmd: None,
        env_vars: js("{}"),
    };
    let r = group_by_component(vec![cfg(c1, "a"), cfg(c2, "b"), cfg(c1, "c"), cfg(c2, "d"), cfg(c1, "e")]);
    let hosts: Vec<&str> = r.iter().map(|x| x.hostname.as_str()).collect();
    assert_eq!(hosts, vec!["a", "c", "e", "b", "d"]);
    assert!(group_by_component(Vec::new()).is_empty());
}
