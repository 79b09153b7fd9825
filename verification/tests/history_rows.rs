use appcontrol_repository::db::Timestamp;
use appcontrol_repository::history::{
    keep_parsed_app_actions, keep_parsed_command_executions, keep_parsed_component_actions,
    keep_parsed_transitions, AppActionText, CommandExecutionText, ComponentActionText,
    TransitionText,
};
use appcontrol_repository::id_rows::id_or_nil;
use appcontrol_repository::json::{
    json_opt, json_or_empty_array, json_or_empty_object, json_or_null, json_text_or_empty_object,
};
use appcontrol_repository::placeholders::in_list_query;
use serde_json::Value;
use uuid::Uuid;

const MIDNIGHT_2024: i64 = 1_704_067_200;

fn transition(id: &str, at: &str) -> TransitionText {
    TransitionText {
        component_id: id.to_string(),
        from_state: "STOPPED".to_string(),
        to_state: "STARTING".to_string(),
        trigger: "user".to_string(),
        created_at: at.to_string(),
    }
}

#[test]
fn transitions_keep_rows_whose_id_and_time_read() {
    let a = Uuid::new_v4();
    let b = Uuid::new_v4();
    let rows = vec![
        transition(&a.to_string(), "2024-01-01T00:00:00Z"),
        transition("bogus", "2024-01-01T00:00:00Z"),
        transition(&b.to_string(), "yesterday"),
        transition(&b.to_string(), "2024-01-01T01:00:00.5+01:00"),
    ];
    let r = keep_parsed_transitions(rows);
    assert_eq!(r.len(), 2);
    assert_eq!(r[0].component_id, a);
    assert_eq!(r[0].created_at, Timestamp { secs: MIDNIGHT_2024, nanos: 0 });
    assert_eq!(r[0].to_state, "STARTING");
    assert_eq!(r[1].component_id, b);
    // +01:00 is converted to UTC.
    assert_eq!(r[1].created_at, Timestamp { secs: MIDNIGHT_2024, nanos: 500_000_000 });
}

#[test]
fn app_actions_read_details_or_null() {
    let rows = vec![
        AppActionText {
            user_email: "a@x".to_string(),
            action: "start".to_string(),
            details: r#"{"k":1}"#.to_string(),
            created_at: "2024-01-01T00:00:00Z".to_string(),
            status: Some("ok".to_string()),
            error_message: None,
        },
        AppActionText {
            user_email: "b@x".to_string(),
            action: "stop".to_string(),
            details: "not json".to_string(),
            created_at: "2024-01-01T00:00:00Z".to_string(),
            status: None,
            error_message: Some("e".to_string()),
        },
        AppActionText {
            user_email: "c@x".to_string(),
            action: "stop".to_string(),
            details: "{}".to_string(),
            created_at: "not a time".to_string(),
            status: None,
            error_message: None,
        },
    ];
    let r = keep_parsed_app_actions(rows);
    assert_eq!(r.len(), 2);
    assert_eq!(r[0].details, serde_json::from_str::<Value>(r#"{"k":1}"#).unwrap());
    assert_eq!(r[1].details, Value::Null);
    assert_eq!(r[1].error_message.as_deref(), Some("e"));
}

#[test]
fn component_actions_need_id_and_time() {
    let id = Uuid::new_v4();
    let row = |rid: &str| ComponentActionText {
        user: "u".to_string(),
        action: "restart".to_string(),
        resource_id: rid.to_string(),
        component_name: "db".to_string(),
        details: "[1,2]".to_string(),
        created_at: "2024-01-01T00:00:00Z".to_string(),
        status: None,
        error_message: None,
    };
    let r = keep_parsed_component_actions(vec![row("x"), row(&id.to_string())]);
    assert_eq!(r.len(), 1);
    assert_eq!(r[0].resource_id, id);
    assert_eq!(r[0].component_name, "db");
    assert_eq!(r[0].details, serde_json::from_str::<Value>("[1,2]").unwrap());
}

#[test]
fn command_executions_drop_unreadable_completion() {
    let req = Uuid::new_v4();
    let comp = Uuid::new_v4();
    let row = |dispatched: &str, completed: Option<&str>| CommandExecutionText {
        request_id: req.to_string(),
        component_id: comp.to_string(),
        command_type: "check".to_string(),
        exit_code: Some(0),
        duration_ms: Some(12),
        dispatched_at: dispatched.to_string(),
        completed_at: completed.map(|c| c.to_string()),
    };
    let r = keep_parsed_command_executions(vec![
        row("2024-01-01T00:00:00Z", Some("2024-01-01T00:00:01Z")),
        row("2024-01-01T00:00:00Z", Some("soon")),
        row("bad", None),
    ]);
    assert_eq!(r.len(), 2);
    assert_eq!(r[0].request_id, req);
    assert_eq!(r[0].component_id, comp);
    assert_eq!(r[0].completed_at, Some(Timestamp { secs: MIDNIGHT_2024 + 1, nanos: 0 }));
    assert_eq!(r[1].completed_at, None);
    assert_eq!(r[1].dispatched_at, Timestamp { secs: MIDNIGHT_2024, nanos: 0 });
}

#[test]
fn unreadable_application_id_is_nil() {
    let id = Uuid::new_v4();
    assert_eq!(id_or_nil(&id.to_string()), id);
    assert_eq!(id_or_nil("garbage"), Uuid::nil());
}

#[test]
fn json_columns_fall_back() {
    assert_eq!(json_opt(None), None);
    assert_eq!(json_opt(Some("oops".to_string())), None);
    assert_eq!(json_opt(Some("[1]".to_string())), Some(serde_json::from_str("[1]").unwrap()));
    assert_eq!(json_or_empty_array(Some("oops".to_string())), Value::Array(Vec::new()));
    assert_eq!(json_or_empty_array(None), Value::Array(Vec::new()));
    assert_eq!(json_or_empty_object(Some("".to_string())), Value::Object(serde_json::Map::new()));
    assert_eq!(json_or_empty_object(Some(r#"{"A":"1"}"#.to_string())), serde_json::from_str::<Value>(r#"{"A":"1"}"#).unwrap());
    assert_eq!(json_or_null("{"), Value::Null);
    assert_eq!(json_text_or_empty_object(&serde_json::from_str::<Value>(r#"{"a":[1,true]}"#).unwrap()), r#"{"a":[1,true]}"#);
}

#[test]
fn empty_in_list_runs_no_query() {
    assert_eq!(in_list_query("SELECT 1 WHERE x IN (", 1, 0, ")"), None);
    assert_eq!(
        in_list_query("SELECT 1 WHERE x IN (", 3, 2, ")"),
        Some("SELECT 1 WHERE x IN ($3, $4)".to_string())
    );
}
