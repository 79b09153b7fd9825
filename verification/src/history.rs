//! History (timeline) rows. SQLite hands identifiers and instants back as
//! text: a row is kept, in order, only when its identifiers read as UUIDs and
//! its instant reads as RFC 3339 (converted to UTC); the others are dropped.

use vstd::prelude::*;
use uuid::Uuid;
use serde_json::Value;
use crate::db::Timestamp;
use crate::json::{json_null, json_or_null};
use crate::outside::{parse_rfc3339, parse_uuid, parsed_json, parsed_rfc3339, parsed_uuid};

verus! {

/// The results of `f` on the elements of `s`, in order, where it gives one.
pub open spec fn kept<A, B>(s: Seq<A>, f: spec_fn(A) -> Option<B>) -> Seq<B>
    decreases s.len(),
{
    if s.len() == 0 {
        Seq::empty()
    } else {
        let init = kept(s.drop_last(), f);
        match f(s.last()) {
            Some(b) => init.push(b),
            None => init,
        }
    }
}

/// Component id and name (for the timeline legend).
#[derive(Debug, Clone)]
pub struct HistoryComponentRow {
    pub id: Uuid,
    pub name: String,
}

/// A state transition row as SQLite returns it.
#[derive(Debug, Clone)]
pub struct TransitionText {
    pub component_id: String,
    pub from_state: String,
    pub to_state: String,
    pub trigger: String,
    pub created_at: String,
}

/// State transition row for the history timeline.
#[derive(Debug, Clone)]
pub struct HistoryTransitionRow {
    pub component_id: Uuid,
    pub from_state: String,
    pub to_state: String,
    pub trigger: String,
    pub created_at: Timestamp,
}

/// The transition a text row describes, when its component id and instant
/// both read.
pub open spec fn transition_of(t: TransitionText) -> Option<HistoryTransitionRow> {
    match (parsed_uuid(t.component_id@), parsed_rfc3339(t.created_at@)) {
        (Some(id), Some(at)) => Some(HistoryTransitionRow {
            component_id: id,
            from_state: t.from_state,
            to_state: t.to_state,
            trigger: t.trigger,
            created_at: at,
        }),
        _ => None,
    }
}

/// The transitions of the text rows, in order.
pub open spec fn parsed_transitions(rows: Seq<TransitionText>) -> Seq<HistoryTransitionRow> {
    kept(rows, |t: TransitionText| transition_of(t))
}

/// The transition a text row describes, if its id and instant read.
pub fn transition_from_text(t: TransitionText) -> (r: Option<HistoryTransitionRow>)
    ensures
        r == transition_of(t),
{
    let TransitionText { component_id, from_state, to_state, trigger, created_at } = t;
    match parse_uuid(component_id.as_str()) {
        None => None,
        Some(id) => match parse_rfc3339(created_at.as_str()) {
            None => None,
            Some(at) => Some(HistoryTransitionRow { component_id: id, from_state, to_state, trigger, created_at: at }),
        },
    }
}

/// An app-level action row as SQLite returns it.
#[derive(Debug, Clone)]
pub struct AppActionText {
    pub user_email: String,
    pub action: String,
    pub details: String,
    pub created_at: String,
    pub status: Option<String>,
    pub error_message: Option<String>,
}

/// An app-level action for the history timeline.
#[derive(Debug, Clone)]
pub struct HistoryAppAction {
    pub user_email: String,
    pub action: String,
    pub details: Value,
    pub created_at: Timestamp,
    pub status: Option<String>,
    pub error_message: Option<String>,
}

/// The details document: what the text reads as, else JSON null.
pub open spec fn details_of(text: Seq<char>) -> Value {
    match parsed_json(text) {
        Some(v) => v,
        None => json_null(),
    }
}

/// The action a text row describes, when its instant reads.
pub open spec fn app_action_of(t: AppActionText) -> Option<HistoryAppAction> {
    match parsed_rfc3339(t.created_at@) {
        Some(at) => Some(HistoryAppAction {
            user_email: t.user_email,
            action: t.action,
            details: details_of(t.details@),
            created_at: at,
            status: t.status,
            error_message: t.error_message,
        }),
        None => None,
    }
}

/// The app-level actions of the text rows, in order.
pub open spec fn parsed_app_actions(rows: Seq<AppActionText>) -> Seq<HistoryAppAction> {
    kept(rows, |t: AppActionText| app_action_of(t))
}

/// The action a text row describes, if its instant reads.
pub fn app_action_from_text(t: AppActionText) -> (r: Option<HistoryAppAction>)
    ensures
        r == app_action_of(t),
{
    let AppActionText { user_email, action, details, created_at, status, error_message } = t;
    match parse_rfc3339(created_at.as_str()) {
        None => None,
        Some(at) => Some(HistoryAppAction {
            user_email,
            action,
            details: json_or_null(details.as_str()),
            created_at: at,
            status,
            error_message,
        }),
    }
}

/// A component-level action row as SQLite returns it.
#[derive(Debug, Clone)]
pub struct ComponentActionText {
    pub user: String,
    pub action: String,
    pub resource_id: String,
    pub component_name: String,
    pub details: String,
    pub created_at: String,
    pub status: Option<String>,
    pub error_message: Option<String>,
}

/// A component-level action for the history timeline.
#[derive(Debug, Clone)]
pub struct HistoryComponentAction {
    pub user: String,
    pub action: String,
    pub resource_id: Uuid,
    pub component_name: String,
    pub details: Value,
    pub created_at: Timestamp,
    pub status: Option<String>,
    pub error_message: Option<String>,
}

/// The action a text row describes, when its component id and instant read.
pub open spec fn component_action_of(t: ComponentActionText) -> Option<HistoryComponentAction> {
    match (parsed_uuid(t.resource_id@), parsed_rfc3339(t.created_at@)) {
        (Some(id), Some(at)) => Some(HistoryComponentAction {
            user: t.user,
            action: t.action,
            resource_id: id,
            component_name: t.component_name,
            details: details_of(t.details@),
            created_at: at,
            status: t.status,
            error_message: t.error_message,
        }),
        _ => None,
    }
}

/// The component-level actions of the text rows, in order.
pub open spec fn parsed_component_actions(rows: Seq<ComponentActionText>) -> Seq<HistoryComponentAction> {
    kept(rows, |t: ComponentActionText| component_action_of(t))
}

/// The action a text row describes, if its id and instant read.
pub fn component_action_from_text(t: ComponentActionText) -> (r: Option<HistoryComponentAction>)
    ensures
        r == component_action_of(t),
{
    let ComponentActionText { user, action, resource_id, component_name, details, created_at, status, error_message } = t;
    match parse_uuid(resource_id.as_str()) {
        None => None,
        Some(id) => match parse_rfc3339(created_at.as_str()) {
            None => None,
            Some(at) => Some(HistoryComponentAction {
                user,
                action,
                resource_id: id,
                component_name,
                details: json_or_null(details.as_str()),
                created_at: at,
                status,
                error_message,
            }),
        },
    }
}

/// A command execution row as SQLite returns it.
#[derive(Debug, Clone)]
pub struct CommandExecutionText {
    pub request_id: String,
    pub component_id: String,
    pub command_type: String,
    pub exit_code: Option<i16>,
    pub duration_ms: Option<i32>,
    pub dispatched_at: String,
    pub completed_at: Option<String>,
}

/// A command execution for the history timeline.
#[derive(Debug, Clone)]
pub struct HistoryCommandExecution {
    pub request_id: Uuid,
    pub component_id: Uuid,
    pub command_type: String,
    pub exit_code: Option<i16>,
    pub duration_ms: Option<i32>,
    pub dispatched_at: Timestamp,
    pub completed_at: Option<Timestamp>,
}

/// The completion instant: none when absent or when it does not read.
pub open spec fn completed_of(text: Option<String>) -> Option<Timestamp> {
    match text {
        Some(c) => parsed_rfc3339(c@),
        None => None,
    }
}

/// The execution a text row describes, when both ids and the dispatch
/// instant read.
pub open spec fn command_execution_of(t: CommandExecutionText) -> Option<HistoryCommandExecution> {
    match (parsed_uuid(t.request_id@), parsed_uuid(t.component_id@), parsed_rfc3339(t.dispatched_at@)) {
        (Some(req), Some(cid), Some(at)) => Some(HistoryCommandExecution {
            request_id: req,
            component_id: cid,
            command_type: t.command_type,
            exit_code: t.exit_code,
            duration_ms: t.duration_ms,
            dispatched_at: at,
            completed_at: completed_of(t.completed_at),
        }),
        _ => None,
    }
}

/// The command executions of the text rows, in order.
pub open spec fn parsed_command_executions(rows: Seq<CommandExecutionText>) -> Seq<HistoryCommandExecution> {
    kept(rows, |t: CommandExecutionText| command_execution_of(t))
}

/// The execution a text row describes, if its ids and dispatch instant read.
pub fn command_execution_from_text(t: CommandExecutionText) -> (r: Option<HistoryCommandExecution>)
    ensures
        r == command_execution_of(t),
{
    let CommandExecutionText { request_id, component_id, command_type, exit_code, duration_ms, dispatched_at, completed_at } = t;
    let req = match parse_uuid(request_id.as_str()) {
        None => return None,
        Some(id) => id,
    };
    let cid = match parse_uuid(component_id.as_str()) {
        None => return None,
        Some(id) => id,
    };
    let at = match parse_rfc3339(dispatched_at.as_str()) {
        None => return None,
        Some(at) => at,
    };
    let completed = match &completed_at {
        Some(c) => parse_rfc3339(c.as_str()),
        None => None,
    };
    Some(HistoryCommandExecution {
        request_id: req,
        component_id: cid,
        command_type,
        exit_code,
        duration_ms,
        dispatched_at: at,
        completed_at: completed,
    })
}

/// Keeps, in order, the transitions whose component id and instant read; drops the others.
pub fn keep_parsed_transitions(rows: Vec<TransitionText>) -> (r: Vec<HistoryTransitionRow>)
    ensures
        r@ == parsed_transitions(rows@),
{
    let ghost given = rows@;
    let ghost f = |t: TransitionText| transition_of(t);
    let mut rest = rows;
    let mut out: Vec<HistoryTransitionRow> = Vec::new();
    let n: usize = rest.len();
    let mut k: usize = 0;
    while k < n
        invariant
            n == given.len(),
            k <= n,
            f == (|t: TransitionText| transition_of(t)),
            rest@ == given.subrange(k as int, n as int),
            out@ == kept(given.take(k as int), f),
        decreases n - k,
    {
        let t = rest.remove(0);
        assert(given.take(k + 1).drop_last() =~= given.take(k as int));
        assert(given.take(k + 1).last() == given[k as int]);
        assert(t == given[k as int]);
        match transition_from_text(t) {
            Some(row) => out.push(row),
            None => {},
        }
        assert(rest@ =~= given.subrange(k + 1, n as int));
        k = k + 1;
    }
    assert(given.take(n as int) =~= given);
    out
}

/// Keeps, in order, the app-level actions whose instant reads; a details text that is not JSON reads as null.
pub fn keep_parsed_app_actions(rows: Vec<AppActionText>) -> (r: Vec<HistoryAppAction>)
    ensures
        r@ == parsed_app_actions(rows@),
{
    let ghost given = rows@;
    let ghost f = |t: AppActionText| app_action_of(t);
    let mut rest = rows;
    let mut out: Vec<HistoryAppAction> = Vec::new();
    let n: usize = rest.len();
    let mut k: usize = 0;
    while k < n
        invariant
            n == given.len(),
            k <= n,
            f == (|t: AppActionText| app_action_of(t)),
            rest@ == given.subrange(k as int, n as int),
            out@ == kept(given.take(k as int), f),
        decreases n - k,
    {
        let t = rest.remove(0);
        assert(given.take(k + 1).drop_last() =~= given.take(k as int));
        assert(given.take(k + 1).last() == given[k as int]);
        assert(t == given[k as int]);
        match app_action_from_text(t) {
            Some(row) => out.push(row),
            None => {},
        }
        assert(rest@ =~= given.subrange(k + 1, n as int));
        k = k + 1;
    }
    assert(given.take(n as int) =~= given);
    out
}

/// Keeps, in order, the component-level actions whose component id and instant read; a details text that is not JSON reads as null.
pub fn keep_parsed_component_actions(rows: Vec<ComponentActionText>) -> (r: Vec<HistoryComponentAction>)
    ensures
        r@ == parsed_component_actions(rows@),
{
    let ghost given = rows@;
    let ghost f = |t: ComponentActionText| component_action_of(t);
    let mut rest = rows;
    let mut out: Vec<HistoryComponentAction> = Vec::new();
    let n: usize = rest.len();
    let mut k: usize = 0;
    while k < n
        invariant
            n == given.len(),
            k <= n,
            f == (|t: ComponentActionText| component_action_of(t)),
            rest@ == given.subrange(k as int, n as int),
            out@ == kept(given.take(k as int), f),
        decreases n - k,
    {
        let t = rest.remove(0);
        assert(given.take(k + 1).drop_last() =~= given.take(k as int));
        assert(given.take(k + 1).last() == given[k as int]);
        assert(t == given[k as int]);
        match component_action_from_text(t) {
            Some(row) => out.push(row),
            None => {},
        }
        assert(rest@ =~= given.subrange(k + 1, n as int));
        k = k + 1;
    }
    assert(given.take(n as int) =~= given);
    out
}

/// Keeps, in order, the command executions whose ids and dispatch instant read; a completion instant that does not read is dropped.
pub fn keep_parsed_command_executions(rows: Vec<CommandExecutionText>) -> (r: Vec<HistoryCommandExecution>)
    ensures
        r@ == parsed_command_executions(rows@),
{
    let ghost given = rows@;
    let ghost f = |t: CommandExecutionText| command_execution_of(t);
    let mut rest = rows;
    let mut out: Vec<HistoryCommandExecution> = Vec::new();
    let n: usize = rest.len();
    let mut k: usize = 0;
    while k < n
        invariant
            n == given.len(),
            k <= n,
            f == (|t: CommandExecutionText| command_execution_of(t)),
            rest@ == given.subrange(k as int, n as int),
            out@ == kept(given.take(k as int), f),
        decreases n - k,
    {
        let t = rest.remove(0);
        assert(given.take(k + 1).drop_last() =~= given.take(k as int));
        assert(given.take(k + 1).last() == given[k as int]);
        assert(t == given[k as int]);
        match command_execution_from_text(t) {
            Some(row) => out.push(row),
            None => {},
        }
        assert(rest@ =~= given.subrange(k + 1, n as int));
        k = k + 1;
    }
    assert(given.take(n as int) =~= given);
    out
}

} // verus!
