//! Laws of the history readers: every kept row is read from one text row
//! and carries that row's own columns, each in its own field; when every
//! text row reads, none is dropped and the order is the text rows' order.

use vstd::prelude::*;
use crate::history::{
    app_action_of, command_execution_of, component_action_of, kept, parsed_app_actions, parsed_command_executions, parsed_component_actions,
    parsed_transitions, AppActionText, CommandExecutionText, ComponentActionText,
    HistoryAppAction, HistoryCommandExecution, HistoryComponentAction, HistoryTransitionRow,
    TransitionText, transition_of,
};
use crate::json::json_null;
use crate::outside::{parsed_json, parsed_rfc3339, parsed_uuid};

verus! {

/// Each kept value is what `f` gives for some element of `s`.
pub proof fn lemma_kept_from_input<A, B>(s: Seq<A>, f: spec_fn(A) -> Option<B>, i: int) -> (j: int)
    requires
        0 <= i < kept(s, f).len(),
    ensures
        0 <= j < s.len(),
        f(s[j]) == Some(kept(s, f)[i]),
    decreases s.len(),
{
    let init = s.drop_last();
    lemma_kept_len(init, f);
    if i < kept(init, f).len() {
        let j = lemma_kept_from_input(init, f, i);
        assert(init[j] == s[j]);
        j
    } else {
        s.len() - 1
    }
}

/// Keeping never adds values.
pub proof fn lemma_kept_len<A, B>(s: Seq<A>, f: spec_fn(A) -> Option<B>)
    ensures
        kept(s, f).len() <= s.len(),
    decreases s.len(),
{
    if s.len() > 0 {
        lemma_kept_len(s.drop_last(), f);
    }
}

/// When `f` gives a value for every element, all of them are kept, in order.
pub proof fn lemma_kept_all<A, B>(s: Seq<A>, f: spec_fn(A) -> Option<B>)
    requires
        forall|j: int| 0 <= j < s.len() ==> (#[trigger] f(s[j])) is Some,
    ensures
        kept(s, f).len() == s.len(),
        forall|j: int| 0 <= j < s.len() ==> f(s[j]) == Some(#[trigger] kept(s, f)[j]),
    decreases s.len(),
{
    if s.len() > 0 {
        let init = s.drop_last();
        assert forall|j: int| 0 <= j < init.len() implies (#[trigger] f(init[j])) is Some by {
            assert(init[j] == s[j]);
            assert(f(s[j]) is Some);
        }
        lemma_kept_all(init, f);
        assert(f(s[s.len() - 1]) is Some);
        assert forall|j: int| 0 <= j < s.len() implies f(s[j]) == Some(#[trigger] kept(s, f)[j]) by {
            if j < init.len() {
                assert(init[j] == s[j]);
                assert(kept(init, f)[j] == kept(s, f)[j]);
            }
        }
    }
}

/// Transition row `r` holds the columns of text row `t`: its component id
/// and instant as read, its states and trigger as written.
pub open spec fn transition_carries(r: HistoryTransitionRow, t: TransitionText) -> bool {
    &&& parsed_uuid(t.component_id@) == Some(r.component_id)
    &&& parsed_rfc3339(t.created_at@) == Some(r.created_at)
    &&& r.from_state == t.from_state
    &&& r.to_state == t.to_state
    &&& r.trigger == t.trigger
}

/// Every kept transition comes from a text row whose id and instant read,
/// and carries its from-state, to-state and trigger unchanged.
pub proof fn law_kept_transitions_carry_their_row(rows: Seq<TransitionText>, i: int)
    requires
        0 <= i < parsed_transitions(rows).len(),
    ensures
        exists|j: int| 0 <= j < rows.len() && transition_carries(parsed_transitions(rows)[i], #[trigger] rows[j]),
{
    let j = lemma_kept_from_input(rows, |t: TransitionText| transition_of(t), i);
    assert(transition_carries(parsed_transitions(rows)[i], rows[j]));
}

/// When every text row's id and instant read, every row is kept, in order,
/// each with its own columns.
pub proof fn law_readable_transitions_are_all_kept(rows: Seq<TransitionText>)
    requires
        forall|j: int| 0 <= j < rows.len() ==> (#[trigger] parsed_uuid(rows[j].component_id@)) is Some
            && parsed_rfc3339(rows[j].created_at@) is Some,
    ensures
        parsed_transitions(rows).len() == rows.len(),
        forall|j: int| 0 <= j < rows.len() ==> transition_carries(#[trigger] parsed_transitions(rows)[j], rows[j]),
{
    let f = |t: TransitionText| transition_of(t);
    assert forall|j: int| 0 <= j < rows.len() implies (#[trigger] f(rows[j])) is Some by {
        assert(parsed_uuid(rows[j].component_id@) is Some);
    }
    lemma_kept_all(rows, f);
}

/// The details document read from `text`: the JSON it holds, else null.
pub open spec fn details_read(text: Seq<char>, v: serde_json::Value) -> bool {
    match parsed_json(text) {
        Some(d) => v == d,
        None => v == json_null(),
    }
}

/// App action `r` holds the columns of text row `t`.
pub open spec fn app_action_carries(r: HistoryAppAction, t: AppActionText) -> bool {
    &&& parsed_rfc3339(t.created_at@) == Some(r.created_at)
    &&& r.user_email == t.user_email
    &&& r.action == t.action
    &&& details_read(t.details@, r.details)
    &&& r.status == t.status
    &&& r.error_message == t.error_message
}

/// Every kept app action comes from a text row whose instant reads, and
/// carries its columns, each in its own field.
pub proof fn law_kept_app_actions_carry_their_row(rows: Seq<AppActionText>, i: int)
    requires
        0 <= i < parsed_app_actions(rows).len(),
    ensures
        exists|j: int| 0 <= j < rows.len() && app_action_carries(parsed_app_actions(rows)[i], #[trigger] rows[j]),
{
    let j = lemma_kept_from_input(rows, |t: AppActionText| app_action_of(t), i);
    assert(app_action_carries(parsed_app_actions(rows)[i], rows[j]));
}

/// When every text row's instant reads, every app action is kept, in order.
pub proof fn law_readable_app_actions_are_all_kept(rows: Seq<AppActionText>)
    requires
        forall|j: int| 0 <= j < rows.len() ==> (#[trigger] parsed_rfc3339(rows[j].created_at@)) is Some,
    ensures
        parsed_app_actions(rows).len() == rows.len(),
        forall|j: int| 0 <= j < rows.len() ==> app_action_carries(#[trigger] parsed_app_actions(rows)[j], rows[j]),
{
    let f = |t: AppActionText| app_action_of(t);
    assert forall|j: int| 0 <= j < rows.len() implies (#[trigger] f(rows[j])) is Some by {
        assert(parsed_rfc3339(rows[j].created_at@) is Some);
    }
    lemma_kept_all(rows, f);
}

/// Component action `r` holds the columns of text row `t`.
pub open spec fn component_action_carries(r: HistoryComponentAction, t: ComponentActionText) -> bool {
    &&& parsed_uuid(t.resource_id@) == Some(r.resource_id)
    &&& parsed_rfc3339(t.created_at@) == Some(r.created_at)
    &&& r.user == t.user
    &&& r.action == t.action
    &&& r.component_name == t.component_name
    &&& details_read(t.details@, r.details)
    &&& r.status == t.status
    &&& r.error_message == t.error_message
}

/// Every kept component action comes from a text row whose id and instant
/// read, and carries its columns, each in its own field.
pub proof fn law_kept_component_actions_carry_their_row(rows: Seq<ComponentActionText>, i: int)
    requires
        0 <= i < parsed_component_actions(rows).len(),
    ensures
        exists|j: int| 0 <= j < rows.len()
            && component_action_carries(parsed_component_actions(rows)[i], #[trigger] rows[j]),
{
    let j = lemma_kept_from_input(rows, |t: ComponentActionText| component_action_of(t), i);
    assert(component_action_carries(parsed_component_actions(rows)[i], rows[j]));
}

/// When every text row's id and instant read, every component action is
/// kept, in order.
pub proof fn law_readable_component_actions_are_all_kept(rows: Seq<ComponentActionText>)
    requires
        forall|j: int| 0 <= j < rows.len() ==> (#[trigger] parsed_uuid(rows[j].resource_id@)) is Some
            && parsed_rfc3339(rows[j].created_at@) is Some,
    ensures
        parsed_component_actions(rows).len() == rows.len(),
        forall|j: int| 0 <= j < rows.len()
            ==> component_action_carries(#[trigger] parsed_component_actions(rows)[j], rows[j]),
{
    let f = |t: ComponentActionText| component_action_of(t);
    assert forall|j: int| 0 <= j < rows.len() implies (#[trigger] f(rows[j])) is Some by {
        assert(parsed_uuid(rows[j].resource_id@) is Some);
    }
    lemma_kept_all(rows, f);
}

/// Command execution `r` holds the columns of text row `t`; a completion
/// instant that is absent or does not read is none.
pub open spec fn command_execution_carries(r: HistoryCommandExecution, t: CommandExecutionText) -> bool {
    &&& parsed_uuid(t.request_id@) == Some(r.request_id)
    &&& parsed_uuid(t.component_id@) == Some(r.component_id)
    &&& parsed_rfc3339(t.dispatched_at@) == Some(r.dispatched_at)
    &&& r.command_type == t.command_type
    &&& r.exit_code == t.exit_code
    &&& r.duration_ms == t.duration_ms
    &&& r.completed_at == match t.completed_at {
        Some(c) => parsed_rfc3339(c@),
        None => None,
    }
}

/// Every kept command execution comes from a text row whose ids and dispatch
/// instant read, and carries its columns, each in its own field.
pub proof fn law_kept_command_executions_carry_their_row(rows: Seq<CommandExecutionText>, i: int)
    requires
        0 <= i < parsed_command_executions(rows).len(),
    ensures
        exists|j: int| 0 <= j < rows.len()
            && command_execution_carries(parsed_command_executions(rows)[i], #[trigger] rows[j]),
{
    let j = lemma_kept_from_input(rows, |t: CommandExecutionText| command_execution_of(t), i);
    assert(command_execution_carries(parsed_command_executions(rows)[i], rows[j]));
}

/// When every text row's ids and dispatch instant read, every command
/// execution is kept, in order.
pub proof fn law_readable_command_executions_are_all_kept(rows: Seq<CommandExecutionText>)
    requires
        forall|j: int| 0 <= j < rows.len() ==> (#[trigger] parsed_uuid(rows[j].request_id@)) is Some
            && parsed_uuid(rows[j].component_id@) is Some
            && parsed_rfc3339(rows[j].dispatched_at@) is Some,
    ensures
        parsed_command_executions(rows).len() == rows.len(),
        forall|j: int| 0 <= j < rows.len()
            ==> command_execution_carries(#[trigger] parsed_command_executions(rows)[j], rows[j]),
{
    let f = |t: CommandExecutionText| command_execution_of(t);
    assert forall|j: int| 0 <= j < rows.len() implies (#[trigger] f(rows[j])) is Some by {
        assert(parsed_uuid(rows[j].request_id@) is Some);
    }
    lemma_kept_all(rows, f);
}

} // verus!
