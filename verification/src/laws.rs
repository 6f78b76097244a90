use vstd::prelude::*;
use crate::command::stream_name_view;
use crate::error::{is_target_not_found, Failure};
use crate::machine::{state_accepts, step_post, Action, Event, State};
use crate::model::{all_messages_present, event_messages, Config, LogEvent, Params, Request, Reservation};
use crate::respond::json_of;

verus! {

/// How far along the pipeline a state is; both terminal states are last.
pub open spec fn progress(state: State) -> nat {
    match state {
        State::Ready => 0,
        State::Dispatching { .. } => 1,
        State::Waiting { .. } => 2,
        State::Resolving { .. } => 3,
        State::FetchingStdout { .. } => 4,
        State::FetchingStderr { .. } => 5,
        State::Finished { .. } => 6,
        State::Failed { .. } => 6,
    }
}

/// Every step moves strictly forward: the pipeline never revisits a stage,
/// so one request performs at most one submission, one inventory query and
/// two log fetches, and reaches a terminal state in at most six steps.
pub proof fn law_strict_progress(
    config: Config,
    pre: State,
    event: Event,
    post: State,
    action: Action,
)
    requires
        step_post(config, pre, event, post, action),
    ensures
        progress(post) > progress(pre),
{
}

/// The emitted action always matches the state the machine moves to: the
/// pipeline responds exactly when it finishes and fails exactly when it
/// enters the failed state, and each intermediate state is entered under
/// the one external action that feeds it.
pub proof fn law_actions_follow_states(
    config: Config,
    pre: State,
    event: Event,
    post: State,
    action: Action,
)
    requires
        step_post(config, pre, event, post, action),
    ensures
        post matches State::Finished { .. } <==> action matches Action::Respond { .. },
        post matches State::Failed { .. } <==> action matches Action::Fail { .. },
        post matches State::Dispatching { .. } <==> action matches Action::Submit { .. },
        post matches State::Waiting { .. } <==> action matches Action::Wait { .. },
        post matches State::Resolving { .. } <==> action matches Action::QueryInventory { .. },
        (post matches State::FetchingStdout { .. } || post matches State::FetchingStderr {
            ..
        }) <==> action matches Action::FetchLog { .. },
{
}

/// A finished or failed pipeline accepts no further event, so no action —
/// and in particular no external call — can ever follow it.
pub proof fn law_terminal_states_absorb(state: State, event: Event)
    requires
        state matches State::Failed { .. } || state matches State::Finished { .. },
    ensures
        !state_accepts(state, event),
{
}

/// A request missing `proxy` or `wspw` fails immediately with the matching
/// `MissingParameter` error: the only action is `Fail`, and the machine is
/// left in a terminal state, so no external call is ever issued for it.
pub proof fn law_missing_parameter_rejected(
    config: Config,
    request: Request,
    post: State,
    action: Action,
)
    requires
        request.proxy is None || request.wspw is None,
        step_post(config, State::Ready, Event::Start { request }, post, action),
    ensures
        post matches State::Failed { error } && error matches Failure::MissingParameter { .. },
        action matches Action::Fail { error } && error matches Failure::MissingParameter { .. },
        forall|e: Event| !state_accepts(post, e),
{
}

/// Every request carrying both required parameters is submitted: the first
/// step of its pipeline always issues a `Submit` action, never a refusal.
pub proof fn law_valid_request_submits(
    config: Config,
    request: Request,
    post: State,
    action: Action,
)
    requires
        request.proxy is Some,
        request.wspw is Some,
        step_post(config, State::Ready, Event::Start { request }, post, action),
    ensures
        post matches State::Dispatching { .. },
        action matches Action::Submit { .. },
{
}

/// Two identical requests issue two independent, identical submissions:
/// nothing is deduplicated or cached between the two pipelines, and both
/// submit the same two shell lines.
pub proof fn law_identical_requests_same_submission(
    config: Config,
    request: Request,
    post1: State,
    action1: Action,
    post2: State,
    action2: Action,
)
    requires
        request.proxy is Some,
        request.wspw is Some,
        step_post(config, State::Ready, Event::Start { request }, post1, action1),
        step_post(config, State::Ready, Event::Start { request }, post2, action2),
    ensures
        action1 matches Action::Submit { commands: c1, .. } && (action2 matches Action::Submit {
            commands: c2,
            ..
        } && c1@.len() == 2 && c2@.len() == 2 && c1@[0]@ == c2@[0]@ && c1@[1]@ == c2@[1]@),
{
}

/// An inventory reply with zero reservations ends the pipeline at once with
/// `TargetNotFound`: the only action is `Fail`, and the terminal state
/// accepts no further event, so the log service is never invoked.
pub proof fn law_empty_inventory_stops(
    config: Config,
    params: Params,
    command_id: String,
    reservations: Vec<Reservation>,
    post: State,
    action: Action,
)
    requires
        reservations@.len() == 0,
        step_post(
            config,
            State::Resolving { params, command_id },
            Event::Inventoried { reply: Ok(reservations) },
            post,
            action,
        ),
    ensures
        post matches State::Failed { error } && is_target_not_found(
            error,
            "reservations list is empty"@,
        ),
        action matches Action::Fail { .. },
        forall|e: Event| !state_accepts(post, e),
{
}

/// When the stdout stream is reported "not found", the machine performs
/// exactly one fallback: it moves to the stderr fetch for the same command
/// and host, and the emitted action fetches the stderr stream.
pub proof fn law_fallback_after_missing_stdout(
    config: Config,
    command_id: String,
    instance_id: String,
    detail: String,
    post: State,
    action: Action,
)
    requires
        step_post(
            config,
            State::FetchingStdout { command_id, instance_id },
            Event::Fetched {
                outcome: crate::model::FetchOutcome::NotFound { detail },
            },
            post,
            action,
        ),
    ensures
        post matches State::FetchingStderr { command_id: c, instance_id: i } && c == command_id
            && i == instance_id,
        action matches Action::FetchLog { stream, .. } && stream@ == stream_name_view(
            command_id@,
            instance_id@,
            "stderr"@,
        ),
{
}

/// A failed fallback fetch is terminal: when the stderr stream is itself
/// reported "not found" or fails, the pipeline ends with `LogFetchFailed`
/// and no further fetch is attempted.
pub proof fn law_fallback_is_final(
    config: Config,
    command_id: String,
    instance_id: String,
    outcome: crate::model::FetchOutcome,
    post: State,
    action: Action,
)
    requires
        outcome matches crate::model::FetchOutcome::NotFound { .. } || outcome
            matches crate::model::FetchOutcome::Error { .. },
        step_post(
            config,
            State::FetchingStderr { command_id, instance_id },
            Event::Fetched { outcome },
            post,
            action,
        ),
    ensures
        post matches State::Failed { error } && error matches Failure::LogFetchFailed { .. },
        action matches Action::Fail { .. },
        forall|e: Event| !state_accepts(post, e),
{
}

/// The fallback is never entered any other way: whenever a step lands in
/// the stderr fetch, the machine stood at the stdout fetch and the stdout
/// stream was reported "not found". The stdout fetch is never skipped.
pub proof fn law_stderr_only_after_stdout(
    config: Config,
    pre: State,
    event: Event,
    post: State,
    action: Action,
)
    requires
        step_post(config, pre, event, post, action),
        post matches State::FetchingStderr { .. },
    ensures
        pre matches State::FetchingStdout { .. },
        event matches Event::Fetched { outcome } && outcome
            matches crate::model::FetchOutcome::NotFound { .. },
{
}

/// The stdout fetch, in turn, arises only from a resolved inventory: any
/// step landing in the stdout fetch came from the resolving state.
pub proof fn law_stdout_fetch_only_after_inventory(
    config: Config,
    pre: State,
    event: Event,
    post: State,
    action: Action,
)
    requires
        step_post(config, pre, event, post, action),
        post matches State::FetchingStdout { .. },
    ensures
        pre matches State::Resolving { .. },
        event matches Event::Inventoried { reply } && reply is Ok,
{
}

/// A successful pipeline preserves the log service's answer exactly: the
/// reply has status 200 and its body is the JSON encoding of the events'
/// messages, in the order and with the content the log service returned,
/// whether the batch came from the stdout stream or from the fallback.
pub proof fn law_response_preserves_messages(
    config: Config,
    pre: State,
    events: Vec<LogEvent>,
    post: State,
    action: Action,
)
    requires
        pre matches State::FetchingStdout { .. } || pre matches State::FetchingStderr { .. },
        all_messages_present(events@),
        step_post(
            config,
            pre,
            Event::Fetched {
                outcome: crate::model::FetchOutcome::Fetched { events: Some(events) },
            },
            post,
            action,
        ),
    ensures
        post matches State::Finished { response } && response.status == 200 && response.body@
            == json_of(event_messages(events@)),
        action matches Action::Respond { response } && response.status == 200 && response.body@
            == json_of(event_messages(events@)),
{
}

} // verus!
