use vstd::prelude::*;
use vstd::string::StringExecFns;
use crate::command::{
    document_name, document_name_view, fetch_error_detail, fetch_error_view, log_group,
    log_group_view, log_stream_name, stream_name_view,
};
use crate::error::{
    is_dispatch_failed, is_log_fetch_failed, is_malformed, is_missing_param, is_target_not_found,
    Failure,
};
use crate::model::{
    all_messages_present, build_commands, build_targets, collect_messages, commands_match,
    event_messages, first_instance_id, opt_view, params_match, targets_match, validate, Config,
    DispatchReply, FetchOutcome, LogEvent, Params, Request, Reservation, TagFilter,
};
use crate::respond::{json_of, lines_view, render_response, Response};

verus! {

/// Where one request stands in the pipeline: submit, wait, resolve the
/// host, fetch the captured output (with its single fallback), respond.
/// `Finished` and `Failed` are terminal; they accept no further event.
pub enum State {
    /// Nothing has happened yet.
    Ready,
    /// The command was submitted; the submission reply is awaited.
    Dispatching { params: Params },
    /// A command identifier is in hand; the fixed blind wait is running.
    Waiting { params: Params, command_id: String },
    /// The inventory query for the target host is in flight.
    Resolving { params: Params, command_id: String },
    /// The standard-output stream of the command is being fetched.
    FetchingStdout { command_id: String, instance_id: String },
    /// The single fallback fetch of the standard-error stream is in flight.
    FetchingStderr { command_id: String, instance_id: String },
    /// The pipeline succeeded with this reply.
    Finished { response: Response },
    /// The pipeline failed terminally.
    Failed { error: Failure },
}

/// What the outside world reports back to the machine. Failing calls carry
/// the service's rendered error text.
pub enum Event {
    /// A request arrived.
    Start { request: Request },
    /// The command submission returned.
    Submitted { reply: Result<DispatchReply, String> },
    /// The fixed wait elapsed.
    Waited,
    /// The inventory query returned.
    Inventoried { reply: Result<Vec<Reservation>, String> },
    /// One log-stream fetch concluded.
    Fetched { outcome: FetchOutcome },
}

/// What the driver must do next. Exactly one action is issued per step;
/// `Respond` and `Fail` end the pipeline.
pub enum Action {
    /// Submit the shell script to the hosts matching `targets`, with output
    /// capture enabled so the run is durably logged.
    Submit {
        targets: Vec<TagFilter>,
        document: String,
        commands: Vec<String>,
        timeout_secs: u64,
        working_dir: String,
        capture_output: bool,
    },
    /// Suspend for the fixed interval; no polling happens meanwhile.
    Wait { secs: u64 },
    /// Query the instance inventory for the hosts matching `targets`.
    QueryInventory { targets: Vec<TagFilter> },
    /// Fetch one log stream.
    FetchLog { group: String, stream: String },
    /// Return the successful reply to the caller.
    Respond { response: Response },
    /// Surface the terminal failure to the caller.
    Fail { error: Failure },
}

/// Which event each state expects; terminal states expect none.
pub open spec fn state_accepts(state: State, event: Event) -> bool {
    match (state, event) {
        (State::Ready, Event::Start { .. }) => true,
        (State::Dispatching { .. }, Event::Submitted { .. }) => true,
        (State::Waiting { .. }, Event::Waited) => true,
        (State::Resolving { .. }, Event::Inventoried { .. }) => true,
        (State::FetchingStdout { .. }, Event::Fetched { .. }) => true,
        (State::FetchingStderr { .. }, Event::Fetched { .. }) => true,
        _ => false,
    }
}

/// Runtime form of `state_accepts`, for a driver that must check before
/// stepping.
pub fn accepts(state: &State, event: &Event) -> (r: bool)
    ensures
        r == state_accepts(*state, *event),
{
    match (state, event) {
        (State::Ready, Event::Start { .. }) => true,
        (State::Dispatching { .. }, Event::Submitted { .. }) => true,
        (State::Waiting { .. }, Event::Waited) => true,
        (State::Resolving { .. }, Event::Inventoried { .. }) => true,
        (State::FetchingStdout { .. }, Event::Fetched { .. }) => true,
        (State::FetchingStderr { .. }, Event::Fetched { .. }) => true,
        _ => false,
    }
}

/// Holds exactly when the step ended the pipeline with a failure satisfying
/// `ok`, both in the new state and in the emitted action.
pub open spec fn fails(post: State, action: Action, ok: spec_fn(Failure) -> bool) -> bool {
    &&& post matches State::Failed { error } && ok(error)
    &&& action matches Action::Fail { error } && ok(error)
}

/// Holds exactly when `response` is the successful reply for the event
/// batch `events`: status 200, body the messages as a JSON array, order and
/// content preserved.
pub open spec fn response_matches(response: Response, events: Seq<LogEvent>) -> bool {
    &&& response.status == 200
    &&& response.body@ == json_of(event_messages(events))
}

/// Holds exactly when the step delivered the fetched batch `events`: the
/// successful reply when the collection is present and every event carries
/// a message, the matching malformed-response failure otherwise.
pub open spec fn delivered(events: Option<Vec<LogEvent>>, post: State, action: Action) -> bool {
    match events {
        None => fails(post, action, |f: Failure| is_malformed(f, "logs does not exist"@)),
        Some(evs) => if all_messages_present(evs@) {
            &&& post matches State::Finished { response } && response_matches(response, evs@)
            &&& action matches Action::Respond { response } && response_matches(response, evs@)
        } else {
            fails(post, action, |f: Failure| is_malformed(f, "log message does not exist"@))
        },
    }
}

/// Holds exactly when `action` submits the shell script for `params` under
/// `config`: the two ordered shell lines, the fixed document, timeout and
/// working directory, output capture on, targeted by the resolved selectors.
pub open spec fn submit_matches(action: Action, config: Config, params: Params) -> bool {
    &&& action matches Action::Submit {
        targets,
        document,
        commands,
        timeout_secs,
        working_dir,
        capture_output,
    }
    &&& targets_match(targets@, params.server@, opt_view(params.version))
    &&& commands_match(commands@, params, config.bind_tunnel)
    &&& document@ == document_name_view()
    &&& timeout_secs == 3600
    &&& working_dir@ == "/home/ubuntu"@
    &&& capture_output
}

/// The complete transition relation of the orchestrator: for a state and
/// the event it expects, it pins the next state and the emitted action.
/// It holds of no pair outside the expected ones.
pub open spec fn step_post(
    config: Config,
    pre: State,
    event: Event,
    post: State,
    action: Action,
) -> bool {
    match (pre, event) {
        (State::Ready, Event::Start { request }) => {
            if request.proxy is None {
                fails(post, action, |f: Failure| is_missing_param(f, "proxy"@))
            } else if request.wspw is None {
                fails(post, action, |f: Failure| is_missing_param(f, "wspw"@))
            } else {
                &&& post matches State::Dispatching { params } && params_match(
                    params,
                    config,
                    request,
                ) && submit_matches(action, config, params)
            }
        },
        (State::Dispatching { params }, Event::Submitted { reply }) => {
            match reply {
                Err(detail) => fails(
                    post,
                    action,
                    |f: Failure| is_dispatch_failed(f, detail@),
                ),
                Ok(r) => match r.command {
                    None => fails(
                        post,
                        action,
                        |f: Failure| is_malformed(f, "command does not exist"@),
                    ),
                    Some(info) => match info.command_id {
                        None => fails(
                            post,
                            action,
                            |f: Failure| is_malformed(f, "command has no id"@),
                        ),
                        Some(cid) => {
                            &&& post matches State::Waiting { params: p, command_id } && p
                                == params && command_id == cid
                            &&& action matches Action::Wait { secs } && secs == config.wait_secs
                        },
                    },
                },
            }
        },
        (State::Waiting { params, command_id }, Event::Waited) => {
            &&& post matches State::Resolving { params: p, command_id: c } && p == params && c
                == command_id
            &&& action matches Action::QueryInventory { targets } && targets_match(
                targets@,
                params.server@,
                opt_view(params.version),
            )
        },
        (State::Resolving { params, command_id }, Event::Inventoried { reply }) => {
            match reply {
                Err(detail) => fails(
                    post,
                    action,
                    |f: Failure| is_target_not_found(f, "List Instances Error: "@ + detail@),
                ),
                Ok(reservations) => {
                    if reservations@.len() == 0 {
                        fails(
                            post,
                            action,
                            |f: Failure| is_target_not_found(f, "reservations list is empty"@),
                        )
                    } else if reservations@[0].instances@.len() == 0 {
                        fails(
                            post,
                            action,
                            |f: Failure| is_target_not_found(f, "instances list is empty"@),
                        )
                    } else {
                        match reservations@[0].instances@[0].instance_id {
                            None => fails(
                                post,
                                action,
                                |f: Failure| is_target_not_found(f, "instance id does not exist"@),
                            ),
                            Some(iid) => {
                                &&& post matches State::FetchingStdout {
                                    command_id: c,
                                    instance_id: i,
                                } && c == command_id && i@ == iid@
                                &&& action matches Action::FetchLog { group, stream } && group@
                                    == log_group_view() && stream@ == stream_name_view(
                                    command_id@,
                                    iid@,
                                    "stdout"@,
                                )
                            },
                        }
                    }
                },
            }
        },
        (State::FetchingStdout { command_id, instance_id }, Event::Fetched { outcome }) => {
            match outcome {
                FetchOutcome::NotFound { detail: _ } => {
                    &&& post matches State::FetchingStderr { command_id: c, instance_id: i } && c
                        == command_id && i == instance_id
                    &&& action matches Action::FetchLog { group, stream } && group@
                        == log_group_view() && stream@ == stream_name_view(
                        command_id@,
                        instance_id@,
                        "stderr"@,
                    )
                },
                FetchOutcome::Error { detail } => fails(
                    post,
                    action,
                    |f: Failure|
                        is_log_fetch_failed(
                            f,
                            fetch_error_view(command_id@, instance_id@, "stdout"@, detail@),
                        ),
                ),
                FetchOutcome::Fetched { events } => delivered(events, post, action),
            }
        },
        (State::FetchingStderr { command_id, instance_id }, Event::Fetched { outcome }) => {
            match outcome {
                FetchOutcome::NotFound { detail } => fails(
                    post,
                    action,
                    |f: Failure|
                        is_log_fetch_failed(
                            f,
                            fetch_error_view(command_id@, instance_id@, "stderr"@, detail@),
                        ),
                ),
                FetchOutcome::Error { detail } => fails(
                    post,
                    action,
                    |f: Failure|
                        is_log_fetch_failed(
                            f,
                            fetch_error_view(command_id@, instance_id@, "stderr"@, detail@),
                        ),
                ),
                FetchOutcome::Fetched { events } => delivered(events, post, action),
            }
        },
        _ => false,
    }
}

/// Ends the pipeline with `error`, recorded both in the state and in the
/// action handed to the driver.
fn fail_both(error: Failure) -> (r: (State, Action))
    ensures
        r.0 matches State::Failed { error: e } && e == error,
        r.1 matches Action::Fail { error: e } && e == error,
{
    let copy = error.clone();
    (State::Failed { error: copy }, Action::Fail { error })
}

/// Turns one fetched batch into the terminal outcome: the successful reply,
/// or the malformed-response failure the batch earns.
fn deliver(events: Option<Vec<LogEvent>>) -> (r: (State, Action))
    ensures
        delivered(events, r.0, r.1),
{
    match collect_messages(&events) {
        Err(f) => fail_both(f),
        Ok(lines) => {
            let response = render_response(&lines);
            proof {
                let evs = events->0;
                assert(lines_view(lines@) =~= event_messages(evs@));
            }
            (State::Finished { response: response.clone() }, Action::Respond { response })
        },
    }
}

/// One move of the orchestrator: from a state and the event it expects, to
/// the next state and the single action the driver must perform. The whole
/// pipeline of one request is a chain of these moves, starting at `Ready`
/// with the request and ending in `Finished` or `Failed`.
pub fn step(config: &Config, state: State, event: Event) -> (r: (State, Action))
    requires
        state_accepts(state, event),
    ensures
        step_post(*config, state, event, r.0, r.1),
{
    match (state, event) {
        (State::Ready, Event::Start { request }) => {
            match validate(config, &request) {
                Err(f) => fail_both(f),
                Ok(params) => {
                    let targets = build_targets(&params);
                    let commands = build_commands(&params, config.bind_tunnel);
                    let action = Action::Submit {
                        targets,
                        document: String::from_str(document_name()),
                        commands,
                        timeout_secs: 3600,
                        working_dir: String::from_str("/home/ubuntu"),
                        capture_output: true,
                    };
                    (State::Dispatching { params }, action)
                },
            }
        },
        (State::Dispatching { params }, Event::Submitted { reply }) => {
            match reply {
                Err(detail) => fail_both(Failure::DispatchFailed { detail }),
                Ok(r) => match r.command {
                    None => fail_both(
                        Failure::MalformedResponse {
                            detail: String::from_str("command does not exist"),
                        },
                    ),
                    Some(info) => match info.command_id {
                        None => fail_both(
                            Failure::MalformedResponse {
                                detail: String::from_str("command has no id"),
                            },
                        ),
                        Some(cid) => (
                            State::Waiting { params, command_id: cid },
                            Action::Wait { secs: config.wait_secs },
                        ),
                    },
                },
            }
        },
        (State::Waiting { params, command_id }, Event::Waited) => {
            let targets = build_targets(&params);
            (State::Resolving { params, command_id }, Action::QueryInventory { targets })
        },
        (State::Resolving { params, command_id }, Event::Inventoried { reply }) => {
            match reply {
                Err(detail) => {
                    let mut d = String::from_str("List Instances Error: ");
                    d.append(detail.as_str());
                    fail_both(Failure::TargetNotFound { detail: d })
                },
                Ok(reservations) => match first_instance_id(&reservations) {
                    Err(f) => fail_both(f),
                    Ok(instance_id) => {
                        let stream = log_stream_name(&command_id, &instance_id, "stdout");
                        let action = Action::FetchLog {
                            group: String::from_str(log_group()),
                            stream,
                        };
                        (State::FetchingStdout { command_id, instance_id }, action)
                    },
                },
            }
        },
        (State::FetchingStdout { command_id, instance_id }, Event::Fetched { outcome }) => {
            match outcome {
                FetchOutcome::NotFound { detail: _ } => {
                    let stream = log_stream_name(&command_id, &instance_id, "stderr");
                    let action = Action::FetchLog {
                        group: String::from_str(log_group()),
                        stream,
                    };
                    (State::FetchingStderr { command_id, instance_id }, action)
                },
                FetchOutcome::Error { detail } => {
                    let d = fetch_error_detail(&command_id, &instance_id, "stdout", &detail);
                    fail_both(Failure::LogFetchFailed { detail: d })
                },
                FetchOutcome::Fetched { events } => deliver(events),
            }
        },
        (State::FetchingStderr { command_id, instance_id }, Event::Fetched { outcome }) => {
            match outcome {
                FetchOutcome::NotFound { detail } => {
                    let d = fetch_error_detail(&command_id, &instance_id, "stderr", &detail);
                    fail_both(Failure::LogFetchFailed { detail: d })
                },
                FetchOutcome::Error { detail } => {
                    let d = fetch_error_detail(&command_id, &instance_id, "stderr", &detail);
                    fail_both(Failure::LogFetchFailed { detail: d })
                },
                FetchOutcome::Fetched { events } => deliver(events),
            }
        },
        _ => vstd::pervasive::unreached(),
    }
}

} // verus!
