use obs_remote_lambda::error::Failure;
use obs_remote_lambda::machine::{accepts, step, Action, Event, State};
use obs_remote_lambda::model::{
    validate, CommandInfo, Config, DispatchReply, FetchOutcome, Instance, Request, Reservation,
};

fn bare_request(proxy: Option<&str>, wspw: Option<&str>) -> Request {
    Request {
        proxy: proxy.map(str::to_string),
        wspw: wspw.map(str::to_string),
        server: None,
        version: None,
        port: None,
    }
}

#[test]
fn missing_proxy_fails_before_any_call() {
    let config = Config::get_info();
    let (state, action) = step(
        &config,
        State::Ready,
        Event::Start { request: bare_request(None, Some("pw")) },
    );
    let Action::Fail { error } = action else {
        panic!("expected an immediate failure");
    };
    assert_eq!(error.message(), "no path parameter named 'proxy'");
    assert!(matches!(state, State::Failed { error: Failure::MissingParameter { .. } }));
    assert!(!accepts(&state, &Event::Waited));
}

#[test]
fn missing_wspw_fails_before_any_call() {
    let config = Config::get_info();
    let (state, action) = step(
        &config,
        State::Ready,
        Event::Start { request: bare_request(Some("tun"), None) },
    );
    let Action::Fail { error } = action else {
        panic!("expected an immediate failure");
    };
    assert_eq!(error.message(), "no path parameter named 'wspw'");
    assert!(matches!(state, State::Failed { .. }));
}

#[test]
fn validate_applies_defaults_and_overrides() {
    let config = Config::get_info();
    let params = validate(&config, &bare_request(Some("t"), Some("w"))).unwrap();
    assert_eq!(params.server, "cwmc2-obs");
    assert_eq!(params.version, Some("2".to_string()));
    assert_eq!(params.port, "9191");
    assert_eq!(params.action, "info");

    let overridden = Request {
        proxy: Some("t".to_string()),
        wspw: Some("w".to_string()),
        server: Some("other-fleet".to_string()),
        version: Some("7".to_string()),
        port: Some("7777".to_string()),
    };
    let params = validate(&config, &overridden).unwrap();
    assert_eq!(params.server, "other-fleet");
    assert_eq!(params.version, Some("7".to_string()));
    assert_eq!(params.port, "7777");
}

#[test]
fn dispatch_error_is_reported() {
    let config = Config::get_info();
    let (state, _) = step(
        &config,
        State::Ready,
        Event::Start { request: bare_request(Some("t"), Some("w")) },
    );
    let (state, action) = step(
        &config,
        state,
        Event::Submitted { reply: Err("socket closed".to_string()) },
    );
    let Action::Fail { error } = action else {
        panic!("expected a terminal failure");
    };
    assert_eq!(error.message(), "Send Command Error: socket closed");
    assert!(matches!(state, State::Failed { error: Failure::DispatchFailed { .. } }));
}

#[test]
fn reply_without_command_is_malformed() {
    let config = Config::get_info();
    let (state, _) = step(
        &config,
        State::Ready,
        Event::Start { request: bare_request(Some("t"), Some("w")) },
    );
    let (_, action) = step(
        &config,
        state,
        Event::Submitted { reply: Ok(DispatchReply { command: None }) },
    );
    let Action::Fail { error } = action else {
        panic!("expected a terminal failure");
    };
    assert_eq!(error.message(), "command does not exist");
    assert!(matches!(error, Failure::MalformedResponse { .. }));
}

#[test]
fn reply_without_command_id_is_malformed() {
    let config = Config::get_info();
    let (state, _) = step(
        &config,
        State::Ready,
        Event::Start { request: bare_request(Some("t"), Some("w")) },
    );
    let (_, action) = step(
        &config,
        state,
        Event::Submitted {
            reply: Ok(DispatchReply { command: Some(CommandInfo { command_id: None }) }),
        },
    );
    let Action::Fail { error } = action else {
        panic!("expected a terminal failure");
    };
    assert_eq!(error.message(), "command has no id");
}

#[test]
fn inventory_error_is_target_not_found() {
    let config = Config::get_info();
    let (state, _) = step(
        &config,
        State::Ready,
        Event::Start { request: bare_request(Some("t"), Some("w")) },
    );
    let (state, _) = step(
        &config,
        state,
        Event::Submitted {
            reply: Ok(DispatchReply {
                command: Some(CommandInfo { command_id: Some("c".to_string()) }),
            }),
        },
    );
    let (state, _) = step(&config, state, Event::Waited);
    let (_, action) = step(
        &config,
        state,
        Event::Inventoried { reply: Err("throttled".to_string()) },
    );
    let Action::Fail { error } = action else {
        panic!("expected a terminal failure");
    };
    assert_eq!(error.message(), "List Instances Error: throttled");
    assert!(matches!(error, Failure::TargetNotFound { .. }));
}

#[test]
fn reservation_without_instances_is_target_not_found() {
    let config = Config::get_info();
    let (state, _) = step(
        &config,
        State::Ready,
        Event::Start { request: bare_request(Some("t"), Some("w")) },
    );
    let (state, _) = step(
        &config,
        state,
        Event::Submitted {
            reply: Ok(DispatchReply {
                command: Some(CommandInfo { command_id: Some("c".to_string()) }),
            }),
        },
    );
    let (state, _) = step(&config, state, Event::Waited);
    let (_, action) = step(
        &config,
        state,
        Event::Inventoried { reply: Ok(vec![Reservation { instances: vec![] }]) },
    );
    let Action::Fail { error } = action else {
        panic!("expected a terminal failure");
    };
    assert_eq!(error.message(), "instances list is empty");
}

#[test]
fn instance_without_id_is_target_not_found() {
    let config = Config::get_info();
    let (state, _) = step(
        &config,
        State::Ready,
        Event::Start { request: bare_request(Some("t"), Some("w")) },
    );
    let (state, _) = step(
        &config,
        state,
        Event::Submitted {
            reply: Ok(DispatchReply {
                command: Some(CommandInfo { command_id: Some("c".to_string()) }),
            }),
        },
    );
    let (state, _) = step(&config, state, Event::Waited);
    let (_, action) = step(
        &config,
        state,
        Event::Inventoried {
            reply: Ok(vec![Reservation { instances: vec![Instance { instance_id: None }] }]),
        },
    );
    let Action::Fail { error } = action else {
        panic!("expected a terminal failure");
    };
    assert_eq!(error.message(), "instance id does not exist");
}

#[test]
fn absent_events_collection_is_malformed() {
    let config = Config::get_info();
    let (state, _) = step(
        &config,
        State::Ready,
        Event::Start { request: bare_request(Some("t"), Some("w")) },
    );
    let (state, _) = step(
        &config,
        state,
        Event::Submitted {
            reply: Ok(DispatchReply {
                command: Some(CommandInfo { command_id: Some("c".to_string()) }),
            }),
        },
    );
    let (state, _) = step(&config, state, Event::Waited);
    let (state, _) = step(
        &config,
        state,
        Event::Inventoried {
            reply: Ok(vec![Reservation {
                instances: vec![Instance { instance_id: Some("i".to_string()) }],
            }]),
        },
    );
    let (_, action) = step(
        &config,
        state,
        Event::Fetched { outcome: FetchOutcome::Fetched { events: None } },
    );
    let Action::Fail { error } = action else {
        panic!("expected a terminal failure");
    };
    assert_eq!(error.message(), "logs does not exist");
}

#[test]
fn stdout_service_error_is_terminal_without_fallback() {
    let config = Config::get_info();
    let (state, _) = step(
        &config,
        State::Ready,
        Event::Start { request: bare_request(Some("t"), Some("w")) },
    );
    let (state, _) = step(
        &config,
        state,
        Event::Submitted {
            reply: Ok(DispatchReply {
                command: Some(CommandInfo { command_id: Some("cmd-7".to_string()) }),
            }),
        },
    );
    let (state, _) = step(&config, state, Event::Waited);
    let (state, _) = step(
        &config,
        state,
        Event::Inventoried {
            reply: Ok(vec![Reservation {
                instances: vec![Instance { instance_id: Some("i-7".to_string()) }],
            }]),
        },
    );
    let (state, action) = step(
        &config,
        state,
        Event::Fetched { outcome: FetchOutcome::Error { detail: "denied".to_string() } },
    );
    let Action::Fail { error } = action else {
        panic!("expected a terminal failure, not a fallback");
    };
    assert_eq!(error.message(), "error from logging /cmd-7/i-7/stdout: denied");
    assert!(matches!(state, State::Failed { error: Failure::LogFetchFailed { .. } }));
}

#[test]
fn failure_converts_to_app_error() {
    let failure = Failure::MissingParameter { name: "proxy".to_string() };
    let app_error = failure.into_app_error();
    assert_eq!(app_error.0, "no path parameter named 'proxy'");
    assert_eq!(app_error.message(), &"no path parameter named 'proxy'".to_string());
}
