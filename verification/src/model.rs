use vstd::prelude::*;
use vstd::string::StringExecFns;
use crate::command::{control_command, control_command_view, tunnel_command, tunnel_command_view};
use crate::error::Failure;

verus! {

/// An inbound request as handed over by the HTTP trigger: the two required
/// path parameters and the optional query overrides, each absent when the
/// caller did not supply it.
pub struct Request {
    /// Required: the tunnel identifier.
    pub proxy: Option<String>,
    /// Required: the control-channel password.
    pub wspw: Option<String>,
    /// Optional override of the fleet selector.
    pub server: Option<String>,
    /// Optional override of the version selector.
    pub version: Option<String>,
    /// Optional override of the local control port.
    pub port: Option<String>,
}

/// The fixed, route-specific configuration of one orchestrator: the control
/// verb it issues and the defaults it applies when a request carries no
/// override.
pub struct Config {
    /// The control verb sent to the WebSocket client.
    pub action: String,
    /// Default fleet selector when the request names no `server`.
    pub default_server: String,
    /// Default version selector; `None` on routes that select by name alone.
    pub default_version: Option<String>,
    /// Default local control port when the request names no `port`.
    pub default_port: String,
    /// Whether the tunnel line pins an explicit local bind address.
    pub bind_tunnel: bool,
    /// The fixed blind wait between submission and log retrieval, in seconds.
    pub wait_secs: u64,
}

impl Config {
    /// The route that queries the streaming application for its state.
    pub fn get_info() -> (r: Config)
        ensures
            r.action@ == "info"@,
            r.default_server@ == "cwmc2-obs"@,
            r.default_version matches Some(v) && v@ == "2"@,
            r.default_port@ == "9191"@,
            !r.bind_tunnel,
            r.wait_secs == 7,
    {
        Config {
            action: String::from_str("info"),
            default_server: String::from_str("cwmc2-obs"),
            default_version: Some(String::from_str("2")),
            default_port: String::from_str("9191"),
            bind_tunnel: false,
            wait_secs: 7,
        }
    }

    /// The route that orders the streaming application to stop, selecting
    /// its target by name alone and pinning the tunnel's local bind address.
    pub fn stop_streaming() -> (r: Config)
        ensures
            r.action@ == "streaming stop"@,
            r.default_server@ == "cwmc"@,
            r.default_version is None,
            r.default_port@ == "9191"@,
            r.bind_tunnel,
            r.wait_secs == 15,
    {
        Config {
            action: String::from_str("streaming stop"),
            default_server: String::from_str("cwmc"),
            default_version: None,
            default_port: String::from_str("9191"),
            bind_tunnel: true,
            wait_secs: 15,
        }
    }
}

/// A validated request: both required parameters present, every optional
/// selector resolved against the route's defaults.
pub struct Params {
    pub proxy: String,
    pub wspw: String,
    pub server: String,
    pub version: Option<String>,
    pub port: String,
    pub action: String,
}

/// The fleet selector that validation resolves for `q` under `c`.
pub open spec fn resolved_server(c: Config, q: Request) -> Seq<char> {
    if q.server is Some {
        q.server->0@
    } else {
        c.default_server@
    }
}

/// The version selector that validation resolves for `q` under `c`, `None`
/// when neither the request nor the route names one.
pub open spec fn resolved_version(c: Config, q: Request) -> Option<Seq<char>> {
    if q.version is Some {
        Some(q.version->0@)
    } else if c.default_version is Some {
        Some(c.default_version->0@)
    } else {
        None
    }
}

/// The control port that validation resolves for `q` under `c`.
pub open spec fn resolved_port(c: Config, q: Request) -> Seq<char> {
    if q.port is Some {
        q.port->0@
    } else {
        c.default_port@
    }
}

/// The view of an optional selector value.
pub open spec fn opt_view(v: Option<String>) -> Option<Seq<char>> {
    match v {
        Some(s) => Some(s@),
        None => None,
    }
}

/// Holds exactly when `p` is the validation of request `q` under config `c`.
pub open spec fn params_match(p: Params, c: Config, q: Request) -> bool {
    &&& q.proxy is Some && p.proxy@ == q.proxy->0@
    &&& q.wspw is Some && p.wspw@ == q.wspw->0@
    &&& p.server@ == resolved_server(c, q)
    &&& opt_view(p.version) == resolved_version(c, q)
    &&& p.port@ == resolved_port(c, q)
    &&& p.action@ == c.action@
}

/// Checks the two required path parameters and resolves the optional
/// selectors against the route's defaults. Fails, naming the parameter,
/// when `proxy` or `wspw` is absent; `proxy` is checked first.
pub fn validate(config: &Config, request: &Request) -> (r: Result<Params, Failure>)
    ensures
        request.proxy is None ==> (r matches Err(f) && crate::error::is_missing_param(
            f,
            "proxy"@,
        )),
        request.proxy is Some && request.wspw is None ==> (r matches Err(f)
            && crate::error::is_missing_param(f, "wspw"@)),
        request.proxy is Some && request.wspw is Some ==> (r matches Ok(p) && params_match(
            p,
            *config,
            *request,
        )),
{
    let proxy = match &request.proxy {
        Some(s) => s.clone(),
        None => {
            return Err(Failure::MissingParameter { name: String::from_str("proxy") });
        },
    };
    let wspw = match &request.wspw {
        Some(s) => s.clone(),
        None => {
            return Err(Failure::MissingParameter { name: String::from_str("wspw") });
        },
    };
    let server = match &request.server {
        Some(s) => s.clone(),
        None => config.default_server.clone(),
    };
    let version = match &request.version {
        Some(s) => Some(s.clone()),
        None => match &config.default_version {
            Some(s) => Some(s.clone()),
            None => None,
        },
    };
    let port = match &request.port {
        Some(s) => s.clone(),
        None => config.default_port.clone(),
    };
    Ok(Params { proxy, wspw, server, version, port, action: config.action.clone() })
}

/// One tag filter used to select target hosts, both for command dispatch
/// and for the inventory query: a tag key and the values it must match.
pub struct TagFilter {
    pub key: String,
    pub values: Vec<String>,
}

/// Holds exactly when `t` filters on tag `key` with the single value `value`.
pub open spec fn filter_is(t: TagFilter, key: Seq<char>, value: Seq<char>) -> bool {
    &&& t.key@ == key
    &&& t.values@.len() == 1
    &&& t.values@[0]@ == value
}

/// Holds exactly when `ts` selects hosts named `server`, filtered further by
/// `version` where the route uses a version selector.
pub open spec fn targets_match(
    ts: Seq<TagFilter>,
    server: Seq<char>,
    version: Option<Seq<char>>,
) -> bool {
    match version {
        Some(v) => {
            &&& ts.len() == 2
            &&& filter_is(ts[0], "tag:Name"@, server)
            &&& filter_is(ts[1], "tag:Version"@, v)
        },
        None => {
            &&& ts.len() == 1
            &&& filter_is(ts[0], "tag:Name"@, server)
        },
    }
}

/// Builds the tag filters selecting the hosts of `p`: always the name
/// filter, and the version filter where `p` carries a version selector.
pub fn build_targets(p: &Params) -> (r: Vec<TagFilter>)
    ensures
        targets_match(r@, p.server@, opt_view(p.version)),
{
    let mut r: Vec<TagFilter> = Vec::new();
    let mut name_values: Vec<String> = Vec::new();
    name_values.push(p.server.clone());
    r.push(TagFilter { key: String::from_str("tag:Name"), values: name_values });
    match &p.version {
        Some(v) => {
            let mut version_values: Vec<String> = Vec::new();
            version_values.push(v.clone());
            r.push(TagFilter { key: String::from_str("tag:Version"), values: version_values });
        },
        None => {},
    }
    r
}

/// Holds exactly when `cs` is the two-line shell script for `p`: first the
/// tunnel line, then the control line.
pub open spec fn commands_match(cs: Seq<String>, p: Params, bind: bool) -> bool {
    &&& cs.len() == 2
    &&& cs[0]@ == tunnel_command_view(p.proxy@, p.port@, bind)
    &&& cs[1]@ == control_command_view(p.wspw@, p.port@, p.action@)
}

/// Builds the ordered two-line shell script submitted to the remote host:
/// open the tunnel in the background, then issue the control verb.
pub fn build_commands(p: &Params, bind: bool) -> (r: Vec<String>)
    ensures
        commands_match(r@, *p, bind),
{
    let mut r: Vec<String> = Vec::new();
    r.push(tunnel_command(&p.proxy, &p.port, bind));
    r.push(control_command(&p.wspw, &p.port, &p.action));
    r
}

/// What the command-execution service returned for a submission: possibly a
/// command object, which possibly carries an identifier.
pub struct DispatchReply {
    pub command: Option<CommandInfo>,
}

/// The command object inside a submission reply.
pub struct CommandInfo {
    pub command_id: Option<String>,
}

/// One reservation returned by the instance inventory.
pub struct Reservation {
    pub instances: Vec<Instance>,
}

/// One instance inside a reservation, possibly without an identifier.
pub struct Instance {
    pub instance_id: Option<String>,
}

/// Picks the identifier of the first instance of the first reservation, the
/// accepted looseness of this design: no disambiguation when several hosts
/// match. Fails when the result set is empty at either level or the instance
/// carries no identifier.
pub fn first_instance_id(reservations: &Vec<Reservation>) -> (r: Result<String, Failure>)
    ensures
        reservations@.len() == 0 ==> (r matches Err(f) && crate::error::is_target_not_found(
            f,
            "reservations list is empty"@,
        )),
        reservations@.len() > 0 && reservations@[0].instances@.len() == 0 ==> (r matches Err(f)
            && crate::error::is_target_not_found(f, "instances list is empty"@)),
        reservations@.len() > 0 && reservations@[0].instances@.len() > 0 && reservations@[0].instances@[0].instance_id is None
            ==> (r matches Err(f) && crate::error::is_target_not_found(
            f,
            "instance id does not exist"@,
        )),
        reservations@.len() > 0 && reservations@[0].instances@.len() > 0 && reservations@[0].instances@[0].instance_id is Some
            ==> (r matches Ok(id) && id@ == reservations@[0].instances@[0].instance_id->0@),
{
    if reservations.len() == 0 {
        return Err(
            Failure::TargetNotFound { detail: String::from_str("reservations list is empty") },
        );
    }
    let first = &reservations[0];
    if first.instances.len() == 0 {
        return Err(Failure::TargetNotFound { detail: String::from_str("instances list is empty") });
    }
    match &first.instances[0].instance_id {
        Some(id) => Ok(id.clone()),
        None => Err(
            Failure::TargetNotFound { detail: String::from_str("instance id does not exist") },
        ),
    }
}

/// One captured log event, possibly without a message.
pub struct LogEvent {
    pub message: Option<String>,
}

/// What one attempt to fetch a log stream produced: the stream's events, a
/// distinguishable "stream not found" condition, or any other service error.
/// The two failing outcomes carry the service's rendered error text.
pub enum FetchOutcome {
    Fetched { events: Option<Vec<LogEvent>> },
    NotFound { detail: String },
    Error { detail: String },
}

/// Holds exactly when every event in `events` carries a message.
pub open spec fn all_messages_present(events: Seq<LogEvent>) -> bool {
    forall|i: int| 0 <= i < events.len() ==> events[i].message is Some
}

/// The messages of `events`, in the order the log service returned them.
pub open spec fn event_messages(events: Seq<LogEvent>) -> Seq<Seq<char>> {
    events.map_values(|e: LogEvent| e.message->0@)
}

/// Extracts the ordered message strings of a fetched batch. The whole batch
/// fails when the events collection is absent or any single event lacks a
/// message; no per-line recovery is attempted.
#[verifier::loop_isolation(false)]
pub fn collect_messages(events: &Option<Vec<LogEvent>>) -> (r: Result<Vec<String>, Failure>)
    ensures
        events is None ==> (r matches Err(f) && crate::error::is_malformed(
            f,
            "logs does not exist"@,
        )),
        events matches Some(evs) ==> (if all_messages_present(evs@) {
            r matches Ok(v) && v@.map_values(|s: String| s@) == event_messages(evs@)
        } else {
            r matches Err(f) && crate::error::is_malformed(f, "log message does not exist"@)
        }),
{
    let evs = match events {
        Some(evs) => evs,
        None => {
            return Err(Failure::MalformedResponse { detail: String::from_str("logs does not exist") });
        },
    };
    let mut out: Vec<String> = Vec::new();
    let mut i: usize = 0;
    while i < evs.len()
        invariant
            0 <= i <= evs@.len(),
            out@.len() == i,
            forall|j: int| 0 <= j < i ==> evs@[j].message is Some,
            forall|j: int| 0 <= j < i ==> out@[j]@ == evs@[j].message->0@,
        decreases evs@.len() - i,
    {
        match &evs[i] {
            LogEvent { message: Some(m) } => {
                out.push(m.clone());
            },
            LogEvent { message: None } => {
                proof {
                    assert(evs@[i as int].message is None);
                }
                return Err(
                    Failure::MalformedResponse {
                        detail: String::from_str("log message does not exist"),
                    },
                );
            },
        }
        i = i + 1;
    }
    proof {
        assert(out@.map_values(|s: String| s@) =~= event_messages(evs@));
    }
    Ok(out)
}

} // verus!
