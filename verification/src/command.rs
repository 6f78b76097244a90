use vstd::prelude::*;
use vstd::string::StringExecFns;

verus! {

/// The log group under which the remote execution service stores the
/// captured output of every dispatched shell command.
pub open spec fn log_group_view() -> Seq<char> {
    "/aws/ssm/AWS-RunShellScript"@
}

/// The name of the log group holding captured command output.
pub fn log_group() -> (r: &'static str)
    ensures
        r@ == log_group_view(),
{
    "/aws/ssm/AWS-RunShellScript"
}

/// The document describing a plain shell-script run to the remote
/// command-execution service.
pub open spec fn document_name_view() -> Seq<char> {
    "AWS-RunShellScript"@
}

/// The name of the shell-script execution document.
pub fn document_name() -> (r: &'static str)
    ensures
        r@ == document_name_view(),
{
    "AWS-RunShellScript"
}

/// The shell line that opens the private tunnel for `proxy`, backgrounded so
/// it does not block the control command. With `bind` set, the tunnel is
/// pinned to an explicit local address on `port`.
pub open spec fn tunnel_command_view(proxy: Seq<char>, port: Seq<char>, bind: bool) -> Seq<char> {
    if bind {
        "zrok access private "@ + proxy + " --bind \"127.0.0.1:"@ + port + "\" --headless &"@
    } else {
        "zrok access private "@ + proxy + " --headless &"@
    }
}

/// Builds the tunnel shell line.
pub fn tunnel_command(proxy: &String, port: &String, bind: bool) -> (r: String)
    ensures
        r@ == tunnel_command_view(proxy@, port@, bind),
{
    let mut s = String::from_str("zrok access private ");
    s.append(proxy.as_str());
    if bind {
        s.append(" --bind \"127.0.0.1:");
        s.append(port.as_str());
        s.append("\" --headless &");
    } else {
        s.append(" --headless &");
    }
    s
}

/// The shell line that drives the local WebSocket control client against the
/// tunnelled application: it connects to `localhost:<port>/<wspw>` and issues
/// the control verb `action`.
pub open spec fn control_command_view(wspw: Seq<char>, port: Seq<char>, action: Seq<char>) -> Seq<
    char,
> {
    "obs-cmd --websocket obsws://localhost:"@ + port + "/"@ + wspw + " "@ + action
}

/// Builds the control shell line.
pub fn control_command(wspw: &String, port: &String, action: &String) -> (r: String)
    ensures
        r@ == control_command_view(wspw@, port@, action@),
{
    let mut s = String::from_str("obs-cmd --websocket obsws://localhost:");
    s.append(port.as_str());
    s.append("/");
    s.append(wspw.as_str());
    s.append(" ");
    s.append(action.as_str());
    s
}

/// The composite log-stream key `{commandId}/{instanceId}/{channel}` under
/// which one output channel of one command run on one host is stored.
pub open spec fn stream_name_view(
    command_id: Seq<char>,
    instance_id: Seq<char>,
    channel: Seq<char>,
) -> Seq<char> {
    command_id + "/"@ + instance_id + "/aws-runShellScript/"@ + channel
}

/// Builds the log-stream key for one output channel of a dispatched command.
pub fn log_stream_name(command_id: &String, instance_id: &String, channel: &str) -> (r: String)
    ensures
        r@ == stream_name_view(command_id@, instance_id@, channel@),
{
    let mut s = command_id.clone();
    s.append("/");
    s.append(instance_id.as_str());
    s.append("/aws-runShellScript/");
    s.append(channel);
    s
}

/// The diagnostic text reported when fetching one output channel fails:
/// it names the stream coordinates and embeds the service's own error text.
pub open spec fn fetch_error_view(
    command_id: Seq<char>,
    instance_id: Seq<char>,
    channel: Seq<char>,
    detail: Seq<char>,
) -> Seq<char> {
    "error from logging /"@ + command_id + "/"@ + instance_id + "/"@ + channel + ": "@ + detail
}

/// Builds the diagnostic text for a failed log fetch.
pub fn fetch_error_detail(
    command_id: &String,
    instance_id: &String,
    channel: &str,
    detail: &String,
) -> (r: String)
    ensures
        r@ == fetch_error_view(command_id@, instance_id@, channel@, detail@),
{
    let mut s = String::from_str("error from logging /");
    s.append(command_id.as_str());
    s.append("/");
    s.append(instance_id.as_str());
    s.append("/");
    s.append(channel);
    s.append(": ");
    s.append(detail.as_str());
    s
}

} // verus!
