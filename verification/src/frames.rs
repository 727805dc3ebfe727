//! Outbound frames of the wire protocol: the hello frame sent right after
//! a connect, the periodic heartbeat, and the command-result report. Each
//! render's contract pins the full text of the frame.
use vstd::prelude::*;
use vstd::string::*;
use crate::command::CommandResult;
use crate::json::{append_quoted, spec_quoted};

verus! {

/// The shape shared by the hello and heartbeat frames: a frame type plus
/// the client identity, timestamp, platform and client version.
pub open spec fn spec_presence_frame(
    frame_type: Seq<char>,
    client_id: Seq<char>,
    timestamp: Seq<char>,
    platform: Seq<char>,
    version: Seq<char>,
) -> Seq<char> {
    "{\"type\":"@ + spec_quoted(frame_type) + ",\"client_id\":"@ + spec_quoted(client_id)
        + ",\"timestamp\":"@ + spec_quoted(timestamp) + ",\"platform\":"@ + spec_quoted(platform)
        + ",\"version\":"@ + spec_quoted(version) + "}"@
}

/// The hello frame emitted once, first, on every fresh connection.
pub open spec fn spec_hello_frame(
    client_id: Seq<char>,
    timestamp: Seq<char>,
    platform: Seq<char>,
    version: Seq<char>,
) -> Seq<char> {
    spec_presence_frame("connect"@, client_id, timestamp, platform, version)
}

/// The liveness frame emitted on the heartbeat cadence.
pub open spec fn spec_heartbeat_frame(
    client_id: Seq<char>,
    timestamp: Seq<char>,
    platform: Seq<char>,
    version: Seq<char>,
) -> Seq<char> {
    spec_presence_frame("heartbeat"@, client_id, timestamp, platform, version)
}

fn render_presence_frame(
    frame_type: &str,
    client_id: &str,
    timestamp: &str,
    platform: &str,
    version: &str,
) -> (r: String)
    ensures
        r@ == spec_presence_frame(frame_type@, client_id@, timestamp@, platform@, version@),
{
    let mut out = String::from_str("{\"type\":");
    append_quoted(&mut out, frame_type);
    out.append(",\"client_id\":");
    append_quoted(&mut out, client_id);
    out.append(",\"timestamp\":");
    append_quoted(&mut out, timestamp);
    out.append(",\"platform\":");
    append_quoted(&mut out, platform);
    out.append(",\"version\":");
    append_quoted(&mut out, version);
    out.append("}");
    proof {
        assert(out@ =~= spec_presence_frame(
            frame_type@,
            client_id@,
            timestamp@,
            platform@,
            version@,
        ));
    }
    out
}

pub fn render_hello_frame(client_id: &str, timestamp: &str, platform: &str, version: &str) -> (r:
    String)
    ensures
        r@ == spec_hello_frame(client_id@, timestamp@, platform@, version@),
{
    render_presence_frame("connect", client_id, timestamp, platform, version)
}

pub fn render_heartbeat_frame(client_id: &str, timestamp: &str, platform: &str, version: &str) -> (r:
    String)
    ensures
        r@ == spec_heartbeat_frame(client_id@, timestamp@, platform@, version@),
{
    render_presence_frame("heartbeat", client_id, timestamp, platform, version)
}

/// The report frame wrapping one command result.
pub open spec fn spec_command_result_frame(
    command_id: Seq<char>,
    success: bool,
    message: Seq<char>,
    timestamp: Seq<char>,
    client_id: Seq<char>,
) -> Seq<char> {
    "{\"type\":\"command_result\",\"result\":{\"command_id\":"@ + spec_quoted(command_id)
        + ",\"success\":"@ + (if success { "true"@ } else { "false"@ }) + ",\"message\":"@
        + spec_quoted(message) + ",\"timestamp\":"@ + spec_quoted(timestamp) + ",\"client_id\":"@
        + spec_quoted(client_id) + "}}"@
}

pub fn render_command_result_frame(result: &CommandResult) -> (r: String)
    ensures
        r@ == spec_command_result_frame(
            result.command_id@,
            result.success,
            result.message@,
            result.timestamp@,
            result.client_id@,
        ),
{
    let mut out = String::from_str("{\"type\":\"command_result\",\"result\":{\"command_id\":");
    append_quoted(&mut out, result.command_id.as_str());
    out.append(",\"success\":");
    if result.success {
        out.append("true");
    } else {
        out.append("false");
    }
    out.append(",\"message\":");
    append_quoted(&mut out, result.message.as_str());
    out.append(",\"timestamp\":");
    append_quoted(&mut out, result.timestamp.as_str());
    out.append(",\"client_id\":");
    append_quoted(&mut out, result.client_id.as_str());
    out.append("}}");
    proof {
        assert(out@ =~= spec_command_result_frame(
            result.command_id@,
            result.success,
            result.message@,
            result.timestamp@,
            result.client_id@,
        ));
    }
    out
}

} // verus!
