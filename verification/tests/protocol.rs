use remote_control::command::{CommandResult, RemoteCommandType};
use remote_control::frames::{
    render_command_result_frame, render_heartbeat_frame, render_hello_frame,
};
use remote_control::parse::parse_remote_command;

fn result_of(
    command_id: &str,
    success: bool,
    message: &str,
    timestamp: &str,
    client_id: &str,
) -> CommandResult {
    CommandResult {
        command_id: command_id.to_string(),
        success,
        message: message.to_string(),
        timestamp: timestamp.to_string(),
        client_id: client_id.to_string(),
    }
}

#[test]
fn hello_frame_exact_text() {
    let f = render_hello_frame("host-1", "2024-01-01T00:00:00+00:00", "linux", "1.2.3");
    assert_eq!(
        f,
        "{\"type\":\"connect\",\"client_id\":\"host-1\",\"timestamp\":\"2024-01-01T00:00:00+00:00\",\"platform\":\"linux\",\"version\":\"1.2.3\"}"
    );
}

#[test]
fn heartbeat_frame_exact_text() {
    let f = render_heartbeat_frame("h", "t", "macos", "0.1.0");
    assert_eq!(
        f,
        "{\"type\":\"heartbeat\",\"client_id\":\"h\",\"timestamp\":\"t\",\"platform\":\"macos\",\"version\":\"0.1.0\"}"
    );
}

#[test]
fn command_result_frame_exact_text() {
    let r = result_of("42", true, "locked", "t1", "host");
    let f = render_command_result_frame(&r);
    assert_eq!(
        f,
        "{\"type\":\"command_result\",\"result\":{\"command_id\":\"42\",\"success\":true,\"message\":\"locked\",\"timestamp\":\"t1\",\"client_id\":\"host\"}}"
    );
}

#[test]
fn command_result_frame_failure_text() {
    let r = result_of("2", false, "shutdown command disabled", "t", "h");
    let f = render_command_result_frame(&r);
    assert!(f.contains("\"success\":false"));
    assert!(f.contains("\"message\":\"shutdown command disabled\""));
}

#[test]
fn rendered_frames_are_valid_json() {
    let r = result_of("a\"b\\c", true, "line\nbreak\tand \u{1} control", "t", "id");
    let f = render_command_result_frame(&r);
    let v: serde_json::Value = serde_json::from_str(&f).expect("frame must be valid JSON");
    assert_eq!(v["type"], "command_result");
    assert_eq!(v["result"]["command_id"], "a\"b\\c");
    assert_eq!(v["result"]["message"], "line\nbreak\tand \u{1} control");
    assert_eq!(v["result"]["success"], true);
}

#[test]
fn hello_frame_escapes_client_id() {
    let f = render_hello_frame("a\"b", "t", "p", "v");
    let v: serde_json::Value = serde_json::from_str(&f).expect("valid JSON");
    assert_eq!(v["client_id"], "a\"b");
    assert_eq!(v["type"], "connect");
}

#[test]
fn parse_lock_screen_command() {
    let c = parse_remote_command("{\"id\":\"1\",\"type_\":\"LockScreen\",\"params\":null,\"timestamp\":\"t\"}")
        .expect("well-formed command");
    assert_eq!(c.id, "1");
    assert_eq!(c.type_, RemoteCommandType::LockScreen);
    assert!(c.params.is_none());
    assert_eq!(c.timestamp, "t");
}

#[test]
fn parse_shutdown_with_delay() {
    let c = parse_remote_command(
        "{\"id\":\"2\",\"type_\":\"Shutdown\",\"params\":{\"delay_seconds\":30},\"timestamp\":\"t\"}",
    )
    .expect("well-formed command");
    assert_eq!(c.id, "2");
    assert_eq!(c.type_, RemoteCommandType::Shutdown);
    assert_eq!(c.params.unwrap().delay_seconds, Some(30));
}

#[test]
fn parse_accepts_any_field_order_and_whitespace() {
    let c = parse_remote_command(
        " { \"timestamp\" : \"x\" ,\n\t\"type_\":\"Shutdown\", \"id\" : \"9\" } ",
    )
    .expect("well-formed command");
    assert_eq!(c.id, "9");
    assert_eq!(c.type_, RemoteCommandType::Shutdown);
    assert!(c.params.is_none());
}

#[test]
fn parse_ignores_unknown_fields() {
    let c = parse_remote_command(
        "{\"id\":\"1\",\"extra\":[1,{\"x\":true},\"s\"],\"type_\":\"LockScreen\",\"timestamp\":\"t\",\"more\":null}",
    )
    .expect("well-formed command");
    assert_eq!(c.id, "1");
}

#[test]
fn parse_decodes_string_escapes() {
    let c = parse_remote_command(
        "{\"id\":\"a\\\"b\\\\c\\n\\u0041\",\"type_\":\"LockScreen\",\"timestamp\":\"t\"}",
    )
    .expect("well-formed command");
    assert_eq!(c.id, "a\"b\\c\nA");
}

#[test]
fn parse_rejects_malformed_frames() {
    assert!(parse_remote_command("").is_none());
    assert!(parse_remote_command("not json").is_none());
    assert!(parse_remote_command("{\"id\":\"1\"}").is_none());
    assert!(parse_remote_command("{\"id\":\"1\",\"type_\":\"LockScreen\"").is_none());
    assert!(parse_remote_command("{\"id\":\"1\",\"type_\":\"Reboot\",\"timestamp\":\"t\"}").is_none());
    assert!(parse_remote_command("{\"id\":1,\"type_\":\"LockScreen\",\"timestamp\":\"t\"}").is_none());
    assert!(parse_remote_command(
        "{\"id\":\"1\",\"id\":\"2\",\"type_\":\"LockScreen\",\"timestamp\":\"t\"}"
    )
    .is_none());
    assert!(parse_remote_command(
        "{\"id\":\"1\",\"type_\":\"LockScreen\",\"timestamp\":\"t\"} extra"
    )
    .is_none());
    assert!(parse_remote_command(
        "{\"id\":\"1\",\"type_\":\"LockScreen\",\"timestamp\":\"t\",}"
    )
    .is_none());
    assert!(parse_remote_command(
        "{\"id\":\"1\",\"type_\":\"LockScreen\",\"params\":\"no\",\"timestamp\":\"t\"}"
    )
    .is_none());
}

#[test]
fn parse_number_forms_in_delay_seconds() {
    let delay = |text: &str| {
        parse_remote_command(text)
            .expect("well-formed command")
            .params
            .expect("params object")
            .delay_seconds
    };
    let frame = |v: &str| {
        format!(
            "{{\"id\":\"1\",\"type_\":\"Shutdown\",\"params\":{{\"delay_seconds\":{}}},\"timestamp\":\"t\"}}",
            v
        )
    };
    assert_eq!(delay(&frame("0")), Some(0));
    assert_eq!(delay(&frame("18446744073709551615")), Some(u64::MAX));
    assert_eq!(delay(&frame("18446744073709551616")), None);
    assert_eq!(delay(&frame("-5")), None);
    assert_eq!(delay(&frame("2.5")), None);
    assert_eq!(delay(&frame("1e3")), None);
    assert_eq!(delay(&frame("\"30\"")), None);
    assert_eq!(delay(&frame("7,\"delay_seconds\":8")), Some(8));
}

#[test]
fn parse_rejects_bad_numbers() {
    assert!(parse_remote_command(
        "{\"id\":\"1\",\"type_\":\"Shutdown\",\"params\":{\"delay_seconds\":01},\"timestamp\":\"t\"}"
    )
    .is_none());
    assert!(parse_remote_command(
        "{\"id\":\"1\",\"type_\":\"Shutdown\",\"params\":{\"delay_seconds\":},\"timestamp\":\"t\"}"
    )
    .is_none());
}

#[test]
fn parse_agrees_with_reference_json_parser() {
    let frames = [
        "{\"id\":\"1\",\"type_\":\"LockScreen\",\"params\":null,\"timestamp\":\"t\"}",
        "{\"id\":\"2\",\"type_\":\"Shutdown\",\"params\":{\"delay_seconds\":30},\"timestamp\":\"t\"}",
        "not json",
        "{\"id\":\"1\"}",
        "[1,2,3]",
    ];
    for f in frames {
        let ours = parse_remote_command(f).is_some();
        let reference = serde_json::from_str::<serde_json::Value>(f)
            .ok()
            .map(|v| {
                v.get("id").map(|x| x.is_string()) == Some(true)
                    && v.get("timestamp").map(|x| x.is_string()) == Some(true)
                    && matches!(
                        v.get("type_").and_then(|x| x.as_str()),
                        Some("LockScreen") | Some("Shutdown")
                    )
            })
            .unwrap_or(false);
        assert_eq!(ours, reference, "disagreement on {:?}", f);
    }
}
