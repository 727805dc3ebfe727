use remote_control::clock::now_rfc3339;
use remote_control::command::{
    command_enabled, complete_command, decimal_string, effective_delay_seconds,
    shutdown_delay_argument, RemoteCommandType,
};
use remote_control::config::{connect_url, get_remote_control_config, RemoteControlConfig};
use remote_control::parse::parse_remote_command;
use remote_control::session::{dispatch_frame, open_session, DispatchAction, Frame, OutboundQueue};
use remote_control::supervisor::{
    SupervisorAction, SupervisorEvent, SupervisorState, WebSocketClient,
};

#[test]
fn default_config_values() {
    let c = RemoteControlConfig::default();
    assert!(c.enabled);
    assert_eq!(c.server_url, "ws://localhost:8000/ws");
    assert_eq!(c.auth_token, "default-auth-token");
    assert_eq!(c.client_id, "");
    assert_eq!(c.reconnect_interval_secs, 30);
    assert_eq!(c.heartbeat_interval_secs, 30);
    assert!(c.commands.lock_screen_enabled);
    assert!(c.commands.shutdown_enabled);
}

#[test]
fn config_takes_client_id() {
    let c = get_remote_control_config("my-host".to_string());
    assert_eq!(c.client_id, "my-host");
    assert_eq!(c.server_url, "ws://localhost:8000/ws");
}

#[test]
fn connect_url_embeds_credentials() {
    let mut c = RemoteControlConfig::default();
    c.client_id = "host-7".to_string();
    assert_eq!(
        connect_url(&c),
        "ws://localhost:8000/ws?token=default-auth-token&client_id=host-7"
    );
}

#[test]
fn enabled_lock_screen_command_yields_success_result() {
    let config = get_remote_control_config("host-1".to_string());
    let cmd = parse_remote_command(
        "{\"id\":\"1\",\"type_\":\"LockScreen\",\"params\":null,\"timestamp\":\"t\"}",
    )
    .expect("well-formed command");
    assert!(command_enabled(&config.commands, cmd.type_));
    let outcome = Some(Ok("screen locked".to_string()));
    let r = complete_command(&config.commands, &cmd, outcome, "t2".to_string(), config.client_id);
    assert_eq!(r.command_id, "1");
    assert!(r.success);
    assert_eq!(r.message, "screen locked");
    assert_eq!(r.client_id, "host-1");
    assert_eq!(r.timestamp, "t2");
}

#[test]
fn disabled_shutdown_command_yields_failure_without_executor() {
    let mut config = get_remote_control_config("host-1".to_string());
    config.commands.shutdown_enabled = false;
    let cmd = parse_remote_command(
        "{\"id\":\"2\",\"type_\":\"Shutdown\",\"params\":{\"delay_seconds\":30},\"timestamp\":\"t\"}",
    )
    .expect("well-formed command");
    assert!(!command_enabled(&config.commands, cmd.type_));
    assert_eq!(effective_delay_seconds(&cmd), 30);
    let r = complete_command(&config.commands, &cmd, None, "t3".to_string(), config.client_id);
    assert_eq!(r.command_id, "2");
    assert!(!r.success);
    assert_eq!(r.message, "shutdown command disabled");
}

#[test]
fn failing_executor_is_mirrored_in_result() {
    let config = get_remote_control_config("h".to_string());
    let cmd = parse_remote_command(
        "{\"id\":\"3\",\"type_\":\"Shutdown\",\"timestamp\":\"t\"}",
    )
    .expect("well-formed command");
    assert_eq!(effective_delay_seconds(&cmd), 0);
    let outcome = Some(Err("shutdown failed: permission denied".to_string()));
    let r = complete_command(&config.commands, &cmd, outcome, "t".to_string(), config.client_id);
    assert!(!r.success);
    assert_eq!(r.message, "shutdown failed: permission denied");
}

#[test]
fn disabled_lock_screen_message_names_the_kind() {
    let mut config = get_remote_control_config("h".to_string());
    config.commands.lock_screen_enabled = false;
    let cmd = parse_remote_command(
        "{\"id\":\"4\",\"type_\":\"LockScreen\",\"timestamp\":\"t\"}",
    )
    .expect("well-formed command");
    let r = complete_command(&config.commands, &cmd, None, "t".to_string(), config.client_id);
    assert!(!r.success);
    assert_eq!(r.message, "lock screen command disabled");
}

#[test]
fn dispatch_decisions_per_frame_kind() {
    let ok = "{\"id\":\"1\",\"type_\":\"LockScreen\",\"timestamp\":\"t\"}";
    assert!(matches!(
        dispatch_frame(Frame::Text(ok.to_string())),
        DispatchAction::SpawnCommand(_)
    ));
    assert!(matches!(
        dispatch_frame(Frame::Text("garbage".to_string())),
        DispatchAction::Ignore
    ));
    assert!(matches!(
        dispatch_frame(Frame::Ping(vec![1, 2, 3])),
        DispatchAction::SendPong(_)
    ));
    assert!(matches!(dispatch_frame(Frame::Close), DispatchAction::Terminate));
    assert!(matches!(dispatch_frame(Frame::ReadError), DispatchAction::Terminate));
    assert!(matches!(dispatch_frame(Frame::Other), DispatchAction::Ignore));
}

#[test]
fn back_to_back_commands_both_spawn() {
    let t1 = "{\"id\":\"a\",\"type_\":\"LockScreen\",\"timestamp\":\"t\"}";
    let t2 = "{\"id\":\"b\",\"type_\":\"Shutdown\",\"timestamp\":\"t\"}";
    let a1 = dispatch_frame(Frame::Text(t1.to_string()));
    let a2 = dispatch_frame(Frame::Text(t2.to_string()));
    match (a1, a2) {
        (DispatchAction::SpawnCommand(c1), DispatchAction::SpawnCommand(c2)) => {
            assert_eq!(c1.id, "a");
            assert_eq!(c2.id, "b");
            assert_ne!(c1.type_, c2.type_);
        }
        _ => panic!("both frames must spawn execution units"),
    }
}

#[test]
fn outbound_queue_is_fifo_and_bounded() {
    let mut q = OutboundQueue::with_capacity(2);
    assert!(q.submit("one".to_string()));
    assert!(q.submit("two".to_string()));
    assert!(!q.submit("three".to_string()));
    assert_eq!(q.len(), 2);
    assert_eq!(q.pop_next().unwrap(), "one");
    assert_eq!(q.pop_next().unwrap(), "two");
    assert!(q.pop_next().is_none());
    assert!(q.submit("four".to_string()));
    assert_eq!(q.pop_next().unwrap(), "four");
}

#[test]
fn fresh_session_sends_hello_first() {
    let config = get_remote_control_config("host-9".to_string());
    let mut q = open_session(&config, "t0", "linux", "9.9.9");
    let first = q.pop_next().expect("the hello frame is queued");
    assert_eq!(
        first,
        "{\"type\":\"connect\",\"client_id\":\"host-9\",\"timestamp\":\"t0\",\"platform\":\"linux\",\"version\":\"9.9.9\"}"
    );
    assert!(q.pop_next().is_none());
}

#[test]
fn supervisor_reconnects_after_failure_with_wait() {
    let config = RemoteControlConfig::default();
    let mut c = WebSocketClient::new(config);
    assert_eq!(c.current_state(), SupervisorState::Idle);
    assert_eq!(c.step(SupervisorEvent::Proceed), SupervisorAction::AttemptConnect);
    assert_eq!(c.current_state(), SupervisorState::Connecting);
    assert_eq!(c.step(SupervisorEvent::ConnectFailed), SupervisorAction::Wait);
    assert_eq!(c.current_state(), SupervisorState::Draining);
    assert_eq!(c.step(SupervisorEvent::WaitElapsed), SupervisorAction::NoAction);
    assert_eq!(c.current_state(), SupervisorState::Idle);
    assert_eq!(c.step(SupervisorEvent::Proceed), SupervisorAction::AttemptConnect);
}

#[test]
fn supervisor_tears_down_when_session_ends() {
    let mut c = WebSocketClient::new(RemoteControlConfig::default());
    c.step(SupervisorEvent::Proceed);
    assert_eq!(c.step(SupervisorEvent::ConnectSucceeded), SupervisorAction::StartSession);
    assert_eq!(c.current_state(), SupervisorState::Active);
    assert_eq!(c.step(SupervisorEvent::SessionEnded), SupervisorAction::TearDownSession);
    assert_eq!(c.current_state(), SupervisorState::Draining);
}

#[test]
fn supervisor_stop_is_absorbing() {
    let mut c = WebSocketClient::new(RemoteControlConfig::default());
    c.step(SupervisorEvent::Proceed);
    c.step(SupervisorEvent::ConnectSucceeded);
    assert_eq!(c.step(SupervisorEvent::StopRequested), SupervisorAction::TearDownSession);
    assert_eq!(c.current_state(), SupervisorState::Stopped);
    for e in [
        SupervisorEvent::Proceed,
        SupervisorEvent::ConnectSucceeded,
        SupervisorEvent::ConnectFailed,
        SupervisorEvent::SessionEnded,
        SupervisorEvent::WaitElapsed,
        SupervisorEvent::StopRequested,
    ] {
        assert_eq!(c.step(e), SupervisorAction::NoAction);
        assert_eq!(c.current_state(), SupervisorState::Stopped);
    }
}

#[test]
fn timestamps_need_no_escaping() {
    let t = now_rfc3339();
    assert!(t.len() >= 19);
    for ch in t.chars() {
        assert!(ch != '"' && ch != '\\' && (ch as u32) >= 32 && (ch as u32) < 127);
    }
}

#[test]
fn lock_screen_and_shutdown_are_distinct_kinds() {
    assert_ne!(RemoteCommandType::LockScreen, RemoteCommandType::Shutdown);
}

#[test]
fn decimal_rendering_exact() {
    assert_eq!(decimal_string(0), "0");
    assert_eq!(decimal_string(7), "7");
    assert_eq!(decimal_string(30), "30");
    assert_eq!(decimal_string(1204), "1204");
    assert_eq!(decimal_string(u64::MAX), "18446744073709551615");
}

#[test]
fn shutdown_delay_argument_per_platform() {
    assert_eq!(shutdown_delay_argument(0, true), "0");
    assert_eq!(shutdown_delay_argument(30, true), "30");
    assert_eq!(shutdown_delay_argument(0, false), "now");
    assert_eq!(shutdown_delay_argument(30, false), "+0");
    assert_eq!(shutdown_delay_argument(120, false), "+2");
}
