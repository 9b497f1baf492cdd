use acp_agent_cli::context::{InvocationContextOverrides, RuntimeLocations};
use acp_agent_cli::invocation::{
    check_context_use, daemon_gate, external_agent, lifecycle_failed, registry_failed, run_agent, run_input,
    run_via_daemon_failed,
};
use acp_agent_cli::output::Format;
use acp_agent_cli::daemon::{
    agent_connect_failed, daemon_files, daemon_info, daemon_restart, daemon_runtime_artifacts, daemon_start,
    daemon_status, daemon_stop, decode_rpc_line, default_state, ensure_daemon_running, failed_state,
    materialize_status, not_running_error, rpc_line_message, running_state, session_close_response,
    session_not_found, starting_state, state_persistence, unexpected_response, DaemonLifecycleState,
    DaemonRpcResponse, DaemonStatus, Lifecycle, LifecycleAction, LifecycleCommand,
    LifecycleEvent, LifecycleOutcome, RpcLineError, ShutdownReply,
};
use acp_agent_cli::sessions::CloseOutcome;

fn runtime() -> RuntimeLocations {
    RuntimeLocations {
        config_dir: "/home/u/.config/acp".to_string(),
        data_dir: "/home/u/.local/share/acp".to_string(),
        state_dir: "/home/u/.local/state/acp".to_string(),
        cache_dir: "/home/u/.cache/acp".to_string(),
        log_dir: None,
    }
}

fn running_status(rt: &RuntimeLocations) -> DaemonStatus {
    let s = running_state("/sock".to_string(), "unix_socket_or_named_pipe", 77, 10);
    materialize_status(rt, s, true, 25)
}

fn finish(action: LifecycleAction) -> LifecycleOutcome {
    match action {
        LifecycleAction::Finish(o) => o,
        _ => panic!("expected the command to finish"),
    }
}

#[test]
fn daemon_files_live_under_state_daemon() {
    let f = daemon_files(&runtime());
    assert_eq!(f.directory, "/home/u/.local/state/acp/daemon");
    assert_eq!(f.pid_file, "/home/u/.local/state/acp/daemon/daemon.pid");
    assert_eq!(f.socket_path, "/home/u/.local/state/acp/daemon/daemon.sock");
    assert_eq!(f.socket_metadata_file, "/home/u/.local/state/acp/daemon/daemon.sock_or_pipe_metadata");
    assert_eq!(f.state_file, "/home/u/.local/state/acp/daemon/daemon-state.json");
    assert_eq!(f.log_file, "/home/u/.local/state/acp/daemon/daemon.log");
    assert_eq!(f.lock_file, "/home/u/.local/state/acp/daemon/daemon.lock");
    assert_eq!(f.auth_token_file, "/home/u/.local/state/acp/daemon/auth.token_when_tcp_enabled");
    let a = daemon_runtime_artifacts(&runtime());
    assert_eq!(a.directory, f.directory);
    assert_eq!(a.lock_file, f.lock_file);
}

#[test]
fn daemon_info_describes_the_app_server() {
    let info = daemon_info(&runtime());
    assert!(info.enabled);
    assert_eq!(info.mode, "app_server");
    assert_eq!(info.instance_model, "single");
    assert_eq!(info.lifecycle, vec!["daemon run", "daemon start", "daemon stop", "daemon restart", "daemon status"]);
    assert_eq!(info.routing_flags, vec!["--via", "--ensure-daemon"]);
    assert_eq!(info.local_only_commands.len(), 14);
    assert_eq!(info.local_only_commands[0], "help");
    assert_eq!(info.local_only_commands[13], "daemon");
    assert_eq!(info.runtime_artifacts.len(), 6);
    assert_eq!(info.runtime_artifacts[2], "/home/u/.local/state/acp/daemon/daemon-state.json");
}

#[test]
fn default_state_depends_on_the_platform() {
    let unix = default_state(&runtime(), true, 5);
    assert_eq!(unix.state, DaemonLifecycleState::Stopped);
    assert_eq!(unix.readiness, "not_running");
    assert_eq!(unix.transport, "unix_socket_or_named_pipe");
    assert_eq!(unix.endpoint, "/home/u/.local/state/acp/daemon/daemon.sock");
    assert_eq!(unix.recommended_next_action, "daemon start");
    assert_eq!(unix.pid, None);
    let tcp = default_state(&runtime(), false, 5);
    assert_eq!(tcp.transport, "loopback_tcp");
    assert_eq!(tcp.endpoint, "127.0.0.1:0");
    let starting = starting_state(&runtime(), true, 9);
    assert_eq!(starting.state, DaemonLifecycleState::Starting);
    assert_eq!(starting.readiness, "starting");
    assert_eq!(starting.started_at_epoch_sec, 9);
    assert_eq!(starting.recommended_next_action, "daemon status");
    let failed = failed_state(&runtime(), true, 9, "boom".to_string(), Some(3));
    assert_eq!(failed.state, DaemonLifecycleState::Failed);
    assert_eq!(failed.last_error, "boom");
    assert_eq!(failed.pid, Some(3));
}

#[test]
fn dead_process_is_reported_stopped() {
    let rt = runtime();
    let s = running_state("/sock".to_string(), "unix_socket_or_named_pipe", 4242, 100);
    let st = materialize_status(&rt, s, false, 160);
    assert_eq!(st.state, "stopped");
    assert_eq!(st.readiness, "not_running");
    assert_eq!(st.pid, None);
    assert_eq!(st.uptime_sec, 0);
    assert_eq!(st.recommended_next_action, "daemon start");
}

#[test]
fn uptime_counts_from_start_and_never_goes_below_zero() {
    let rt = runtime();
    let s = running_state("/sock".to_string(), "unix_socket_or_named_pipe", 4242, 100);
    let st = materialize_status(&rt, s, true, 160);
    assert_eq!(st.state, "running");
    assert_eq!(st.readiness, "ready");
    assert_eq!(st.uptime_sec, 60);
    assert_eq!(st.pid, Some(4242));
    let s = running_state("/sock".to_string(), "unix_socket_or_named_pipe", 4242, 200);
    assert_eq!(materialize_status(&rt, s, true, 160).uptime_sec, 0);
    assert_eq!(materialize_status(&rt, default_state(&rt, true, 1), true, 160).uptime_sec, 0);
}

#[test]
fn recording_a_state_writes_pid_and_endpoint_only_while_alive() {
    let s = running_state("/run/d.sock".to_string(), "unix_socket_or_named_pipe", 1234, 1);
    let p = state_persistence(&s);
    assert_eq!(p.pid_text.as_deref(), Some("1234"));
    assert_eq!(p.endpoint.as_deref(), Some("/run/d.sock"));
    let stopped = default_state(&runtime(), true, 1);
    let p = state_persistence(&stopped);
    assert_eq!(p.pid_text, None);
    assert_eq!(p.endpoint, None);
    let blank = running_state("   ".to_string(), "loopback_tcp", 9, 1);
    assert_eq!(state_persistence(&blank).endpoint, None);
}

#[test]
fn status_of_an_unreachable_daemon_resets_to_stopped() {
    let rt = runtime();
    let (m, a) = daemon_status(&rt, true);
    assert!(matches!(a, LifecycleAction::LoadState));
    let recorded = running_state("/sock".to_string(), "unix_socket_or_named_pipe", 424242, 1);
    let (m, a) = m.step(LifecycleEvent::Loaded(recorded), 10);
    assert!(matches!(a, LifecycleAction::QueryLiveStatus));
    let (m, a) = m.step(LifecycleEvent::LiveStatus(None), 11);
    assert!(matches!(a, LifecycleAction::CleanupArtifacts));
    let (m, a) = m.step(LifecycleEvent::Completed, 12);
    match a {
        LifecycleAction::SaveState(s) => {
            assert_eq!(s.state, DaemonLifecycleState::Stopped);
            assert_eq!(s.pid, None);
        }
        _ => panic!("expected the stopped state to be recorded"),
    }
    let (_, a) = m.step(LifecycleEvent::Completed, 13);
    match finish(a) {
        LifecycleOutcome::Status(st) => assert_eq!(st.state, "stopped"),
        _ => panic!("expected a status"),
    }
}

#[test]
fn status_of_a_stopped_record_checks_its_process() {
    let rt = runtime();
    let (m, _) = daemon_status(&rt, true);
    let mut recorded = running_state("/sock".to_string(), "unix_socket_or_named_pipe", 55, 1);
    recorded.state = DaemonLifecycleState::Failed;
    let (m, a) = m.step(LifecycleEvent::Loaded(recorded), 10);
    assert!(matches!(a, LifecycleAction::CheckPid(55)));
    let (_, a) = m.step(LifecycleEvent::PidRunning(true), 20);
    match finish(a) {
        LifecycleOutcome::Status(st) => {
            assert_eq!(st.state, "failed");
            assert_eq!(st.uptime_sec, 19);
        }
        _ => panic!("expected a status"),
    }
}

#[test]
fn status_response_wraps_the_status() {
    let rt = runtime();
    let (m, _) = Lifecycle::begin(LifecycleCommand::StatusResponse, &rt, true);
    let (_, a) = m.step(LifecycleEvent::Loaded(default_state(&rt, true, 1)), 2);
    match finish(a) {
        LifecycleOutcome::Response(r) => {
            assert_eq!(r.status, "ok");
            assert_eq!(r.action, "status");
            assert_eq!(r.daemon_status.state, "stopped");
        }
        _ => panic!("expected a lifecycle answer"),
    }
}

#[test]
fn stop_of_an_unreachable_daemon_cleans_up() {
    let rt = runtime();
    let (m, a) = daemon_stop(&rt, true);
    assert!(matches!(a, LifecycleAction::HealthCheck));
    let (m, a) = m.step(LifecycleEvent::Healthy(false), 1);
    assert!(matches!(a, LifecycleAction::CleanupArtifacts));
    let (m, a) = m.step(LifecycleEvent::Completed, 2);
    assert!(matches!(a, LifecycleAction::SaveState(_)));
    let (_, a) = m.step(LifecycleEvent::Completed, 3);
    match finish(a) {
        LifecycleOutcome::Response(r) => {
            assert_eq!(r.status, "stopped");
            assert_eq!(r.action, "stop");
            assert_eq!(r.daemon_status.state, "stopped");
        }
        _ => panic!("expected a lifecycle answer"),
    }
}

#[test]
fn stop_of_a_running_daemon_waits_for_shutdown() {
    let rt = runtime();
    let (m, _) = daemon_stop(&rt, true);
    let (m, a) = m.step(LifecycleEvent::Healthy(true), 1);
    assert!(matches!(a, LifecycleAction::RequestShutdown));
    let (m, a) = m.step(LifecycleEvent::ShutdownAnswer(ShutdownReply::Accepted), 2);
    assert!(matches!(a, LifecycleAction::WaitShutdown));
    let (m, a) = m.step(LifecycleEvent::Completed, 3);
    assert!(matches!(a, LifecycleAction::CleanupArtifacts));
    let (m, a) = m.step(LifecycleEvent::Completed, 4);
    assert!(matches!(a, LifecycleAction::SaveState(_)));
    let (_, a) = m.step(LifecycleEvent::Completed, 5);
    assert!(matches!(finish(a), LifecycleOutcome::Response(r) if r.status == "stopped"));
}

#[test]
fn stop_rejected_or_answered_oddly_fails() {
    let rt = runtime();
    let (m, _) = daemon_stop(&rt, true);
    let (m, _) = m.step(LifecycleEvent::Healthy(true), 1);
    let (_, a) = m.step(LifecycleEvent::ShutdownAnswer(ShutdownReply::Rejected), 2);
    assert!(matches!(finish(a), LifecycleOutcome::Failed(m) if m == "daemon rejected shutdown request"));
    let (m, _) = daemon_stop(&rt, true);
    let (m, _) = m.step(LifecycleEvent::Healthy(true), 1);
    let (_, a) = m.step(LifecycleEvent::ShutdownAnswer(ShutdownReply::Unexpected("{\"type\":\"health\"}".to_string())), 2);
    assert!(matches!(finish(a), LifecycleOutcome::Failed(m)
        if m == "daemon returned unexpected RPC response for shutdown: {\"type\":\"health\"}"));
}

#[test]
fn start_spawns_a_daemon_and_waits_until_ready() {
    let rt = runtime();
    let (m, a) = daemon_start(&rt, true);
    assert!(matches!(a, LifecycleAction::EnsureDirectories));
    let (m, a) = m.step(LifecycleEvent::Completed, 1);
    assert!(matches!(a, LifecycleAction::LoadState));
    let (m, a) = m.step(LifecycleEvent::Loaded(default_state(&rt, true, 1)), 2);
    assert!(matches!(a, LifecycleAction::CleanupArtifacts));
    let (m, a) = m.step(LifecycleEvent::Completed, 3);
    match a {
        LifecycleAction::SaveState(s) => {
            assert_eq!(s.state, DaemonLifecycleState::Starting);
            assert_eq!(s.started_at_epoch_sec, 3);
        }
        _ => panic!("expected the starting state to be recorded"),
    }
    let (m, a) = m.step(LifecycleEvent::Completed, 4);
    assert!(matches!(a, LifecycleAction::SpawnDaemon));
    let (m, a) = m.step(LifecycleEvent::Completed, 5);
    assert!(matches!(a, LifecycleAction::WaitReady));
    let (_, a) = m.step(LifecycleEvent::Ready(running_status(&rt)), 6);
    match finish(a) {
        LifecycleOutcome::Response(r) => {
            assert_eq!(r.status, "running");
            assert_eq!(r.action, "start");
            assert_eq!(r.daemon_status.pid, Some(77));
        }
        _ => panic!("expected a lifecycle answer"),
    }
}

#[test]
fn start_reuses_a_running_daemon() {
    let rt = runtime();
    let (m, _) = daemon_start(&rt, true);
    let (m, _) = m.step(LifecycleEvent::Completed, 1);
    let recorded = running_state("/sock".to_string(), "unix_socket_or_named_pipe", 77, 1);
    let (m, a) = m.step(LifecycleEvent::Loaded(recorded), 2);
    assert!(matches!(a, LifecycleAction::QueryLiveStatus));
    let (_, a) = m.step(LifecycleEvent::LiveStatus(Some(running_status(&rt))), 3);
    assert!(matches!(finish(a), LifecycleOutcome::Response(r) if r.status == "running" && r.action == "start"));
}

#[test]
fn failed_spawn_is_recorded_and_reported() {
    let rt = runtime();
    let (m, _) = daemon_start(&rt, true);
    let (m, _) = m.step(LifecycleEvent::Completed, 1);
    let (m, _) = m.step(LifecycleEvent::Loaded(default_state(&rt, true, 1)), 2);
    let (m, _) = m.step(LifecycleEvent::Completed, 3);
    let (m, _) = m.step(LifecycleEvent::Completed, 4);
    let (m, a) = m.step(LifecycleEvent::Failed("no such binary".to_string()), 5);
    match a {
        LifecycleAction::SaveState(s) => {
            assert_eq!(s.state, DaemonLifecycleState::Failed);
            assert_eq!(s.last_error, "no such binary");
        }
        _ => panic!("expected the failure to be recorded"),
    }
    let (_, a) = m.step(LifecycleEvent::Completed, 6);
    assert!(matches!(finish(a), LifecycleOutcome::Failed(m) if m == "no such binary"));
}

#[test]
fn daemon_that_never_gets_ready_is_cleaned_up() {
    let rt = runtime();
    let (m, _) = daemon_start(&rt, true);
    let (m, _) = m.step(LifecycleEvent::Completed, 1);
    let (m, _) = m.step(LifecycleEvent::Loaded(default_state(&rt, true, 1)), 2);
    let (m, _) = m.step(LifecycleEvent::Completed, 3);
    let (m, _) = m.step(LifecycleEvent::Completed, 4);
    let (m, _) = m.step(LifecycleEvent::Completed, 5);
    let (m, a) = m.step(LifecycleEvent::Failed("daemon did not become ready within 5s".to_string()), 6);
    assert!(matches!(a, LifecycleAction::CleanupArtifacts));
    let (m, a) = m.step(LifecycleEvent::Completed, 7);
    assert!(matches!(a, LifecycleAction::SaveState(ref s) if s.state == DaemonLifecycleState::Failed));
    let (_, a) = m.step(LifecycleEvent::Completed, 8);
    assert!(matches!(finish(a), LifecycleOutcome::Failed(m) if m == "daemon did not become ready within 5s"));
}

#[test]
fn restart_stops_then_starts() {
    let rt = runtime();
    let (m, a) = daemon_restart(&rt, true);
    assert!(matches!(a, LifecycleAction::HealthCheck));
    let (m, _) = m.step(LifecycleEvent::Healthy(false), 1);
    let (m, _) = m.step(LifecycleEvent::Completed, 2);
    let (m, a) = m.step(LifecycleEvent::Completed, 3);
    assert!(matches!(a, LifecycleAction::EnsureDirectories));
    let (m, _) = m.step(LifecycleEvent::Completed, 4);
    let (m, _) = m.step(LifecycleEvent::Loaded(default_state(&rt, true, 1)), 5);
    let (m, _) = m.step(LifecycleEvent::Completed, 6);
    let (m, _) = m.step(LifecycleEvent::Completed, 7);
    let (m, _) = m.step(LifecycleEvent::Completed, 8);
    let (_, a) = m.step(LifecycleEvent::Ready(running_status(&rt)), 9);
    assert!(matches!(finish(a), LifecycleOutcome::Response(r) if r.action == "restart" && r.status == "running"));
}

#[test]
fn ensure_returns_a_running_daemon_status() {
    let rt = runtime();
    let (m, a) = ensure_daemon_running(&rt, true);
    assert!(matches!(a, LifecycleAction::LoadState));
    let recorded = running_state("/sock".to_string(), "unix_socket_or_named_pipe", 77, 1);
    let (m, _) = m.step(LifecycleEvent::Loaded(recorded), 2);
    let (_, a) = m.step(LifecycleEvent::LiveStatus(Some(running_status(&rt))), 3);
    assert!(matches!(finish(a), LifecycleOutcome::Status(st) if st.state == "running"));
    let (m, _) = ensure_daemon_running(&rt, true);
    let (_, a) = m.step(LifecycleEvent::Loaded(default_state(&rt, true, 1)), 2);
    assert!(matches!(a, LifecycleAction::EnsureDirectories));
}

#[test]
fn lifecycle_refuses_an_event_it_did_not_ask_for() {
    let rt = runtime();
    let (m, _) = daemon_status(&rt, true);
    let (_, a) = m.step(LifecycleEvent::Healthy(true), 1);
    assert!(matches!(finish(a), LifecycleOutcome::Failed(m) if m == "unexpected daemon lifecycle event"));
    let (m, _) = daemon_status(&rt, true);
    let (_, a) = m.step(LifecycleEvent::Failed("failed to read state".to_string()), 1);
    assert!(matches!(finish(a), LifecycleOutcome::Failed(m) if m == "failed to read state"));
}

#[test]
fn rpc_error_answers_carry_code_message_and_next_action() {
    match session_not_found("codex", "s-1") {
        DaemonRpcResponse::Error { code, message, recommended_next_action } => {
            assert_eq!(code, "daemon.session_not_found");
            assert_eq!(message, "session 's-1' not found for agent 'codex'");
            assert_eq!(recommended_next_action, "use daemon session list to see active sessions");
        }
        _ => panic!("expected an error answer"),
    }
    match session_close_response(CloseOutcome::AgentNotFound, "codex", "s-1") {
        DaemonRpcResponse::Error { code, message, recommended_next_action } => {
            assert_eq!(code, "daemon.agent_not_found");
            assert_eq!(message, "no connection for agent 'codex'");
            assert_eq!(recommended_next_action, "use daemon session create first");
        }
        _ => panic!("expected an error answer"),
    }
    assert!(matches!(session_close_response(CloseOutcome::Closed, "codex", "s-1"),
        DaemonRpcResponse::SessionClose { agent, session_id } if agent == "codex" && session_id == "s-1"));
    assert!(matches!(agent_connect_failed("spawn failed".to_string()),
        DaemonRpcResponse::Error { code, .. } if code == "daemon.agent_connect_failed"));
}

#[test]
fn rpc_lines_must_be_utf8_and_not_blank() {
    assert!(matches!(decode_rpc_line(vec![0xff, 0xfe]), Err(RpcLineError::NotUtf8)));
    assert!(matches!(decode_rpc_line(b"  \t ".to_vec()), Err(RpcLineError::Empty)));
    assert!(matches!(decode_rpc_line(Vec::new()), Err(RpcLineError::Empty)));
    assert_eq!(decode_rpc_line(b"{\"type\":\"health\"}".to_vec()).ok().as_deref(), Some("{\"type\":\"health\"}"));
    assert_eq!(decode_rpc_line("h\u{e9}".as_bytes().to_vec()).ok().as_deref(), Some("h\u{e9}"));
    assert_eq!(rpc_line_message(&RpcLineError::NotUtf8), "daemon returned non-utf8 RPC data");
    assert_eq!(rpc_line_message(&RpcLineError::Empty), "daemon returned an empty RPC response");
}

#[test]
fn requests_need_a_running_daemon() {
    let rt = runtime();
    let stopped = materialize_status(&rt, default_state(&rt, true, 1), true, 2);
    assert_eq!(not_running_error(&stopped, true).as_deref(),
        Some("daemon is not running; start it first or pass --ensure-daemon"));
    assert_eq!(not_running_error(&stopped, false).as_deref(), Some("daemon is not running; start it first"));
    assert_eq!(not_running_error(&running_status(&rt), true), None);
    assert_eq!(unexpected_response("status", "{}"), "daemon returned unexpected RPC response for status: {}");
}

#[test]
fn routed_commands_need_a_running_daemon() {
    let rt = runtime();
    let running = running_status(&rt);
    assert!(daemon_gate("session list", Ok(&running), Format::Json).is_ok());
    let stopped = materialize_status(&rt, default_state(&rt, true, 1), true, 2);
    let e = daemon_gate("session list", Ok(&stopped), Format::Json).err().unwrap();
    assert_eq!(e.code, "daemon.execution_failed");
    assert_eq!(
        e.message,
        "the command 'session list' requires a running daemon; start it first or pass --ensure-daemon"
    );
    assert_eq!(e.source, "daemon_routing");
    assert_eq!(e.details[0].value, "retry with --ensure-daemon or run `acp-agent-cli daemon start`");
    let e = daemon_gate("session list", Err("socket refused".to_string()), Format::Yaml).err().unwrap();
    assert_eq!(e.message, "socket refused");
    assert_eq!(e.details[0].value, "run `acp-agent-cli daemon status` or retry with --ensure-daemon");
}

#[test]
fn invocation_checks_answer_structured_errors() {
    let e = run_input(None, Format::Json).err().unwrap();
    assert_eq!(e.code, "run.missing_input");
    assert_eq!(e.source, "leaf_validation");
    assert_eq!((e.details[0].key.as_str(), e.details[0].value.as_str()), ("command", "run"));
    assert_eq!(run_input(Some("hi".to_string()), Format::Json).ok().unwrap(), "hi");
    assert_eq!(run_agent(None, Some("goose".to_string()), Format::Json).ok().unwrap(), "goose");
    assert_eq!(run_agent(Some("codex".to_string()), Some("goose".to_string()), Format::Json).ok().unwrap(), "codex");
    let e = run_agent(None, None, Format::Toml).err().unwrap();
    assert_eq!(e.code, "run.missing_agent");
    assert_eq!(e.message, "no agent specified — use --agent <name> or set an active agent via context");
    assert_eq!(external_agent(None, Some("codex".to_string()), Format::Json).ok().unwrap(), "codex");
    assert_eq!(external_agent(Some("a".to_string()), Some("b".to_string()), Format::Json).ok().unwrap(), "a");
    let e = external_agent(None, None, Format::Json).err().unwrap();
    assert_eq!(e.code, "external.missing_agent");
    assert_eq!(e.source, "external_validation");
    let e = run_via_daemon_failed("boom".to_string(), Format::Json);
    assert_eq!((e.code.as_str(), e.message.as_str()), ("daemon.execution_failed", "boom"));
    let e = lifecycle_failed("start", "port in use", Format::Json);
    assert_eq!(e.code, "daemon.lifecycle_failed");
    assert_eq!(e.message, "daemon start failed: port in use");
    assert_eq!(e.details[0].value, "run `acp-agent-cli daemon status` or inspect state/daemon artifacts");
    let e = registry_failed("registry.search", "offline".to_string(), Format::Json);
    assert_eq!((e.code.as_str(), e.source.as_str(), e.message.as_str()), ("registry.search.failed", "registry.search", "offline"));
}

#[test]
fn context_use_needs_something_to_persist() {
    let mut given = InvocationContextOverrides {
        agent: None,
        workspace: None,
        session_id: None,
        selectors: Vec::new(),
        current_directory: None,
    };
    let e = check_context_use(&given, &None, false, Format::Json).err().unwrap();
    assert_eq!(e.code, "context.missing_values");
    assert_eq!(e.source, "runtime_state");
    assert!(check_context_use(&given, &None, true, Format::Json).is_ok());
    assert!(check_context_use(&given, &Some("work".to_string()), false, Format::Json).is_ok());
    given.session_id = Some("s".to_string());
    assert!(check_context_use(&given, &None, false, Format::Json).is_ok());
}
