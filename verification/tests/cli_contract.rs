use acp_agent_cli::cli::{plan_external, route_invocation, CommandSelector, Dispatch, ExecutionMode, ExternalStep};
use acp_agent_cli::context::{
    parse_selectors, resolve_effective_context, resolve_runtime_locations, update_active_context_state,
    InvocationContextOverrides, RuntimeLocations, RuntimeOverrides,
};
use acp_agent_cli::daemon::{default_state, materialize_status, running_state};
use acp_agent_cli::help::{plain_text_help, runtime_directory_help, structured_help, RUNTIME_SCOPE};
use acp_agent_cli::invocation::{accepted_daemon_envelope, completed_envelope, daemon_gate, external_agent, run_input};
use acp_agent_cli::output::{ContextEntry, Format};
use acp_agent_cli::plan::{
    Capabilities, CapabilityStatus, CliPlan, CommandsSection, DaemonAuth, DaemonContract, DaemonRpc,
    DaemonRuntimeArtifactsPlan, DaemonTransports, DesignInheritance, PlannedCommand, PlannedFlag, PlannedPositional,
    ReplContract,
};

fn s(v: &[&str]) -> Vec<String> {
    v.iter().map(|x| x.to_string()).collect()
}

fn assert_man_like_help(stdout: &str) {
    let required_sections = ["NAME", "SYNOPSIS", "DESCRIPTION", "OPTIONS", "FORMATS", "EXAMPLES", "EXIT CODES"];
    let lines: Vec<&str> = stdout.lines().collect();
    let mut next_line_index = 0;
    for section in required_sections {
        let relative_index = lines[next_line_index..]
            .iter()
            .position(|line| *line == section)
            .unwrap_or_else(|| panic!("missing help section {section:?}"));
        next_line_index += relative_index + 1;
    }
}

fn positional(name: &str, required: bool) -> PlannedPositional {
    PlannedPositional {
        name: name.to_string(),
        value_type: "string".to_string(),
        required,
        default: None,
        description: format!("the {name}"),
    }
}

fn flag(name: &str) -> PlannedFlag {
    PlannedFlag {
        name: name.to_string(),
        value_type: "bool".to_string(),
        required: false,
        default: None,
        values: Vec::new(),
        description: format!("the {name} flag"),
        repeatable: false,
    }
}

fn command(name: &str, kind: &str, positionals: Vec<PlannedPositional>, flags: Vec<PlannedFlag>, subcommands: Vec<PlannedCommand>) -> PlannedCommand {
    PlannedCommand {
        name: name.to_string(),
        kind: kind.to_string(),
        summary: format!("{name} summary"),
        positionals,
        flags,
        shared_flag_sets: Vec::new(),
        subcommands,
        supported_output_formats: None,
    }
}

fn leaf(name: &str) -> PlannedCommand {
    command(name, "leaf", Vec::new(), Vec::new(), Vec::new())
}

fn plan() -> CliPlan {
    CliPlan {
        design_inheritance: DesignInheritance { purpose_summary: "Drive ACP agents".to_string() },
        capabilities: Capabilities {
            stream: CapabilityStatus { status: "in_scope".to_string() },
            repl: CapabilityStatus { status: "in_scope".to_string() },
            daemon: CapabilityStatus { status: "in_scope".to_string() },
        },
        shared_flag_sets: Vec::new(),
        daemon_contract: DaemonContract {
            local_only_command_paths: s(&["help", "paths", "context", "daemon"]),
            daemonizable_command_paths: s(&["run", "session create", "session list"]),
            mode: "app_server".to_string(),
            instance_model: "single_instance".to_string(),
            transports: DaemonTransports {
                local_default: "unix_socket_or_named_pipe".to_string(),
                tcp: "loopback_opt_in".to_string(),
            },
            auth: DaemonAuth { local_ipc: "os_permissions".to_string(), tcp: "token_required".to_string() },
            rpc: DaemonRpc { protocol: "jsonl".to_string(), methods: s(&["health", "status", "shutdown"]) },
            runtime_artifacts: DaemonRuntimeArtifactsPlan {
                directory: "state/daemon".to_string(),
                files: s(&[
                    "daemon.pid",
                    "daemon.sock_or_pipe_metadata",
                    "daemon-state.json",
                    "daemon.log",
                    "daemon.lock",
                    "auth.token_when_tcp_enabled",
                ]),
            },
        },
        commands: CommandsSection {
            top_level: vec![
                command("run", "leaf", vec![positional("input", true)], vec![flag("--log-enabled")], Vec::new()),
                command("paths", "leaf", Vec::new(), vec![flag("--log-enabled")], Vec::new()),
                command("context", "group", Vec::new(), Vec::new(), vec![leaf("show"), leaf("use")]),
                command("agent", "group", Vec::new(), Vec::new(), vec![leaf("status")]),
                command(
                    "session",
                    "group",
                    Vec::new(),
                    Vec::new(),
                    vec![command("create", "leaf", vec![positional("workspace", false)], Vec::new(), Vec::new()), leaf("list")],
                ),
                leaf("repl"),
                command(
                    "daemon",
                    "group",
                    Vec::new(),
                    Vec::new(),
                    vec![leaf("run"), leaf("start"), leaf("stop"), leaf("restart"), leaf("status")],
                ),
            ],
        },
        repl_contract: Some(ReplContract {
            model: "local_session_console".to_string(),
            requires_active_session: true,
            session_resolution: "explicit --session or the Active Context".to_string(),
            default_input_behavior: "plain text is sent as a prompt".to_string(),
            slash_commands: s(&["/help", "/exit"]),
            help_channel: "plain_text".to_string(),
            exit_triggers: s(&["/exit", "ctrl-d"]),
            note: "local console".to_string(),
        }),
    }
}

fn sandbox() -> RuntimeOverrides {
    RuntimeOverrides {
        config_dir: Some("/tmp/sandbox/config".to_string()),
        data_dir: Some("/tmp/sandbox/data".to_string()),
        state_dir: Some("/tmp/sandbox/state".to_string()),
        cache_dir: Some("/tmp/sandbox/cache".to_string()),
        log_dir: None,
    }
}

fn runtime() -> RuntimeLocations {
    resolve_runtime_locations(&sandbox(), "/home/user", false)
}

fn value<'a>(entries: &'a [ContextEntry], key: &str) -> Option<&'a str> {
    entries.iter().find(|e| e.key == key).map(|e| e.value.as_str())
}

fn no_overrides() -> InvocationContextOverrides {
    InvocationContextOverrides { agent: None, workspace: None, session_id: None, selectors: Vec::new(), current_directory: None }
}

#[test]
fn test_acp_agent_cli_top_level_auto_help_exits_zero() {
    let p = plan();
    let path = match route_invocation(&p, &None, false, ExecutionMode::Local, false, Format::Yaml) {
        Ok(Dispatch::Help(path)) => path,
        _ => panic!("a bare invocation shows the top-level help"),
    };
    let stdout = plain_text_help(&p, &path).unwrap();
    assert_man_like_help(&stdout);
    assert!(stdout.contains("Available subcommands"));
    assert!(stdout.contains("--version"));
    assert!(stdout.contains("run"));
    assert!(stdout.contains("daemon"));
}

#[test]
fn test_acp_agent_cli_non_leaf_auto_help_exits_zero() {
    let p = plan();
    let stdout = plain_text_help(&p, &s(&["context"])).unwrap();
    assert_man_like_help(&stdout);
    assert!(stdout.contains("Available subcommands"));
    assert!(stdout.contains("show"));
    assert!(stdout.contains("use"));
}

#[test]
fn test_acp_agent_cli_help_flag_stays_human_readable_even_with_json_format() {
    let p = plan();
    let path = match route_invocation(&p, &Some(CommandSelector::Run), true, ExecutionMode::Local, false, Format::Json) {
        Ok(Dispatch::Help(path)) => path,
        _ => panic!("--help shows human-readable help"),
    };
    let stdout = plain_text_help(&p, &path).unwrap();
    assert_man_like_help(&stdout);
    assert!(!stdout.trim_start().starts_with('{'));
}

#[test]
fn test_acp_agent_cli_structured_help_yaml() {
    let doc = structured_help(&plan(), &s(&["run"])).unwrap();
    assert_eq!(doc.command_path[0], "run");
    assert_eq!(doc.runtime_directories.scope, "user_scoped_default");
    assert_eq!(doc.active_context.inspection_command, "acp-agent-cli context show");
}

#[test]
fn test_acp_agent_cli_structured_help_json() {
    let doc = structured_help(&plan(), &s(&["context", "use"])).unwrap();
    assert_eq!(doc.command_path[0], "context");
    assert_eq!(doc.command_path[1], "use");
}

#[test]
fn test_acp_agent_cli_structured_help_toml() {
    let doc = structured_help(&plan(), &s(&["paths"])).unwrap();
    assert_eq!(doc.command_path.first().map(|p| p.as_str()), Some("paths"));
}

#[test]
fn test_acp_agent_cli_missing_leaf_input_returns_structured_yaml_error() {
    let e = run_input(None, Format::Yaml).err().unwrap();
    assert_eq!(e.code, "run.missing_input");
    assert!(e.message.contains("requires <INPUT>"));
    assert_eq!(e.format, Format::Yaml);
    assert!(!e.message.contains("NAME\n"));
}

#[test]
fn test_acp_agent_cli_missing_leaf_input_returns_structured_json_error() {
    let e = run_input(None, Format::Json).err().unwrap();
    assert_eq!(e.code, "run.missing_input");
    assert!(e.message.contains("requires <INPUT>"));
    assert_eq!(e.format, Format::Json);
    assert!(!e.message.contains("NAME\n"));
}

#[test]
fn test_acp_agent_cli_paths_reports_user_scoped_defaults() {
    let none = RuntimeOverrides { config_dir: None, data_dir: None, state_dir: None, cache_dir: None, log_dir: None };
    let r = resolve_runtime_locations(&none, "/home/user", false);
    assert_eq!(RUNTIME_SCOPE, "user_scoped_default");
    assert_eq!(runtime_directory_help().scope, "user_scoped_default");
    assert!(!r.config_dir.is_empty());
}

#[test]
fn test_acp_agent_cli_context_use_and_show_round_trip() {
    let selectors = parse_selectors(&s(&["workspace=demo", "provider=staging"])).ok().unwrap();
    let persisted = update_active_context_state(None, false, None, None, None, None, selectors, None);
    assert_eq!(value(&persisted.selectors, "workspace"), Some("demo"));
    let effective = resolve_effective_context(Some(&persisted), &no_overrides());
    assert_eq!(value(&effective, "provider"), Some("staging"));
}

#[test]
fn test_acp_agent_cli_explicit_run_override_does_not_mutate_persisted_context() {
    let selectors = parse_selectors(&s(&["workspace=demo", "provider=staging"])).ok().unwrap();
    let persisted = update_active_context_state(None, false, None, None, None, None, selectors, None);
    let mut run = no_overrides();
    run.agent = Some("/tmp/mock-agent".to_string());
    run.selectors = parse_selectors(&s(&["provider=preview"])).ok().unwrap();
    let effective = resolve_effective_context(Some(&persisted), &run);
    assert_eq!(value(&effective, "provider"), Some("preview"));
    let shown = resolve_effective_context(Some(&persisted), &no_overrides());
    assert_eq!(value(&shown, "provider"), Some("staging"));
}

#[test]
fn test_acp_agent_cli_help_daemon_json() {
    let doc = structured_help(&plan(), &s(&["daemon"])).unwrap();
    assert_eq!(doc.command_path[0], "daemon");
    let daemon = doc.daemon_contract.unwrap();
    assert_eq!(daemon.mode, "app_server");
    assert_eq!(daemon.runtime_artifact_files.last().map(|f| f.as_str()), Some("auth.token_when_tcp_enabled"));
}

#[test]
fn test_acp_agent_cli_structured_help_for_planned_command_path() {
    let doc = structured_help(&plan(), &s(&["agent", "status"])).unwrap();
    assert_eq!(doc.command_path[0], "agent");
    assert_eq!(doc.command_path[1], "status");
}

#[test]
fn test_acp_agent_cli_planned_command_accepts_global_format_after_path() {
    let p = plan();
    let call = match plan_external(&p, ExecutionMode::Local, &s(&["agent", "status", "--format", "json"]), Format::Json) {
        Ok(ExternalStep::Execute(call)) => call,
        _ => panic!("the command is planned"),
    };
    let e = external_agent(call.globals.agent.clone(), None, Format::Json).err().unwrap();
    assert_eq!(e.code, "external.missing_agent");
}

#[test]
fn test_acp_agent_cli_repl_help_is_plain_text() {
    let stdout = plain_text_help(&plan(), &s(&["repl"])).unwrap();
    assert_man_like_help(&stdout);
    assert!(stdout.contains("REPL model"));
}

#[test]
fn test_acp_agent_cli_daemonizable_external_command_requires_running_daemon() {
    let p = plan();
    let call = match plan_external(
        &p,
        ExecutionMode::Daemon,
        &s(&["session", "create", "/tmp/demo", "--format", "json"]),
        Format::Json,
    ) {
        Ok(ExternalStep::Execute(call)) => call,
        _ => panic!("the command is planned"),
    };
    assert!(call.daemonizable);
    let rt = runtime();
    let stopped = materialize_status(&rt, default_state(&rt, true, 1), true, 2);
    let e = daemon_gate(&call.path.join(" "), Ok(&stopped), Format::Json).err().unwrap();
    assert_eq!(e.code, "daemon.execution_failed");
}

#[test]
fn test_acp_agent_cli_daemonizable_external_command_supports_ensure_daemon() {
    let p = plan();
    let call = match plan_external(
        &p,
        ExecutionMode::Daemon,
        &s(&["session", "create", "/tmp/demo", "--format", "json"]),
        Format::Json,
    ) {
        Ok(ExternalStep::Execute(call)) => call,
        _ => panic!("the command is planned"),
    };
    let rt = runtime();
    let running = materialize_status(&rt, running_state("/sock".to_string(), "unix_socket_or_named_pipe", 7, 10), true, 20);
    assert!(daemon_gate(&call.path.join(" "), Ok(&running), Format::Json).is_ok());
    let envelope = accepted_daemon_envelope(&call.path, &call.command.summary, Vec::new());
    assert_eq!(envelope.command, "session create");
    assert_eq!(envelope.routing, "daemon");
    assert_eq!(envelope.status, "accepted_daemon");
    assert_eq!(envelope.summary, "create summary");
    assert_eq!(envelope.next_steps, vec!["Daemon-mode ACP dispatch will be available in a follow-up release."]);
    assert!(envelope.errors.is_empty());
}

#[test]
fn test_acp_agent_cli_ensure_daemon_requires_via_daemon() {
    let e = route_invocation(&plan(), &Some(CommandSelector::Run), false, ExecutionMode::Local, true, Format::Json)
        .err()
        .unwrap();
    assert_eq!(e.code, "daemon.ensure_requires_via_daemon");
}

#[test]
fn run_honors_explicit_agent_workspace_and_session_overrides() {
    let selectors = parse_selectors(&s(&["provider=staging"])).ok().unwrap();
    let persisted = update_active_context_state(
        None,
        false,
        None,
        Some("persisted-agent".to_string()),
        Some("/tmp/t/persisted-workspace".to_string()),
        Some("persisted-session".to_string()),
        selectors,
        Some("/tmp/t/persisted-cwd".to_string()),
    );
    let mut run = no_overrides();
    run.agent = Some("/tmp/t/mock-agent".to_string());
    run.workspace = Some("/tmp/t/override-workspace".to_string());
    run.session_id = Some("override-session".to_string());
    let effective = resolve_effective_context(Some(&persisted), &run);
    assert_eq!(value(&effective, "agent"), Some("/tmp/t/mock-agent"));
    assert_eq!(value(&effective, "workspace"), Some("/tmp/t/override-workspace"));
    assert_eq!(value(&effective, "session_id"), Some("override-session"));
    assert_eq!(value(&effective, "provider"), Some("staging"));
    assert_eq!(value(&effective, "current_directory"), Some("/tmp/t/persisted-cwd"));
    assert_eq!(persisted.agent.as_deref(), Some("persisted-agent"));
    assert_eq!(persisted.workspace.as_deref(), Some("/tmp/t/persisted-workspace"));
    assert_eq!(persisted.session_id.as_deref(), Some("persisted-session"));
}

#[test]
fn external_commands_honor_explicit_agent_workspace_and_session_overrides() {
    let p = plan();
    let selectors = parse_selectors(&s(&["provider=staging"])).ok().unwrap();
    let persisted = update_active_context_state(
        None,
        false,
        None,
        Some("persisted-agent".to_string()),
        Some("/tmp/t/persisted-workspace".to_string()),
        Some("persisted-session".to_string()),
        selectors,
        None,
    );
    let tokens = s(&[
        "session",
        "list",
        "--agent",
        "override-agent",
        "--workspace",
        "/tmp/t/override-workspace",
        "--session",
        "override-session",
        "--selector",
        "provider=staging",
        "--format",
        "json",
    ]);
    let call = match plan_external(&p, ExecutionMode::Daemon, &tokens, Format::Json) {
        Ok(ExternalStep::Execute(call)) => call,
        _ => panic!("the command is planned"),
    };
    let o = InvocationContextOverrides {
        agent: call.globals.agent.clone(),
        workspace: call.globals.workspace.clone(),
        session_id: call.globals.session.clone(),
        selectors: parse_selectors(&call.globals.selectors).ok().unwrap(),
        current_directory: None,
    };
    let effective = resolve_effective_context(Some(&persisted), &o);
    assert_eq!(value(&effective, "agent"), Some("override-agent"));
    assert_eq!(value(&effective, "workspace"), Some("/tmp/t/override-workspace"));
    assert_eq!(value(&effective, "session_id"), Some("override-session"));
    assert_eq!(value(&effective, "provider"), Some("staging"));
}

#[test]
fn context_use_preserves_existing_values_until_clear_is_requested() {
    let selectors = parse_selectors(&s(&["provider=staging"])).ok().unwrap();
    let first = update_active_context_state(
        None,
        false,
        None,
        Some("persisted-agent".to_string()),
        Some("/tmp/t/workspace-a".to_string()),
        None,
        selectors,
        Some("/tmp/t/cwd-a".to_string()),
    );
    let second =
        update_active_context_state(Some(&first), false, None, None, None, Some("next-session".to_string()), Vec::new(), None);
    assert_eq!(second.agent.as_deref(), Some("persisted-agent"));
    assert_eq!(second.workspace.as_deref(), Some("/tmp/t/workspace-a"));
    assert_eq!(second.session_id.as_deref(), Some("next-session"));
    assert_eq!(value(&second.selectors, "provider"), Some("staging"));
    assert_eq!(second.current_directory.as_deref(), Some("/tmp/t/cwd-a"));
    let cleared = update_active_context_state(
        Some(&second),
        true,
        None,
        None,
        None,
        Some("cleared-session".to_string()),
        Vec::new(),
        None,
    );
    assert_eq!(cleared.session_id.as_deref(), Some("cleared-session"));
    assert!(cleared.agent.is_none());
    assert!(cleared.workspace.is_none());
    assert!(cleared.selectors.is_empty());
    assert!(cleared.current_directory.is_none());
}

#[test]
fn fixed_arity_planned_commands_reject_unexpected_extra_positionals() {
    let p = plan();
    let e = match plan_external(&p, ExecutionMode::Local, &s(&["agent", "status", "unexpected", "--format", "json"]), Format::Json) {
        Err(e) => e,
        Ok(_) => panic!("expected a structured error"),
    };
    assert_eq!(e.code, "command.unexpected_input");
    assert_eq!(e.source, "help_usage");
    assert!(e.message.contains("unexpected positional input `unexpected`"));
}

#[test]
fn planned_commands_run_locally_answer_a_stable_envelope() {
    let p = plan();
    let call = match plan_external(&p, ExecutionMode::Local, &s(&["agent", "status", "--format", "json"]), Format::Json) {
        Ok(ExternalStep::Execute(call)) => call,
        _ => panic!("the command is planned"),
    };
    let context = vec![ContextEntry { key: "provider".to_string(), value: "staging".to_string() }];
    let envelope = completed_envelope(&call.path, &call.command.summary, context);
    assert_eq!(envelope.command, "agent status");
    assert_eq!(envelope.status, "ok");
    assert_eq!(envelope.summary, "status summary");
    assert_eq!(envelope.routing, "local");
    assert_eq!(value(&envelope.context, "provider"), Some("staging"));
    assert!(envelope.next_steps.is_empty());
    assert!(envelope.errors.is_empty());
}
