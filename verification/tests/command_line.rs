use acp_agent_cli::args::{find_key, push_entry_item, set_entry, ArgEntry, ArgValue};
use acp_agent_cli::cli::{
    acp_request_params, command_path_to_acp_method, detect_requested_format, external_help_path,
    help_path_for_cli, local_only_command_name, parse_external_invocation, parse_format_token, plan_external,
    route_invocation, strip_external_global_flags, version_if_not_latest, CommandSelector, ContextAction,
    DaemonAction, Dispatch, ExecutionMode, ExternalStep,
};
use acp_agent_cli::help::{plain_help_or_error, structured_help_or_error, unknown_help_path, argument_description, command_usage, flag_value_name, positional_token, generic_exit_behavior, plain_text_help, structured_help};
use acp_agent_cli::output::Format;
use acp_agent_cli::plan::{
    find_command, is_daemonizable, is_local_only, match_command_tokens, planned_output_formats, shared_flags,
    value_to_string, Capabilities, CapabilityStatus, CliPlan, CommandsSection, DaemonAuth, DaemonContract,
    DaemonRpc, DaemonRuntimeArtifactsPlan, DaemonTransports, DesignInheritance, NamedFlagSet, PlanScalar, PlanValue,
    PlannedCommand, PlannedFlag, PlannedPositional, SharedFlagSet, SupportedFormats,
};

fn s(v: &[&str]) -> Vec<String> {
    v.iter().map(|x| x.to_string()).collect()
}

fn flag(name: &str, value_type: &str, required: bool, repeatable: bool) -> PlannedFlag {
    PlannedFlag {
        name: name.to_string(),
        value_type: value_type.to_string(),
        required,
        default: None,
        values: Vec::new(),
        description: format!("the {name} flag"),
        repeatable,
    }
}

fn positional(name: &str, value_type: &str, required: bool) -> PlannedPositional {
    PlannedPositional {
        name: name.to_string(),
        value_type: value_type.to_string(),
        required,
        default: None,
        description: format!("the {name} input"),
    }
}

fn leaf(name: &str, positionals: Vec<PlannedPositional>, flags: Vec<PlannedFlag>, shared: &[&str]) -> PlannedCommand {
    PlannedCommand {
        name: name.to_string(),
        kind: "leaf".to_string(),
        summary: format!("{name} things"),
        positionals,
        flags,
        shared_flag_sets: s(shared),
        subcommands: Vec::new(),
        supported_output_formats: None,
    }
}

fn group(name: &str, subcommands: Vec<PlannedCommand>) -> PlannedCommand {
    PlannedCommand {
        name: name.to_string(),
        kind: "group".to_string(),
        summary: format!("{name} group"),
        positionals: Vec::new(),
        flags: Vec::new(),
        shared_flag_sets: Vec::new(),
        subcommands,
        supported_output_formats: None,
    }
}

fn plan() -> CliPlan {
    CliPlan {
        design_inheritance: DesignInheritance { purpose_summary: "Drive ACP agents".to_string() },
        capabilities: Capabilities {
            stream: CapabilityStatus { status: "in_scope".to_string() },
            repl: CapabilityStatus { status: "in_scope".to_string() },
            daemon: CapabilityStatus { status: "in_scope".to_string() },
        },
        shared_flag_sets: vec![NamedFlagSet {
            name: "paging".to_string(),
            set: SharedFlagSet { description: "paging".to_string(), flags: vec![flag("--limit", "string", false, false)] },
        }],
        daemon_contract: DaemonContract {
            local_only_command_paths: s(&["agent status"]),
            daemonizable_command_paths: s(&["session list", "session prompt"]),
            mode: "app_server".to_string(),
            instance_model: "single".to_string(),
            transports: DaemonTransports { local_default: "unix".to_string(), tcp: "opt_in".to_string() },
            auth: DaemonAuth { local_ipc: "os".to_string(), tcp: "token".to_string() },
            rpc: DaemonRpc { protocol: "jsonl".to_string(), methods: s(&["health"]) },
            runtime_artifacts: DaemonRuntimeArtifactsPlan { directory: "state/daemon".to_string(), files: s(&["daemon.pid"]) },
        },
        commands: CommandsSection {
            top_level: vec![
                group("agent", vec![leaf("status", Vec::new(), Vec::new(), &[])]),
                group(
                    "session",
                    vec![
                        leaf("list", Vec::new(), vec![flag("--all", "bool", false, false)], &["paging"]),
                        leaf(
                            "prompt",
                            vec![positional("text", "string_list", true)],
                            vec![flag("--tag", "string", false, true), flag("--mode", "string", true, false)],
                            &[],
                        ),
                        leaf("set-config-option", vec![positional("key", "string", true)], Vec::new(), &[]),
                    ],
                ),
            ],
        },
        repl_contract: None,
    }
}

#[test]
fn requested_format_is_found_before_parsing() {
    assert_eq!(detect_requested_format(&s(&["acp", "x", "--format", "json"])), Format::Json);
    assert_eq!(detect_requested_format(&s(&["acp", "-f", "toml", "--format=json"])), Format::Toml);
    assert_eq!(detect_requested_format(&s(&["acp", "--format=json"])), Format::Json);
    assert_eq!(detect_requested_format(&s(&["acp", "--format=xml"])), Format::Yaml);
    assert_eq!(detect_requested_format(&s(&["acp", "--format"])), Format::Yaml);
    assert_eq!(detect_requested_format(&s(&["acp"])), Format::Yaml);
    assert_eq!(parse_format_token("toml"), Some(Format::Toml));
    assert_eq!(parse_format_token("TOML"), None);
}

#[test]
fn latest_means_no_version() {
    assert_eq!(version_if_not_latest("latest"), None);
    assert_eq!(version_if_not_latest("1.2.0"), Some("1.2.0"));
}

#[test]
fn command_paths_map_to_camel_case_methods() {
    assert_eq!(command_path_to_acp_method(&s(&["session", "set-config-option"])), "session/setConfigOption");
    assert_eq!(command_path_to_acp_method(&s(&["agent", "status"])), "agent/status");
    assert_eq!(command_path_to_acp_method(&s(&["a--b-"])), "aB");
    assert_eq!(command_path_to_acp_method(&[]), "");
}

#[test]
fn global_flags_are_taken_out_of_planned_commands() {
    let g = strip_external_global_flags(
        &s(&["session", "list", "--agent", "codex", "--workspace=/w", "--format", "json", "--selector", "a=b", "--all", "-h"]),
        Format::Json,
    )
    .ok()
    .unwrap();
    assert_eq!(g.command_tokens, s(&["session", "list", "--all"]));
    assert_eq!(g.agent.as_deref(), Some("codex"));
    assert_eq!(g.workspace.as_deref(), Some("/w"));
    assert_eq!(g.selectors, s(&["a=b"]));
    assert!(g.trailing_help);
    let e = strip_external_global_flags(&s(&["session", "list", "--session"]), Format::Yaml).err().unwrap();
    assert_eq!(e.code, "usage.parse_error");
    assert_eq!(e.message, "flag `--session` requires a value");
    assert_eq!(e.source, "help_usage");
}

#[test]
fn commands_are_found_by_one_or_two_tokens() {
    let p = plan();
    let found = find_command(&p, &s(&["session", "prompt"])).unwrap();
    assert_eq!(found.command.name, "prompt");
    assert!(find_command(&p, &s(&["session", "nope"])).is_none());
    let (r, rest) = match_command_tokens(&p, &s(&["session", "prompt", "hi", "there"])).unwrap();
    assert_eq!(r.path, s(&["session", "prompt"]));
    assert_eq!(rest, s(&["hi", "there"]));
    let (r, rest) = match_command_tokens(&p, &s(&["agent", "bogus"])).unwrap();
    assert_eq!(r.path, s(&["agent"]));
    assert_eq!(rest, s(&["bogus"]));
    assert!(match_command_tokens(&p, &[]).is_none());
    assert_eq!(external_help_path(&p, &s(&["session", "list", "x"])), s(&["session", "list"]));
    assert_eq!(external_help_path(&p, &s(&["zzz", "yyy", "xxx"])), s(&["zzz", "yyy"]));
}

#[test]
fn routing_lists_and_shared_flags_come_from_the_plan() {
    let p = plan();
    assert!(is_local_only(&p, &s(&["agent", "status"])));
    assert!(!is_local_only(&p, &s(&["session", "list"])));
    assert!(is_daemonizable(&p, &s(&["session", "prompt"])));
    assert!(!is_daemonizable(&p, &s(&["agent", "status"])));
    let flags = shared_flags(&p, &s(&["paging", "missing"]));
    assert_eq!(flags.len(), 1);
    assert_eq!(flags[0].name, "--limit");
}

#[test]
fn output_formats_and_default_values_are_rendered() {
    let mut c = leaf("x", Vec::new(), Vec::new(), &[]);
    assert_eq!(planned_output_formats(&c), s(&["yaml", "json", "toml"]));
    c.supported_output_formats = Some(SupportedFormats::Text("inherited_global_format".to_string()));
    assert_eq!(planned_output_formats(&c), s(&["yaml", "json", "toml"]));
    c.supported_output_formats = Some(SupportedFormats::Text("json".to_string()));
    assert_eq!(planned_output_formats(&c), s(&["json"]));
    c.supported_output_formats = Some(SupportedFormats::List(s(&["yaml"])));
    assert_eq!(planned_output_formats(&c), s(&["yaml"]));
    assert_eq!(value_to_string(&None, "none"), "none");
    assert_eq!(value_to_string(&Some(PlanValue::Bool(true)), "-"), "true");
    assert_eq!(value_to_string(&Some(PlanValue::Number("42".to_string())), "-"), "42");
    assert_eq!(
        value_to_string(
            &Some(PlanValue::Sequence(vec![
                PlanScalar::Str("a".to_string()),
                PlanScalar::Rendered(Some("1\n".to_string())),
                PlanScalar::Rendered(None),
            ])),
            " fb "
        ),
        "a, 1, fb"
    );
    assert_eq!(value_to_string(&Some(PlanValue::Rendered(Some("x: 1\n".to_string()))), "-"), "x: 1");
}

#[test]
fn planned_invocations_are_parsed_against_the_plan() {
    let p = plan();
    let prompt = find_command(&p, &s(&["session", "prompt"])).unwrap().command;
    let parsed = parse_external_invocation(
        &p,
        prompt,
        "session prompt",
        &s(&["hello", "--tag", "a", "world", "--mode", "fast", "--tag", "b"]),
        Format::Json,
    )
    .ok()
    .unwrap();
    let k = find_key(&parsed.positionals, "text").unwrap();
    assert!(matches!(&parsed.positionals[k].value, ArgValue::List(v) if *v == s(&["hello", "world"])));
    let k = find_key(&parsed.flags, "--tag").unwrap();
    assert!(matches!(&parsed.flags[k].value, ArgValue::List(v) if *v == s(&["a", "b"])));
    let k = find_key(&parsed.flags, "--mode").unwrap();
    assert!(matches!(&parsed.flags[k].value, ArgValue::Text(v) if v == "fast"));
}

#[test]
fn planned_invocation_errors_name_the_problem() {
    let p = plan();
    let prompt = find_command(&p, &s(&["session", "prompt"])).unwrap().command;
    let e = parse_external_invocation(&p, prompt, "session prompt", &s(&["--bogus"]), Format::Yaml).err().unwrap();
    assert_eq!(e.code, "command.unknown_flag");
    assert_eq!(e.message, "unknown flag `--bogus` for command `session prompt`");
    let e = parse_external_invocation(&p, prompt, "session prompt", &s(&["x", "--mode"]), Format::Yaml).err().unwrap();
    assert_eq!(e.code, "command.missing_flag_value");
    assert_eq!(e.message, "flag `--mode` requires a value");
    let e = parse_external_invocation(&p, prompt, "session prompt", &s(&["x"]), Format::Yaml).err().unwrap();
    assert_eq!(e.code, "command.missing_required_flag");
    assert_eq!(e.message, "missing required flag `--mode` for command `session prompt`");
    let e = parse_external_invocation(&p, prompt, "session prompt", &s(&["--mode", "m"]), Format::Yaml).err().unwrap();
    assert_eq!(e.code, "command.missing_required_input");
    assert_eq!(e.message, "missing required positional `text` for command `session prompt`");
    let status = find_command(&p, &s(&["agent", "status"])).unwrap().command;
    let e = parse_external_invocation(&p, status, "agent status", &s(&["unexpected"]), Format::Json).err().unwrap();
    assert_eq!(e.code, "command.unexpected_input");
    assert_eq!(e.source, "help_usage");
    assert_eq!(e.message, "unexpected positional input `unexpected` for command `agent status`");
}

#[test]
fn invocations_are_routed() {
    let p = plan();
    let e = route_invocation(&p, &Some(CommandSelector::Run), false, ExecutionMode::Local, true, Format::Json)
        .err()
        .unwrap();
    assert_eq!(e.code, "daemon.ensure_requires_via_daemon");
    assert_eq!(e.details[0].value, "retry with --via daemon or remove --ensure-daemon");
    let e = route_invocation(&p, &Some(CommandSelector::Paths), false, ExecutionMode::Daemon, false, Format::Json)
        .err()
        .unwrap();
    assert_eq!(e.code, "daemon.local_only_command");
    assert_eq!(e.message, "the command 'paths' must run locally; daemon routing is unavailable");
    assert!(matches!(
        route_invocation(&p, &Some(CommandSelector::Run), false, ExecutionMode::Daemon, true, Format::Json),
        Ok(Dispatch::Execute)
    ));
    assert!(matches!(route_invocation(&p, &None, false, ExecutionMode::Local, false, Format::Yaml),
        Ok(Dispatch::Help(path)) if path.is_empty()));
    assert!(matches!(
        route_invocation(&p, &Some(CommandSelector::Context(Some(ContextAction::Use))), true, ExecutionMode::Local, false, Format::Yaml),
        Ok(Dispatch::Help(path)) if path == s(&["context", "use"])
    ));
    assert_eq!(local_only_command_name(&Some(CommandSelector::Daemon(Some(DaemonAction::Start)))), "daemon");
    assert_eq!(help_path_for_cli(&p, &Some(CommandSelector::Daemon(Some(DaemonAction::Status)))), s(&["daemon", "status"]));
}

#[test]
fn planned_commands_are_planned_before_running() {
    let p = plan();
    match plan_external(&p, ExecutionMode::Local, &s(&["session", "list", "--all", "--format", "json"]), Format::Json) {
        Ok(ExternalStep::Execute(call)) => {
            assert_eq!(call.path, s(&["session", "list"]));
            assert_eq!(call.method, "session/list");
            assert!(call.daemonizable);
            let params = acp_request_params("s-1", Some("/w"), &call.parsed);
            assert_eq!(params[0].key, "sessionId");
            assert_eq!(params[1].key, "workspace");
            assert_eq!(params[2].key, "--all");
        }
        _ => panic!("expected a planned call"),
    }
    assert!(matches!(plan_external(&p, ExecutionMode::Local, &s(&["session"]), Format::Json),
        Ok(ExternalStep::Help(path)) if path == s(&["session"])));
    let e = plan_external(&p, ExecutionMode::Local, &s(&["nope", "x"]), Format::Json).err().unwrap();
    assert_eq!(e.code, "command.unknown_path");
    assert_eq!(e.message, "unknown command path 'nope x'");
    let e = plan_external(&p, ExecutionMode::Daemon, &s(&["agent", "status"]), Format::Json).err().unwrap();
    assert_eq!(e.code, "daemon.local_only_command");
    assert_eq!(e.message, "the command 'agent status' must run locally; daemon routing is unavailable");
}

#[test]
fn argument_maps_replace_and_extend_values() {
    let mut m: Vec<ArgEntry> = Vec::new();
    set_entry(&mut m, "a".to_string(), ArgValue::Text("1".to_string()));
    set_entry(&mut m, "b".to_string(), ArgValue::Bool(true));
    set_entry(&mut m, "a".to_string(), ArgValue::Text("2".to_string()));
    assert_eq!(m.len(), 2);
    assert!(matches!(&m[0].value, ArgValue::Text(v) if v == "2"));
    push_entry_item(&mut m, "c".to_string(), "x".to_string());
    push_entry_item(&mut m, "c".to_string(), "y".to_string());
    push_entry_item(&mut m, "b".to_string(), "ignored".to_string());
    assert!(matches!(&m[2].value, ArgValue::List(v) if *v == s(&["x", "y"])));
    assert!(matches!(&m[1].value, ArgValue::Bool(true)));
    assert_eq!(find_key(&m, "zz"), None);
}

#[test]
fn usage_lines_follow_the_command_shape() {
    let p = plan();
    let prompt = find_command(&p, &s(&["session", "prompt"])).unwrap().command;
    assert_eq!(command_usage(&s(&["session", "prompt"]), prompt), "acp-agent-cli session prompt [OPTIONS] <TEXT...>");
    let list = find_command(&p, &s(&["session", "list"])).unwrap().command;
    assert_eq!(command_usage(&s(&["session", "list"]), list), "acp-agent-cli session list [OPTIONS]");
    let key = find_command(&p, &s(&["session", "set-config-option"])).unwrap().command;
    assert_eq!(command_usage(&s(&["session", "set-config-option"]), key), "acp-agent-cli session set-config-option <KEY>");
    let session = find_command(&p, &s(&["session"])).unwrap().command;
    assert_eq!(command_usage(&s(&["session"]), session), "acp-agent-cli session <COMMAND>");
    let mut optional = leaf("x", vec![positional("file", "path", false)], Vec::new(), &[]);
    assert_eq!(command_usage(&s(&["x"]), &optional), "acp-agent-cli x [<FILE>]");
    optional.positionals[0].value_type = "string_list".to_string();
    assert_eq!(command_usage(&s(&["x"]), &optional), "acp-agent-cli x [<FILE...>]");
}

#[test]
fn exit_codes_depend_on_the_command_kind() {
    let g = generic_exit_behavior("group");
    assert_eq!(g.len(), 2);
    assert_eq!((g[0].code, g[0].meaning.as_str()), (0, "Help was displayed or a subcommand succeeded"));
    assert_eq!((g[1].code, g[1].meaning.as_str()), (2, "Structured usage error"));
    let l = generic_exit_behavior("leaf");
    assert_eq!((l[0].code, l[0].meaning.as_str()), (0, "The command completed successfully"));
    assert_eq!((l[1].code, l[1].meaning.as_str()), (2, "Structured validation or runtime error"));
}

#[test]
fn flag_value_names_follow_the_value_type() {
    assert_eq!(flag_value_name(&flag("--all", "bool", false, false)), "-");
    assert_eq!(flag_value_name(&flag("--dir", "path", false, false)), "PATH");
    assert_eq!(flag_value_name(&flag("--n", "int", false, false)), "INT");
    assert_eq!(flag_value_name(&flag("--s", "string", false, false)), "VALUE");
    assert_eq!(flag_value_name(&flag("--e", "enum", false, false)), "VALUE");
    let mut e = flag("--e", "enum", false, false);
    e.values = s(&["a", "b"]);
    assert_eq!(flag_value_name(&e), "a|b");
}

#[test]
fn structured_help_describes_a_planned_leaf() {
    let p = plan();
    let doc = structured_help(&p, &s(&["session", "prompt"])).unwrap();
    assert_eq!(doc.command_path, s(&["session", "prompt"]));
    assert_eq!(doc.purpose, "prompt things");
    assert_eq!(doc.usage, "acp-agent-cli session prompt [OPTIONS] <TEXT...>");
    assert_eq!(doc.arguments, s(&["TEXT: the text input"]));
    assert_eq!(doc.options.len(), 2);
    assert_eq!(doc.options[0].name, "--tag");
    assert_eq!(doc.options[0].value_name, "VALUE");
    assert_eq!(doc.options[0].default_value, "none");
    assert_eq!(doc.options[1].name, "--mode");
    assert!(doc.subcommands.is_empty());
    assert_eq!(doc.output_formats, s(&["yaml", "json", "toml"]));
    assert_eq!(doc.exit_behavior[1].meaning, "Structured validation or runtime error");
    assert!(doc.repl_contract.is_none());
    assert!(doc.daemon_contract.is_none());
    assert_eq!(doc.examples.len(), 2);
    assert_eq!(doc.examples[1].command, "acp-agent-cli help session prompt --format yaml");
    let list = structured_help(&p, &s(&["session", "list"])).unwrap();
    assert_eq!(list.options.len(), 2);
    assert_eq!(list.options[1].name, "--limit");
    assert!(structured_help(&p, &s(&["nope"])).is_none());
}

#[test]
fn structured_help_covers_the_fixed_paths() {
    let p = plan();
    let top = structured_help(&p, &[]).unwrap();
    assert_eq!(top.usage, "acp-agent-cli [OPTIONS] <COMMAND>");
    assert_eq!(top.purpose, "Drive ACP agents");
    assert_eq!(top.subcommands.len(), 2);
    assert_eq!(top.subcommands[1].name, "session");
    assert_eq!(top.exit_behavior[0].meaning, "Success or human-readable help");
    let help = structured_help(&p, &s(&["help"])).unwrap();
    assert_eq!(help.usage, "acp-agent-cli help [COMMAND_PATH ...] [--format yaml|json|toml]");
    let paths = structured_help(&p, &s(&["paths"])).unwrap();
    assert_eq!(paths.exit_behavior.len(), 1);
    assert_eq!(paths.options[0].name, "--log-enabled");
    assert_eq!(top.feature_availability.daemon, "enabled in single-instance app-server mode");
}

#[test]
fn plain_text_help_is_man_like() {
    let p = plan();
    let text = plain_text_help(&p, &s(&["session", "set-config-option"])).unwrap();
    let expected = "NAME\n  acp-agent-cli session set-config-option - set-config-option things\n\n\
SYNOPSIS\n  acp-agent-cli session set-config-option <KEY>\n\n\
DESCRIPTION\n  set-config-option things\n  This command path is part of the approved ACP CLI contract and uses structured stdout/stderr surfaces.\n\n\
OPTIONS\n  KEY: the key input\n\n\
FORMATS\n  Structured formats: yaml, json, toml\n  Streaming: enabled for session prompt, events follow, terminal output, and passthrough streaming\n  REPL: enabled as a local session console\n  Daemon: enabled in single-instance app-server mode\n\n\
EXAMPLES\n  acp-agent-cli session set-config-option\n    set-config-option things\n  acp-agent-cli help session set-config-option --format yaml\n    Inspect the structured help contract for this command path\n\n\
EXIT CODES\n  0  The command completed successfully\n  2  Structured validation or runtime error\n";
    assert_eq!(text, expected);
    let status = plain_text_help(&p, &s(&["agent", "status"])).unwrap();
    assert!(status.contains("OPTIONS\n  (none)\n"));
    let group_text = plain_text_help(&p, &s(&["session"])).unwrap();
    assert!(group_text.contains("  Available subcommands:\n    list         list things\n"));
    let list_text = plain_text_help(&p, &s(&["session", "list"])).unwrap();
    assert!(list_text.contains(&format!("  {:<18} {:<16} default: {:<18} {}\n", "--all", "-", "none", "the --all flag")));
    assert!(plain_text_help(&p, &s(&["zzz"])).is_none());
}

#[test]
fn usage_tokens_are_built_from_upper_cased_names() {
    assert_eq!(positional_token("TEXT", "string_list", true), "<TEXT...>");
    assert_eq!(positional_token("FILE", "path", false), "[<FILE>]");
    assert_eq!(positional_token("key", "string", true), "<key>");
    assert_eq!(argument_description("KEY", "the key"), "KEY: the key");
}

#[test]
fn groups_without_a_command_show_their_help() {
    let p = plan();
    for (selector, path) in [
        (CommandSelector::Context(None), vec!["context"]),
        (CommandSelector::Daemon(None), vec!["daemon"]),
        (CommandSelector::Registry(None), vec!["registry"]),
    ] {
        match route_invocation(&p, &Some(selector), false, ExecutionMode::Local, false, Format::Yaml) {
            Ok(Dispatch::Help(shown)) => assert_eq!(shown, s(&path)),
            _ => panic!("a group without a command shows its help"),
        }
    }
    assert!(matches!(
        route_invocation(&p, &Some(CommandSelector::Context(Some(ContextAction::Show))), false, ExecutionMode::Local, false, Format::Yaml),
        Ok(Dispatch::Execute)
    ));
    let e = route_invocation(&p, &Some(CommandSelector::Context(None)), false, ExecutionMode::Daemon, false, Format::Json)
        .err()
        .unwrap();
    assert_eq!(e.code, "daemon.local_only_command");
}

#[test]
fn unknown_help_paths_are_structured_errors() {
    let p = plan();
    let e = plain_help_or_error(&p, &s(&["zzz", "yyy"])).err().unwrap();
    assert_eq!(e.code, "help.unknown_path");
    assert_eq!(e.message, "unknown help path 'zzz yyy'");
    assert_eq!(e.source, "help_usage");
    assert_eq!(e.format, Format::Yaml);
    let e = structured_help_or_error(&p, &s(&["zzz"]), Format::Json).err().unwrap();
    assert_eq!((e.code.as_str(), e.format), ("help.unknown_path", Format::Json));
    assert!(plain_help_or_error(&p, &s(&["session"])).ok().unwrap().starts_with("NAME\n"));
    assert_eq!(structured_help_or_error(&p, &s(&["session", "list"]), Format::Json).ok().unwrap().command_path, s(&["session", "list"]));
    assert_eq!(unknown_help_path(&[], Format::Toml).message, "unknown help path ''");
}
