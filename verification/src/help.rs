//! Help documents: the structured help of every command path and its
//! man-like plain-text rendering.

use vstd::prelude::*;

use crate::cli::accepted_flags;
use crate::output::{is_error, Format, StructuredError};
use crate::plan::{
    shared_flags_of,
    capability_in_scope, find_command, planned_output_formats, purpose_summary, shared_flags,
    top_level_commands, value_to_string, value_text, output_formats_of, plan_command, CliPlan,
    PlannedCommand, PlannedFlag, default_output_formats, default_formats, derefs,
};
use crate::text::{
    append, i32_text, int_text, join, join_seq, owned, pad_right, padded, replace, replace_char,
    str_eq, to_uppercase, uppercase, views,
};

verus! {

broadcast use vstd::string::group_string_axioms;

pub struct HelpOption {
    pub name: String,
    pub value_name: String,
    pub default_value: String,
    pub description: String,
}

pub struct HelpSubcommand {
    pub name: String,
    pub summary: String,
}

pub struct HelpExample {
    pub command: String,
    pub description: String,
}

pub struct ExitCodeSpec {
    pub code: i32,
    pub meaning: String,
}

pub struct RuntimeDirectoryHelp {
    pub config: String,
    pub data: String,
    pub state: String,
    pub cache: String,
    pub logs: String,
    pub scope: String,
    pub overrides: Vec<String>,
}

pub struct ActiveContextHelp {
    pub persisted_values: Vec<String>,
    pub ambient_cues: Vec<String>,
    pub inspection_command: String,
    pub switch_command: String,
    pub precedence_rule: String,
}

pub struct FeatureAvailability {
    pub streaming: String,
    pub repl: String,
    pub daemon: String,
}

pub struct ReplContractHelp {
    pub model: String,
    pub requires_active_session: bool,
    pub session_resolution: String,
    pub default_input_behavior: String,
    pub help_channel: String,
    pub slash_commands: Vec<String>,
    pub exit_triggers: Vec<String>,
    pub note: String,
}

pub struct DaemonContractHelp {
    pub mode: String,
    pub instance_model: String,
    pub local_default_transport: String,
    pub tcp_transport: String,
    pub local_ipc_auth: String,
    pub tcp_auth: String,
    pub rpc_protocol: String,
    pub rpc_methods: Vec<String>,
    pub runtime_artifact_directory: String,
    pub runtime_artifact_files: Vec<String>,
}

pub struct HelpDocument {
    pub command_path: Vec<String>,
    pub purpose: String,
    pub usage: String,
    pub arguments: Vec<String>,
    pub options: Vec<HelpOption>,
    pub subcommands: Vec<HelpSubcommand>,
    pub output_formats: Vec<String>,
    pub exit_behavior: Vec<ExitCodeSpec>,
    pub runtime_directories: RuntimeDirectoryHelp,
    pub active_context: ActiveContextHelp,
    pub feature_availability: FeatureAvailability,
    pub repl_contract: Option<ReplContractHelp>,
    pub daemon_contract: Option<DaemonContractHelp>,
    pub description: Vec<String>,
    pub examples: Vec<HelpExample>,
}

// ---------------------------------------------------------------------------
// Views
// ---------------------------------------------------------------------------

pub open spec fn option_view(o: HelpOption) -> (Seq<char>, Seq<char>, Seq<char>, Seq<char>) {
    (o.name@, o.value_name@, o.default_value@, o.description@)
}

pub open spec fn options_view(s: Seq<HelpOption>) -> Seq<(Seq<char>, Seq<char>, Seq<char>, Seq<char>)> {
    s.map_values(|o: HelpOption| option_view(o))
}

pub open spec fn subcommands_view(s: Seq<HelpSubcommand>) -> Seq<(Seq<char>, Seq<char>)> {
    s.map_values(|o: HelpSubcommand| (o.name@, o.summary@))
}

pub open spec fn examples_view(s: Seq<HelpExample>) -> Seq<(Seq<char>, Seq<char>)> {
    s.map_values(|o: HelpExample| (o.command@, o.description@))
}

pub open spec fn exits_view(s: Seq<ExitCodeSpec>) -> Seq<(int, Seq<char>)> {
    s.map_values(|o: ExitCodeSpec| (o.code as int, o.meaning@))
}

// ---------------------------------------------------------------------------
// Sections shared by every document
// ---------------------------------------------------------------------------

pub const RUNTIME_CONFIG: &'static str = "User-authored configuration (user-scoped by default)";
pub const RUNTIME_DATA: &'static str = "Durable CLI-managed business data";
pub const RUNTIME_STATE: &'static str = "Recoverable runtime state, history, persisted Active Context, and state/daemon artifacts";
pub const RUNTIME_CACHE: &'static str = "Disposable or reproducible artifacts";
pub const RUNTIME_LOGS: &'static str = "Optional log path beneath state by default when logging is enabled";
pub const RUNTIME_SCOPE: &'static str = "user_scoped_default";

pub open spec fn runtime_overrides() -> Seq<Seq<char>> {
    seq!["--config-dir"@, "--data-dir"@, "--state-dir"@, "--cache-dir"@, "--log-dir"@]
}

pub open spec fn is_runtime_directory_help(r: RuntimeDirectoryHelp) -> bool {
    &&& r.config@ == RUNTIME_CONFIG@
    &&& r.data@ == RUNTIME_DATA@
    &&& r.state@ == RUNTIME_STATE@
    &&& r.cache@ == RUNTIME_CACHE@
    &&& r.logs@ == RUNTIME_LOGS@
    &&& r.scope@ == RUNTIME_SCOPE@
    &&& views(r.overrides@) == runtime_overrides()
}

fn strings5(a: &str, b: &str, c: &str, d: &str, e: &str) -> (r: Vec<String>)
    ensures
        views(r@) == seq![a@, b@, c@, d@, e@],
{
    let mut r: Vec<String> = Vec::new();
    r.push(owned(a));
    r.push(owned(b));
    r.push(owned(c));
    r.push(owned(d));
    r.push(owned(e));
    assert(views(r@) =~= seq![a@, b@, c@, d@, e@]);
    r
}

fn strings4(a: &str, b: &str, c: &str, d: &str) -> (r: Vec<String>)
    ensures
        views(r@) == seq![a@, b@, c@, d@],
{
    let mut r: Vec<String> = Vec::new();
    r.push(owned(a));
    r.push(owned(b));
    r.push(owned(c));
    r.push(owned(d));
    assert(views(r@) =~= seq![a@, b@, c@, d@]);
    r
}

fn strings1(a: &str) -> (r: Vec<String>)
    ensures
        views(r@) == seq![a@],
{
    let mut r: Vec<String> = Vec::new();
    r.push(owned(a));
    assert(views(r@) =~= seq![a@]);
    r
}

/// What the runtime directories are for, and the flags that override them.
pub fn runtime_directory_help() -> (r: RuntimeDirectoryHelp)
    ensures
        is_runtime_directory_help(r),
{
    RuntimeDirectoryHelp {
        config: owned(RUNTIME_CONFIG),
        data: owned(RUNTIME_DATA),
        state: owned(RUNTIME_STATE),
        cache: owned(RUNTIME_CACHE),
        logs: owned(RUNTIME_LOGS),
        scope: owned(RUNTIME_SCOPE),
        overrides: strings5("--config-dir", "--data-dir", "--state-dir", "--cache-dir", "--log-dir"),
    }
}

pub const CONTEXT_INSPECT: &'static str = "acp-agent-cli context show";
pub const CONTEXT_SWITCH: &'static str = "acp-agent-cli context use --workspace /abs/path --session 42";
pub const CONTEXT_PRECEDENCE: &'static str = "explicit invocation values override the persisted Active Context for one invocation only";

pub open spec fn is_active_context_help(r: ActiveContextHelp) -> bool {
    &&& views(r.persisted_values@) == seq![
        "agent"@,
        "workspace"@,
        "session_id"@,
        "selector key/value pairs"@,
    ]
    &&& views(r.ambient_cues@) == seq!["current_directory"@]
    &&& r.inspection_command@ == CONTEXT_INSPECT@
    &&& r.switch_command@ == CONTEXT_SWITCH@
    &&& r.precedence_rule@ == CONTEXT_PRECEDENCE@
}

/// What the Active Context holds and how it is inspected and switched.
pub fn active_context_help() -> (r: ActiveContextHelp)
    ensures
        is_active_context_help(r),
{
    ActiveContextHelp {
        persisted_values: strings4("agent", "workspace", "session_id", "selector key/value pairs"),
        ambient_cues: strings1("current_directory"),
        inspection_command: owned(CONTEXT_INSPECT),
        switch_command: owned(CONTEXT_SWITCH),
        precedence_rule: owned(CONTEXT_PRECEDENCE),
    }
}

pub const STREAMING_ENABLED: &'static str = "enabled for session prompt, events follow, terminal output, and passthrough streaming";
pub const REPL_ENABLED: &'static str = "enabled as a local session console";
pub const DAEMON_ENABLED: &'static str = "enabled in single-instance app-server mode";
pub const NOT_ENABLED: &'static str = "not enabled";

pub open spec fn in_scope(plan: CliPlan, status: Seq<char>) -> bool {
    status == "in_scope"@
}

pub open spec fn is_feature_availability(plan: CliPlan, r: FeatureAvailability) -> bool {
    &&& r.streaming@ == if plan.capabilities.stream.status@ == "in_scope"@ {
        STREAMING_ENABLED@
    } else {
        NOT_ENABLED@
    }
    &&& r.repl@ == if plan.capabilities.repl.status@ == "in_scope"@ {
        REPL_ENABLED@
    } else {
        NOT_ENABLED@
    }
    &&& r.daemon@ == if plan.capabilities.daemon.status@ == "in_scope"@ {
        DAEMON_ENABLED@
    } else {
        NOT_ENABLED@
    }
}

/// Which optional features the plan puts in scope.
pub fn feature_availability(plan: &CliPlan) -> (r: FeatureAvailability)
    ensures
        is_feature_availability(*plan, r),
{
    proof {
        reveal_strlit("stream");
        reveal_strlit("repl");
        reveal_strlit("daemon");
        assert("stream"@[0] != "repl"@[0]);
        assert("stream"@[0] != "daemon"@[0]);
        assert("repl"@[0] != "daemon"@[0]);
    }
    FeatureAvailability {
        streaming: if capability_in_scope(plan, "stream") {
            owned(STREAMING_ENABLED)
        } else {
            owned(NOT_ENABLED)
        },
        repl: if capability_in_scope(plan, "repl") {
            owned(REPL_ENABLED)
        } else {
            owned(NOT_ENABLED)
        },
        daemon: if capability_in_scope(plan, "daemon") {
            owned(DAEMON_ENABLED)
        } else {
            owned(NOT_ENABLED)
        },
    }
}

/// Whether the three sections that every document carries are the shared
/// ones.
pub open spec fn has_common_sections(plan: CliPlan, d: HelpDocument) -> bool {
    &&& is_runtime_directory_help(d.runtime_directories)
    &&& is_active_context_help(d.active_context)
    &&& is_feature_availability(plan, d.feature_availability)
}

fn option(name: &str, value_name: &str, default_value: &str, description: &str) -> (r: HelpOption)
    ensures
        option_view(r) == (name@, value_name@, default_value@, description@),
{
    HelpOption {
        name: owned(name),
        value_name: owned(value_name),
        default_value: owned(default_value),
        description: owned(description),
    }
}

fn example(command: &str, description: &str) -> (r: HelpExample)
    ensures
        r.command@ == command@,
        r.description@ == description@,
{
    HelpExample { command: owned(command), description: owned(description) }
}

fn exit_code(code: i32, meaning: &str) -> (r: ExitCodeSpec)
    ensures
        r.code == code,
        r.meaning@ == meaning@,
{
    ExitCodeSpec { code, meaning: owned(meaning) }
}

fn exits2(a: &str, b: &str) -> (r: Vec<ExitCodeSpec>)
    ensures
        exits_view(r@) == seq![(0int, a@), (2int, b@)],
{
    let mut r: Vec<ExitCodeSpec> = Vec::new();
    r.push(exit_code(0, a));
    r.push(exit_code(2, b));
    assert(exits_view(r@) =~= seq![(0int, a@), (2int, b@)]);
    r
}

fn examples2(a: &str, b: &str, c: &str, d: &str) -> (r: Vec<HelpExample>)
    ensures
        examples_view(r@) == seq![(a@, b@), (c@, d@)],
{
    let mut r: Vec<HelpExample> = Vec::new();
    r.push(example(a, b));
    r.push(example(c, d));
    assert(examples_view(r@) =~= seq![(a@, b@), (c@, d@)]);
    r
}

// ---------------------------------------------------------------------------
// Built-in documents
// ---------------------------------------------------------------------------

pub const TOP_USAGE: &'static str = "acp-agent-cli [OPTIONS] <COMMAND>";
pub const TOP_FORMAT_DESCRIPTION: &'static str = "Select the structured output format for one-shot commands and structured help";
pub const TOP_HELP_DESCRIPTION: &'static str = "Render man-like human-readable help for the selected command path";
pub const TOP_DESCRIPTION_CONTRACT: &'static str = "This command surface reuses the approved description contract across Cargo metadata, SKILL.md, README, and help text.";
pub const TOP_DESCRIPTION_GROUPS: &'static str = "This binary exposes the approved ACP workflow groups for agent control, sessions, proposals, files, code, terminals, events, passthrough, REPL, and daemon lifecycle.";
pub const TOP_DESCRIPTION_PACKAGING: &'static str = "Package-local packaging-ready support may appear only when enabled capabilities require them; repository-owned CI automation remains outside generated skill packages.";

/// The global options listed in the top-level help.
pub open spec fn top_level_options() -> Seq<(Seq<char>, Seq<char>, Seq<char>, Seq<char>)> {
    seq![
        ("--format"@, "yaml|json|toml"@, "yaml"@, TOP_FORMAT_DESCRIPTION@),
        ("--config-dir"@, "PATH"@, "platform default"@, "Override the default configuration directory"@),
        ("--data-dir"@, "PATH"@, "platform default"@, "Override the default durable data directory"@),
        ("--state-dir"@, "PATH"@, "derived from data"@, "Override the runtime state directory"@),
        ("--cache-dir"@, "PATH"@, "platform default"@, "Override the cache directory"@),
        ("--log-dir"@, "PATH"@, "state/logs when enabled"@, "Override the optional log directory"@),
        ("--help"@, "-"@, "false"@, TOP_HELP_DESCRIPTION@),
        ("--version, -V"@, "-"@, "false"@, "Print version and exit"@),
    ]
}

/// Whether `d` is the top-level help document of `plan`.
pub open spec fn is_top_level_help(plan: CliPlan, d: HelpDocument) -> bool {
    &&& d.command_path@.len() == 0
    &&& d.purpose@ == plan.design_inheritance.purpose_summary@
    &&& d.usage@ == TOP_USAGE@
    &&& d.arguments@.len() == 0
    &&& options_view(d.options@) == top_level_options()
    &&& subcommands_view(d.subcommands@) == plan.commands.top_level@.map_values(
        |c: PlannedCommand| (c.name@, c.summary@),
    )
    &&& views(d.output_formats@) == default_formats()
    &&& exits_view(d.exit_behavior@) == seq![
        (0int, "Success or human-readable help"@),
        (2int, "Structured usage or validation error"@),
    ]
    &&& has_common_sections(plan, d)
    &&& d.repl_contract is None
    &&& d.daemon_contract is None
    &&& views(d.description@) == seq![
        plan.design_inheritance.purpose_summary@,
        TOP_DESCRIPTION_CONTRACT@,
        TOP_DESCRIPTION_GROUPS@,
        TOP_DESCRIPTION_PACKAGING@,
    ]
    &&& examples_view(d.examples@) == seq![
        ("acp-agent-cli help session prompt --format yaml"@, "Inspect structured help for a planned ACP session command"@),
        ("acp-agent-cli repl --session local-1"@, "Open the local ACP session console"@),
    ]
}

/// The names and summaries of the top-level commands.
pub fn top_level_subcommands(plan: &CliPlan) -> (r: Vec<HelpSubcommand>)
    ensures
        subcommands_view(r@) == plan.commands.top_level@.map_values(
            |c: PlannedCommand| (c.name@, c.summary@),
        ),
{
    subcommands_of(top_level_commands(plan))
}

fn subcommands_of(commands: &Vec<PlannedCommand>) -> (r: Vec<HelpSubcommand>)
    ensures
        subcommands_view(r@) == commands@.map_values(|c: PlannedCommand| (c.name@, c.summary@)),
{
    let ghost want = commands@.map_values(|c: PlannedCommand| (c.name@, c.summary@));
    let mut r: Vec<HelpSubcommand> = Vec::new();
    let mut i: usize = 0;
    while i < commands.len()
        invariant
            i <= commands.len(),
            want == commands@.map_values(|c: PlannedCommand| (c.name@, c.summary@)),
            subcommands_view(r@) == want.take(i as int),
        decreases commands.len() - i,
    {
        let ghost prev = r@;
        r.push(HelpSubcommand { name: commands[i].name.clone(), summary: commands[i].summary.clone() });
        assert(subcommands_view(r@) =~= subcommands_view(prev).push(want[i as int]));
        assert(subcommands_view(r@) =~= want.take(i + 1));
        i = i + 1;
    }
    assert(want.take(commands.len() as int) =~= want);
    r
}

/// The top-level help document.
pub fn top_level_help(plan: &CliPlan) -> (r: HelpDocument)
    ensures
        is_top_level_help(*plan, r),
{
    let mut options: Vec<HelpOption> = Vec::new();
    options.push(option("--format", "yaml|json|toml", "yaml", TOP_FORMAT_DESCRIPTION));
    options.push(option("--config-dir", "PATH", "platform default", "Override the default configuration directory"));
    options.push(option("--data-dir", "PATH", "platform default", "Override the default durable data directory"));
    options.push(option("--state-dir", "PATH", "derived from data", "Override the runtime state directory"));
    options.push(option("--cache-dir", "PATH", "platform default", "Override the cache directory"));
    options.push(option("--log-dir", "PATH", "state/logs when enabled", "Override the optional log directory"));
    options.push(option("--help", "-", "false", TOP_HELP_DESCRIPTION));
    options.push(option("--version, -V", "-", "false", "Print version and exit"));
    assert(options_view(options@) =~= top_level_options());
    let summary = purpose_summary(plan);
    let mut description: Vec<String> = Vec::new();
    description.push(summary.clone());
    description.push(owned(TOP_DESCRIPTION_CONTRACT));
    description.push(owned(TOP_DESCRIPTION_GROUPS));
    description.push(owned(TOP_DESCRIPTION_PACKAGING));
    assert(views(description@) =~= seq![
        plan.design_inheritance.purpose_summary@,
        TOP_DESCRIPTION_CONTRACT@,
        TOP_DESCRIPTION_GROUPS@,
        TOP_DESCRIPTION_PACKAGING@,
    ]);
    let r = HelpDocument {
        command_path: Vec::new(),
        purpose: summary.clone(),
        usage: owned(TOP_USAGE),
        arguments: Vec::new(),
        options,
        subcommands: top_level_subcommands(plan),
        output_formats: default_output_formats(),
        exit_behavior: exits2("Success or human-readable help", "Structured usage or validation error"),
        runtime_directories: runtime_directory_help(),
        active_context: active_context_help(),
        feature_availability: feature_availability(plan),
        repl_contract: None,
        daemon_contract: None,
        description,
        examples: examples2(
            "acp-agent-cli help session prompt --format yaml",
            "Inspect structured help for a planned ACP session command",
            "acp-agent-cli repl --session local-1",
            "Open the local ACP session console",
        ),
    };
    r
}

pub const HELP_USAGE: &'static str = "acp-agent-cli help [COMMAND_PATH ...] [--format yaml|json|toml]";
pub const HELP_ARGUMENT: &'static str = "COMMAND_PATH: optional command path such as run, paths, context use, or daemon start";

/// Whether `d` is the help document of the `help` command.
pub open spec fn is_help_subcommand_help(plan: CliPlan, d: HelpDocument) -> bool {
    &&& views(d.command_path@) == seq!["help"@]
    &&& d.purpose@ == "Return machine-readable help for a command path"@
    &&& d.usage@ == HELP_USAGE@
    &&& views(d.arguments@) == seq![HELP_ARGUMENT@]
    &&& d.options@.len() == 0
    &&& d.subcommands@.len() == 0
    &&& views(d.output_formats@) == default_formats()
    &&& exits_view(d.exit_behavior@) == seq![
        (0int, "The structured help document was returned"@),
        (2int, "The requested help path was unknown"@),
    ]
    &&& has_common_sections(plan, d)
    &&& d.repl_contract is None
    &&& d.daemon_contract is None
    &&& views(d.description@) == seq!["Use this subcommand when you need machine-readable command metadata."@]
    &&& examples_view(d.examples@) == seq![
        ("acp-agent-cli help run --format yaml"@, "Inspect the run command as structured YAML"@),
        ("acp-agent-cli help daemon status --format json"@, "Inspect a daemon lifecycle command as structured JSON"@),
    ]
}

/// The help document of the `help` command.
pub fn help_subcommand_help(plan: &CliPlan) -> (r: HelpDocument)
    ensures
        is_help_subcommand_help(*plan, r),
{
    HelpDocument {
        command_path: strings1("help"),
        purpose: owned("Return machine-readable help for a command path"),
        usage: owned(HELP_USAGE),
        arguments: strings1(HELP_ARGUMENT),
        options: Vec::new(),
        subcommands: Vec::new(),
        output_formats: default_output_formats(),
        exit_behavior: exits2("The structured help document was returned", "The requested help path was unknown"),
        runtime_directories: runtime_directory_help(),
        active_context: active_context_help(),
        feature_availability: feature_availability(plan),
        repl_contract: None,
        daemon_contract: None,
        description: strings1("Use this subcommand when you need machine-readable command metadata."),
        examples: examples2(
            "acp-agent-cli help run --format yaml",
            "Inspect the run command as structured YAML",
            "acp-agent-cli help daemon status --format json",
            "Inspect a daemon lifecycle command as structured JSON",
        ),
    }
}

/// Whether `d` is the help document of the `paths` command.
pub open spec fn is_paths_help(plan: CliPlan, d: HelpDocument) -> bool {
    &&& views(d.command_path@) == seq!["paths"@]
    &&& d.purpose@ == "Inspect runtime directory defaults and explicit overrides"@
    &&& d.usage@ == "acp-agent-cli paths [OPTIONS]"@
    &&& d.arguments@.len() == 0
    &&& options_view(d.options@) == seq![
        ("--log-enabled"@, "-"@, "false"@, "Include the optional log directory in the output"@),
    ]
    &&& d.subcommands@.len() == 0
    &&& views(d.output_formats@) == default_formats()
    &&& exits_view(d.exit_behavior@) == seq![(0int, "The runtime path summary was returned"@)]
    &&& has_common_sections(plan, d)
    &&& d.repl_contract is None
    &&& d.daemon_contract is None
    &&& views(d.description@) == seq![
        "Use this command to inspect config, data, state, cache, and optional log locations."@,
    ]
    &&& examples_view(d.examples@) == seq![
        ("acp-agent-cli paths"@, "Inspect the standard runtime directory family"@),
        ("acp-agent-cli paths --log-enabled"@, "Inspect the optional log directory as well"@),
    ]
}

/// The help document of the `paths` command.
pub fn paths_help(plan: &CliPlan) -> (r: HelpDocument)
    ensures
        is_paths_help(*plan, r),
{
    let mut options: Vec<HelpOption> = Vec::new();
    options.push(option("--log-enabled", "-", "false", "Include the optional log directory in the output"));
    assert(options_view(options@) =~= seq![
        ("--log-enabled"@, "-"@, "false"@, "Include the optional log directory in the output"@),
    ]);
    let mut exits: Vec<ExitCodeSpec> = Vec::new();
    exits.push(exit_code(0, "The runtime path summary was returned"));
    assert(exits_view(exits@) =~= seq![(0int, "The runtime path summary was returned"@)]);
    HelpDocument {
        command_path: strings1("paths"),
        purpose: owned("Inspect runtime directory defaults and explicit overrides"),
        usage: owned("acp-agent-cli paths [OPTIONS]"),
        arguments: Vec::new(),
        options,
        subcommands: Vec::new(),
        output_formats: default_output_formats(),
        exit_behavior: exits,
        runtime_directories: runtime_directory_help(),
        active_context: active_context_help(),
        feature_availability: feature_availability(plan),
        repl_contract: None,
        daemon_contract: None,
        description: strings1(
            "Use this command to inspect config, data, state, cache, and optional log locations.",
        ),
        examples: examples2(
            "acp-agent-cli paths",
            "Inspect the standard runtime directory family",
            "acp-agent-cli paths --log-enabled",
            "Inspect the optional log directory as well",
        ),
    }
}

// ---------------------------------------------------------------------------
// Documents of planned commands
// ---------------------------------------------------------------------------

/// How a flag's value is shown: `-` for a boolean flag, the allowed values
/// joined by `|` for an enumeration that lists some, `PATH` and `INT` for
/// those types, `VALUE` otherwise.
pub open spec fn value_name_of(flag: PlannedFlag) -> Seq<char> {
    if flag.value_type@ == "bool"@ {
        "-"@
    } else if flag.value_type@ == "enum"@ && flag.values@.len() > 0 {
        join_seq(views(flag.values@), "|"@)
    } else if flag.value_type@ == "path"@ {
        "PATH"@
    } else if flag.value_type@ == "int"@ {
        "INT"@
    } else {
        "VALUE"@
    }
}

/// How a flag's value is shown in help.
pub fn flag_value_name(flag: &PlannedFlag) -> (r: String)
    ensures
        r@ == value_name_of(*flag),
{
    let t = flag.value_type.as_str();
    if str_eq(t, "bool") {
        owned("-")
    } else if str_eq(t, "enum") && flag.values.len() > 0 {
        join(flag.values.as_slice(), "|")
    } else if str_eq(t, "path") {
        owned("PATH")
    } else if str_eq(t, "int") {
        owned("INT")
    } else {
        owned("VALUE")
    }
}

pub open spec fn flag_option(f: PlannedFlag) -> (Seq<char>, Seq<char>, Seq<char>, Seq<char>) {
    (f.name@, value_name_of(f), value_text(f.default, "none"@), f.description@)
}

pub open spec fn repl_help_option() -> (Seq<char>, Seq<char>, Seq<char>, Seq<char>) {
    ("--help"@, "-"@, "false"@, "Render plain-text help for the REPL command"@)
}

/// The options of a planned command: every flag it accepts, and for the
/// `repl` command itself a `--help` option.
pub open spec fn plan_options(plan: CliPlan, path: Seq<Seq<char>>, command: PlannedCommand) -> Seq<
    (Seq<char>, Seq<char>, Seq<char>, Seq<char>),
> {
    accepted_flags(plan, command).map_values(|f: PlannedFlag| flag_option(f)) + if path.len() == 1
        && command.name@ == "repl"@ {
        seq![repl_help_option()]
    } else {
        Seq::empty()
    }
}

/// The line that describes a positional whose upper-cased name is `upper`.
pub open spec fn argument_text(upper: Seq<char>, description: Seq<char>) -> Seq<char> {
    upper + ": "@ + description
}

pub open spec fn argument_line(p: crate::plan::PlannedPositional) -> Seq<char> {
    argument_text(uppercase(p.name@), p.description@)
}

/// How a positional whose upper-cased name is `upper` appears in a usage
/// line: `<NAME>`, or `<NAME...>` for a list, in brackets when optional.
pub open spec fn usage_token(upper: Seq<char>, value_type: Seq<char>, required: bool) -> Seq<char> {
    let shown = if value_type == "string_list"@ {
        "<"@ + upper + "...>"@
    } else {
        "<"@ + upper + ">"@
    };
    if required {
        shown
    } else {
        "["@ + shown + "]"@
    }
}

/// How a positional appears in a usage line.
pub open spec fn positional_usage(p: crate::plan::PlannedPositional) -> Seq<char> {
    usage_token(uppercase(p.name@), p.value_type@, p.required)
}

/// The usage line of a planned command: the program and the path, then
/// `<COMMAND>` for a group, else `[OPTIONS]` when it takes flags and its
/// positionals.
pub open spec fn usage_of(path: Seq<Seq<char>>, command: PlannedCommand) -> Seq<char> {
    let head = seq!["acp-agent-cli"@] + path;
    if command.kind@ == "group"@ {
        join_seq(head.push("<COMMAND>"@), " "@)
    } else {
        let with_options = if command.flags@.len() > 0 || command.shared_flag_sets@.len() > 0 {
            head.push("[OPTIONS]"@)
        } else {
            head
        };
        join_seq(
            with_options + command.positionals@.map_values(
                |p: crate::plan::PlannedPositional| positional_usage(p),
            ),
            " "@,
        )
    }
}

/// The usage token of a positional, given its upper-cased name.
pub fn positional_token(upper: &str, value_type: &str, required: bool) -> (r: String)
    ensures
        r@ == usage_token(upper@, value_type@, required),
{
    let mut shown = owned("<");
    append(&mut shown, upper);
    if str_eq(value_type, "string_list") {
        append(&mut shown, "...>");
    } else {
        append(&mut shown, ">");
    }
    if required {
        shown
    } else {
        let mut r = owned("[");
        append(&mut r, shown.as_str());
        append(&mut r, "]");
        r
    }
}

fn positional_usage_text(p: &crate::plan::PlannedPositional) -> (r: String)
    ensures
        r@ == positional_usage(*p),
{
    let upper = to_uppercase(p.name.as_str());
    positional_token(upper.as_str(), p.value_type.as_str(), p.required)
}

/// The line that describes a positional, given its upper-cased name.
pub fn argument_description(upper: &str, description: &str) -> (r: String)
    ensures
        r@ == argument_text(upper@, description@),
{
    cat3(upper, ": ", description)
}

/// The usage line of a planned command (see `usage_of`).
pub fn command_usage(path: &[String], command: &PlannedCommand) -> (r: String)
    ensures
        r@ == usage_of(views(path@), *command),
{
    let ghost head = seq!["acp-agent-cli"@] + views(path@);
    let mut parts: Vec<String> = Vec::new();
    parts.push(owned("acp-agent-cli"));
    let mut i: usize = 0;
    while i < path.len()
        invariant
            i <= path@.len(),
            head == seq!["acp-agent-cli"@] + views(path@),
            views(parts@) == head.take(i + 1),
        decreases path@.len() - i,
    {
        let ghost prev = parts@;
        parts.push(path[i].clone());
        assert(views(parts@) =~= views(prev).push(path@[i as int]@));
        assert(views(parts@) =~= head.take(i + 2));
        i = i + 1;
    }
    assert(head.take(path@.len() + 1int) =~= head);
    if str_eq(command.kind.as_str(), "group") {
        let ghost prev = parts@;
        parts.push(owned("<COMMAND>"));
        assert(views(parts@) =~= views(prev).push("<COMMAND>"@));
        return join(parts.as_slice(), " ");
    }
    if command.flags.len() > 0 || command.shared_flag_sets.len() > 0 {
        let ghost prev = parts@;
        parts.push(owned("[OPTIONS]"));
        assert(views(parts@) =~= views(prev).push("[OPTIONS]"@));
    }
    let ghost base = views(parts@);
    let ghost shown = command.positionals@.map_values(
        |p: crate::plan::PlannedPositional| positional_usage(p),
    );
    let mut j: usize = 0;
    while j < command.positionals.len()
        invariant
            j <= command.positionals.len(),
            shown == command.positionals@.map_values(
                |p: crate::plan::PlannedPositional| positional_usage(p),
            ),
            views(parts@) == base + shown.take(j as int),
        decreases command.positionals.len() - j,
    {
        let text = positional_usage_text(&command.positionals[j]);
        let ghost prev = parts@;
        parts.push(text);
        assert(views(parts@) =~= views(prev).push(shown[j as int]));
        assert(views(parts@) =~= base + shown.take(j + 1));
        j = j + 1;
    }
    assert(shown.take(j as int) =~= shown);
    join(parts.as_slice(), " ")
}

/// The exit codes documented for a command of the given kind.
pub open spec fn exit_behavior_of(kind: Seq<char>) -> Seq<(int, Seq<char>)> {
    if kind == "group"@ {
        seq![
            (0int, "Help was displayed or a subcommand succeeded"@),
            (2int, "Structured usage error"@),
        ]
    } else {
        seq![
            (0int, "The command completed successfully"@),
            (2int, "Structured validation or runtime error"@),
        ]
    }
}

/// The exit codes documented for a command of the given kind.
pub fn generic_exit_behavior(kind: &str) -> (r: Vec<ExitCodeSpec>)
    ensures
        exits_view(r@) == exit_behavior_of(kind@),
{
    if str_eq(kind, "group") {
        exits2("Help was displayed or a subcommand succeeded", "Structured usage error")
    } else {
        exits2("The command completed successfully", "Structured validation or runtime error")
    }
}

/// Whether a path starts with the segment `daemon`.
pub open spec fn under_daemon(path: Seq<Seq<char>>) -> bool {
    path.len() > 0 && path[0] == "daemon"@
}

pub const LEAF_DESCRIPTION: &'static str = "This command path is part of the approved ACP CLI contract and uses structured stdout/stderr surfaces.";
pub const DAEMON_ARTIFACTS: &'static str = "Daemon runtime artifacts live beneath state/daemon.";
pub const DAEMON_ROUTING: &'static str = "Client routing uses --via local|daemon and --ensure-daemon only when daemon execution is requested.";

/// The description paragraphs of a planned command: its summary, then the
/// daemon contract for `daemon`, the artifact and routing notes for the
/// daemon's subcommands, the REPL contract for `repl`, a note for any other
/// leaf.
pub open spec fn description_of(plan: CliPlan, path: Seq<Seq<char>>, command: PlannedCommand) -> Seq<Seq<char>> {
    let d = plan.daemon_contract;
    if path == seq!["daemon"@] {
        seq![
            command.summary@,
            "The daemon runs in "@ + replace_char(d.instance_model@, '_', '-') + " "@ + replace_char(d.mode@, '_', '-') + " mode."@,
            "Transport defaults: local `"@ + d.transports.local_default@ + "` and TCP `"@ + d.transports.tcp@ + "`."@,
            "Auth rules: local IPC `"@ + d.auth.local_ipc@ + "` and TCP `"@ + d.auth.tcp@ + "`."@,
            "RPC protocol `"@ + d.rpc.protocol@ + "` with methods: "@ + join_seq(views(d.rpc.methods@), ", "@) + "."@,
            "Runtime artifacts live beneath `"@ + d.runtime_artifacts.directory@ + "`: "@ + join_seq(views(d.runtime_artifacts.files@), ", "@) + "."@,
        ]
    } else if under_daemon(path) {
        seq![command.summary@, DAEMON_ARTIFACTS@, DAEMON_ROUTING@]
    } else if path == seq!["repl"@] {
        match plan.repl_contract {
            Some(repl) => seq![
                command.summary@,
                "REPL model: "@ + replace_char(repl.model@, '_', '-') + "."@,
                "Session resolution: "@ + repl.session_resolution@ + "."@,
                "Default input behavior: "@ + repl.default_input_behavior@ + "."@,
                "Plain-text help channel: "@ + repl.help_channel@ + "."@,
                "Slash commands: "@ + join_seq(views(repl.slash_commands@), ", "@) + "."@,
            ],
            None => seq![command.summary@],
        }
    } else if command.kind@ == "leaf"@ {
        seq![command.summary@, LEAF_DESCRIPTION@]
    } else {
        seq![command.summary@]
    }
}

fn cat3(a: &str, b: &str, c: &str) -> (r: String)
    ensures
        r@ == a@ + b@ + c@,
{
    let mut r = owned(a);
    append(&mut r, b);
    append(&mut r, c);
    r
}

fn cat5(a: &str, b: &str, c: &str, d: &str, e: &str) -> (r: String)
    ensures
        r@ == a@ + b@ + c@ + d@ + e@,
{
    let mut r = owned(a);
    append(&mut r, b);
    append(&mut r, c);
    append(&mut r, d);
    append(&mut r, e);
    r
}

fn is_single(path: &[String], name: &str) -> (r: bool)
    ensures
        r == (views(path@) == seq![name@]),
{
    if path.len() == 1 {
        let r = str_eq(path[0].as_str(), name);
        assert(r ==> views(path@) =~= seq![name@]);
        assert(views(path@) == seq![name@] ==> views(path@)[0] == name@);
        r
    } else {
        assert(views(path@).len() != seq![name@].len());
        false
    }
}

fn starts_with_daemon(path: &[String]) -> (r: bool)
    ensures
        r == under_daemon(views(path@)),
{
    path.len() > 0 && str_eq(path[0].as_str(), "daemon")
}

/// The description paragraphs of a planned command (see `description_of`).
pub fn plan_description(plan: &CliPlan, path: &[String], command: &PlannedCommand) -> (r: Vec<String>)
    ensures
        views(r@) == description_of(*plan, views(path@), *command),
{
    let mut description: Vec<String> = Vec::new();
    description.push(command.summary.clone());
    let ghost first = views(description@);
    assert(first =~= seq![command.summary@]);
    if is_single(path, "daemon") {
        let d = &plan.daemon_contract;
        let im = replace(d.instance_model.as_str(), '_', '-');
        let mo = replace(d.mode.as_str(), '_', '-');
        description.push(cat5("The daemon runs in ", im.as_str(), " ", mo.as_str(), " mode."));
        description.push(cat5(
            "Transport defaults: local `",
            d.transports.local_default.as_str(),
            "` and TCP `",
            d.transports.tcp.as_str(),
            "`.",
        ));
        description.push(cat5(
            "Auth rules: local IPC `",
            d.auth.local_ipc.as_str(),
            "` and TCP `",
            d.auth.tcp.as_str(),
            "`.",
        ));
        let methods = join(d.rpc.methods.as_slice(), ", ");
        description.push(cat5("RPC protocol `", d.rpc.protocol.as_str(), "` with methods: ", methods.as_str(), "."));
        let files = join(d.runtime_artifacts.files.as_slice(), ", ");
        description.push(cat5(
            "Runtime artifacts live beneath `",
            d.runtime_artifacts.directory.as_str(),
            "`: ",
            files.as_str(),
            ".",
        ));
        assert(views(description@) =~= description_of(*plan, views(path@), *command));
    } else if starts_with_daemon(path) {
        description.push(owned(DAEMON_ARTIFACTS));
        description.push(owned(DAEMON_ROUTING));
        assert(views(description@) =~= description_of(*plan, views(path@), *command));
    } else if is_single(path, "repl") {
        match &plan.repl_contract {
            Some(repl) => {
                let model = replace(repl.model.as_str(), '_', '-');
                description.push(cat3("REPL model: ", model.as_str(), "."));
                description.push(cat3("Session resolution: ", repl.session_resolution.as_str(), "."));
                description.push(cat3("Default input behavior: ", repl.default_input_behavior.as_str(), "."));
                description.push(cat3("Plain-text help channel: ", repl.help_channel.as_str(), "."));
                let slash = join(repl.slash_commands.as_slice(), ", ");
                description.push(cat3("Slash commands: ", slash.as_str(), "."));
                assert(views(description@) =~= description_of(*plan, views(path@), *command));
            },
            None => {
                assert(views(description@) =~= description_of(*plan, views(path@), *command));
            },
        }
    } else if str_eq(command.kind.as_str(), "leaf") {
        description.push(owned(LEAF_DESCRIPTION));
        assert(views(description@) =~= description_of(*plan, views(path@), *command));
    } else {
        assert(views(description@) =~= description_of(*plan, views(path@), *command));
    }
    description
}

/// The examples of a planned command: the command itself with its summary,
/// then one that depends on the path and kind.
pub open spec fn examples_of(path: Seq<Seq<char>>, command: PlannedCommand) -> Seq<(Seq<char>, Seq<char>)> {
    let joined = "acp-agent-cli "@ + join_seq(path, " "@);
    seq![(joined, command.summary@)] + if path == seq!["repl"@] {
        seq![("acp-agent-cli repl --session local-1"@, "Open the local session console for an explicit session"@)]
    } else if under_daemon(path) {
        seq![("acp-agent-cli daemon status --format json"@, "Inspect daemon health, endpoint, and recommended next action"@)]
    } else if command.kind@ == "group"@ {
        seq![(joined + " --help"@, "Render the human-readable help surface for this command group"@)]
    } else {
        seq![("acp-agent-cli help "@ + join_seq(path, " "@) + " --format yaml"@, "Inspect the structured help contract for this command path"@)]
    }
}

/// The examples of a planned command (see `examples_of`).
pub fn plan_examples(path: &[String], command: &PlannedCommand) -> (r: Vec<HelpExample>)
    ensures
        examples_view(r@) == examples_of(views(path@), *command),
{
    let joined_path = join(path, " ");
    let mut joined = owned("acp-agent-cli ");
    append(&mut joined, joined_path.as_str());
    let mut examples: Vec<HelpExample> = Vec::new();
    examples.push(HelpExample { command: joined.clone(), description: command.summary.clone() });
    let second = if is_single(path, "repl") {
        example("acp-agent-cli repl --session local-1", "Open the local session console for an explicit session")
    } else if starts_with_daemon(path) {
        example("acp-agent-cli daemon status --format json", "Inspect daemon health, endpoint, and recommended next action")
    } else if str_eq(command.kind.as_str(), "group") {
        let mut c = joined.clone();
        append(&mut c, " --help");
        HelpExample { command: c, description: owned("Render the human-readable help surface for this command group") }
    } else {
        HelpExample {
            command: cat3("acp-agent-cli help ", joined_path.as_str(), " --format yaml"),
            description: owned("Inspect the structured help contract for this command path"),
        }
    };
    examples.push(second);
    assert(examples_view(examples@) =~= examples_of(views(path@), *command));
    examples
}

/// Whether `r` is the REPL contract section for `path`: present only for
/// the `repl` command of a plan that has a REPL contract, as its copy.
pub open spec fn is_repl_contract_help(plan: CliPlan, path: Seq<Seq<char>>, r: Option<ReplContractHelp>) -> bool {
    if path == seq!["repl"@] && plan.repl_contract is Some {
        let c = plan.repl_contract->0;
        r matches Some(h) && h.model@ == c.model@ && h.requires_active_session == c.requires_active_session
            && h.session_resolution@ == c.session_resolution@ && h.default_input_behavior@
            == c.default_input_behavior@ && h.help_channel@ == c.help_channel@ && views(h.slash_commands@)
            == views(c.slash_commands@) && views(h.exit_triggers@) == views(c.exit_triggers@) && h.note@
            == c.note@
    } else {
        r is None
    }
}

fn copy_strings(v: &Vec<String>) -> (r: Vec<String>)
    ensures
        r@ == v@,
{
    let c = v.clone();
    assert(c@ =~= v@);
    c
}

/// The REPL contract section of the help for `path`.
pub fn repl_contract_help(plan: &CliPlan, path: &[String]) -> (r: Option<ReplContractHelp>)
    ensures
        is_repl_contract_help(*plan, views(path@), r),
{
    if !is_single(path, "repl") {
        return None;
    }
    match &plan.repl_contract {
        None => None,
        Some(repl) => Some(ReplContractHelp {
            model: repl.model.clone(),
            requires_active_session: repl.requires_active_session,
            session_resolution: repl.session_resolution.clone(),
            default_input_behavior: repl.default_input_behavior.clone(),
            help_channel: repl.help_channel.clone(),
            slash_commands: copy_strings(&repl.slash_commands),
            exit_triggers: copy_strings(&repl.exit_triggers),
            note: repl.note.clone(),
        }),
    }
}

/// Whether `r` is the daemon contract section for `path`: present for every
/// path under `daemon`, as a copy of the plan's daemon contract.
pub open spec fn is_daemon_contract_help(plan: CliPlan, path: Seq<Seq<char>>, r: Option<DaemonContractHelp>) -> bool {
    let d = plan.daemon_contract;
    if under_daemon(path) {
        r matches Some(h) && h.mode@ == d.mode@ && h.instance_model@ == d.instance_model@
            && h.local_default_transport@ == d.transports.local_default@ && h.tcp_transport@
            == d.transports.tcp@ && h.local_ipc_auth@ == d.auth.local_ipc@ && h.tcp_auth@
            == d.auth.tcp@ && h.rpc_protocol@ == d.rpc.protocol@ && views(h.rpc_methods@) == views(
            d.rpc.methods@,
        ) && h.runtime_artifact_directory@ == d.runtime_artifacts.directory@ && views(
            h.runtime_artifact_files@,
        ) == views(d.runtime_artifacts.files@)
    } else {
        r is None
    }
}

/// The daemon contract section of the help for `path`.
pub fn daemon_contract_help(plan: &CliPlan, path: &[String]) -> (r: Option<DaemonContractHelp>)
    ensures
        is_daemon_contract_help(*plan, views(path@), r),
{
    if !starts_with_daemon(path) {
        return None;
    }
    let d = &plan.daemon_contract;
    Some(DaemonContractHelp {
        mode: d.mode.clone(),
        instance_model: d.instance_model.clone(),
        local_default_transport: d.transports.local_default.clone(),
        tcp_transport: d.transports.tcp.clone(),
        local_ipc_auth: d.auth.local_ipc.clone(),
        tcp_auth: d.auth.tcp.clone(),
        rpc_protocol: d.rpc.protocol.clone(),
        rpc_methods: copy_strings(&d.rpc.methods),
        runtime_artifact_directory: d.runtime_artifacts.directory.clone(),
        runtime_artifact_files: copy_strings(&d.runtime_artifacts.files),
    })
}

/// Whether `d` is the help document of the planned `command` at `path`.
pub open spec fn is_plan_help(plan: CliPlan, path: Seq<Seq<char>>, command: PlannedCommand, d: HelpDocument) -> bool {
    &&& views(d.command_path@) == path
    &&& d.purpose@ == command.summary@
    &&& d.usage@ == usage_of(path, command)
    &&& views(d.arguments@) == command.positionals@.map_values(
        |p: crate::plan::PlannedPositional| argument_line(p),
    )
    &&& options_view(d.options@) == plan_options(plan, path, command)
    &&& subcommands_view(d.subcommands@) == command.subcommands@.map_values(
        |c: PlannedCommand| (c.name@, c.summary@),
    )
    &&& views(d.output_formats@) == output_formats_of(command)
    &&& exits_view(d.exit_behavior@) == exit_behavior_of(command.kind@)
    &&& has_common_sections(plan, d)
    &&& is_repl_contract_help(plan, path, d.repl_contract)
    &&& is_daemon_contract_help(plan, path, d.daemon_contract)
    &&& views(d.description@) == description_of(plan, path, command)
    &&& examples_view(d.examples@) == examples_of(path, command)
}

fn flag_help_option(flag: &PlannedFlag) -> (r: HelpOption)
    ensures
        option_view(r) == flag_option(*flag),
{
    HelpOption {
        name: flag.name.clone(),
        value_name: flag_value_name(flag),
        default_value: value_to_string(&flag.default, "none"),
        description: flag.description.clone(),
    }
}

fn argument_lines(command: &PlannedCommand) -> (r: Vec<String>)
    ensures
        views(r@) == command.positionals@.map_values(
            |p: crate::plan::PlannedPositional| argument_line(p),
        ),
{
    let ghost want = command.positionals@.map_values(
        |p: crate::plan::PlannedPositional| argument_line(p),
    );
    let mut r: Vec<String> = Vec::new();
    let mut i: usize = 0;
    while i < command.positionals.len()
        invariant
            i <= command.positionals.len(),
            want == command.positionals@.map_values(
                |p: crate::plan::PlannedPositional| argument_line(p),
            ),
            views(r@) == want.take(i as int),
        decreases command.positionals.len() - i,
    {
        let p = &command.positionals[i];
        let upper = to_uppercase(p.name.as_str());
        let line = argument_description(upper.as_str(), p.description.as_str());
        let ghost prev = r@;
        r.push(line);
        assert(views(r@) =~= views(prev).push(want[i as int]));
        assert(views(r@) =~= want.take(i + 1));
        i = i + 1;
    }
    assert(want.take(i as int) =~= want);
    r
}

fn plan_option_list(plan: &CliPlan, path: &[String], command: &PlannedCommand) -> (r: Vec<HelpOption>)
    ensures
        options_view(r@) == plan_options(*plan, views(path@), *command),
{
    let ghost want = accepted_flags(*plan, *command).map_values(|f: PlannedFlag| flag_option(f));
    let mut options: Vec<HelpOption> = Vec::new();
    let mut i: usize = 0;
    while i < command.flags.len()
        invariant
            i <= command.flags.len(),
            want == accepted_flags(*plan, *command).map_values(|f: PlannedFlag| flag_option(f)),
            options_view(options@) == want.take(i as int),
        decreases command.flags.len() - i,
    {
        let o = flag_help_option(&command.flags[i]);
        let ghost prev = options@;
        options.push(o);
        assert(accepted_flags(*plan, *command)[i as int] == command.flags@[i as int]);
        assert(options_view(options@) =~= options_view(prev).push(want[i as int]));
        assert(options_view(options@) =~= want.take(i + 1));
        i = i + 1;
    }
    let shared = shared_flags(plan, command.shared_flag_sets.as_slice());
    let n = command.flags.len();
    let mut j: usize = 0;
    while j < shared.len()
        invariant
            j <= shared.len(),
            n == command.flags.len(),
            derefs(shared@) == shared_flags_of_command(*plan, *command),
            want == accepted_flags(*plan, *command).map_values(|f: PlannedFlag| flag_option(f)),
            options_view(options@) == want.take(n + j),
        decreases shared.len() - j,
    {
        let o = flag_help_option(shared[j]);
        let ghost prev = options@;
        options.push(o);
        assert(accepted_flags(*plan, *command)[n + j] == *shared@[j as int]);
        assert(options_view(options@) =~= options_view(prev).push(want[n + j]));
        assert(options_view(options@) =~= want.take(n + j + 1));
        j = j + 1;
    }
    assert(want.take(n + j) =~= want);
    if path.len() == 1 && str_eq(command.name.as_str(), "repl") {
        let ghost prev = options@;
        options.push(option("--help", "-", "false", "Render plain-text help for the REPL command"));
        assert(options_view(options@) =~= options_view(prev).push(repl_help_option()));
    }
    assert(options_view(options@) =~= plan_options(*plan, views(path@), *command));
    options
}

/// The flags that the shared flag sets of `command` contribute.
pub open spec fn shared_flags_of_command(plan: CliPlan, command: PlannedCommand) -> Seq<PlannedFlag> {
    crate::plan::shared_flags_of(plan.shared_flag_sets@, views(command.shared_flag_sets@))
}

/// The help document of the planned command at `path`, if the plan has one.
pub fn plan_help(plan: &CliPlan, path: &[String]) -> (r: Option<HelpDocument>)
    ensures
        match plan_command(*plan, views(path@)) {
            Some(command) => r matches Some(d) && is_plan_help(*plan, views(path@), command, d),
            None => r is None,
        },
{
    let resolved = find_command(plan, path)?;
    let command = resolved.command;
    let p = crate::plan::slice_from(path, 0);
    assert(p@ =~= path@);
    Some(HelpDocument {
        command_path: p,
        purpose: command.summary.clone(),
        usage: command_usage(path, command),
        arguments: argument_lines(command),
        options: plan_option_list(plan, path, command),
        subcommands: subcommands_of(&command.subcommands),
        output_formats: planned_output_formats(command),
        exit_behavior: generic_exit_behavior(command.kind.as_str()),
        runtime_directories: runtime_directory_help(),
        active_context: active_context_help(),
        feature_availability: feature_availability(plan),
        repl_contract: repl_contract_help(plan, path),
        daemon_contract: daemon_contract_help(plan, path),
        description: plan_description(plan, path, command),
        examples: plan_examples(path, command),
    })
}

/// Whether the command path has structured help: the top level, `help`,
/// `paths`, and every command of the plan.
pub open spec fn has_structured_help(plan: CliPlan, path: Seq<Seq<char>>) -> bool {
    path.len() == 0 || path == seq!["help"@] || path == seq!["paths"@] || plan_command(plan, path) is Some
}

/// Whether `d` is the structured help of the command path: the built-in
/// documents of the top level, `help` and `paths`, else the document of the
/// planned command.
pub open spec fn is_structured_help(plan: CliPlan, path: Seq<Seq<char>>, d: HelpDocument) -> bool {
    if path.len() == 0 {
        is_top_level_help(plan, d)
    } else if path == seq!["help"@] {
        is_help_subcommand_help(plan, d)
    } else if path == seq!["paths"@] {
        is_paths_help(plan, d)
    } else {
        plan_command(plan, path) matches Some(c) && is_plan_help(plan, path, c, d)
    }
}

/// The structured help of a command path (see `is_structured_help`).
pub fn structured_help(plan: &CliPlan, path: &[String]) -> (r: Option<HelpDocument>)
    ensures
        r is Some <==> has_structured_help(*plan, views(path@)),
        r matches Some(d) ==> is_structured_help(*plan, views(path@), d),
{
    proof {
        reveal_strlit("help");
        reveal_strlit("paths");
        assert("help"@.len() != "paths"@.len());
        if views(path@) == seq!["paths"@] {
            assert(views(path@)[0] == "paths"@);
        }
    }
    if path.len() == 0 {
        Some(top_level_help(plan))
    } else if is_single(path, "help") {
        Some(help_subcommand_help(plan))
    } else if is_single(path, "paths") {
        Some(paths_help(plan))
    } else {
        plan_help(plan, path)
    }
}

// ---------------------------------------------------------------------------
// Plain-text rendering
// ---------------------------------------------------------------------------

/// The name of a command path as shown in the NAME section.
pub open spec fn command_name_of(path: Seq<Seq<char>>) -> Seq<char> {
    if path.len() == 0 {
        "acp-agent-cli"@
    } else {
        "acp-agent-cli "@ + join_seq(path, " "@)
    }
}

pub open spec fn paragraph_line(p: Seq<char>) -> Seq<char> {
    "  "@ + p + "\n"@
}

pub open spec fn subcommand_line(s: HelpSubcommand) -> Seq<char> {
    "    "@ + pad_right(s.name@, 12) + " "@ + s.summary@ + "\n"@
}

pub open spec fn option_line(o: HelpOption) -> Seq<char> {
    "  "@ + pad_right(o.name@, 18) + " "@ + pad_right(o.value_name@, 16) + " default: "@
        + pad_right(o.default_value@, 18) + " "@ + o.description@ + "\n"@
}

pub open spec fn example_lines(e: HelpExample) -> Seq<char> {
    "  "@ + e.command@ + "\n"@ + "    "@ + e.description@ + "\n"@
}

pub open spec fn exit_line(c: ExitCodeSpec) -> Seq<char> {
    "  "@ + int_text(c.code as int) + "  "@ + c.meaning@ + "\n"@
}

/// NAME and SYNOPSIS.
pub open spec fn render_head(d: HelpDocument) -> Seq<char> {
    "NAME\n"@ + "  "@ + command_name_of(views(d.command_path@)) + " - "@ + d.purpose@ + "\n\n"@
        + "SYNOPSIS\n"@ + "  "@ + d.usage@ + "\n\n"@
}

/// DESCRIPTION: the paragraphs, then the subcommands when there are some.
pub open spec fn render_description(d: HelpDocument) -> Seq<char> {
    "DESCRIPTION\n"@ + crate::text::concat_map(views(d.description@), |p: Seq<char>| paragraph_line(p))
        + if d.subcommands@.len() > 0 {
        "  Available subcommands:\n"@ + crate::text::concat_map(
            d.subcommands@,
            |s: HelpSubcommand| subcommand_line(s),
        )
    } else {
        Seq::empty()
    } + "\n"@
}

/// OPTIONS: the arguments, then the options, or `(none)` when there are
/// neither.
pub open spec fn render_options(d: HelpDocument) -> Seq<char> {
    "OPTIONS\n"@ + crate::text::concat_map(views(d.arguments@), |p: Seq<char>| paragraph_line(p))
        + if d.options@.len() == 0 && d.arguments@.len() == 0 {
        "  (none)\n"@
    } else {
        crate::text::concat_map(d.options@, |o: HelpOption| option_line(o))
    } + "\n"@
}

/// FORMATS: the structured formats and the optional features.
pub open spec fn render_formats(d: HelpDocument) -> Seq<char> {
    "FORMATS\n"@ + "  Structured formats: "@ + join_seq(views(d.output_formats@), ", "@) + "\n"@
        + "  Streaming: "@ + d.feature_availability.streaming@ + "\n"@ + "  REPL: "@
        + d.feature_availability.repl@ + "\n"@ + "  Daemon: "@ + d.feature_availability.daemon@
        + "\n\n"@
}

/// EXAMPLES and EXIT CODES.
pub open spec fn render_tail(d: HelpDocument) -> Seq<char> {
    "EXAMPLES\n"@ + crate::text::concat_map(d.examples@, |e: HelpExample| example_lines(e)) + "\n"@
        + "EXIT CODES\n"@ + crate::text::concat_map(d.exit_behavior@, |c: ExitCodeSpec| exit_line(c))
}

/// The man-like plain-text help of a document, sections in the order NAME,
/// SYNOPSIS, DESCRIPTION, OPTIONS, FORMATS, EXAMPLES, EXIT CODES.
pub open spec fn rendered(d: HelpDocument) -> Seq<char> {
    render_head(d) + render_description(d) + render_options(d) + render_formats(d) + render_tail(d)
}

/// Plain-text help keeps its sections in the order NAME, SYNOPSIS,
/// DESCRIPTION, OPTIONS, FORMATS, EXAMPLES, EXIT CODES, and starts with
/// NAME.
#[verifier::spinoff_prover]
#[verifier::rlimit(50)]
pub proof fn law_help_sections_in_order(d: HelpDocument)
    ensures
        exists|a: Seq<char>, b: Seq<char>, c: Seq<char>, e: Seq<char>, f: Seq<char>, g: Seq<char>, h: Seq<char>|
            rendered(d) == "NAME\n"@ + a + "SYNOPSIS\n"@ + b + "DESCRIPTION\n"@ + c + "OPTIONS\n"@ + e
                + "FORMATS\n"@ + f + "EXAMPLES\n"@ + g + "EXIT CODES\n"@ + h,
{
    let a = "  "@ + command_name_of(views(d.command_path@)) + " - "@ + d.purpose@ + "\n\n"@;
    let b = "  "@ + d.usage@ + "\n\n"@;
    let c = render_description(d).skip(12);
    let e = render_options(d).skip(8);
    let f = render_formats(d).skip(8);
    let g = crate::text::concat_map(d.examples@, |x: HelpExample| example_lines(x)) + "\n"@;
    let h = crate::text::concat_map(d.exit_behavior@, |x: ExitCodeSpec| exit_line(x));
    reveal_strlit("DESCRIPTION\n");
    reveal_strlit("OPTIONS\n");
    reveal_strlit("FORMATS\n");
    assert(render_description(d) =~= "DESCRIPTION\n"@ + c);
    assert(render_options(d) =~= "OPTIONS\n"@ + e);
    assert(render_formats(d) =~= "FORMATS\n"@ + f);
    assert(render_head(d) =~= "NAME\n"@ + a + "SYNOPSIS\n"@ + b);
    assert(render_tail(d) =~= "EXAMPLES\n"@ + g + "EXIT CODES\n"@ + h);
    assert(rendered(d) =~= "NAME\n"@ + a + "SYNOPSIS\n"@ + b + "DESCRIPTION\n"@ + c + "OPTIONS\n"@ + e
        + "FORMATS\n"@ + f + "EXAMPLES\n"@ + g + "EXIT CODES\n"@ + h);
}

fn render_head_text(doc: &HelpDocument) -> (r: String)
    ensures
        r@ == render_head(*doc),
{
    let mut out = owned("NAME\n");
    append(&mut out, "  ");
    if doc.command_path.len() == 0 {
        append(&mut out, "acp-agent-cli");
    } else {
        append(&mut out, "acp-agent-cli ");
        let joined = join(doc.command_path.as_slice(), " ");
        append(&mut out, joined.as_str());
    }
    append(&mut out, " - ");
    append(&mut out, doc.purpose.as_str());
    append(&mut out, "\n\n");
    append(&mut out, "SYNOPSIS\n");
    append(&mut out, "  ");
    append(&mut out, doc.usage.as_str());
    append(&mut out, "\n\n");
    out
}

fn paragraph_lines(out: &mut String, items: &Vec<String>)
    ensures
        final(out)@ == old(out)@ + crate::text::concat_map(views(items@), |p: Seq<char>| paragraph_line(p)),
{
    let ghost base = out@;
    let ghost v = views(items@);
    let mut i: usize = 0;
    while i < items.len()
        invariant
            i <= items.len(),
            v == views(items@),
            out@ == base + crate::text::concat_map(v.take(i as int), |p: Seq<char>| paragraph_line(p)),
        decreases items.len() - i,
    {
        proof {
            crate::text::lemma_concat_map_step(v, |p: Seq<char>| paragraph_line(p), i as int);
        }
        append(out, "  ");
        append(out, items[i].as_str());
        append(out, "\n");
        i = i + 1;
    }
    assert(v.take(i as int) =~= v);
}

fn render_description_text(doc: &HelpDocument) -> (r: String)
    ensures
        r@ == render_description(*doc),
{
    let mut out = owned("DESCRIPTION\n");
    paragraph_lines(&mut out, &doc.description);
    let ghost before = out@;
    if doc.subcommands.len() > 0 {
        append(&mut out, "  Available subcommands:\n");
        let ghost base = out@;
        let mut i: usize = 0;
        while i < doc.subcommands.len()
            invariant
                i <= doc.subcommands.len(),
                out@ == base + crate::text::concat_map(
                    doc.subcommands@.take(i as int),
                    |s: HelpSubcommand| subcommand_line(s),
                ),
            decreases doc.subcommands.len() - i,
        {
            proof {
                crate::text::lemma_concat_map_step(doc.subcommands@, |s: HelpSubcommand| subcommand_line(s), i as int);
            }
            let s = &doc.subcommands[i];
            append(&mut out, "    ");
            let name = padded(s.name.as_str(), 12);
            append(&mut out, name.as_str());
            append(&mut out, " ");
            append(&mut out, s.summary.as_str());
            append(&mut out, "\n");
            i = i + 1;
        }
        assert(doc.subcommands@.take(i as int) =~= doc.subcommands@);
    }
    append(&mut out, "\n");
    out
}

fn option_line_text(o: &HelpOption) -> (r: String)
    ensures
        r@ == option_line(*o),
{
    let mut out = owned("  ");
    let name = padded(o.name.as_str(), 18);
    append(&mut out, name.as_str());
    append(&mut out, " ");
    let value_name = padded(o.value_name.as_str(), 16);
    append(&mut out, value_name.as_str());
    append(&mut out, " default: ");
    let default_value = padded(o.default_value.as_str(), 18);
    append(&mut out, default_value.as_str());
    append(&mut out, " ");
    append(&mut out, o.description.as_str());
    append(&mut out, "\n");
    out
}

fn render_options_text(doc: &HelpDocument) -> (r: String)
    ensures
        r@ == render_options(*doc),
{
    let mut out = owned("OPTIONS\n");
    paragraph_lines(&mut out, &doc.arguments);
    if doc.options.len() == 0 && doc.arguments.len() == 0 {
        append(&mut out, "  (none)\n");
    } else {
        let ghost base = out@;
        let mut i: usize = 0;
        while i < doc.options.len()
            invariant
                i <= doc.options.len(),
                out@ == base + crate::text::concat_map(doc.options@.take(i as int), |o: HelpOption| option_line(o)),
            decreases doc.options.len() - i,
        {
            proof {
                crate::text::lemma_concat_map_step(doc.options@, |o: HelpOption| option_line(o), i as int);
            }
            let line = option_line_text(&doc.options[i]);
            append(&mut out, line.as_str());
            i = i + 1;
        }
        assert(doc.options@.take(i as int) =~= doc.options@);
    }
    append(&mut out, "\n");
    out
}

fn render_formats_text(doc: &HelpDocument) -> (r: String)
    ensures
        r@ == render_formats(*doc),
{
    let mut out = owned("FORMATS\n");
    append(&mut out, "  Structured formats: ");
    let formats = join(doc.output_formats.as_slice(), ", ");
    append(&mut out, formats.as_str());
    append(&mut out, "\n");
    append(&mut out, "  Streaming: ");
    append(&mut out, doc.feature_availability.streaming.as_str());
    append(&mut out, "\n");
    append(&mut out, "  REPL: ");
    append(&mut out, doc.feature_availability.repl.as_str());
    append(&mut out, "\n");
    append(&mut out, "  Daemon: ");
    append(&mut out, doc.feature_availability.daemon.as_str());
    append(&mut out, "\n\n");
    out
}

fn render_tail_text(doc: &HelpDocument) -> (r: String)
    ensures
        r@ == render_tail(*doc),
{
    let mut out = owned("EXAMPLES\n");
    let ghost base = out@;
    let mut i: usize = 0;
    while i < doc.examples.len()
        invariant
            i <= doc.examples.len(),
            out@ == base + crate::text::concat_map(doc.examples@.take(i as int), |e: HelpExample| example_lines(e)),
        decreases doc.examples.len() - i,
    {
        proof {
            crate::text::lemma_concat_map_step(doc.examples@, |e: HelpExample| example_lines(e), i as int);
        }
        let e = &doc.examples[i];
        append(&mut out, "  ");
        append(&mut out, e.command.as_str());
        append(&mut out, "\n");
        append(&mut out, "    ");
        append(&mut out, e.description.as_str());
        append(&mut out, "\n");
        i = i + 1;
    }
    assert(doc.examples@.take(i as int) =~= doc.examples@);
    append(&mut out, "\n");
    append(&mut out, "EXIT CODES\n");
    let ghost base2 = out@;
    let mut j: usize = 0;
    while j < doc.exit_behavior.len()
        invariant
            j <= doc.exit_behavior.len(),
            out@ == base2 + crate::text::concat_map(doc.exit_behavior@.take(j as int), |c: ExitCodeSpec| exit_line(c)),
        decreases doc.exit_behavior.len() - j,
    {
        proof {
            crate::text::lemma_concat_map_step(doc.exit_behavior@, |c: ExitCodeSpec| exit_line(c), j as int);
        }
        let c = &doc.exit_behavior[j];
        append(&mut out, "  ");
        let code = i32_text(c.code);
        append(&mut out, code.as_str());
        append(&mut out, "  ");
        append(&mut out, c.meaning.as_str());
        append(&mut out, "\n");
        j = j + 1;
    }
    assert(doc.exit_behavior@.take(j as int) =~= doc.exit_behavior@);
    out
}

/// The man-like plain-text help of a document (see `rendered`).
pub fn render_plain_text_help(doc: &HelpDocument) -> (r: String)
    ensures
        r@ == rendered(*doc),
{
    let mut out = render_head_text(doc);
    let description = render_description_text(doc);
    append(&mut out, description.as_str());
    let options = render_options_text(doc);
    append(&mut out, options.as_str());
    let formats = render_formats_text(doc);
    append(&mut out, formats.as_str());
    let tail = render_tail_text(doc);
    append(&mut out, tail.as_str());
    out
}

/// The plain-text help of a command path, if it has structured help.
pub fn plain_text_help(plan: &CliPlan, path: &[String]) -> (r: Option<String>)
    ensures
        r is Some <==> has_structured_help(*plan, views(path@)),
        r matches Some(text) ==> exists|d: HelpDocument|
            is_structured_help(*plan, views(path@), d) && text@ == rendered(d),
{
    match structured_help(plan, path) {
        Some(doc) => Some(render_plain_text_help(&doc)),
        None => None,
    }
}

/// The error for a help path that names no command.
pub open spec fn unknown_help_path_error(e: StructuredError, path: Seq<Seq<char>>, format: Format) -> bool {
    is_error(
        e,
        "help.unknown_path"@,
        "unknown help path '"@ + join_seq(path, " "@) + "'"@,
        "help_usage"@,
        format,
        Seq::empty(),
    )
}

/// The error for a help path that names no command.
pub fn unknown_help_path(path: &[String], format: Format) -> (e: StructuredError)
    ensures
        unknown_help_path_error(e, views(path@), format),
{
    let mut message = owned("unknown help path '");
    let joined = join(path, " ");
    append(&mut message, joined.as_str());
    append(&mut message, "'");
    StructuredError::new("help.unknown_path", message, "help_usage", format)
}

/// What `--help` prints for a command path: its plain-text help, or, for a
/// path that names no command, the error (in YAML, as `--help` has no
/// structured format).
pub fn plain_help_or_error(plan: &CliPlan, path: &[String]) -> (r: Result<String, StructuredError>)
    ensures
        r is Ok <==> has_structured_help(*plan, views(path@)),
        r matches Ok(text) ==> exists|d: HelpDocument|
            is_structured_help(*plan, views(path@), d) && text@ == rendered(d),
        r matches Err(e) ==> unknown_help_path_error(e, views(path@), Format::Yaml),
{
    match plain_text_help(plan, path) {
        Some(text) => Ok(text),
        None => Err(unknown_help_path(path, Format::Yaml)),
    }
}

/// What `help` answers for a command path: its structured help, or, for a
/// path that names no command, the error in the selected format.
pub fn structured_help_or_error(plan: &CliPlan, path: &[String], format: Format) -> (r: Result<
    HelpDocument,
    StructuredError,
>)
    ensures
        r is Ok <==> has_structured_help(*plan, views(path@)),
        r matches Ok(d) ==> is_structured_help(*plan, views(path@), d),
        r matches Err(e) ==> unknown_help_path_error(e, views(path@), format),
{
    match structured_help(plan, path) {
        Some(d) => Ok(d),
        None => Err(unknown_help_path(path, format)),
    }
}

} // verus!
