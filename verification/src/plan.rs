//! The command plan: the tree of planned commands, their flags and
//! positionals, the shared flag sets and the daemon and REPL contracts, with
//! the lookups that the rest of the CLI performs on it.

use vstd::prelude::*;

use crate::text::{join, join_seq, owned, str_eq, trim, trim_seq, views};

verus! {

broadcast use vstd::string::group_string_axioms;

pub struct DesignInheritance {
    pub purpose_summary: String,
}

pub struct CapabilityStatus {
    pub status: String,
}

pub struct Capabilities {
    pub stream: CapabilityStatus,
    pub repl: CapabilityStatus,
    pub daemon: CapabilityStatus,
}

/// One item of a sequence-valued default: a string is taken verbatim, any
/// other value by its YAML rendering (`None` when the rendering failed).
pub enum PlanScalar {
    Str(String),
    Rendered(Option<String>),
}

/// A default value declared in the plan.
pub enum PlanValue {
    Str(String),
    Bool(bool),
    /// A number, by its display text.
    Number(String),
    Sequence(Vec<PlanScalar>),
    /// Any other value, by its YAML rendering (`None` when it failed).
    Rendered(Option<String>),
}

pub struct PlannedFlag {
    pub name: String,
    pub value_type: String,
    pub required: bool,
    pub default: Option<PlanValue>,
    pub values: Vec<String>,
    pub description: String,
    pub repeatable: bool,
}

pub struct PlannedPositional {
    pub name: String,
    pub value_type: String,
    pub required: bool,
    pub default: Option<PlanValue>,
    pub description: String,
}

pub struct SharedFlagSet {
    pub description: String,
    pub flags: Vec<PlannedFlag>,
}

/// One entry of the plan's map from flag-set names to flag sets.
pub struct NamedFlagSet {
    pub name: String,
    pub set: SharedFlagSet,
}

pub enum SupportedFormats {
    List(Vec<String>),
    Text(String),
}

pub struct PlannedCommand {
    pub name: String,
    pub kind: String,
    pub summary: String,
    pub positionals: Vec<PlannedPositional>,
    pub flags: Vec<PlannedFlag>,
    pub shared_flag_sets: Vec<String>,
    pub subcommands: Vec<PlannedCommand>,
    pub supported_output_formats: Option<SupportedFormats>,
}

pub struct CommandsSection {
    pub top_level: Vec<PlannedCommand>,
}

pub struct DaemonTransports {
    pub local_default: String,
    pub tcp: String,
}

pub struct DaemonAuth {
    pub local_ipc: String,
    pub tcp: String,
}

pub struct DaemonRpc {
    pub protocol: String,
    pub methods: Vec<String>,
}

pub struct DaemonRuntimeArtifactsPlan {
    pub directory: String,
    pub files: Vec<String>,
}

pub struct DaemonContract {
    pub local_only_command_paths: Vec<String>,
    pub daemonizable_command_paths: Vec<String>,
    pub mode: String,
    pub instance_model: String,
    pub transports: DaemonTransports,
    pub auth: DaemonAuth,
    pub rpc: DaemonRpc,
    pub runtime_artifacts: DaemonRuntimeArtifactsPlan,
}

pub struct ReplContract {
    pub model: String,
    pub requires_active_session: bool,
    pub session_resolution: String,
    pub default_input_behavior: String,
    pub slash_commands: Vec<String>,
    pub help_channel: String,
    pub exit_triggers: Vec<String>,
    pub note: String,
}

/// The whole plan. `shared_flag_sets` holds one entry per set name.
pub struct CliPlan {
    pub design_inheritance: DesignInheritance,
    pub capabilities: Capabilities,
    pub shared_flag_sets: Vec<NamedFlagSet>,
    pub daemon_contract: DaemonContract,
    pub commands: CommandsSection,
    pub repl_contract: Option<ReplContract>,
}

/// A command found in the plan together with the path that reached it.
pub struct ResolvedCommand<'a> {
    pub path: Vec<String>,
    pub command: &'a PlannedCommand,
}

fn clone_strings(v: &Vec<String>) -> (r: Vec<String>)
    ensures
        r@ == v@,
{
    let c = v.clone();
    assert(c@ =~= v@);
    c
}

/// The position of the first command named `name` in `commands`, or -1.
pub open spec fn index_of_command(commands: Seq<PlannedCommand>, name: Seq<char>) -> int
    decreases commands.len(),
{
    if commands.len() == 0 {
        -1
    } else if commands[0].name@ == name {
        0
    } else {
        let k = index_of_command(commands.drop_first(), name);
        if k < 0 {
            -1
        } else {
            k + 1
        }
    }
}

/// The command reached by following `path` from `commands`: each segment
/// picks the first command of that name, the next segment searches its
/// subcommands.
pub open spec fn find_in(commands: Seq<PlannedCommand>, path: Seq<Seq<char>>) -> Option<
    PlannedCommand,
>
    decreases path.len(),
{
    if path.len() == 0 {
        None
    } else {
        let k = index_of_command(commands, path[0]);
        if k < 0 {
            None
        } else if path.len() == 1 {
            Some(commands[k])
        } else {
            find_in(commands[k].subcommands@, path.drop_first())
        }
    }
}

/// The command that the plan defines at `path`.
pub open spec fn plan_command(plan: CliPlan, path: Seq<Seq<char>>) -> Option<PlannedCommand> {
    find_in(plan.commands.top_level@, path)
}

/// The flags of the set named `name`: those of the first set of that name,
/// none when no set has it.
pub open spec fn set_flags(sets: Seq<NamedFlagSet>, name: Seq<char>) -> Seq<PlannedFlag>
    decreases sets.len(),
{
    if sets.len() == 0 {
        Seq::empty()
    } else if sets[0].name@ == name {
        sets[0].set.flags@
    } else {
        set_flags(sets.drop_first(), name)
    }
}

/// The flags of the named sets, in the order of `names`.
pub open spec fn shared_flags_of(sets: Seq<NamedFlagSet>, names: Seq<Seq<char>>) -> Seq<
    PlannedFlag,
>
    decreases names.len(),
{
    if names.len() == 0 {
        Seq::empty()
    } else {
        shared_flags_of(sets, names.drop_last()) + set_flags(sets, names.last())
    }
}

/// The command path written as its segments separated by single spaces.
pub open spec fn path_text(path: Seq<String>) -> Seq<char> {
    join_seq(views(path), " "@)
}

/// Whether some entry of `entries` equals `text`.
pub open spec fn listed(entries: Seq<String>, text: Seq<char>) -> bool {
    exists|i: int| 0 <= i < entries.len() && #[trigger] entries[i]@ == text
}

pub open spec fn default_formats() -> Seq<Seq<char>> {
    seq!["yaml"@, "json"@, "toml"@]
}

/// The output formats that a planned command supports.
pub open spec fn output_formats_of(command: PlannedCommand) -> Seq<Seq<char>> {
    match command.supported_output_formats {
        Some(SupportedFormats::List(values)) => views(values@),
        Some(SupportedFormats::Text(value)) => if value@ == "inherited_global_format"@ {
            default_formats()
        } else {
            seq![value@]
        },
        None => default_formats(),
    }
}

pub open spec fn bool_text(b: bool) -> Seq<char> {
    if b {
        "true"@
    } else {
        "false"@
    }
}

/// The text of a YAML rendering, trimmed; the fallback when it failed.
pub open spec fn rendered_text(r: Option<String>, fallback: Seq<char>) -> Seq<char> {
    match r {
        Some(t) => trim_seq(t@),
        None => trim_seq(fallback),
    }
}

pub open spec fn scalar_text(s: PlanScalar, fallback: Seq<char>) -> Seq<char> {
    match s {
        PlanScalar::Str(t) => t@,
        PlanScalar::Rendered(r) => rendered_text(r, fallback),
    }
}

/// How a default value is shown: strings verbatim, booleans and numbers by
/// their display text, sequences as their items joined by `, `, anything
/// else by its trimmed YAML rendering, and `fallback` when there is none.
pub open spec fn value_text(value: Option<PlanValue>, fallback: Seq<char>) -> Seq<char> {
    match value {
        Some(PlanValue::Str(s)) => s@,
        Some(PlanValue::Bool(b)) => bool_text(b),
        Some(PlanValue::Number(n)) => n@,
        Some(PlanValue::Sequence(items)) => join_seq(
            items@.map_values(|i: PlanScalar| scalar_text(i, fallback)),
            ", "@,
        ),
        Some(PlanValue::Rendered(r)) => rendered_text(r, fallback),
        None => fallback,
    }
}

/// The purpose summary inherited from the design.
pub fn purpose_summary(plan: &CliPlan) -> (r: &String)
    ensures
        r@ == plan.design_inheritance.purpose_summary@,
{
    &plan.design_inheritance.purpose_summary
}

/// Whether the capability `name` (`stream`, `repl` or `daemon`) has the
/// status `in_scope`; false for any other name.
pub fn capability_in_scope(plan: &CliPlan, name: &str) -> (r: bool)
    ensures
        r == ((name@ == "stream"@ && plan.capabilities.stream.status@ == "in_scope"@) || (name@
            == "repl"@ && plan.capabilities.repl.status@ == "in_scope"@) || (name@ == "daemon"@
            && plan.capabilities.daemon.status@ == "in_scope"@)),
{
    proof {
        reveal_strlit("stream");
        reveal_strlit("repl");
        reveal_strlit("daemon");
        assert("stream"@[0] != "repl"@[0]);
        assert("stream"@[0] != "daemon"@[0]);
        assert("repl"@[0] != "daemon"@[0]);
    }
    let caps = &plan.capabilities;
    if str_eq(name, "stream") {
        str_eq(caps.stream.status.as_str(), "in_scope")
    } else if str_eq(name, "repl") {
        str_eq(caps.repl.status.as_str(), "in_scope")
    } else if str_eq(name, "daemon") {
        str_eq(caps.daemon.status.as_str(), "in_scope")
    } else {
        false
    }
}

/// The top-level commands of the plan.
pub fn top_level_commands(plan: &CliPlan) -> (r: &Vec<PlannedCommand>)
    ensures
        r@ == plan.commands.top_level@,
{
    &plan.commands.top_level
}

/// The first command named `name`, by position.
fn position_of(commands: &Vec<PlannedCommand>, name: &str) -> (r: Option<usize>)
    ensures
        match r {
            Some(k) => k == index_of_command(commands@, name@) && k < commands.len(),
            None => index_of_command(commands@, name@) < 0,
        },
{
    let mut i: usize = 0;
    while i < commands.len()
        invariant
            i <= commands.len(),
            forall|j: int| 0 <= j < i ==> commands@[j].name@ != name@,
        decreases commands.len() - i,
    {
        if str_eq(commands[i].name.as_str(), name) {
            proof {
                lemma_index_of_first(commands@, name@, i as int);
            }
            return Some(i);
        }
        i = i + 1;
    }
    proof {
        lemma_index_of_absent(commands@, name@);
    }
    None
}

proof fn lemma_index_of_first(commands: Seq<PlannedCommand>, name: Seq<char>, i: int)
    requires
        0 <= i < commands.len(),
        commands[i].name@ == name,
        forall|j: int| 0 <= j < i ==> commands[j].name@ != name,
    ensures
        index_of_command(commands, name) == i,
    decreases i,
{
    if i > 0 {
        lemma_index_of_first(commands.drop_first(), name, i - 1);
    }
}

proof fn lemma_index_of_absent(commands: Seq<PlannedCommand>, name: Seq<char>)
    requires
        forall|j: int| 0 <= j < commands.len() ==> commands[j].name@ != name,
    ensures
        index_of_command(commands, name) < 0,
    decreases commands.len(),
{
    if commands.len() > 0 {
        lemma_index_of_absent(commands.drop_first(), name);
    }
}

/// Follows `path[from..]` through `commands`.
fn find_from<'a>(commands: &'a Vec<PlannedCommand>, path: &[String], from: usize) -> (r: Option<
    &'a PlannedCommand,
>)
    requires
        from <= path@.len(),
    ensures
        match r {
            Some(c) => find_in(commands@, views(path@).skip(from as int)) == Some(*c),
            None => find_in(commands@, views(path@).skip(from as int)) is None,
        },
    decreases path@.len() - from,
{
    let ghost rest = views(path@).skip(from as int);
    if from == path.len() {
        return None;
    }
    assert(rest[0] == path@[from as int]@);
    match position_of(commands, path[from].as_str()) {
        None => None,
        Some(k) => {
            if from + 1 == path.len() {
                Some(&commands[k])
            } else {
                assert(rest.drop_first() =~= views(path@).skip(from + 1));
                find_from(&commands[k].subcommands, path, from + 1)
            }
        },
    }
}

/// The command that the plan defines at `path`, with that path.
pub fn find_command<'a>(plan: &'a CliPlan, path: &[String]) -> (r: Option<ResolvedCommand<'a>>)
    ensures
        match r {
            Some(res) => plan_command(*plan, views(path@)) == Some(*res.command) && res.path@
                == path@,
            None => plan_command(*plan, views(path@)) is None,
        },
{
    assert(views(path@).skip(0) =~= views(path@));
    match find_from(&plan.commands.top_level, path, 0) {
        None => None,
        Some(command) => {
            let p = slice_from(path, 0);
            assert(p@ =~= path@);
            Some(ResolvedCommand { path: p, command })
        },
    }
}

/// How the first tokens of an invocation select a command: the two first
/// tokens when they name a command and its subcommand, else the first token;
/// the tokens that remain follow.
pub open spec fn token_match(plan: CliPlan, tokens: Seq<Seq<char>>) -> Option<
    (Seq<Seq<char>>, PlannedCommand, Seq<Seq<char>>),
> {
    if tokens.len() == 0 {
        None
    } else if tokens.len() >= 2 && plan_command(plan, tokens.take(2)) is Some {
        Some((tokens.take(2), plan_command(plan, tokens.take(2))->0, tokens.skip(2)))
    } else {
        match plan_command(plan, tokens.take(1)) {
            Some(c) => Some((tokens.take(1), c, tokens.skip(1))),
            None => None,
        }
    }
}

/// Selects the command named by the leading tokens, preferring a two-token
/// path, and returns it with the remaining tokens.
pub fn match_command_tokens<'a>(plan: &'a CliPlan, tokens: &[String]) -> (r: Option<
    (ResolvedCommand<'a>, Vec<String>),
>)
    ensures
        match r {
            Some((res, rest)) => token_match(*plan, views(tokens@)) == Some(
                (views(res.path@), *res.command, views(rest@)),
            ),
            None => token_match(*plan, views(tokens@)) is None,
        },
{
    let ghost t = views(tokens@);
    if tokens.len() == 0 {
        return None;
    }
    if tokens.len() >= 2 {
        let mut two: Vec<String> = Vec::new();
        two.push(tokens[0].clone());
        two.push(tokens[1].clone());
        assert(views(two@) =~= t.take(2));
        if let Some(command) = find_command(plan, two.as_slice()) {
            let rest = slice_from(tokens, 2);
            assert(views(rest@) =~= t.skip(2));
            return Some((command, rest));
        }
    }
    let mut one: Vec<String> = Vec::new();
    one.push(tokens[0].clone());
    assert(views(one@) =~= t.take(1));
    match find_command(plan, one.as_slice()) {
        Some(command) => {
            let rest = slice_from(tokens, 1);
            assert(views(rest@) =~= t.skip(1));
            Some((command, rest))
        },
        None => None,
    }
}

/// `tokens[from..]` as a vector.
pub fn slice_from(tokens: &[String], from: usize) -> (r: Vec<String>)
    requires
        from <= tokens@.len(),
    ensures
        r@ == tokens@.skip(from as int),
{
    let mut r: Vec<String> = Vec::new();
    let mut i = from;
    while i < tokens.len()
        invariant
            from <= i <= tokens@.len(),
            r@ == tokens@.subrange(from as int, i as int),
        decreases tokens@.len() - i,
    {
        r.push(tokens[i].clone());
        assert(r@ =~= tokens@.subrange(from as int, i + 1));
        i = i + 1;
    }
    assert(r@ =~= tokens@.skip(from as int));
    r
}

/// The dereferenced elements of a sequence of references.
pub open spec fn derefs<T>(s: Seq<&T>) -> Seq<T> {
    s.map_values(|r: &T| *r)
}

/// The set named `name`, if any: the first of that name.
fn set_named<'a>(sets: &'a Vec<NamedFlagSet>, name: &str) -> (r: Option<&'a NamedFlagSet>)
    ensures
        match r {
            Some(set) => set.set.flags@ == set_flags(sets@, name@),
            None => set_flags(sets@, name@) == Seq::<PlannedFlag>::empty(),
        },
{
    let mut i: usize = 0;
    assert(sets@.skip(0) =~= sets@);
    while i < sets.len()
        invariant
            i <= sets.len(),
            set_flags(sets@, name@) == set_flags(sets@.skip(i as int), name@),
        decreases sets.len() - i,
    {
        assert(sets@.skip(i as int).drop_first() =~= sets@.skip(i + 1));
        if str_eq(sets[i].name.as_str(), name) {
            return Some(&sets[i]);
        }
        i = i + 1;
    }
    None
}

/// The flags of the named shared flag sets, in the order of `names`; a name
/// that no set has contributes nothing.
pub fn shared_flags<'a>(plan: &'a CliPlan, names: &[String]) -> (r: Vec<&'a PlannedFlag>)
    ensures
        derefs(r@) == shared_flags_of(plan.shared_flag_sets@, views(names@)),
{
    let mut flags: Vec<&'a PlannedFlag> = Vec::new();
    let mut i: usize = 0;
    while i < names.len()
        invariant
            i <= names@.len(),
            derefs(flags@) == shared_flags_of(plan.shared_flag_sets@, views(names@.take(i as int))),
        decreases names@.len() - i,
    {
        let ghost before = derefs(flags@);
        match set_named(&plan.shared_flag_sets, names[i].as_str()) {
            Some(set) => {
                let mut j: usize = 0;
                while j < set.set.flags.len()
                    invariant
                        j <= set.set.flags.len(),
                        derefs(flags@) == before + set.set.flags@.take(j as int),
                    decreases set.set.flags.len() - j,
                {
                    let ghost prev = flags@;
                    flags.push(&set.set.flags[j]);
                    assert(flags@ == prev.push(&set.set.flags@[j as int]));
                    assert(derefs(flags@) =~= derefs(prev).push(set.set.flags@[j as int]));
                    assert(derefs(flags@) =~= before + set.set.flags@.take(j + 1));
                    j = j + 1;
                }
                assert(set.set.flags@.take(j as int) =~= set.set.flags@);
            },
            None => {
                assert(before + Seq::<PlannedFlag>::empty() =~= before);
            },
        }
        assert(views(names@.take(i + 1)).drop_last() =~= views(names@.take(i as int)));
        assert(views(names@.take(i + 1)).last() == names@[i as int]@);
        i = i + 1;
    }
    assert(names@.take(names@.len() as int) =~= names@);
    flags
}

/// Whether some entry of `entries` equals `text`.
fn is_listed(entries: &Vec<String>, text: &str) -> (r: bool)
    ensures
        r == listed(entries@, text@),
{
    let mut i: usize = 0;
    while i < entries.len()
        invariant
            i <= entries.len(),
            forall|j: int| 0 <= j < i ==> entries@[j]@ != text@,
        decreases entries.len() - i,
    {
        if str_eq(entries[i].as_str(), text) {
            return true;
        }
        i = i + 1;
    }
    false
}

/// Whether the daemon contract lists the command path as local-only.
pub fn is_local_only(plan: &CliPlan, path: &[String]) -> (r: bool)
    ensures
        r == listed(plan.daemon_contract.local_only_command_paths@, path_text(path@)),
{
    let joined = join(path, " ");
    is_listed(&plan.daemon_contract.local_only_command_paths, joined.as_str())
}

/// Whether the daemon contract lists the command path as daemonizable.
pub fn is_daemonizable(plan: &CliPlan, path: &[String]) -> (r: bool)
    ensures
        r == listed(plan.daemon_contract.daemonizable_command_paths@, path_text(path@)),
{
    let joined = join(path, " ");
    is_listed(&plan.daemon_contract.daemonizable_command_paths, joined.as_str())
}

/// `yaml`, `json` and `toml`.
pub fn default_output_formats() -> (r: Vec<String>)
    ensures
        views(r@) == default_formats(),
{
    let mut r: Vec<String> = Vec::new();
    r.push(owned("yaml"));
    r.push(owned("json"));
    r.push(owned("toml"));
    assert(views(r@) =~= default_formats());
    r
}

/// The output formats that `command` supports: its list, the three global
/// formats when it inherits them or declares none, else its single format.
pub fn planned_output_formats(command: &PlannedCommand) -> (r: Vec<String>)
    ensures
        views(r@) == output_formats_of(*command),
{
    match &command.supported_output_formats {
        Some(SupportedFormats::List(values)) => clone_strings(values),
        Some(SupportedFormats::Text(value)) => {
            if str_eq(value.as_str(), "inherited_global_format") {
                default_output_formats()
            } else {
                let mut r: Vec<String> = Vec::new();
                r.push(value.clone());
                assert(views(r@) =~= seq![value@]);
                r
            }
        },
        None => default_output_formats(),
    }
}

fn rendered_to_string(r: &Option<String>, fallback: &str) -> (s: String)
    ensures
        s@ == rendered_text(*r, fallback@),
{
    match r {
        Some(t) => trim(t.as_str()),
        None => trim(fallback),
    }
}

/// How a default value is shown in help (see `value_text`).
pub fn value_to_string(value: &Option<PlanValue>, fallback: &str) -> (r: String)
    ensures
        r@ == value_text(*value, fallback@),
{
    match value {
        Some(PlanValue::Str(s)) => s.clone(),
        Some(PlanValue::Bool(b)) => if *b {
            owned("true")
        } else {
            owned("false")
        },
        Some(PlanValue::Number(n)) => n.clone(),
        Some(PlanValue::Sequence(items)) => {
            let ghost texts = items@.map_values(|i: PlanScalar| scalar_text(i, fallback@));
            let mut parts: Vec<String> = Vec::new();
            let mut i: usize = 0;
            while i < items.len()
                invariant
                    i <= items.len(),
                    texts == items@.map_values(|i: PlanScalar| scalar_text(i, fallback@)),
                    views(parts@) == texts.take(i as int),
                decreases items.len() - i,
            {
                let text = match &items[i] {
                    PlanScalar::Str(s) => s.clone(),
                    PlanScalar::Rendered(r) => rendered_to_string(r, fallback),
                };
                assert(text@ == texts[i as int]);
                let ghost prev = parts@;
                parts.push(text);
                assert(views(parts@) =~= views(prev).push(texts[i as int]));
                assert(views(parts@) =~= texts.take(i + 1));
                i = i + 1;
            }
            assert(texts.take(items.len() as int) =~= texts);
            join(parts.as_slice(), ", ")
        },
        Some(PlanValue::Rendered(r)) => rendered_to_string(r, fallback),
        None => owned(fallback),
    }
}

} // verus!
