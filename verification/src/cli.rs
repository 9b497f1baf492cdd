//! Decisions of the command-line front end: the requested output format,
//! the global flags that follow a planned command path, the parsing of a
//! planned command's flags and positionals, and the ACP method name of a
//! command path.

use vstd::prelude::*;

use crate::args::{
    arg_view, entries_view, get, push_entry_item, push_item, put, set_entry, ArgEntry, ArgMap,
    ArgValue, ArgValueView,
};
use crate::output::{is_error, Format, StructuredError};
use crate::plan::{
    derefs, match_command_tokens, shared_flags, shared_flags_of, slice_from, token_match,
    CliPlan, PlannedCommand, PlannedFlag, PlannedPositional,
};
use crate::text::{
    append, join, join_seq, owned, push_char, starts_with, str_eq, strip_prefix, to_chars, views,
};

verus! {

broadcast use vstd::string::group_string_axioms;

// ---------------------------------------------------------------------------
// Output format requested on the command line
// ---------------------------------------------------------------------------

/// The format that a `--format` value names.
pub open spec fn format_named(token: Seq<char>) -> Option<Format> {
    if token == "yaml"@ {
        Some(Format::Yaml)
    } else if token == "json"@ {
        Some(Format::Json)
    } else if token == "toml"@ {
        Some(Format::Toml)
    } else {
        None
    }
}

/// The format named by `token`, YAML when it names none.
pub open spec fn format_or_yaml(token: Seq<char>) -> Format {
    match format_named(token) {
        Some(f) => f,
        None => Format::Yaml,
    }
}

/// The format requested by the first `--format=V`, or by the first `--format V`
/// or `-f V` that has a value after it, scanning from `i`; YAML when there is
/// none or it names no format.
pub open spec fn requested_format_from(args: Seq<Seq<char>>, i: int) -> Format
    decreases args.len() - i,
{
    if i < 0 || i >= args.len() {
        Format::Yaml
    } else if "--format="@.is_prefix_of(args[i]) {
        format_or_yaml(args[i].skip("--format="@.len() as int))
    } else if (args[i] == "--format"@ || args[i] == "-f"@) && i + 1 < args.len() {
        format_or_yaml(args[i + 1])
    } else {
        requested_format_from(args, i + 1)
    }
}

/// Parses a format name.
pub fn parse_format_token(token: &str) -> (r: Option<Format>)
    ensures
        r == format_named(token@),
{
    if str_eq(token, "yaml") {
        Some(Format::Yaml)
    } else if str_eq(token, "json") {
        Some(Format::Json)
    } else if str_eq(token, "toml") {
        Some(Format::Toml)
    } else {
        None
    }
}

/// The output format requested anywhere on the raw command line, found
/// before the full parse so that parse errors use it.
pub fn detect_requested_format(args: &[String]) -> (r: Format)
    ensures
        r == requested_format_from(views(args@), 0),
{
    let ghost a = views(args@);
    let mut i: usize = 0;
    while i < args.len()
        invariant
            i <= args@.len(),
            a == views(args@),
            requested_format_from(a, 0) == requested_format_from(a, i as int),
        decreases args@.len() - i,
    {
        let arg = args[i].as_str();
        if let Some(value) = strip_prefix(arg, "--format=") {
            return match parse_format_token(value.as_str()) {
                Some(f) => f,
                None => Format::Yaml,
            };
        }
        if (str_eq(arg, "--format") || str_eq(arg, "-f")) && i + 1 < args.len() {
            return match parse_format_token(args[i + 1].as_str()) {
                Some(f) => f,
                None => Format::Yaml,
            };
        }
        i = i + 1;
    }
    Format::Yaml
}

/// The name of a format, as `--format` takes it.
pub open spec fn format_name(f: Format) -> Seq<char> {
    match f {
        Format::Yaml => "yaml"@,
        Format::Json => "json"@,
        Format::Toml => "toml"@,
    }
}

/// Whether a token asks for a format: `--format=V`, `--format` or `-f`.
pub open spec fn is_format_flag(t: Seq<char>) -> bool {
    "--format="@.is_prefix_of(t) || t == "--format"@ || t == "-f"@
}

/// Tokens that ask for no format do not change the requested format.
proof fn lemma_skip_plain_tokens(args: Seq<Seq<char>>, i: int, j: int)
    requires
        0 <= i <= j <= args.len(),
        forall|k: int| i <= k < j ==> !is_format_flag(#[trigger] args[k]),
    ensures
        requested_format_from(args, i) == requested_format_from(args, j),
    decreases j - i,
{
    if i < j {
        lemma_skip_plain_tokens(args, i + 1, j);
    }
}

/// Every format name parses back to its format.
pub proof fn law_format_names_parse(f: Format)
    ensures
        format_named(format_name(f)) == Some(f),
{
    reveal_strlit("yaml");
    reveal_strlit("json");
    reveal_strlit("toml");
    assert("yaml"@[0] != "json"@[0]);
    assert("yaml"@[0] != "toml"@[0]);
    assert("json"@[0] != "toml"@[0]);
}

/// The first `--format F` or `-f F` on the command line decides the format,
/// wherever it stands, when no format flag comes before it.
pub proof fn law_first_format_flag_wins(args: Seq<Seq<char>>, i: int, f: Format)
    requires
        0 <= i,
        i + 1 < args.len(),
        forall|j: int| 0 <= j < i ==> !is_format_flag(#[trigger] args[j]),
        args[i] == "--format"@ || args[i] == "-f"@,
        args[i + 1] == format_name(f),
    ensures
        requested_format_from(args, 0) == f,
{
    lemma_skip_plain_tokens(args, 0, i);
    reveal_strlit("--format=");
    reveal_strlit("--format");
    reveal_strlit("-f");
    law_format_names_parse(f);
}

/// Without any format flag, the format is YAML.
pub proof fn law_format_defaults_to_yaml(args: Seq<Seq<char>>)
    requires
        forall|j: int| 0 <= j < args.len() ==> !is_format_flag(#[trigger] args[j]),
    ensures
        requested_format_from(args, 0) == Format::Yaml,
{
    lemma_skip_plain_tokens(args, 0, args.len() as int);
}

/// `None` for the version `latest`, the version itself otherwise.
pub fn version_if_not_latest(version: &str) -> (r: Option<&str>)
    ensures
        version@ == "latest"@ ==> r is None,
        version@ != "latest"@ ==> r == Some(version),
{
    if str_eq(version, "latest") {
        None
    } else {
        Some(version)
    }
}

// ---------------------------------------------------------------------------
// ACP method names
// ---------------------------------------------------------------------------

pub open spec fn ascii_upper(c: char) -> char {
    if 'a' <= c && c <= 'z' {
        ((c as u32) - 32) as char
    } else {
        c
    }
}

/// A path segment in camel case: every `-` is dropped and the character that
/// follows it is upper-cased; `cap` says whether the first character follows
/// a dropped `-`.
pub open spec fn camel(s: Seq<char>, cap: bool) -> Seq<char>
    decreases s.len(),
{
    if s.len() == 0 {
        Seq::empty()
    } else if s[0] == '-' {
        camel(s.drop_first(), true)
    } else if cap {
        seq![ascii_upper(s[0])] + camel(s.drop_first(), false)
    } else {
        seq![s[0]] + camel(s.drop_first(), false)
    }
}

/// The ACP method of a command path: its segments in camel case, joined by
/// `/`.
pub open spec fn acp_method(path: Seq<Seq<char>>) -> Seq<char> {
    join_seq(path.map_values(|s: Seq<char>| camel(s, false)), "/"@)
}

/// The ASCII upper case of a character (`char::to_ascii_uppercase`): `a`..`z`
/// become `A`..`Z`, every other character stays.
fn upper_ascii(c: char) -> (r: char)
    ensures
        r == ascii_upper(c),
{
    if 'a' <= c && c <= 'z' {
        let b: u8 = c as u8;
        (b - 32) as char
    } else {
        c
    }
}

fn camel_segment(segment: &str) -> (r: String)
    ensures
        r@ == camel(segment@, false),
{
    let x = to_chars(segment);
    let mut r = String::new();
    let mut cap = false;
    let mut i: usize = 0;
    assert(x@.skip(0) =~= x@);
    while i < x.len()
        invariant
            i <= x.len(),
            x@ == segment@,
            camel(segment@, false) == r@ + camel(x@.skip(i as int), cap),
        decreases x.len() - i,
    {
        let ch = x[i];
        assert(x@.skip(i as int).drop_first() =~= x@.skip(i + 1));
        if ch == '-' {
            cap = true;
        } else if cap {
            let u = upper_ascii(ch);
            push_char(&mut r, u);
            cap = false;
        } else {
            push_char(&mut r, ch);
        }
        i = i + 1;
    }
    r
}

/// The ACP method that a command path maps to, such as `portForward/create`
/// for `port-forward create`.
pub fn command_path_to_acp_method(path: &[String]) -> (r: String)
    ensures
        r@ == acp_method(views(path@)),
{
    let ghost segs = views(path@).map_values(|s: Seq<char>| camel(s, false));
    let mut parts: Vec<String> = Vec::new();
    let mut i: usize = 0;
    while i < path.len()
        invariant
            i <= path@.len(),
            segs == views(path@).map_values(|s: Seq<char>| camel(s, false)),
            views(parts@) == segs.take(i as int),
        decreases path@.len() - i,
    {
        let seg = camel_segment(path[i].as_str());
        let ghost prev = parts@;
        parts.push(seg);
        assert(views(parts@) =~= views(prev).push(segs[i as int]));
        assert(views(parts@) =~= segs.take(i + 1));
        i = i + 1;
    }
    assert(segs.take(path@.len() as int) =~= segs);
    join(parts.as_slice(), "/")
}

// ---------------------------------------------------------------------------
// Global flags written after a planned command path
// ---------------------------------------------------------------------------

/// The global options found among the tokens of a planned command, and the
/// tokens that remain for the command itself.
pub struct ExternalGlobalOptions {
    pub command_tokens: Vec<String>,
    pub trailing_help: bool,
    pub agent: Option<String>,
    pub workspace: Option<String>,
    pub session: Option<String>,
    pub selectors: Vec<String>,
    pub current_directory: Option<String>,
}

pub ghost struct GlobalsView {
    pub tokens: Seq<Seq<char>>,
    pub help: bool,
    pub agent: Option<Seq<char>>,
    pub workspace: Option<Seq<char>>,
    pub session: Option<Seq<char>>,
    pub selectors: Seq<Seq<char>>,
    pub cwd: Option<Seq<char>>,
}

pub open spec fn opt_view(o: Option<String>) -> Option<Seq<char>> {
    match o {
        Some(s) => Some(s@),
        None => None,
    }
}

pub open spec fn globals_view(g: ExternalGlobalOptions) -> GlobalsView {
    GlobalsView {
        tokens: views(g.command_tokens@),
        help: g.trailing_help,
        agent: opt_view(g.agent),
        workspace: opt_view(g.workspace),
        session: opt_view(g.session),
        selectors: views(g.selectors@),
        cwd: opt_view(g.current_directory),
    }
}

pub open spec fn no_globals() -> GlobalsView {
    GlobalsView {
        tokens: Seq::empty(),
        help: false,
        agent: None,
        workspace: None,
        session: None,
        selectors: Seq::empty(),
        cwd: None,
    }
}

/// Whether a flag that takes its value in the next token is one of the
/// global flags `--agent`, `--workspace`, `--session`, `--selector`, `--cwd`.
pub open spec fn spaced_global(t: Seq<char>) -> bool {
    t == "--agent"@ || t == "--workspace"@ || t == "--session"@ || t == "--selector"@ || t
        == "--cwd"@
}

/// `g` with the global flag `flag` set to `value`.
pub open spec fn set_global(g: GlobalsView, flag: Seq<char>, value: Seq<char>) -> GlobalsView {
    if flag == "--agent"@ {
        GlobalsView { agent: Some(value), ..g }
    } else if flag == "--workspace"@ {
        GlobalsView { workspace: Some(value), ..g }
    } else if flag == "--session"@ {
        GlobalsView { session: Some(value), ..g }
    } else if flag == "--selector"@ {
        GlobalsView { selectors: g.selectors.push(value), ..g }
    } else {
        GlobalsView { cwd: Some(value), ..g }
    }
}

/// The `--flag=` prefix of a global flag written with `=`, if `t` has one.
pub open spec fn joined_global(t: Seq<char>) -> Option<Seq<char>> {
    if "--agent="@.is_prefix_of(t) {
        Some("--agent"@)
    } else if "--workspace="@.is_prefix_of(t) {
        Some("--workspace"@)
    } else if "--session="@.is_prefix_of(t) {
        Some("--session"@)
    } else if "--selector="@.is_prefix_of(t) {
        Some("--selector"@)
    } else if "--cwd="@.is_prefix_of(t) {
        Some("--cwd"@)
    } else {
        None
    }
}

/// Scans the tokens from `i`: global flags written `--flag=value` or
/// `--flag value` set the option (a later one wins; selectors accumulate),
/// `--format V`, `-f V` and `--format=V` are skipped, `--help` and `-h` ask
/// for help, and every other token is kept in order. `Err(k)` when the flag
/// at `k` needs a value and is the last token.
pub open spec fn strip_from(t: Seq<Seq<char>>, i: int, g: GlobalsView) -> Result<GlobalsView, int>
    decreases t.len() - i,
{
    if i < 0 || i >= t.len() {
        Ok(g)
    } else {
        let tok = t[i];
        match joined_global(tok) {
            Some(flag) => strip_from(
                t,
                i + 1,
                set_global(g, flag, tok.skip(flag.len() + 1int)),
            ),
            None => if tok == "--format"@ || tok == "-f"@ {
                if i + 1 < t.len() {
                    strip_from(t, i + 2, g)
                } else {
                    Err(i)
                }
            } else if "--format="@.is_prefix_of(tok) {
                strip_from(t, i + 1, g)
            } else if tok == "--help"@ || tok == "-h"@ {
                strip_from(t, i + 1, GlobalsView { help: true, ..g })
            } else if spaced_global(tok) {
                if i + 1 < t.len() {
                    strip_from(t, i + 2, set_global(g, tok, t[i + 1]))
                } else {
                    Err(i)
                }
            } else {
                strip_from(t, i + 1, GlobalsView { tokens: g.tokens.push(tok), ..g })
            },
        }
    }
}

/// The error for a global flag `flag` given as the last token, with no value.
pub open spec fn missing_global_value(e: StructuredError, flag: Seq<char>, format: Format) -> bool {
    is_error(
        e,
        "usage.parse_error"@,
        "flag `"@ + flag + "` requires a value"@,
        "help_usage"@,
        format,
        Seq::empty(),
    )
}

fn missing_value_error(flag: &str, format: Format) -> (e: StructuredError)
    ensures
        missing_global_value(e, flag@, format),
{
    let mut message = owned("flag `");
    append(&mut message, flag);
    append(&mut message, "` requires a value");
    StructuredError::new("usage.parse_error", message, "help_usage", format)
}

/// Which global flag written with `=` starts `t`, as an index into the
/// order agent, workspace, session, selector, cwd; the length of its prefix.
fn joined_global_prefix(t: &str) -> (r: Option<(u8, String)>)
    ensures
        match r {
            Some((k, rest)) => joined_global(t@) is Some && k < 5 && global_name(k) == joined_global(t@)->0
                && rest@ == t@.skip(joined_global(t@)->0.len() + 1int),
            None => joined_global(t@) is None,
        },
{
    proof {
        reveal_strlit("--agent=");
        reveal_strlit("--agent");
        reveal_strlit("--workspace=");
        reveal_strlit("--workspace");
        reveal_strlit("--session=");
        reveal_strlit("--session");
        reveal_strlit("--selector=");
        reveal_strlit("--selector");
        reveal_strlit("--cwd=");
        reveal_strlit("--cwd");
    }
    if let Some(rest) = strip_prefix(t, "--agent=") {
        Some((0, rest))
    } else if let Some(rest) = strip_prefix(t, "--workspace=") {
        Some((1, rest))
    } else if let Some(rest) = strip_prefix(t, "--session=") {
        Some((2, rest))
    } else if let Some(rest) = strip_prefix(t, "--selector=") {
        Some((3, rest))
    } else if let Some(rest) = strip_prefix(t, "--cwd=") {
        Some((4, rest))
    } else {
        None
    }
}

/// The global flags in the order agent, workspace, session, selector, cwd.
pub open spec fn global_name(k: u8) -> Seq<char> {
    if k == 0 {
        "--agent"@
    } else if k == 1 {
        "--workspace"@
    } else if k == 2 {
        "--session"@
    } else if k == 3 {
        "--selector"@
    } else {
        "--cwd"@
    }
}

/// Which of the global flags that take a separate value `t` is.
fn spaced_global_index(t: &str) -> (r: Option<u8>)
    ensures
        match r {
            Some(k) => spaced_global(t@) && k < 5 && global_name(k) == t@,
            None => !spaced_global(t@),
        },
{
    if str_eq(t, "--agent") {
        Some(0)
    } else if str_eq(t, "--workspace") {
        Some(1)
    } else if str_eq(t, "--session") {
        Some(2)
    } else if str_eq(t, "--selector") {
        Some(3)
    } else if str_eq(t, "--cwd") {
        Some(4)
    } else {
        None
    }
}

proof fn lemma_global_names_distinct()
    ensures
        "--agent"@ != "--workspace"@,
        "--agent"@ != "--session"@,
        "--agent"@ != "--selector"@,
        "--agent"@ != "--cwd"@,
        "--workspace"@ != "--session"@,
        "--workspace"@ != "--selector"@,
        "--workspace"@ != "--cwd"@,
        "--session"@ != "--selector"@,
        "--session"@ != "--cwd"@,
        "--selector"@ != "--cwd"@,
{
    reveal_strlit("--agent");
    reveal_strlit("--workspace");
    reveal_strlit("--session");
    reveal_strlit("--selector");
    reveal_strlit("--cwd");
    assert("--agent"@.len() != "--workspace"@.len());
    assert("--agent"@.len() != "--session"@.len());
    assert("--agent"@.len() != "--selector"@.len());
    assert("--agent"@.len() != "--cwd"@.len());
    assert("--workspace"@.len() != "--session"@.len());
    assert("--workspace"@.len() != "--selector"@.len());
    assert("--workspace"@.len() != "--cwd"@.len());
    assert("--session"@[4] != "--selector"@[4]);
    assert("--session"@.len() != "--cwd"@.len());
    assert("--selector"@.len() != "--cwd"@.len());
}

fn apply_global(options: &mut ExternalGlobalOptions, k: u8, value: String)
    requires
        k < 5,
    ensures
        globals_view(*final(options)) == set_global(globals_view(*old(options)), global_name(k), value@),
{
    proof {
        lemma_global_names_distinct();
    }
    let ghost before = globals_view(*options);
    if k == 0 {
        options.agent = Some(value);
    } else if k == 1 {
        options.workspace = Some(value);
    } else if k == 2 {
        options.session = Some(value);
    } else if k == 3 {
        let ghost prev = options.selectors@;
        options.selectors.push(value);
        assert(views(options.selectors@) =~= views(prev).push(value@));
    } else {
        options.current_directory = Some(value);
    }
    assert(globals_view(*options) == set_global(before, global_name(k), value@));
}

/// Separates the global flags written after a planned command path from the
/// command's own tokens (see `strip_from`); a global flag that needs a value
/// but ends the line is a usage error.
pub fn strip_external_global_flags(tokens: &[String], format: Format) -> (r: Result<
    ExternalGlobalOptions,
    StructuredError,
>)
    ensures
        match r {
            Ok(g) => strip_from(views(tokens@), 0, no_globals()) == Ok::<GlobalsView, int>(
                globals_view(g),
            ),
            Err(e) => strip_from(views(tokens@), 0, no_globals()) is Err && missing_global_value(
                e,
                tokens@[strip_from(views(tokens@), 0, no_globals())->Err_0]@,
                format,
            ),
        },
{
    let ghost t = views(tokens@);
    let mut options = ExternalGlobalOptions {
        command_tokens: Vec::new(),
        trailing_help: false,
        agent: None,
        workspace: None,
        session: None,
        selectors: Vec::new(),
        current_directory: None,
    };
    assert(views(options.command_tokens@) =~= Seq::<Seq<char>>::empty());
    assert(views(options.selectors@) =~= Seq::<Seq<char>>::empty());
    assert(globals_view(options) == no_globals());
    let mut index: usize = 0;
    while index < tokens.len()
        invariant
            index <= tokens@.len(),
            t == views(tokens@),
            strip_from(t, 0, no_globals()) == strip_from(t, index as int, globals_view(options)),
        decreases tokens@.len() - index,
    {
        let token = tokens[index].as_str();
        assert(t[index as int] == token@);
        if let Some((k, rest)) = joined_global_prefix(token) {
            apply_global(&mut options, k, rest);
            index = index + 1;
            continue;
        }
        if str_eq(token, "--format") || str_eq(token, "-f") {
            if index + 1 >= tokens.len() {
                return Err(missing_value_error(token, format));
            }
            index = index + 2;
        } else if starts_with(token, "--format=") {
            index = index + 1;
        } else if str_eq(token, "--help") || str_eq(token, "-h") {
            options.trailing_help = true;
            index = index + 1;
        } else if let Some(k) = spaced_global_index(token) {
            if index + 1 >= tokens.len() {
                return Err(missing_value_error(token, format));
            }
            let value = tokens[index + 1].clone();
            assert(t[index + 1] == value@);
            apply_global(&mut options, k, value);
            index = index + 2;
        } else {
            let ghost prev = options.command_tokens@;
            options.command_tokens.push(tokens[index].clone());
            assert(views(options.command_tokens@) =~= views(prev).push(token@));
            index = index + 1;
        }
    }
    Ok(options)
}

/// The help path for the tokens of a planned command: the command that they
/// select, or their first two tokens when they select none.
pub fn external_help_path(plan: &CliPlan, tokens: &[String]) -> (r: Vec<String>)
    ensures
        views(r@) == match token_match(*plan, views(tokens@)) {
            Some((path, _, _)) => path,
            None => views(tokens@).take(if tokens@.len() < 2 { tokens@.len() as int } else { 2 }),
        },
{
    match match_command_tokens(plan, tokens) {
        Some((resolved, _)) => resolved.path,
        None => {
            let mut r: Vec<String> = Vec::new();
            let mut i: usize = 0;
            while i < tokens.len() && i < 2
                invariant
                    i <= tokens@.len(),
                    i <= 2,
                    r@ == tokens@.take(i as int),
                decreases 2 - i,
            {
                r.push(tokens[i].clone());
                assert(r@ =~= tokens@.take(i + 1));
                i = i + 1;
            }
            assert(views(r@) =~= views(tokens@).take(i as int));
            r
        },
    }
}

// ---------------------------------------------------------------------------
// Flags and positionals of a planned command
// ---------------------------------------------------------------------------

/// Why the tokens of a planned command were refused.
pub ghost enum InvocationFault {
    UnknownFlag(Seq<char>),
    MissingFlagValue(Seq<char>),
    MissingRequiredFlag(Seq<char>),
    MissingRequiredInput(Seq<char>),
    UnexpectedInput(Seq<char>),
}

/// The flags and positionals given to a planned command, by name.
pub struct ParsedExternalInvocation {
    pub positionals: Vec<ArgEntry>,
    pub flags: Vec<ArgEntry>,
}

/// The flags that a planned command accepts: its own, then those of its
/// shared flag sets.
pub open spec fn accepted_flags(plan: CliPlan, command: PlannedCommand) -> Seq<PlannedFlag> {
    command.flags@ + shared_flags_of(plan.shared_flag_sets@, views(command.shared_flag_sets@))
}

/// The position of the first flag named `name`, or -1.
pub open spec fn flag_index(flags: Seq<PlannedFlag>, name: Seq<char>) -> int
    decreases flags.len(),
{
    if flags.len() == 0 {
        -1
    } else if flags[0].name@ == name {
        0
    } else {
        let k = flag_index(flags.drop_first(), name);
        if k < 0 {
            -1
        } else {
            k + 1
        }
    }
}

/// Scans the tokens from `i`. A token that does not start with `--` is a
/// positional input, kept in order. Any other token must name a flag: a
/// `bool` flag is set to true; any other flag takes the next token as its
/// value, which a repeatable flag adds to its list and any other flag
/// replaces.
pub open spec fn scan_flags(
    flags: Seq<PlannedFlag>,
    t: Seq<Seq<char>>,
    i: int,
    free: Seq<Seq<char>>,
    m: ArgMap,
) -> Result<(Seq<Seq<char>>, ArgMap), InvocationFault>
    decreases t.len() - i,
{
    if i < 0 || i >= t.len() {
        Ok((free, m))
    } else if !"--"@.is_prefix_of(t[i]) {
        scan_flags(flags, t, i + 1, free.push(t[i]), m)
    } else {
        let k = flag_index(flags, t[i]);
        if k < 0 {
            Err(InvocationFault::UnknownFlag(t[i]))
        } else if flags[k].value_type@ == "bool"@ {
            scan_flags(flags, t, i + 1, free, put(m, flags[k].name@, ArgValueView::Bool(true)))
        } else if i + 1 >= t.len() {
            Err(InvocationFault::MissingFlagValue(flags[k].name@))
        } else if flags[k].repeatable {
            scan_flags(flags, t, i + 2, free, push_item(m, flags[k].name@, t[i + 1]))
        } else {
            scan_flags(flags, t, i + 2, free, put(m, flags[k].name@, ArgValueView::Text(t[i + 1])))
        }
    }
}

/// The first required flag, in declaration order, that `m` does not set.
pub open spec fn first_missing_required(flags: Seq<PlannedFlag>, m: ArgMap) -> Option<Seq<char>>
    decreases flags.len(),
{
    if flags.len() == 0 {
        None
    } else if flags[0].required && get(m, flags[0].name@) is None {
        Some(flags[0].name@)
    } else {
        first_missing_required(flags.drop_first(), m)
    }
}

/// Assigns the positional inputs `free[fi..]` to the positionals from `p` on:
/// a last positional of type `string_list` takes all that remain, any other
/// takes the next one; a required positional left without input and inputs
/// left over are refused.
pub open spec fn assign_positionals(
    pos: Seq<PlannedPositional>,
    p: int,
    free: Seq<Seq<char>>,
    fi: int,
    m: ArgMap,
) -> Result<ArgMap, InvocationFault>
    decreases pos.len() - p,
{
    if p < 0 || p >= pos.len() {
        if 0 <= fi < free.len() {
            Err(InvocationFault::UnexpectedInput(join_seq(free.skip(fi), " "@)))
        } else {
            Ok(m)
        }
    } else if pos[p].value_type@ == "string_list"@ && p + 1 == pos.len() {
        if pos[p].required && fi >= free.len() {
            Err(InvocationFault::MissingRequiredInput(pos[p].name@))
        } else {
            assign_positionals(
                pos,
                p + 1,
                free,
                free.len() as int,
                put(m, pos[p].name@, ArgValueView::List(free.skip(fi))),
            )
        }
    } else if 0 <= fi < free.len() {
        assign_positionals(pos, p + 1, free, fi + 1, put(m, pos[p].name@, ArgValueView::Text(free[fi])))
    } else if pos[p].required {
        Err(InvocationFault::MissingRequiredInput(pos[p].name@))
    } else {
        assign_positionals(pos, p + 1, free, fi, m)
    }
}

/// The positionals and flags that the tokens give to a command accepting
/// `flags` and `pos`, or why they are refused.
pub open spec fn parse_invocation(
    flags: Seq<PlannedFlag>,
    pos: Seq<PlannedPositional>,
    t: Seq<Seq<char>>,
) -> Result<(ArgMap, ArgMap), InvocationFault> {
    match scan_flags(flags, t, 0, Seq::empty(), Seq::empty()) {
        Err(f) => Err(f),
        Ok((free, fm)) => match first_missing_required(flags, fm) {
            Some(name) => Err(InvocationFault::MissingRequiredFlag(name)),
            None => match assign_positionals(pos, 0, free, 0, Seq::empty()) {
                Err(f) => Err(f),
                Ok(pm) => Ok((pm, fm)),
            },
        },
    }
}

/// The structured error that reports `fault` for the command at `path`.
pub open spec fn fault_error(e: StructuredError, fault: InvocationFault, path: Seq<char>, format: Format) -> bool {
    match fault {
        InvocationFault::UnknownFlag(t) => is_error(
            e,
            "command.unknown_flag"@,
            "unknown flag `"@ + t + "` for command `"@ + path + "`"@,
            "help_usage"@,
            format,
            Seq::empty(),
        ),
        InvocationFault::MissingFlagValue(n) => is_error(
            e,
            "command.missing_flag_value"@,
            "flag `"@ + n + "` requires a value"@,
            "leaf_validation"@,
            format,
            Seq::empty(),
        ),
        InvocationFault::MissingRequiredFlag(n) => is_error(
            e,
            "command.missing_required_flag"@,
            "missing required flag `"@ + n + "` for command `"@ + path + "`"@,
            "leaf_validation"@,
            format,
            Seq::empty(),
        ),
        InvocationFault::MissingRequiredInput(n) => is_error(
            e,
            "command.missing_required_input"@,
            "missing required positional `"@ + n + "` for command `"@ + path + "`"@,
            "leaf_validation"@,
            format,
            Seq::empty(),
        ),
        InvocationFault::UnexpectedInput(x) => is_error(
            e,
            "command.unexpected_input"@,
            "unexpected positional input `"@ + x + "` for command `"@ + path + "`"@,
            "help_usage"@,
            format,
            Seq::empty(),
        ),
    }
}

/// `a + x + b + path + c`.
fn message5(a: &str, x: &str, b: &str, path: &str, c: &str) -> (r: String)
    ensures
        r@ == a@ + x@ + b@ + path@ + c@,
{
    let mut r = owned(a);
    append(&mut r, x);
    append(&mut r, b);
    append(&mut r, path);
    append(&mut r, c);
    r
}

fn unknown_flag_error(t: &str, path: &str, format: Format) -> (e: StructuredError)
    ensures
        fault_error(e, InvocationFault::UnknownFlag(t@), path@, format),
{
    let m = message5("unknown flag `", t, "` for command `", path, "`");
    StructuredError::new("command.unknown_flag", m, "help_usage", format)
}

fn missing_flag_value_error(n: &str, path: &str, format: Format) -> (e: StructuredError)
    ensures
        fault_error(e, InvocationFault::MissingFlagValue(n@), path@, format),
{
    let mut m = owned("flag `");
    append(&mut m, n);
    append(&mut m, "` requires a value");
    StructuredError::new("command.missing_flag_value", m, "leaf_validation", format)
}

fn missing_required_flag_error(n: &str, path: &str, format: Format) -> (e: StructuredError)
    ensures
        fault_error(e, InvocationFault::MissingRequiredFlag(n@), path@, format),
{
    let m = message5("missing required flag `", n, "` for command `", path, "`");
    StructuredError::new("command.missing_required_flag", m, "leaf_validation", format)
}

fn missing_input_error(n: &str, path: &str, format: Format) -> (e: StructuredError)
    ensures
        fault_error(e, InvocationFault::MissingRequiredInput(n@), path@, format),
{
    let m = message5("missing required positional `", n, "` for command `", path, "`");
    StructuredError::new("command.missing_required_input", m, "leaf_validation", format)
}

fn unexpected_input_error(x: &str, path: &str, format: Format) -> (e: StructuredError)
    ensures
        fault_error(e, InvocationFault::UnexpectedInput(x@), path@, format),
{
    let m = message5("unexpected positional input `", x, "` for command `", path, "`");
    StructuredError::new("command.unexpected_input", m, "help_usage", format)
}

proof fn lemma_flag_index_first(flags: Seq<PlannedFlag>, name: Seq<char>, i: int)
    requires
        0 <= i < flags.len(),
        flags[i].name@ == name,
        forall|j: int| 0 <= j < i ==> flags[j].name@ != name,
    ensures
        flag_index(flags, name) == i,
    decreases i,
{
    if i > 0 {
        lemma_flag_index_first(flags.drop_first(), name, i - 1);
    }
}

proof fn lemma_flag_index_absent(flags: Seq<PlannedFlag>, name: Seq<char>)
    requires
        forall|j: int| 0 <= j < flags.len() ==> flags[j].name@ != name,
    ensures
        flag_index(flags, name) < 0,
    decreases flags.len(),
{
    if flags.len() > 0 {
        lemma_flag_index_absent(flags.drop_first(), name);
    }
}

/// The first flag named `name`.
fn find_flag(flags: &Vec<&PlannedFlag>, name: &str) -> (r: Option<usize>)
    ensures
        match r {
            Some(k) => k == flag_index(derefs(flags@), name@) && k < flags.len(),
            None => flag_index(derefs(flags@), name@) < 0,
        },
{
    let ghost f = derefs(flags@);
    let mut i: usize = 0;
    while i < flags.len()
        invariant
            i <= flags.len(),
            f == derefs(flags@),
            forall|j: int| 0 <= j < i ==> f[j].name@ != name@,
        decreases flags.len() - i,
    {
        assert(f[i as int] == *flags@[i as int]);
        if str_eq(flags[i].name.as_str(), name) {
            proof {
                lemma_flag_index_first(f, name@, i as int);
            }
            return Some(i);
        }
        i = i + 1;
    }
    proof {
        lemma_flag_index_absent(f, name@);
    }
    None
}

/// All flags that `command` accepts, its own first.
fn all_flags<'a>(plan: &'a CliPlan, command: &'a PlannedCommand) -> (r: Vec<&'a PlannedFlag>)
    ensures
        derefs(r@) == accepted_flags(*plan, *command),
{
    let mut all: Vec<&'a PlannedFlag> = Vec::new();
    let mut i: usize = 0;
    while i < command.flags.len()
        invariant
            i <= command.flags.len(),
            derefs(all@) == command.flags@.take(i as int),
        decreases command.flags.len() - i,
    {
        let ghost prev = all@;
        all.push(&command.flags[i]);
        assert(derefs(all@) =~= derefs(prev).push(command.flags@[i as int]));
        assert(derefs(all@) =~= command.flags@.take(i + 1));
        i = i + 1;
    }
    let shared = shared_flags(plan, command.shared_flag_sets.as_slice());
    let mut j: usize = 0;
    assert(command.flags@.take(i as int) =~= command.flags@);
    while j < shared.len()
        invariant
            j <= shared.len(),
            derefs(all@) == command.flags@ + derefs(shared@).take(j as int),
        decreases shared.len() - j,
    {
        let ghost prev = all@;
        all.push(shared[j]);
        assert(derefs(all@) =~= derefs(prev).push(*shared@[j as int]));
        assert(derefs(all@) =~= command.flags@ + derefs(shared@).take(j + 1));
        j = j + 1;
    }
    assert(derefs(shared@).take(j as int) =~= derefs(shared@));
    all
}

/// Parses the tokens of the planned `command` at `command_path` against the
/// flags and positionals that it declares (see `parse_invocation`); a refusal
/// is the structured error for it.
pub fn parse_external_invocation(
    plan: &CliPlan,
    command: &PlannedCommand,
    command_path: &str,
    tokens: &[String],
    format: Format,
) -> (r: Result<ParsedExternalInvocation, StructuredError>)
    ensures
        match r {
            Ok(parsed) => parse_invocation(
                accepted_flags(*plan, *command),
                command.positionals@,
                views(tokens@),
            ) == Ok::<(ArgMap, ArgMap), InvocationFault>(
                (entries_view(parsed.positionals@), entries_view(parsed.flags@)),
            ),
            Err(e) => match parse_invocation(
                accepted_flags(*plan, *command),
                command.positionals@,
                views(tokens@),
            ) {
                Err(fault) => fault_error(e, fault, command_path@, format),
                Ok(_) => false,
            },
        },
{
    let ghost t = views(tokens@);
    let all = all_flags(plan, command);
    let ghost fl = derefs(all@);
    let mut free: Vec<String> = Vec::new();
    let mut flags: Vec<ArgEntry> = Vec::new();
    assert(views(free@) =~= Seq::<Seq<char>>::empty());
    assert(entries_view(flags@) =~= Seq::empty());
    let mut index: usize = 0;
    while index < tokens.len()
        invariant
            index <= tokens@.len(),
            t == views(tokens@),
            fl == derefs(all@),
            fl == accepted_flags(*plan, *command),
            scan_flags(fl, t, 0, Seq::empty(), Seq::empty()) == scan_flags(
                fl,
                t,
                index as int,
                views(free@),
                entries_view(flags@),
            ),
        decreases tokens@.len() - index,
    {
        let token = tokens[index].as_str();
        assert(t[index as int] == token@);
        if !starts_with(token, "--") {
            let ghost prev = free@;
            free.push(tokens[index].clone());
            assert(views(free@) =~= views(prev).push(token@));
            index = index + 1;
            continue;
        }
        let k = match find_flag(&all, token) {
            Some(k) => k,
            None => {
                return Err(unknown_flag_error(token, command_path, format));
            },
        };
        let spec_flag: &PlannedFlag = all[k];
        assert(fl[k as int] == *spec_flag);
        if str_eq(spec_flag.value_type.as_str(), "bool") {
            set_entry(&mut flags, spec_flag.name.clone(), ArgValue::Bool(true));
            index = index + 1;
            continue;
        }
        if index + 1 >= tokens.len() {
            return Err(missing_flag_value_error(spec_flag.name.as_str(), command_path, format));
        }
        let value = tokens[index + 1].clone();
        assert(t[index + 1] == value@);
        if spec_flag.repeatable {
            push_entry_item(&mut flags, spec_flag.name.clone(), value);
        } else {
            set_entry(&mut flags, spec_flag.name.clone(), ArgValue::Text(value));
        }
        index = index + 2;
    }
    let ghost fm = entries_view(flags@);
    let ghost fr = views(free@);
    assert(scan_flags(fl, t, 0, Seq::empty(), Seq::empty()) == Ok::<(Seq<Seq<char>>, ArgMap), InvocationFault>((fr, fm)));
    let mut j: usize = 0;
    assert(fl.skip(0) =~= fl);
    while j < all.len()
        invariant
            j <= all.len(),
            fl == derefs(all@),
            fl == accepted_flags(*plan, *command),
            t == views(tokens@),
            fr == views(free@),
            scan_flags(fl, t, 0, Seq::empty(), Seq::empty()) == Ok::<(Seq<Seq<char>>, ArgMap), InvocationFault>((fr, fm)),
            fm == entries_view(flags@),
            first_missing_required(fl, fm) == first_missing_required(fl.skip(j as int), fm),
        decreases all.len() - j,
    {
        let f: &PlannedFlag = all[j];
        assert(fl.skip(j as int)[0] == *f);
        assert(fl.skip(j as int).drop_first() =~= fl.skip(j + 1));
        if f.required && crate::args::find_key(&flags, f.name.as_str()).is_none() {
            return Err(missing_required_flag_error(f.name.as_str(), command_path, format));
        }
        j = j + 1;
    }
    let ghost pos = command.positionals@;
    assert(first_missing_required(fl, fm) is None);
    let mut positionals: Vec<ArgEntry> = Vec::new();
    assert(entries_view(positionals@) =~= Seq::empty());
    let mut free_index: usize = 0;
    let mut p: usize = 0;
    while p < command.positionals.len()
        invariant
            p <= pos.len(),
            pos == command.positionals@,
            fr == views(free@),
            fl == accepted_flags(*plan, *command),
            t == views(tokens@),
            scan_flags(fl, t, 0, Seq::empty(), Seq::empty()) == Ok::<(Seq<Seq<char>>, ArgMap), InvocationFault>((fr, fm)),
            fm == entries_view(flags@),
            first_missing_required(fl, fm) is None,
            free_index <= free.len(),
            assign_positionals(pos, 0, fr, 0, Seq::empty()) == assign_positionals(
                pos,
                p as int,
                fr,
                free_index as int,
                entries_view(positionals@),
            ),
        decreases pos.len() - p,
    {
        let positional: &PlannedPositional = &command.positionals[p];
        let is_last = p + 1 == command.positionals.len();
        if str_eq(positional.value_type.as_str(), "string_list") && is_last {
            if positional.required && free_index >= free.len() {
                return Err(missing_input_error(positional.name.as_str(), command_path, format));
            }
            let remaining = slice_from(free.as_slice(), free_index);
            assert(views(remaining@) =~= fr.skip(free_index as int));
            set_entry(&mut positionals, positional.name.clone(), ArgValue::List(remaining));
            free_index = free.len();
        } else if free_index < free.len() {
            let value = free[free_index].clone();
            set_entry(&mut positionals, positional.name.clone(), ArgValue::Text(value));
            free_index = free_index + 1;
        } else if positional.required {
            return Err(missing_input_error(positional.name.as_str(), command_path, format));
        }
        p = p + 1;
    }
    if free_index < free.len() {
        let rest = slice_from(free.as_slice(), free_index);
        assert(views(rest@) =~= fr.skip(free_index as int));
        let unexpected = join(rest.as_slice(), " ");
        return Err(unexpected_input_error(unexpected.as_str(), command_path, format));
    }
    Ok(ParsedExternalInvocation { positionals, flags })
}

// ---------------------------------------------------------------------------
// Routing of a parsed invocation
// ---------------------------------------------------------------------------

/// Where a command runs.
#[derive(PartialEq, Eq, Structural, Clone, Copy, Debug)]
pub enum ExecutionMode {
    Local,
    Daemon,
}

#[derive(PartialEq, Eq, Structural, Clone, Copy, Debug)]
pub enum ContextAction {
    Show,
    Use,
}

#[derive(PartialEq, Eq, Structural, Clone, Copy, Debug)]
pub enum DaemonAction {
    Run,
    Start,
    Stop,
    Restart,
    Status,
    Session,
}

#[derive(PartialEq, Eq, Structural, Clone, Copy, Debug)]
pub enum RegistryAction {
    Search,
    List,
    Show,
    Installed,
    Install,
    Uninstall,
    Update,
}

/// Which built-in command the command line selected; a planned command is
/// `External` with its tokens.
pub enum CommandSelector {
    Help,
    Run,
    Paths,
    Context(Option<ContextAction>),
    Repl,
    Daemon(Option<DaemonAction>),
    Registry(Option<RegistryAction>),
    External(Vec<String>),
}

/// The name under which a command is refused daemon routing.
pub open spec fn local_only_name(command: Option<CommandSelector>) -> Seq<char> {
    match command {
        None => "help"@,
        Some(CommandSelector::Help) => "help"@,
        Some(CommandSelector::Paths) => "paths"@,
        Some(CommandSelector::Context(None)) => "context"@,
        Some(CommandSelector::Context(Some(ContextAction::Show))) => "context show"@,
        Some(CommandSelector::Context(Some(ContextAction::Use))) => "context use"@,
        Some(CommandSelector::Repl) => "repl"@,
        Some(CommandSelector::Daemon(_)) => "daemon"@,
        Some(CommandSelector::Registry(_)) => "registry"@,
        Some(CommandSelector::External(_)) => "command"@,
        Some(CommandSelector::Run) => "run"@,
    }
}

/// The name under which a command is refused daemon routing.
pub fn local_only_command_name(command: &Option<CommandSelector>) -> (r: &'static str)
    ensures
        r@ == local_only_name(*command),
{
    match command {
        None => "help",
        Some(CommandSelector::Help) => "help",
        Some(CommandSelector::Paths) => "paths",
        Some(CommandSelector::Context(None)) => "context",
        Some(CommandSelector::Context(Some(ContextAction::Show))) => "context show",
        Some(CommandSelector::Context(Some(ContextAction::Use))) => "context use",
        Some(CommandSelector::Repl) => "repl",
        Some(CommandSelector::Daemon(_)) => "daemon",
        Some(CommandSelector::Registry(_)) => "registry",
        Some(CommandSelector::External(_)) => "command",
        Some(CommandSelector::Run) => "run",
    }
}

/// The help path for the tokens of a planned command (see
/// `external_help_path`).
pub open spec fn external_help_of(plan: CliPlan, tokens: Seq<Seq<char>>) -> Seq<Seq<char>> {
    match token_match(plan, tokens) {
        Some((path, _, _)) => path,
        None => tokens.take(if tokens.len() < 2 { tokens.len() as int } else { 2 }),
    }
}

/// The command path whose human-readable help `--help` shows.
pub open spec fn help_path_of(plan: CliPlan, command: Option<CommandSelector>) -> Seq<Seq<char>> {
    match command {
        None => Seq::empty(),
        Some(CommandSelector::Help) => seq!["help"@],
        Some(CommandSelector::Run) => seq!["run"@],
        Some(CommandSelector::Paths) => seq!["paths"@],
        Some(CommandSelector::Context(None)) => seq!["context"@],
        Some(CommandSelector::Context(Some(ContextAction::Show))) => seq!["context"@, "show"@],
        Some(CommandSelector::Context(Some(ContextAction::Use))) => seq!["context"@, "use"@],
        Some(CommandSelector::Repl) => seq!["repl"@],
        Some(CommandSelector::Daemon(None)) => seq!["daemon"@],
        Some(CommandSelector::Daemon(Some(a))) => seq![
            "daemon"@,
            match a {
                DaemonAction::Run => "run"@,
                DaemonAction::Start => "start"@,
                DaemonAction::Stop => "stop"@,
                DaemonAction::Restart => "restart"@,
                DaemonAction::Status => "status"@,
                DaemonAction::Session => "session"@,
            },
        ],
        Some(CommandSelector::Registry(None)) => seq!["registry"@],
        Some(CommandSelector::Registry(Some(a))) => seq![
            "registry"@,
            match a {
                RegistryAction::Search => "search"@,
                RegistryAction::List => "list"@,
                RegistryAction::Show => "show"@,
                RegistryAction::Installed => "installed"@,
                RegistryAction::Install => "install"@,
                RegistryAction::Uninstall => "uninstall"@,
                RegistryAction::Update => "update"@,
            },
        ],
        Some(CommandSelector::External(tokens)) => external_help_of(plan, views(tokens@)),
    }
}

fn path1(a: &str) -> (r: Vec<String>)
    ensures
        views(r@) == seq![a@],
{
    let mut r: Vec<String> = Vec::new();
    r.push(owned(a));
    assert(views(r@) =~= seq![a@]);
    r
}

fn path2(a: &str, b: &str) -> (r: Vec<String>)
    ensures
        views(r@) == seq![a@, b@],
{
    let mut r: Vec<String> = Vec::new();
    r.push(owned(a));
    r.push(owned(b));
    assert(views(r@) =~= seq![a@, b@]);
    r
}

/// The command path whose human-readable help `--help` shows for the
/// selected command.
pub fn help_path_for_cli(plan: &CliPlan, command: &Option<CommandSelector>) -> (r: Vec<String>)
    ensures
        views(r@) == help_path_of(*plan, *command),
{
    match command {
        None => {
            let r: Vec<String> = Vec::new();
            assert(views(r@) =~= Seq::<Seq<char>>::empty());
            r
        },
        Some(CommandSelector::Help) => path1("help"),
        Some(CommandSelector::Run) => path1("run"),
        Some(CommandSelector::Paths) => path1("paths"),
        Some(CommandSelector::Context(None)) => path1("context"),
        Some(CommandSelector::Context(Some(ContextAction::Show))) => path2("context", "show"),
        Some(CommandSelector::Context(Some(ContextAction::Use))) => path2("context", "use"),
        Some(CommandSelector::Repl) => path1("repl"),
        Some(CommandSelector::Daemon(None)) => path1("daemon"),
        Some(CommandSelector::Daemon(Some(a))) => path2(
            "daemon",
            match a {
                DaemonAction::Run => "run",
                DaemonAction::Start => "start",
                DaemonAction::Stop => "stop",
                DaemonAction::Restart => "restart",
                DaemonAction::Status => "status",
                DaemonAction::Session => "session",
            },
        ),
        Some(CommandSelector::Registry(None)) => path1("registry"),
        Some(CommandSelector::Registry(Some(a))) => path2(
            "registry",
            match a {
                RegistryAction::Search => "search",
                RegistryAction::List => "list",
                RegistryAction::Show => "show",
                RegistryAction::Installed => "installed",
                RegistryAction::Install => "install",
                RegistryAction::Uninstall => "uninstall",
                RegistryAction::Update => "update",
            },
        ),
        Some(CommandSelector::External(tokens)) => external_help_path(plan, tokens.as_slice()),
    }
}

/// Whether the command is a group of built-in commands (`context`,
/// `daemon`, `registry`) given without one of them: it shows its help.
pub open spec fn group_without_action(command: Option<CommandSelector>) -> bool {
    ||| command matches Some(CommandSelector::Context(None))
    ||| command matches Some(CommandSelector::Daemon(None))
    ||| command matches Some(CommandSelector::Registry(None))
}

/// What to do with a parsed command line before running a command.
pub enum Dispatch {
    /// Show the human-readable help of this command path.
    Help(Vec<String>),
    /// Run the selected command.
    Execute,
}

/// The error for `--ensure-daemon` without `--via daemon`.
pub open spec fn ensure_without_daemon_error(e: StructuredError, format: Format) -> bool {
    is_error(
        e,
        "daemon.ensure_requires_via_daemon"@,
        "`--ensure-daemon` is only valid together with `--via daemon`"@,
        "daemon_routing"@,
        format,
        seq![("recommended_next_action"@, "retry with --via daemon or remove --ensure-daemon"@)],
    )
}

/// How a parsed command line is routed: `--ensure-daemon` needs
/// `--via daemon`; `--help` shows the help of the selected command; only
/// `run` and planned commands may go through the daemon; no command shows
/// the top-level help, and a group given without a command its own help;
/// anything else runs.
pub fn route_invocation(
    plan: &CliPlan,
    command: &Option<CommandSelector>,
    help: bool,
    via: ExecutionMode,
    ensure_daemon: bool,
    format: Format,
) -> (r: Result<Dispatch, StructuredError>)
    ensures
        ensure_daemon && via != ExecutionMode::Daemon ==> (r matches Err(e)
            && ensure_without_daemon_error(e, format)),
        !(ensure_daemon && via != ExecutionMode::Daemon) && help ==> (r matches Ok(Dispatch::Help(p))
            && views(p@) == help_path_of(*plan, *command)),
        !(ensure_daemon && via != ExecutionMode::Daemon) && !help && via == ExecutionMode::Daemon
            && !(*command matches Some(CommandSelector::Run)) && !(*command matches Some(
            CommandSelector::External(_),
        )) ==> (r matches Err(e) && crate::daemon::routing_error(e, format, local_only_name(*command))),
        !(ensure_daemon && via != ExecutionMode::Daemon) && !help && (via == ExecutionMode::Local
            || *command matches Some(CommandSelector::Run) || *command matches Some(
            CommandSelector::External(_),
        )) ==> (if *command is None {
            r matches Ok(Dispatch::Help(p)) && p@.len() == 0
        } else if group_without_action(*command) {
            r matches Ok(Dispatch::Help(p)) && views(p@) == help_path_of(*plan, *command)
        } else {
            r matches Ok(Dispatch::Execute)
        }),
{
    if ensure_daemon && via != ExecutionMode::Daemon {
        let e = StructuredError::new(
            "daemon.ensure_requires_via_daemon",
            owned("`--ensure-daemon` is only valid together with `--via daemon`"),
            "daemon_routing",
            format,
        );
        let e = e.with_detail(
            "recommended_next_action",
            "retry with --via daemon or remove --ensure-daemon",
        );
        assert(Seq::<(Seq<char>, Seq<char>)>::empty().push(("recommended_next_action"@, "retry with --via daemon or remove --ensure-daemon"@)) =~= seq![("recommended_next_action"@, "retry with --via daemon or remove --ensure-daemon"@)]);
        return Err(e);
    }
    if help {
        return Ok(Dispatch::Help(help_path_for_cli(plan, command)));
    }
    let routable = match command {
        Some(CommandSelector::Run) => true,
        Some(CommandSelector::External(_)) => true,
        _ => false,
    };
    if via == ExecutionMode::Daemon && !routable {
        let name = local_only_command_name(command);
        return Err(crate::daemon::daemon_routing_error(format, name));
    }
    match command {
        None => Ok(Dispatch::Help(Vec::new())),
        Some(CommandSelector::Context(None)) | Some(CommandSelector::Daemon(None)) | Some(
            CommandSelector::Registry(None),
        ) => Ok(Dispatch::Help(help_path_for_cli(plan, command))),
        Some(_) => Ok(Dispatch::Execute),
    }
}

// ---------------------------------------------------------------------------
// Planned commands
// ---------------------------------------------------------------------------

/// A planned command ready to run.
pub struct ExternalCall<'a> {
    pub globals: ExternalGlobalOptions,
    pub path: Vec<String>,
    pub command: &'a PlannedCommand,
    pub parsed: ParsedExternalInvocation,
    /// The ACP method that the command path maps to.
    pub method: String,
    /// Whether the daemon contract lists the path as daemonizable.
    pub daemonizable: bool,
}

/// What the tokens of a planned command lead to.
pub enum ExternalStep<'a> {
    Help(Vec<String>),
    Execute(ExternalCall<'a>),
}

/// The error for tokens that select no planned command.
pub open spec fn unknown_path_error(e: StructuredError, tokens: Seq<Seq<char>>, format: Format) -> bool {
    is_error(
        e,
        "command.unknown_path"@,
        "unknown command path '"@ + join_seq(tokens, " "@) + "'"@,
        "help_usage"@,
        format,
        Seq::empty(),
    )
}

/// Where the tokens of a planned command lead, in outline.
pub enum ExternalOutcome {
    /// The human-readable help of this command path.
    Help(Seq<Seq<char>>),
    /// A structured error.
    Refused,
    /// The command at this path runs.
    Run(Seq<Seq<char>>),
}

/// Where the tokens of a planned command lead (see `plan_external`).
pub open spec fn external_outcome(plan: CliPlan, via: ExecutionMode, tokens: Seq<Seq<char>>) -> ExternalOutcome {
    match strip_from(tokens, 0, no_globals()) {
        Err(_) => ExternalOutcome::Refused,
        Ok(g) => if g.help {
            ExternalOutcome::Help(external_help_of(plan, g.tokens))
        } else {
            match token_match(plan, g.tokens) {
                None => ExternalOutcome::Refused,
                Some((path, command, rest)) => if command.kind@ == "group"@ && rest.len() == 0 {
                    ExternalOutcome::Help(path)
                } else if via == ExecutionMode::Daemon && listed_local_only(plan, path) {
                    ExternalOutcome::Refused
                } else {
                    match parse_invocation(accepted_flags(plan, command), command.positionals@, rest) {
                        Err(_) => ExternalOutcome::Refused,
                        Ok(_) => ExternalOutcome::Run(path),
                    }
                },
            }
        },
    }
}

/// The outline of what `plan_external` answered.
pub open spec fn step_outcome(r: Result<ExternalStep, StructuredError>) -> ExternalOutcome {
    match r {
        Ok(ExternalStep::Help(p)) => ExternalOutcome::Help(views(p@)),
        Ok(ExternalStep::Execute(call)) => ExternalOutcome::Run(views(call.path@)),
        Err(_) => ExternalOutcome::Refused,
    }
}

/// A planned command shows help only when `--help` was given, or when it
/// selected a group and nothing after it: a leaf command never shows help
/// on its own, whatever is wrong with its input.
pub proof fn law_leaf_commands_never_show_help(plan: CliPlan, via: ExecutionMode, tokens: Seq<Seq<char>>)
    ensures
        external_outcome(plan, via, tokens) matches ExternalOutcome::Help(p) ==> ({
            let g = strip_from(tokens, 0, no_globals())->Ok_0;
            ||| g.help
            ||| (token_match(plan, g.tokens) matches Some((path, command, rest)) && command.kind@ == "group"@
                && rest.len() == 0 && p == path)
        }),
{
}

/// Tokens that select a group and nothing after it, without `--help`, show
/// the group's help.
pub proof fn law_groups_show_help(plan: CliPlan, via: ExecutionMode, tokens: Seq<Seq<char>>)
    requires
        strip_from(tokens, 0, no_globals()) is Ok,
        !strip_from(tokens, 0, no_globals())->Ok_0.help,
        token_match(plan, strip_from(tokens, 0, no_globals())->Ok_0.tokens) is Some,
        token_match(plan, strip_from(tokens, 0, no_globals())->Ok_0.tokens)->Some_0.1.kind@ == "group"@,
        token_match(plan, strip_from(tokens, 0, no_globals())->Ok_0.tokens)->Some_0.2.len() == 0,
    ensures
        external_outcome(plan, via, tokens) == ExternalOutcome::Help(
            token_match(plan, strip_from(tokens, 0, no_globals())->Ok_0.tokens)->Some_0.0,
        ),
{
}

/// The decisions taken on the tokens of a planned command before anything
/// runs: global flags are separated (a usage error when one lacks its
/// value); a trailing `--help` shows the help of the selected path; tokens
/// that select no command are refused; a group given no further tokens shows
/// its help; a local-only command routed to the daemon is refused; the
/// command's own flags and positionals are parsed.
pub fn plan_external<'a>(
    plan: &'a CliPlan,
    via: ExecutionMode,
    tokens: &[String],
    format: Format,
) -> (r: Result<ExternalStep<'a>, StructuredError>)
    ensures
        step_outcome(r) == external_outcome(*plan, via, views(tokens@)),
        ({
            let sg = strip_from(views(tokens@), 0, no_globals());
            match sg {
                Err(k) => r matches Err(e) && missing_global_value(e, tokens@[k]@, format),
                Ok(g) => if g.help {
                    r matches Ok(ExternalStep::Help(p)) && views(p@) == external_help_of(*plan, g.tokens)
                } else {
                    match token_match(*plan, g.tokens) {
                        None => r matches Err(e) && unknown_path_error(e, g.tokens, format),
                        Some((path, command, rest)) => if command.kind@ == "group"@ && rest.len() == 0 {
                            r matches Ok(ExternalStep::Help(p)) && views(p@) == path
                        } else if via == ExecutionMode::Daemon && listed_local_only(*plan, path) {
                            r matches Err(e) && crate::daemon::routing_error(e, format, join_seq(path, " "@))
                        } else {
                            match parse_invocation(
                                accepted_flags(*plan, command),
                                command.positionals@,
                                rest,
                            ) {
                                Err(fault) => r matches Err(e) && fault_error(e, fault, join_seq(path, " "@), format),
                                Ok((pm, fm)) => r matches Ok(ExternalStep::Execute(call))
                                    && globals_view(call.globals) == g
                                    && views(call.path@) == path
                                    && *call.command == command
                                    && entries_view(call.parsed.positionals@) == pm
                                    && entries_view(call.parsed.flags@) == fm
                                    && call.method@ == acp_method(path)
                                    && call.daemonizable == crate::plan::listed(
                                        plan.daemon_contract.daemonizable_command_paths@,
                                        join_seq(path, " "@),
                                    ),
                            }
                        },
                    }
                },
            }
        }),
{
    let globals = strip_external_global_flags(tokens, format)?;
    if globals.trailing_help {
        let p = external_help_path(plan, globals.command_tokens.as_slice());
        return Ok(ExternalStep::Help(p));
    }
    let (resolved, remaining) = match match_command_tokens(plan, globals.command_tokens.as_slice()) {
        Some(found) => found,
        None => {
            let mut message = owned("unknown command path '");
            let joined = join(globals.command_tokens.as_slice(), " ");
            append(&mut message, joined.as_str());
            append(&mut message, "'");
            return Err(StructuredError::new("command.unknown_path", message, "help_usage", format));
        },
    };
    if str_eq(resolved.command.kind.as_str(), "group") && remaining.len() == 0 {
        return Ok(ExternalStep::Help(resolved.path));
    }
    let joined_path = join(resolved.path.as_slice(), " ");
    if via == ExecutionMode::Daemon && crate::plan::is_local_only(plan, resolved.path.as_slice()) {
        return Err(crate::daemon::daemon_routing_error(format, joined_path.as_str()));
    }
    let parsed = parse_external_invocation(
        plan,
        resolved.command,
        joined_path.as_str(),
        remaining.as_slice(),
        format,
    )?;
    let method = command_path_to_acp_method(resolved.path.as_slice());
    let daemonizable = crate::plan::is_daemonizable(plan, resolved.path.as_slice());
    Ok(
        ExternalStep::Execute(
            ExternalCall {
                globals,
                path: resolved.path,
                command: resolved.command,
                parsed,
                method,
                daemonizable,
            },
        ),
    )
}

/// Whether the daemon contract lists the path as local-only.
pub open spec fn listed_local_only(plan: CliPlan, path: Seq<Seq<char>>) -> bool {
    crate::plan::listed(plan.daemon_contract.local_only_command_paths@, join_seq(path, " "@))
}

/// `m` with every entry of `entries` set in turn.
pub open spec fn put_all(m: ArgMap, entries: ArgMap) -> ArgMap
    decreases entries.len(),
{
    if entries.len() == 0 {
        m
    } else {
        put_all(put(m, entries[0].0, entries[0].1), entries.drop_first())
    }
}

/// The parameters of the ACP request for a planned command: `sessionId`,
/// `workspace` when one is given, then every positional and every flag by
/// name, a later one replacing an earlier one of the same name.
pub open spec fn request_params(
    session_id: Seq<char>,
    workspace: Option<Seq<char>>,
    positionals: ArgMap,
    flags: ArgMap,
) -> ArgMap {
    let base = put(Seq::empty(), "sessionId"@, ArgValueView::Text(session_id));
    let with_workspace = match workspace {
        Some(w) => put(base, "workspace"@, ArgValueView::Text(w)),
        None => base,
    };
    put_all(put_all(with_workspace, positionals), flags)
}

fn copy_value(v: &ArgValue) -> (r: ArgValue)
    ensures
        arg_view(r) == arg_view(*v),
{
    match v {
        ArgValue::Bool(b) => ArgValue::Bool(*b),
        ArgValue::Text(t) => ArgValue::Text(t.clone()),
        ArgValue::List(l) => {
            let c = l.clone();
            assert(c@ =~= l@);
            ArgValue::List(c)
        },
    }
}

fn set_all(params: &mut Vec<ArgEntry>, entries: &Vec<ArgEntry>)
    ensures
        entries_view(final(params)@) == put_all(entries_view(old(params)@), entries_view(entries@)),
{
    let ghost e = entries_view(entries@);
    let ghost start = entries_view(params@);
    let mut i: usize = 0;
    assert(e.skip(0) =~= e);
    while i < entries.len()
        invariant
            i <= entries.len(),
            e == entries_view(entries@),
            put_all(start, e) == put_all(entries_view(params@), e.skip(i as int)),
        decreases entries.len() - i,
    {
        assert(e.skip(i as int)[0] == (entries@[i as int].key@, arg_view(entries@[i as int].value)));
        assert(e.skip(i as int).drop_first() =~= e.skip(i + 1));
        set_entry(params, entries[i].key.clone(), copy_value(&entries[i].value));
        i = i + 1;
    }
}

/// The parameters of the ACP request that runs a planned command.
pub fn acp_request_params(
    session_id: &str,
    workspace: Option<&str>,
    parsed: &ParsedExternalInvocation,
) -> (r: Vec<ArgEntry>)
    ensures
        entries_view(r@) == request_params(
            session_id@,
            match workspace {
                Some(w) => Some(w@),
                None => None,
            },
            entries_view(parsed.positionals@),
            entries_view(parsed.flags@),
        ),
{
    let mut params: Vec<ArgEntry> = Vec::new();
    assert(entries_view(params@) =~= Seq::empty());
    set_entry(&mut params, owned("sessionId"), ArgValue::Text(owned(session_id)));
    if let Some(w) = workspace {
        set_entry(&mut params, owned("workspace"), ArgValue::Text(owned(w)));
    }
    set_all(&mut params, &parsed.positionals);
    set_all(&mut params, &parsed.flags);
    params
}

} // verus!
