//! The checks one invocation makes before it does any work, and the
//! structured errors it answers when one of them fails.

use vstd::prelude::*;

use crate::context::InvocationContextOverrides;
use crate::daemon::DaemonStatus;
use crate::output::{is_error, ContextEntry, Format, StructuredError};
use crate::text::{append, join, join_seq, owned, str_eq, views};

verus! {

broadcast use vstd::string::group_string_axioms;

pub const RUN_MISSING_INPUT: &'static str = "the run command requires <INPUT>; use --help for man-like human-readable help";
pub const RUN_MISSING_AGENT: &'static str = "no agent specified — use --agent <name> or set an active agent via context";
pub const EXTERNAL_MISSING_AGENT: &'static str = "no agent specified; use --agent <name> or set a default with context use --agent <name>";
pub const CONTEXT_MISSING_VALUES: &'static str = "provide at least one of --agent, --workspace, --session, --selector, --cwd, --name, or --clear when persisting an Active Context";
pub const START_DAEMON_HINT: &'static str = "retry with --ensure-daemon or run `acp-agent-cli daemon start`";
pub const STATUS_DAEMON_HINT: &'static str = "run `acp-agent-cli daemon status` or retry with --ensure-daemon";
pub const RUN_LOCALLY_HINT: &'static str = "run `acp-agent-cli daemon status` or retry locally";
pub const LIFECYCLE_HINT: &'static str = "run `acp-agent-cli daemon status` or inspect state/daemon artifacts";

/// The text of an optional string.
pub open spec fn opt_text(o: Option<String>) -> Option<Seq<char>> {
    match o {
        Some(s) => Some(s@),
        None => None,
    }
}

/// The first of two optional values that is given.
pub open spec fn first_given(a: Option<String>, b: Option<String>) -> Option<Seq<char>> {
    match a {
        Some(x) => Some(x@),
        None => opt_text(b),
    }
}

/// The prompt of `run`, which the command requires.
pub fn run_input(input: Option<String>, format: Format) -> (r: Result<String, StructuredError>)
    ensures
        match input {
            Some(i) => r matches Ok(x) && x@ == i@,
            None => r matches Err(e) && is_error(
                e,
                "run.missing_input"@,
                RUN_MISSING_INPUT@,
                "leaf_validation"@,
                format,
                seq![("command"@, "run"@)],
            ),
        },
{
    match input {
        Some(i) => Ok(i),
        None => {
            let e = StructuredError::new("run.missing_input", owned(RUN_MISSING_INPUT), "leaf_validation", format);
            let e = e.with_detail("command", "run");
            assert(Seq::<(Seq<char>, Seq<char>)>::empty().push(("command"@, "run"@)) =~= seq![("command"@, "run"@)]);
            Err(e)
        },
    }
}

/// The agent that `run` prompts: the one given on the command line, else
/// the one of the Active Context.
pub fn run_agent(given: Option<String>, persisted: Option<String>, format: Format) -> (r: Result<
    String,
    StructuredError,
>)
    ensures
        match first_given(given, persisted) {
            Some(a) => r matches Ok(x) && x@ == a,
            None => r matches Err(e) && is_error(
                e,
                "run.missing_agent"@,
                RUN_MISSING_AGENT@,
                "agent_resolution"@,
                format,
                Seq::empty(),
            ),
        },
{
    match given {
        Some(a) => Ok(a),
        None => match persisted {
            Some(a) => Ok(a),
            None => Err(StructuredError::new("run.missing_agent", owned(RUN_MISSING_AGENT), "agent_resolution", format)),
        },
    }
}

/// The agent that a planned command talks to: the one given after the
/// command path, else the one given before it.
pub fn external_agent(after_path: Option<String>, before_path: Option<String>, format: Format) -> (r: Result<
    String,
    StructuredError,
>)
    ensures
        match first_given(after_path, before_path) {
            Some(a) => r matches Ok(x) && x@ == a,
            None => r matches Err(e) && is_error(
                e,
                "external.missing_agent"@,
                EXTERNAL_MISSING_AGENT@,
                "external_validation"@,
                format,
                Seq::empty(),
            ),
        },
{
    match after_path {
        Some(a) => Ok(a),
        None => match before_path {
            Some(a) => Ok(a),
            None => Err(
                StructuredError::new(
                    "external.missing_agent",
                    owned(EXTERNAL_MISSING_AGENT),
                    "external_validation",
                    format,
                ),
            ),
        },
    }
}

/// Whether `context use` was given anything to persist.
pub open spec fn gives_context_values(given: InvocationContextOverrides, name: Option<String>, clear: bool) -> bool {
    ||| given.selectors@.len() > 0
    ||| given.current_directory is Some
    ||| given.agent is Some
    ||| given.workspace is Some
    ||| given.session_id is Some
    ||| name is Some
    ||| clear
}

/// `context use` needs at least one value, a name, or `--clear`.
pub fn check_context_use(given: &InvocationContextOverrides, name: &Option<String>, clear: bool, format: Format) -> (r:
    Result<(), StructuredError>)
    ensures
        gives_context_values(*given, *name, clear) ==> r is Ok,
        !gives_context_values(*given, *name, clear) ==> (r matches Err(e) && is_error(
            e,
            "context.missing_values"@,
            CONTEXT_MISSING_VALUES@,
            "runtime_state"@,
            format,
            Seq::empty(),
        )),
{
    if given.selectors.len() == 0 && given.current_directory.is_none() && given.agent.is_none()
        && given.workspace.is_none() && given.session_id.is_none() && name.is_none() && !clear {
        Err(StructuredError::new("context.missing_values", owned(CONTEXT_MISSING_VALUES), "runtime_state", format))
    } else {
        Ok(())
    }
}

/// The message for a daemonized command while the daemon is not running.
pub open spec fn needs_daemon_message(command: Seq<char>) -> Seq<char> {
    "the command '"@ + command + "' requires a running daemon; start it first or pass --ensure-daemon"@
}

/// A planned command routed to the daemon runs only while the daemon is
/// running: `status` is what asking for the daemon's status (after starting
/// it, where asked to) gave, or why that failed.
pub fn daemon_gate(command: &str, status: Result<&DaemonStatus, String>, format: Format) -> (r: Result<
    (),
    StructuredError,
>)
    ensures
        match status {
            Ok(s) => if s.state@ == "running"@ {
                r is Ok
            } else {
                r matches Err(e) && is_error(
                    e,
                    "daemon.execution_failed"@,
                    needs_daemon_message(command@),
                    "daemon_routing"@,
                    format,
                    seq![("recommended_next_action"@, START_DAEMON_HINT@)],
                )
            },
            Err(m) => r matches Err(e) && is_error(
                e,
                "daemon.execution_failed"@,
                m@,
                "daemon_routing"@,
                format,
                seq![("recommended_next_action"@, STATUS_DAEMON_HINT@)],
            ),
        },
{
    match status {
        Ok(s) => {
            if str_eq(s.state.as_str(), "running") {
                Ok(())
            } else {
                let mut message = owned("the command '");
                append(&mut message, command);
                append(&mut message, "' requires a running daemon; start it first or pass --ensure-daemon");
                let e = StructuredError::new("daemon.execution_failed", message, "daemon_routing", format);
                let e = e.with_detail("recommended_next_action", START_DAEMON_HINT);
                assert(Seq::<(Seq<char>, Seq<char>)>::empty().push(("recommended_next_action"@, START_DAEMON_HINT@))
                    =~= seq![("recommended_next_action"@, START_DAEMON_HINT@)]);
                Err(e)
            }
        },
        Err(m) => {
            let e = StructuredError::new("daemon.execution_failed", m, "daemon_routing", format);
            let e = e.with_detail("recommended_next_action", STATUS_DAEMON_HINT);
            assert(Seq::<(Seq<char>, Seq<char>)>::empty().push(("recommended_next_action"@, STATUS_DAEMON_HINT@))
                =~= seq![("recommended_next_action"@, STATUS_DAEMON_HINT@)]);
            Err(e)
        },
    }
}

/// The error for a `run` that the daemon could not carry out.
pub fn run_via_daemon_failed(message: String, format: Format) -> (e: StructuredError)
    ensures
        is_error(
            e,
            "daemon.execution_failed"@,
            message@,
            "daemon_routing"@,
            format,
            seq![("recommended_next_action"@, RUN_LOCALLY_HINT@)],
        ),
{
    let e = StructuredError::new("daemon.execution_failed", message, "daemon_routing", format);
    let e = e.with_detail("recommended_next_action", RUN_LOCALLY_HINT);
    assert(Seq::<(Seq<char>, Seq<char>)>::empty().push(("recommended_next_action"@, RUN_LOCALLY_HINT@))
        =~= seq![("recommended_next_action"@, RUN_LOCALLY_HINT@)]);
    e
}

/// The message for a failed lifecycle command.
pub open spec fn lifecycle_failed_message(action: Seq<char>, error: Seq<char>) -> Seq<char> {
    "daemon "@ + action + " failed: "@ + error
}

/// The error for a daemon lifecycle command (`run`, `start`, `stop`,
/// `restart`, `status`) that failed.
pub fn lifecycle_failed(action: &str, error: &str, format: Format) -> (e: StructuredError)
    ensures
        is_error(
            e,
            "daemon.lifecycle_failed"@,
            lifecycle_failed_message(action@, error@),
            "daemon_lifecycle"@,
            format,
            seq![("recommended_next_action"@, LIFECYCLE_HINT@)],
        ),
{
    let mut message = owned("daemon ");
    append(&mut message, action);
    append(&mut message, " failed: ");
    append(&mut message, error);
    let e = StructuredError::new("daemon.lifecycle_failed", message, "daemon_lifecycle", format);
    let e = e.with_detail("recommended_next_action", LIFECYCLE_HINT);
    assert(Seq::<(Seq<char>, Seq<char>)>::empty().push(("recommended_next_action"@, LIFECYCLE_HINT@))
        =~= seq![("recommended_next_action"@, LIFECYCLE_HINT@)]);
    e
}

/// The error for a registry command that failed: its code is the command
/// followed by `.failed`, and its source the command.
pub fn registry_failed(command: &str, message: String, format: Format) -> (e: StructuredError)
    ensures
        is_error(e, command@ + ".failed"@, message@, command@, format, Seq::empty()),
{
    let mut code = owned(command);
    append(&mut code, ".failed");
    let e = StructuredError::new(code.as_str(), message, command, format);
    e
}

pub const DAEMON_DISPATCH_NOTE: &'static str = "Daemon-mode ACP dispatch will be available in a follow-up release.";

/// The stable structured answer of a planned command: the command path, a
/// status, the command's summary, the routing, the effective context, next
/// steps and errors.
pub struct CommandEnvelope {
    pub command: String,
    pub status: String,
    pub summary: String,
    pub routing: String,
    pub context: Vec<ContextEntry>,
    pub next_steps: Vec<String>,
    pub errors: Vec<String>,
}

/// The answer of a planned command accepted for the daemon.
pub fn accepted_daemon_envelope(path: &[String], summary: &str, context: Vec<ContextEntry>) -> (r: CommandEnvelope)
    ensures
        r.command@ == join_seq(views(path@), " "@),
        r.status@ == "accepted_daemon"@,
        r.summary@ == summary@,
        r.routing@ == "daemon"@,
        r.context@ == context@,
        views(r.next_steps@) == seq![DAEMON_DISPATCH_NOTE@],
        r.errors@.len() == 0,
{
    let mut next_steps: Vec<String> = Vec::new();
    next_steps.push(owned(DAEMON_DISPATCH_NOTE));
    assert(views(next_steps@) =~= seq![DAEMON_DISPATCH_NOTE@]);
    CommandEnvelope {
        command: join(path, " "),
        status: owned("accepted_daemon"),
        summary: owned(summary),
        routing: owned("daemon"),
        context,
        next_steps,
        errors: Vec::new(),
    }
}

/// The answer of a planned command that ran locally: the command path,
/// status `ok`, the command's summary, `local` routing, the effective
/// context, no next steps and no errors.
pub fn completed_envelope(path: &[String], summary: &str, context: Vec<ContextEntry>) -> (r: CommandEnvelope)
    ensures
        r.command@ == join_seq(views(path@), " "@),
        r.status@ == "ok"@,
        r.summary@ == summary@,
        r.routing@ == "local"@,
        r.context@ == context@,
        r.next_steps@.len() == 0,
        r.errors@.len() == 0,
{
    CommandEnvelope {
        command: join(path, " "),
        status: owned("ok"),
        summary: owned(summary),
        routing: owned("local"),
        context,
        next_steps: Vec::new(),
        errors: Vec::new(),
    }
}

} // verus!
