//! The interactive console: what a typed line asks for, the completions of
//! a slash command, and the agent the console talks to.

use vstd::prelude::*;

use crate::output::ContextEntry;
use crate::text::{append, owned, push_str, starts_with, str_eq, strip_prefix, to_chars, trim, trim_seq, views};

verus! {

broadcast use vstd::string::group_string_axioms;

/// How the console was opened.
pub struct ReplConfig {
    pub session: Option<String>,
    pub workspace: Option<String>,
    pub agent: Option<String>,
    pub selectors: Vec<ContextEntry>,
    pub current_directory: Option<String>,
}

/// The console's slash commands.
pub open spec fn slash_commands() -> Seq<Seq<char>> {
    seq![
        "/prompt"@,
        "/approve"@,
        "/reject"@,
        "/edit"@,
        "/events"@,
        "/files"@,
        "/stop"@,
        "/help"@,
        "/exit"@,
    ]
}

/// The commands of `cmds` that start with `prefix`, in order.
pub open spec fn completions_in(cmds: Seq<Seq<char>>, prefix: Seq<char>) -> Seq<Seq<char>>
    decreases cmds.len(),
{
    if cmds.len() == 0 {
        Seq::empty()
    } else {
        let rest = completions_in(cmds.drop_last(), prefix);
        if prefix.is_prefix_of(cmds.last()) {
            rest.push(cmds.last())
        } else {
            rest
        }
    }
}

/// The completions offered for the text before the cursor: the slash
/// commands it begins, where it starts with `/`.
pub open spec fn completions(prefix: Seq<char>) -> Seq<Seq<char>> {
    if prefix.len() > 0 && prefix[0] == '/' {
        completions_in(slash_commands(), prefix)
    } else {
        Seq::empty()
    }
}

/// The completions offered for `prefix`, the text before the cursor.
pub fn slash_completions(prefix: &str) -> (r: Vec<String>)
    ensures
        views(r@) == completions(prefix@),
{
    proof {
        reveal_strlit("/");
    }
    let mut r: Vec<String> = Vec::new();
    if !starts_with(prefix, "/") {
        proof {
            if prefix@.len() > 0 && prefix@[0] == '/' {
                assert(prefix@.subrange(0, 1) =~= "/"@);
            }
        }
        assert(views(r@) =~= Seq::<Seq<char>>::empty());
        return r;
    }
    proof {
        assert(prefix@[0] == prefix@.subrange(0, 1)[0]);
    }
    let mut cmds: Vec<&str> = Vec::new();
    cmds.push("/prompt");
    cmds.push("/approve");
    cmds.push("/reject");
    cmds.push("/edit");
    cmds.push("/events");
    cmds.push("/files");
    cmds.push("/stop");
    cmds.push("/help");
    cmds.push("/exit");
    let ghost all = cmds@.map_values(|c: &str| c@);
    assert(all =~= slash_commands());
    let mut i: usize = 0;
    while i < cmds.len()
        invariant
            i <= cmds@.len(),
            all == cmds@.map_values(|c: &str| c@),
            views(r@) == completions_in(all.take(i as int), prefix@),
        decreases cmds.len() - i,
    {
        proof {
            assert(all.take(i + 1).drop_last() =~= all.take(i as int));
        }
        if starts_with(cmds[i], prefix) {
            push_str(&mut r, cmds[i]);
        }
        i = i + 1;
    }
    assert(all.take(i as int) =~= all);
    r
}

/// What a line typed into the console asks for.
pub enum ReplCommand {
    /// A blank line: nothing.
    Skip,
    Exit,
    Help,
    /// Cancel the current prompt.
    Stop,
    /// Approve the proposal with this id.
    Approve(String),
    /// Reject the proposal with this id.
    Reject(String),
    /// Edit and approve a proposal: its id and the replacement.
    Edit(String, String),
    Events,
    Files,
    /// Send this prompt.
    Prompt(String),
    /// `/prompt` without text.
    PromptUsage,
    /// A slash command the console does not know.
    Unknown(String),
}

/// The content of a console command.
pub enum ReplCommandView {
    Skip,
    Exit,
    Help,
    Stop,
    Approve(Seq<char>),
    Reject(Seq<char>),
    Edit(Seq<char>, Seq<char>),
    Events,
    Files,
    Prompt(Seq<char>),
    PromptUsage,
    Unknown(Seq<char>),
}

impl View for ReplCommand {
    type V = ReplCommandView;

    open spec fn view(&self) -> ReplCommandView {
        match self {
            ReplCommand::Skip => ReplCommandView::Skip,
            ReplCommand::Exit => ReplCommandView::Exit,
            ReplCommand::Help => ReplCommandView::Help,
            ReplCommand::Stop => ReplCommandView::Stop,
            ReplCommand::Approve(s) => ReplCommandView::Approve(s@),
            ReplCommand::Reject(s) => ReplCommandView::Reject(s@),
            ReplCommand::Edit(a, b) => ReplCommandView::Edit(a@, b@),
            ReplCommand::Events => ReplCommandView::Events,
            ReplCommand::Files => ReplCommandView::Files,
            ReplCommand::Prompt(s) => ReplCommandView::Prompt(s@),
            ReplCommand::PromptUsage => ReplCommandView::PromptUsage,
            ReplCommand::Unknown(s) => ReplCommandView::Unknown(s@),
        }
    }
}

/// The position of the first space in `s`, if any.
pub open spec fn first_space(s: Seq<char>) -> int
    decreases s.len(),
{
    if s.len() == 0 {
        -1
    } else if s[0] == ' ' {
        0
    } else {
        let k = first_space(s.skip(1));
        if k < 0 {
            -1
        } else {
            k + 1
        }
    }
}

/// The proposal id and replacement of `/edit`: split at the first space.
pub open spec fn edit_parts(args: Seq<char>) -> (Seq<char>, Seq<char>) {
    let k = first_space(args);
    if k >= 0 {
        (args.take(k), args.skip(k + 1))
    } else {
        (trim_seq(args), Seq::empty())
    }
}

/// What a typed line asks for, once trimmed.
pub open spec fn repl_command(line: Seq<char>) -> ReplCommandView {
    let t = trim_seq(line);
    if t.len() == 0 {
        ReplCommandView::Skip
    } else if t == "/exit"@ || t == "quit"@ {
        ReplCommandView::Exit
    } else if t == "/help"@ {
        ReplCommandView::Help
    } else if t == "/stop"@ {
        ReplCommandView::Stop
    } else if "/approve "@.is_prefix_of(t) || t == "/approve"@ {
        ReplCommandView::Approve(trim_seq(t.skip(8)))
    } else if "/reject "@.is_prefix_of(t) || t == "/reject"@ {
        ReplCommandView::Reject(trim_seq(t.skip(7)))
    } else if "/edit "@.is_prefix_of(t) {
        let parts = edit_parts(trim_seq(t.skip(5)));
        ReplCommandView::Edit(parts.0, parts.1)
    } else if t == "/events"@ {
        ReplCommandView::Events
    } else if t == "/files"@ {
        ReplCommandView::Files
    } else if "/prompt "@.is_prefix_of(t) {
        let p = trim_seq(t.skip(7));
        if p.len() == 0 {
            ReplCommandView::PromptUsage
        } else {
            ReplCommandView::Prompt(p)
        }
    } else if t[0] == '/' {
        ReplCommandView::Unknown(t)
    } else {
        ReplCommandView::Prompt(t)
    }
}

/// Plain text typed at the console is sent to the agent as it was typed:
/// a line whose trimmed text is not empty, does not start with `/` and is
/// not `quit` is the prompt made of exactly that trimmed text.
pub proof fn law_typed_text_is_the_prompt(line: Seq<char>)
    requires
        trim_seq(line).len() > 0,
        trim_seq(line)[0] != '/',
        trim_seq(line) != "quit"@,
    ensures
        repl_command(line) == ReplCommandView::Prompt(trim_seq(line)),
{
    let t = trim_seq(line);
    reveal_strlit("/exit");
    reveal_strlit("/help");
    reveal_strlit("/stop");
    reveal_strlit("/approve ");
    reveal_strlit("/approve");
    reveal_strlit("/reject ");
    reveal_strlit("/reject");
    reveal_strlit("/edit ");
    reveal_strlit("/events");
    reveal_strlit("/files");
    reveal_strlit("/prompt ");
    assert(t != "/exit"@ && t != "/help"@ && t != "/stop"@ && t != "/approve"@ && t != "/reject"@ && t
        != "/events"@ && t != "/files"@) by {
        assert("/exit"@[0] == '/' && "/help"@[0] == '/' && "/stop"@[0] == '/' && "/approve"@[0] == '/'
            && "/reject"@[0] == '/' && "/events"@[0] == '/' && "/files"@[0] == '/');
    }
    if "/approve "@.is_prefix_of(t) {
        assert(t[0] == "/approve "@[0]);
    }
    if "/reject "@.is_prefix_of(t) {
        assert(t[0] == "/reject "@[0]);
    }
    if "/edit "@.is_prefix_of(t) {
        assert(t[0] == "/edit "@[0]);
    }
    if "/prompt "@.is_prefix_of(t) {
        assert(t[0] == "/prompt "@[0]);
    }
}

/// The position of the first space, if any.
fn find_space(s: &str) -> (r: Option<usize>)
    ensures
        match r {
            Some(k) => k == first_space(s@) && k < s@.len(),
            None => first_space(s@) < 0,
        },
{
    let cs = to_chars(s);
    let mut i: usize = 0;
    assert(s@.skip(0) =~= s@);
    while i < cs.len()
        invariant
            i <= cs@.len(),
            cs@ == s@,
            first_space(s@) < 0 || first_space(s@) >= i,
            first_space(s@) == if first_space(s@.skip(i as int)) < 0 {
                -1
            } else {
                first_space(s@.skip(i as int)) + i
            },
        decreases cs.len() - i,
    {
        assert(s@.skip(i as int).skip(1) =~= s@.skip(i + 1));
        if cs[i] == ' ' {
            return Some(i);
        }
        i = i + 1;
    }
    assert(s@.skip(i as int).len() == 0);
    None
}

/// The id and replacement of `/edit`, split at the first space.
fn split_edit(args: &str) -> (r: (String, String))
    ensures
        (r.0@, r.1@) == edit_parts(args@),
{
    match find_space(args) {
        Some(k) => {
            let cs = to_chars(args);
            let id = crate::text::from_chars_range(&cs, 0, k);
            let rest = crate::text::from_chars_range(&cs, k + 1, cs.len());
            assert(id@ =~= args@.take(k as int));
            assert(rest@ =~= args@.skip(k + 1));
            (id, rest)
        },
        None => (trim(args), String::new()),
    }
}

/// A prefix of a prefix of `s` is a prefix of `s`.
proof fn lemma_prefix_trans(p: Seq<char>, q: Seq<char>, s: Seq<char>)
    requires
        p.is_prefix_of(q),
        q.is_prefix_of(s),
    ensures
        p.is_prefix_of(s),
{
    assert(s.subrange(0, p.len() as int) =~= q.subrange(0, p.len() as int));
}

/// What a typed line asks for (see `repl_command`).
pub fn parse_repl_line(line: &str) -> (r: ReplCommand)
    ensures
        r@ == repl_command(line@),
{
    let t = trim(line);
    let ts = t.as_str();
    if to_chars(ts).len() == 0 {
        return ReplCommand::Skip;
    }
    if str_eq(ts, "/exit") || str_eq(ts, "quit") {
        return ReplCommand::Exit;
    }
    if str_eq(ts, "/help") {
        return ReplCommand::Help;
    }
    if str_eq(ts, "/stop") {
        return ReplCommand::Stop;
    }
    proof {
        reveal_strlit("/approve");
        reveal_strlit("/approve ");
        reveal_strlit("/reject");
        reveal_strlit("/reject ");
        reveal_strlit("/edit ");
        reveal_strlit("/edit");
        reveal_strlit("/prompt");
        reveal_strlit("/prompt ");
        assert("/approve"@.is_prefix_of("/approve "@)) by {
            assert("/approve "@.subrange(0, 8) =~= "/approve"@);
        }
        assert("/reject"@.is_prefix_of("/reject "@)) by {
            assert("/reject "@.subrange(0, 7) =~= "/reject"@);
        }
        assert("/edit"@.is_prefix_of("/edit "@)) by {
            assert("/edit "@.subrange(0, 5) =~= "/edit"@);
        }
        assert("/prompt"@.is_prefix_of("/prompt "@)) by {
            assert("/prompt "@.subrange(0, 7) =~= "/prompt"@);
        }
        if "/approve "@.is_prefix_of(ts@) {
            lemma_prefix_trans("/approve"@, "/approve "@, ts@);
        }
        if "/reject "@.is_prefix_of(ts@) {
            lemma_prefix_trans("/reject"@, "/reject "@, ts@);
        }
        if "/edit "@.is_prefix_of(ts@) {
            lemma_prefix_trans("/edit"@, "/edit "@, ts@);
        }
        if "/prompt "@.is_prefix_of(ts@) {
            lemma_prefix_trans("/prompt"@, "/prompt "@, ts@);
        }
    }
    if starts_with(ts, "/approve ") || str_eq(ts, "/approve") {
        let rest = strip_prefix(ts, "/approve");
        return match rest {
            Some(r) => ReplCommand::Approve(trim(r.as_str())),
            None => ReplCommand::Skip,
        };
    }
    if starts_with(ts, "/reject ") || str_eq(ts, "/reject") {
        let rest = strip_prefix(ts, "/reject");
        return match rest {
            Some(r) => ReplCommand::Reject(trim(r.as_str())),
            None => ReplCommand::Skip,
        };
    }
    if starts_with(ts, "/edit ") {
        let rest = strip_prefix(ts, "/edit");
        return match rest {
            Some(r) => {
                let args = trim(r.as_str());
                let (id, replacement) = split_edit(args.as_str());
                ReplCommand::Edit(id, replacement)
            },
            None => ReplCommand::Skip,
        };
    }
    if str_eq(ts, "/events") {
        return ReplCommand::Events;
    }
    if str_eq(ts, "/files") {
        return ReplCommand::Files;
    }
    if starts_with(ts, "/prompt ") {
        let rest = strip_prefix(ts, "/prompt");
        return match rest {
            Some(r) => {
                let p = trim(r.as_str());
                if to_chars(p.as_str()).len() == 0 {
                    ReplCommand::PromptUsage
                } else {
                    ReplCommand::Prompt(p)
                }
            },
            None => ReplCommand::Skip,
        };
    }
    let cs = to_chars(ts);
    if cs[0] == '/' {
        ReplCommand::Unknown(t)
    } else {
        ReplCommand::Prompt(t)
    }
}

/// The agent the console talks to: the one it was opened with, else the
/// one of the Active Context.
pub fn repl_agent(config_agent: Option<&str>, persisted_agent: Option<&str>) -> (r: Result<String, String>)
    ensures
        match config_agent {
            Some(a) => r matches Ok(x) && x@ == a@,
            None => match persisted_agent {
                Some(a) => r matches Ok(x) && x@ == a@,
                None => r matches Err(m) && m@
                    == "repl requires an agent; pass --agent <name> or set one with `context use --agent`"@,
            },
        },
{
    match config_agent {
        Some(a) => Ok(owned(a)),
        None => match persisted_agent {
            Some(a) => Ok(owned(a)),
            None => Err(owned("repl requires an agent; pass --agent <name> or set one with `context use --agent`")),
        },
    }
}

/// The notice shown after a turn that did not end normally.
pub fn stop_notice(stop_reason: &str) -> (r: Option<String>)
    ensures
        stop_reason@ == "end_turn"@ ==> r is None,
        stop_reason@ != "end_turn"@ ==> (r matches Some(n) && n@ == "[stopped: "@ + stop_reason@ + "]"@),
{
    if str_eq(stop_reason, "end_turn") {
        None
    } else {
        let mut n = owned("[stopped: ");
        append(&mut n, stop_reason);
        append(&mut n, "]");
        Some(n)
    }
}

/// The console's help, line by line.
pub open spec fn repl_help() -> Seq<Seq<char>> {
    seq![
        "REPL commands"@,
        "  <text>            Send a prompt to the agent"@,
        "  /prompt <text>    Send a prompt (explicit slash form)"@,
        "  /approve <id>     Approve a pending proposal"@,
        "  /reject <id>      Reject a pending proposal"@,
        "  /edit <id> <text> Edit and approve a proposal"@,
        "  /events           Stream session events"@,
        "  /files            List session files"@,
        "  /stop             Cancel the current prompt"@,
        "  /help             Show this help"@,
        "  /exit             Exit the REPL"@,
    ]
}

/// The console's help, line by line.
pub fn repl_help_lines() -> (r: Vec<String>)
    ensures
        views(r@) == repl_help(),
{
    let mut r: Vec<String> = Vec::new();
    push_str(&mut r, "REPL commands");
    push_str(&mut r, "  <text>            Send a prompt to the agent");
    push_str(&mut r, "  /prompt <text>    Send a prompt (explicit slash form)");
    push_str(&mut r, "  /approve <id>     Approve a pending proposal");
    push_str(&mut r, "  /reject <id>      Reject a pending proposal");
    push_str(&mut r, "  /edit <id> <text> Edit and approve a proposal");
    push_str(&mut r, "  /events           Stream session events");
    push_str(&mut r, "  /files            List session files");
    push_str(&mut r, "  /stop             Cancel the current prompt");
    push_str(&mut r, "  /help             Show this help");
    push_str(&mut r, "  /exit             Exit the REPL");
    assert(views(r@) =~= repl_help());
    r
}

} // verus!
