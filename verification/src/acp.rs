//! The agent client: where an agent's executable is, the arguments it is
//! launched with, how JSON-RPC answers are matched to requests, and the
//! text an agent streams back.

use vstd::prelude::*;

use crate::context::joined;
use crate::registry::{command_path, find_installed, installed_index, launch_args, strip_dot_slash, AgentEntry, InstalledAgent};
use crate::text::{append, concat_map, i64_text, int_text, owned, starts_with, str_eq, views};

verus! {

broadcast use vstd::string::group_string_axioms;

// ---------------------------------------------------------------------------
// Streamed text
// ---------------------------------------------------------------------------

/// What the client reads of one `session/update` notification: the kind of
/// update and the text of its content, where they are strings.
pub struct AgentUpdate {
    pub session_update: Option<String>,
    pub text: Option<String>,
}

/// The streamed text of an update: the text of an `agent_message_chunk`.
pub open spec fn chunk_of(u: AgentUpdate) -> Option<Seq<char>> {
    if u.session_update is Some && u.session_update->0@ == "agent_message_chunk"@ {
        match u.text {
            Some(t) => Some(t@),
            None => None,
        }
    } else {
        None
    }
}

/// The streamed text of an update, if it is a message chunk with text.
pub fn extract_chunk_text(u: &AgentUpdate) -> (r: Option<String>)
    ensures
        match r {
            Some(t) => chunk_of(*u) == Some(t@),
            None => chunk_of(*u) is None,
        },
{
    match &u.session_update {
        Some(kind) => if str_eq(kind.as_str(), "agent_message_chunk") {
            match &u.text {
                Some(t) => Some(t.clone()),
                None => None,
            }
        } else {
            None
        },
        None => None,
    }
}

/// The text of an update that counts in a reply: its chunk text, or nothing.
pub open spec fn chunk_or_empty(u: AgentUpdate) -> Seq<char> {
    match chunk_of(u) {
        Some(t) => t,
        None => Seq::empty(),
    }
}

/// A JSON value (`serde_json::Value`), carried through as it came.
#[verifier::external_type_specification]
#[verifier::external_body]
pub struct ExJsonValue(serde_json::Value);

/// The result of a prompt turn: why the agent stopped, the messages of its
/// answer (an empty list where it gave none) and the updates it streamed.
pub struct PromptResult {
    pub stop_reason: String,
    pub messages: serde_json::Value,
    pub notifications: Vec<AgentUpdate>,
}

/// The reason a turn stopped, `unknown` where the agent gave none.
pub fn stop_reason_or_unknown(reason: Option<String>) -> (r: String)
    ensures
        r@ == match reason {
            Some(s) => s@,
            None => "unknown"@,
        },
{
    match reason {
        Some(s) => s,
        None => owned("unknown"),
    }
}

/// All text the agent streamed in a turn, chunk after chunk.
pub fn extract_text(result: &PromptResult) -> (r: String)
    ensures
        r@ == concat_map(result.notifications@, |u: AgentUpdate| chunk_or_empty(u)),
{
    let mut text = String::new();
    let mut i: usize = 0;
    while i < result.notifications.len()
        invariant
            i <= result.notifications@.len(),
            text@ == concat_map(result.notifications@.take(i as int), |u: AgentUpdate| chunk_or_empty(u)),
        decreases result.notifications.len() - i,
    {
        proof {
            crate::text::lemma_concat_map_step(result.notifications@, |u: AgentUpdate| chunk_or_empty(u), i as int);
        }
        if let Some(chunk) = extract_chunk_text(&result.notifications[i]) {
            append(&mut text, chunk.as_str());
        } else {
            assert(chunk_or_empty(result.notifications@[i as int]) =~= Seq::<char>::empty());
        }
        i = i + 1;
    }
    assert(result.notifications@.take(i as int) =~= result.notifications@);
    text
}

// ---------------------------------------------------------------------------
// JSON-RPC requests and answers
// ---------------------------------------------------------------------------

/// The ids of the requests sent on one connection, from 1 up.
pub struct RequestIds {
    pub next_id: u64,
}

impl RequestIds {
    /// No request sent yet: the first id is 1.
    pub fn new() -> (r: RequestIds)
        ensures
            r.next_id == 1,
    {
        RequestIds { next_id: 1 }
    }

    /// The id of the next request; each id is one more than the one before.
    pub fn allocate(&mut self) -> (id: u64)
        requires
            old(self).next_id < u64::MAX,
        ensures
            id == old(self).next_id,
            final(self).next_id == old(self).next_id + 1,
    {
        let id = self.next_id;
        self.next_id = self.next_id + 1;
        id
    }
}

/// Requests get the ids 1, 2, 3, ... in the order they are sent: after `k`
/// allocations on fresh ids, the next one is `k + 1`. `next[i]` is the next
/// id before the `i`-th allocation (`next[0]` that of `RequestIds::new`) and
/// `ids[i]` what that allocation returned, as `allocate` states.
pub proof fn law_request_ids_count_requests(ids: Seq<u64>, next: Seq<u64>)
    requires
        next.len() == ids.len() + 1,
        next[0] == 1,
        forall|i: int| 0 <= i < ids.len() ==> #[trigger] ids[i] == next[i] && next[i + 1] == next[i] + 1,
    ensures
        forall|i: int| 0 <= i < ids.len() ==> #[trigger] ids[i] == i + 1,
        next[ids.len() as int] == ids.len() + 1,
    decreases ids.len(),
{
    if ids.len() > 0 {
        let n = ids.len() - 1;
        law_request_ids_count_requests(ids.take(n), next.take(n + 1));
        assert forall|i: int| 0 <= i < ids.len() implies #[trigger] ids[i] == i + 1 by {
            if i < n {
                assert(ids.take(n)[i] == ids[i]);
            } else {
                assert(next.take(n + 1)[n] == next[n]);
                assert(ids[n] == next[n]);
            }
        }
        assert(next.take(n + 1)[n] == next[n]);
        assert(ids[n] == next[n] && next[n + 1] == next[n] + 1);
    }
}

/// The error member of an answer: its code and message, where they are an
/// integer and a string.
pub struct RpcErrorInfo {
    pub code: Option<i64>,
    pub message: Option<String>,
}

/// What a message from the agent is to a request waiting for its answer.
pub enum MessageRole {
    /// Its answer.
    Answer,
    /// Its answer, an error, with this message.
    Failure(String),
    /// The answer to another request.
    OtherAnswer,
    /// A notification.
    Notification,
}

/// The message of an error answer: `agent error (code C): M`, where a
/// missing code reads -1 and a missing message `unknown error`.
pub open spec fn agent_error_message(e: RpcErrorInfo) -> Seq<char> {
    "agent error (code "@ + int_text(
        match e.code {
            Some(c) => c as int,
            None => -1,
        },
    ) + "): "@ + match e.message {
        Some(m) => m@,
        None => "unknown error"@,
    }
}

/// What a message with this id and error member is to the request `expected`.
pub fn classify_message(expected: u64, id: Option<u64>, error: Option<RpcErrorInfo>) -> (r: MessageRole)
    ensures
        match id {
            Some(x) => if x == expected {
                match error {
                    Some(e) => r matches MessageRole::Failure(m) && m@ == agent_error_message(e),
                    None => r is Answer,
                }
            } else {
                r is OtherAnswer
            },
            None => r is Notification,
        },
{
    match id {
        Some(x) => if x == expected {
            match error {
                Some(e) => {
                    let mut m = owned("agent error (code ");
                    let code: i64 = match e.code {
                        Some(c) => c,
                        None => -1,
                    };
                    append(&mut m, i64_text(code).as_str());
                    append(&mut m, "): ");
                    match &e.message {
                        Some(t) => append(&mut m, t.as_str()),
                        None => append(&mut m, "unknown error"),
                    }
                    MessageRole::Failure(m)
                },
                None => MessageRole::Answer,
            }
        } else {
            MessageRole::OtherAnswer
        },
        None => MessageRole::Notification,
    }
}

/// Where waiting for an answer stands after one more message.
pub enum ReplyProgress<T> {
    /// The answer came: this message.
    Answer(T),
    /// The answer came as an error, with this message.
    Failed(String),
    /// A notification came and was gathered, after the ones before it.
    Notified,
    /// The answer to another request came and was passed over.
    Passed,
}

/// Takes one message read while waiting for the answer to `expected`, by
/// its id and error member (see `classify_message`): a notification is
/// gathered after those before it, an answer to another request is passed
/// over, and the answer ends the wait with its message or its error.
pub fn gather_message<T>(
    expected: u64,
    id: Option<u64>,
    error: Option<RpcErrorInfo>,
    message: T,
    gathered: &mut Vec<T>,
) -> (r: ReplyProgress<T>)
    ensures
        match id {
            Some(x) => final(gathered)@ == old(gathered)@ && if x == expected {
                match error {
                    Some(e) => r matches ReplyProgress::Failed(m) && m@ == agent_error_message(e),
                    None => r matches ReplyProgress::Answer(a) && a == message,
                }
            } else {
                r is Passed
            },
            None => final(gathered)@ == old(gathered)@.push(message) && r is Notified,
        },
{
    match classify_message(expected, id, error) {
        MessageRole::Answer => ReplyProgress::Answer(message),
        MessageRole::Failure(m) => ReplyProgress::Failed(m),
        MessageRole::OtherAnswer => ReplyProgress::Passed,
        MessageRole::Notification => {
            gathered.push(message);
            ReplyProgress::Notified
        },
    }
}

// ---------------------------------------------------------------------------
// Agent executables and arguments
// ---------------------------------------------------------------------------

/// Whether an agent is named by a path: it starts with `/`, `./` or `~`.
pub open spec fn is_direct_path(agent: Seq<char>) -> bool {
    agent.len() > 0 && (agent[0] == '/' || agent[0] == '~' || (agent.len() >= 2 && agent[0] == '.'
        && agent[1] == '/'))
}

/// A path with a leading `~` replaced by the home directory.
pub open spec fn expand_home(agent: Seq<char>, home: Seq<char>) -> Seq<char> {
    if agent.len() > 0 && agent[0] == '~' {
        home + agent.skip(1)
    } else {
        agent
    }
}

/// A path with a leading `~` replaced by the home directory.
pub fn expand_agent_path(agent: &str, home: &str) -> (r: String)
    ensures
        r@ == expand_home(agent@, home@),
{
    match crate::text::strip_prefix(agent, "~") {
        Some(rest) => {
            proof {
                reveal_strlit("~");
                assert(agent@.subrange(0, 1) == "~"@);
                assert(agent@[0] == agent@.subrange(0, 1)[0]);
            }
            let mut r = owned(home);
            append(&mut r, rest.as_str());
            r
        },
        None => {
            proof {
                reveal_strlit("~");
                if agent@.len() > 0 && agent@[0] == '~' {
                    assert(agent@.subrange(0, 1) =~= "~"@);
                }
            }
            owned(agent)
        },
    }
}

/// Whether an agent is named by a path.
pub fn is_agent_path(agent: &str) -> (r: bool)
    ensures
        r == is_direct_path(agent@),
{
    proof {
        reveal_strlit("/");
        reveal_strlit("./");
        reveal_strlit("~");
    }
    let r = starts_with(agent, "/") || starts_with(agent, "./") || starts_with(agent, "~");
    proof {
        if agent@.len() > 0 {
            assert(agent@[0] == agent@.subrange(0, 1)[0]);
            if agent@[0] == '/' {
                assert(agent@.subrange(0, 1) =~= "/"@);
            }
            if agent@[0] == '~' {
                assert(agent@.subrange(0, 1) =~= "~"@);
            }
        }
        if agent@.len() >= 2 {
            assert(agent@[0] == agent@.subrange(0, 2)[0] && agent@[1] == agent@.subrange(0, 2)[1]);
            if agent@[0] == '.' && agent@[1] == '/' {
                assert(agent@.subrange(0, 2) =~= "./"@);
            }
        }
    }
    r
}

/// The arguments to launch an agent with: those recorded when it was
/// installed, else those of the default registry index (`index`, when it
/// could be fetched) for this platform (`platform`), else none (see
/// `launch_args`).
pub fn resolve_agent_args(
    agent: &str,
    installed: &Vec<InstalledAgent>,
    index: Option<&Vec<AgentEntry>>,
    platform: &str,
) -> (r: Vec<String>)
    ensures
        views(r@) == launch_args(
            agent@,
            installed@,
            match index {
                Some(ix) => Some(ix@),
                None => None,
            },
            platform@,
        ),
{
    crate::registry::resolve_agent_args(agent, installed, index, platform)
}

/// The message when a path names no executable.
pub open spec fn path_missing_message(path: Seq<char>) -> Seq<char> {
    "agent executable not found at: "@ + path
}

/// The message when an installed agent's executable is missing.
pub open spec fn no_valid_executable_message(agent: Seq<char>, install_path: Seq<char>) -> Seq<char> {
    "installed agent '"@ + agent + "' has no valid executable at "@ + install_path
}

/// The message when an agent is found nowhere.
pub open spec fn agent_not_found_message(agent: Seq<char>) -> Seq<char> {
    "agent '"@ + agent + "' not found — install it with: acp-agent-cli registry install "@ + agent
}

/// The outside step that finding an executable asks for next.
pub enum ResolveStep {
    /// Find out whether this path exists.
    CheckExists(String),
    /// Scan the installed agents.
    ScanInstalled,
    /// Look the agent up on the search path.
    SearchPath,
    /// The executable is here.
    Resolved(String),
    /// There is none, for this reason.
    Failed(String),
}

/// The content of a step.
pub enum ResolveStepView {
    CheckExists(Seq<char>),
    ScanInstalled,
    SearchPath,
    Resolved(Seq<char>),
    Failed(Seq<char>),
}

impl View for ResolveStep {
    type V = ResolveStepView;

    open spec fn view(&self) -> ResolveStepView {
        match self {
            ResolveStep::CheckExists(p) => ResolveStepView::CheckExists(p@),
            ResolveStep::ScanInstalled => ResolveStepView::ScanInstalled,
            ResolveStep::SearchPath => ResolveStepView::SearchPath,
            ResolveStep::Resolved(p) => ResolveStepView::Resolved(p@),
            ResolveStep::Failed(m) => ResolveStepView::Failed(m@),
        }
    }
}

/// What an outside step reports back.
pub enum ResolveEvent {
    Exists(bool),
    Installed(Vec<InstalledAgent>),
    ScanFailed(String),
    /// The path the search found, if any.
    PathFound(Option<String>),
}

/// Where finding an executable stands.
pub enum ResolvePhase {
    /// Checking a path given directly.
    Direct(String),
    Scanning,
    /// Checking an installed agent's executable, at this path, installed here.
    InstalledCheck(String, String),
    Searching,
    Done,
}

/// The content of a phase.
pub enum ResolvePhaseView {
    Direct(Seq<char>),
    Scanning,
    InstalledCheck(Seq<char>, Seq<char>),
    Searching,
    Done,
}

impl View for ResolvePhase {
    type V = ResolvePhaseView;

    open spec fn view(&self) -> ResolvePhaseView {
        match self {
            ResolvePhase::Direct(p) => ResolvePhaseView::Direct(p@),
            ResolvePhase::Scanning => ResolvePhaseView::Scanning,
            ResolvePhase::InstalledCheck(p, i) => ResolvePhaseView::InstalledCheck(p@, i@),
            ResolvePhase::Searching => ResolvePhaseView::Searching,
            ResolvePhase::Done => ResolvePhaseView::Done,
        }
    }
}

/// Finding the executable of one agent: a path given directly, else the
/// installed agent of that id, else a command on the search path.
pub struct ExecutableResolution {
    pub agent: String,
    pub phase: ResolvePhase,
}

/// The first phase and step for `agent`, with `home` the home directory.
pub open spec fn resolve_start(agent: Seq<char>, home: Seq<char>) -> (ResolvePhaseView, ResolveStepView) {
    if is_direct_path(agent) {
        (
            ResolvePhaseView::Direct(expand_home(agent, home)),
            ResolveStepView::CheckExists(expand_home(agent, home)),
        )
    } else {
        (ResolvePhaseView::Scanning, ResolveStepView::ScanInstalled)
    }
}

/// The next phase and step once the installed agents are known.
pub open spec fn installed_found(agent: Seq<char>, installed: Seq<InstalledAgent>) -> (
    ResolvePhaseView,
    ResolveStepView,
) {
    let k = installed_index(installed, agent);
    if k < 0 {
        (ResolvePhaseView::Searching, ResolveStepView::SearchPath)
    } else {
        let a = installed[k];
        match a.executable {
            Some(e) => {
                let p = joined(a.install_path@, strip_dot_slash(e@));
                (ResolvePhaseView::InstalledCheck(p, a.install_path@), ResolveStepView::CheckExists(p))
            },
            None => (
                ResolvePhaseView::Done,
                ResolveStepView::Failed(no_valid_executable_message(agent, a.install_path@)),
            ),
        }
    }
}

/// The transition of finding `agent`'s executable on an event.
pub open spec fn resolve_transition(agent: Seq<char>, phase: ResolvePhaseView, event: ResolveEvent) -> (
    ResolvePhaseView,
    ResolveStepView,
) {
    match (phase, event) {
        (ResolvePhaseView::Direct(p), ResolveEvent::Exists(true)) => (
            ResolvePhaseView::Done,
            ResolveStepView::Resolved(p),
        ),
        (ResolvePhaseView::Direct(p), ResolveEvent::Exists(false)) => (
            ResolvePhaseView::Done,
            ResolveStepView::Failed(path_missing_message(p)),
        ),
        (ResolvePhaseView::Scanning, ResolveEvent::Installed(list)) => installed_found(agent, list@),
        (ResolvePhaseView::Scanning, ResolveEvent::ScanFailed(m)) => (
            ResolvePhaseView::Done,
            ResolveStepView::Failed(m@),
        ),
        (ResolvePhaseView::InstalledCheck(p, _), ResolveEvent::Exists(true)) => (
            ResolvePhaseView::Done,
            ResolveStepView::Resolved(p),
        ),
        (ResolvePhaseView::InstalledCheck(_, ip), ResolveEvent::Exists(false)) => (
            ResolvePhaseView::Done,
            ResolveStepView::Failed(no_valid_executable_message(agent, ip)),
        ),
        (ResolvePhaseView::Searching, ResolveEvent::PathFound(found)) => match found {
            Some(p) => if p@.len() > 0 {
                (ResolvePhaseView::Done, ResolveStepView::Resolved(p@))
            } else {
                (ResolvePhaseView::Done, ResolveStepView::Failed(agent_not_found_message(agent)))
            },
            None => (ResolvePhaseView::Done, ResolveStepView::Failed(agent_not_found_message(agent))),
        },
        _ => (ResolvePhaseView::Done, ResolveStepView::Failed("unexpected executable lookup event"@)),
    }
}

fn not_found(agent: &str) -> (r: String)
    ensures
        r@ == agent_not_found_message(agent@),
{
    let mut m = owned("agent '");
    append(&mut m, agent);
    append(&mut m, "' not found — install it with: acp-agent-cli registry install ");
    append(&mut m, agent);
    m
}

fn no_valid_executable(agent: &str, install_path: &str) -> (r: String)
    ensures
        r@ == no_valid_executable_message(agent@, install_path@),
{
    let mut m = owned("installed agent '");
    append(&mut m, agent);
    append(&mut m, "' has no valid executable at ");
    append(&mut m, install_path);
    m
}

impl ExecutableResolution {
    /// Starts finding `agent`'s executable; `home` is the home directory.
    pub fn begin(agent: &str, home: &str) -> (r: (ExecutableResolution, ResolveStep))
        ensures
            r.0.agent@ == agent@,
            (r.0.phase@, r.1@) == resolve_start(agent@, home@),
    {
        if is_agent_path(agent) {
            let expanded = expand_agent_path(agent, home);
            let step = ResolveStep::CheckExists(expanded.clone());
            (ExecutableResolution { agent: owned(agent), phase: ResolvePhase::Direct(expanded) }, step)
        } else {
            (ExecutableResolution { agent: owned(agent), phase: ResolvePhase::Scanning }, ResolveStep::ScanInstalled)
        }
    }

    /// Hands over the event of the step asked for (see `resolve_transition`).
    pub fn step(self, event: ResolveEvent) -> (r: (ExecutableResolution, ResolveStep))
        ensures
            r.0.agent@ == self.agent@,
            (r.0.phase@, r.1@) == resolve_transition(self.agent@, self.phase@, event),
    {
        let agent = self.agent;
        let (phase, step) = match (self.phase, event) {
            (ResolvePhase::Direct(p), ResolveEvent::Exists(true)) => (ResolvePhase::Done, ResolveStep::Resolved(p)),
            (ResolvePhase::Direct(p), ResolveEvent::Exists(false)) => {
                let mut m = owned("agent executable not found at: ");
                append(&mut m, p.as_str());
                (ResolvePhase::Done, ResolveStep::Failed(m))
            },
            (ResolvePhase::Scanning, ResolveEvent::Installed(list)) => match find_installed(&list, agent.as_str()) {
                None => (ResolvePhase::Searching, ResolveStep::SearchPath),
                Some(k) => {
                    let a = &list[k];
                    match &a.executable {
                        Some(e) => {
                            let p = command_path(a.install_path.as_str(), e.as_str());
                            let step = ResolveStep::CheckExists(p.clone());
                            (ResolvePhase::InstalledCheck(p, a.install_path.clone()), step)
                        },
                        None => (
                            ResolvePhase::Done,
                            ResolveStep::Failed(no_valid_executable(agent.as_str(), a.install_path.as_str())),
                        ),
                    }
                },
            },
            (ResolvePhase::Scanning, ResolveEvent::ScanFailed(m)) => (ResolvePhase::Done, ResolveStep::Failed(m)),
            (ResolvePhase::InstalledCheck(p, _), ResolveEvent::Exists(true)) => (
                ResolvePhase::Done,
                ResolveStep::Resolved(p),
            ),
            (ResolvePhase::InstalledCheck(_, ip), ResolveEvent::Exists(false)) => (
                ResolvePhase::Done,
                ResolveStep::Failed(no_valid_executable(agent.as_str(), ip.as_str())),
            ),
            (ResolvePhase::Searching, ResolveEvent::PathFound(found)) => match found {
                Some(p) => if crate::text::to_chars(p.as_str()).len() > 0 {
                    (ResolvePhase::Done, ResolveStep::Resolved(p))
                } else {
                    (ResolvePhase::Done, ResolveStep::Failed(not_found(agent.as_str())))
                },
                None => (ResolvePhase::Done, ResolveStep::Failed(not_found(agent.as_str()))),
            },
            _ => (ResolvePhase::Done, ResolveStep::Failed(owned("unexpected executable lookup event"))),
        };
        (ExecutableResolution { agent, phase }, step)
    }
}

} // verus!
