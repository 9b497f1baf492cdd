//! One `run` request served by the daemon: connecting to the agent where
//! needed, choosing or creating the session, counting the turn, prompting,
//! and the answer. The decisions are taken here, step by step, on the
//! daemon's session table; the connecting, session creation and prompting
//! are done outside, between the steps.

use vstd::prelude::*;

use crate::daemon::{
    agent_connect_failed, agent_error, is_rpc_error, run_result, session_create_failed, session_not_found,
    session_not_found_message, DaemonRpcResponse,
};
use crate::output::ContextEntry;
use crate::sessions::{with_turn_counted, AgentView, RunSession, SessionTable};
use crate::text::owned;

verus! {

broadcast use vstd::string::group_string_axioms;

/// Which outside step a run waits for.
#[derive(PartialEq, Eq, Structural, Clone, Copy, Debug)]
pub enum TurnPhase {
    /// The agent is being connected.
    Connecting,
    /// A session is being created.
    Creating,
    /// The prompt is being run.
    Prompting,
    /// The run is over.
    Done,
}

/// What an outside step reports back.
pub enum TurnEvent {
    /// The agent was connected.
    Connected,
    /// No connection to the agent could be had, with why.
    ConnectFailed(String),
    /// The agent created this session.
    SessionCreated(String),
    /// The agent could not create a session, with why.
    CreateFailed(String),
    /// The agent answered the prompt with this text.
    Answered(String),
    /// The prompt failed, with why.
    PromptFailed(String),
}

/// The outside step a run asks for next.
pub enum TurnAction {
    /// Connect to the agent.
    Connect,
    /// Ask the agent for a new session.
    CreateSession,
    /// Run the prompt in this session.
    Prompt(String),
    /// The session's turn count is at its limit and cannot be counted.
    TurnLimit(String),
    /// The run is over with this answer.
    Reply(DaemonRpcResponse),
}

/// One run request under way.
pub struct DaemonTurn {
    pub agent: String,
    pub requested: Option<String>,
    pub input: String,
    pub context: Vec<ContextEntry>,
    pub phase: TurnPhase,
}

pub const UNEXPECTED_TURN_EVENT: &'static str = "unexpected daemon run event";

/// The text of an optional string.
pub open spec fn opt_view(o: Option<String>) -> Option<Seq<char>> {
    match o {
        Some(s) => Some(s@),
        None => None,
    }
}

/// The table with `agent` present: as it was where it had the agent, else
/// with the agent added without sessions.
pub open spec fn with_agent(m: Map<Seq<char>, AgentView>, agent: Seq<char>) -> Map<Seq<char>, AgentView> {
    if m.dom().contains(agent) {
        m
    } else {
        m.insert(agent, AgentView { sessions: Map::empty(), default_session: None })
    }
}

/// The table after `id` was created for `agent` and made its default.
pub open spec fn with_default_session(m: Map<Seq<char>, AgentView>, agent: Seq<char>, id: Seq<char>) -> Map<
    Seq<char>,
    AgentView,
> {
    let n = with_agent(m, agent);
    n.insert(agent, AgentView { sessions: n[agent].sessions.insert(id, 0), default_session: Some(id) })
}

/// Whether `t` keeps the request of `s`.
pub open spec fn same_request(t: DaemonTurn, s: DaemonTurn) -> bool {
    &&& t.agent@ == s.agent@
    &&& opt_view(t.requested) == opt_view(s.requested)
    &&& t.input@ == s.input@
    &&& t.context@ == s.context@
}

/// Going to prompt in session `id`: the turn is counted and the prompt
/// asked for, unless the count is at its limit.
pub open spec fn prompted(
    before: Map<Seq<char>, AgentView>,
    agent: Seq<char>,
    id: Seq<char>,
    after: Map<Seq<char>, AgentView>,
    phase: TurnPhase,
    action: TurnAction,
) -> bool {
    let known = before.dom().contains(agent) && before[agent].sessions.dom().contains(id);
    if known && before[agent].sessions[id] == u64::MAX {
        &&& after == before
        &&& phase == TurnPhase::Done
        &&& action matches TurnAction::TurnLimit(x) && x@ == id
    } else {
        &&& after == if known {
            with_turn_counted(before, agent, id)
        } else {
            before
        }
        &&& phase == TurnPhase::Prompting
        &&& action matches TurnAction::Prompt(x) && x@ == id
    }
}

/// What follows once the agent is connected: the requested session when
/// the agent has it (else the run is refused), else the default session,
/// else a new session.
pub open spec fn decided(
    before: Map<Seq<char>, AgentView>,
    agent: Seq<char>,
    requested: Option<Seq<char>>,
    after: Map<Seq<char>, AgentView>,
    phase: TurnPhase,
    action: TurnAction,
) -> bool {
    match requested {
        Some(s) => if before[agent].sessions.dom().contains(s) {
            prompted(before, agent, s, after, phase, action)
        } else {
            &&& after == before
            &&& phase == TurnPhase::Done
            &&& action matches TurnAction::Reply(r) && is_rpc_error(
                r,
                "daemon.session_not_found"@,
                session_not_found_message(agent, s),
                "use daemon session list to see active sessions"@,
            )
        },
        None => match before[agent].default_session {
            Some(d) => prompted(before, agent, d, after, phase, action),
            None => {
                &&& after == before
                &&& phase == TurnPhase::Creating
                &&& action is CreateSession
            },
        },
    }
}

/// The run is over and the table is as it was.
pub open spec fn ended(before: Map<Seq<char>, AgentView>, after: Map<Seq<char>, AgentView>, phase: TurnPhase) -> bool {
    after == before && phase == TurnPhase::Done
}

/// The action answers with this error.
pub open spec fn replies_error(a: TurnAction, code: Seq<char>, message: Seq<char>, hint: Seq<char>) -> bool {
    a matches TurnAction::Reply(x) && is_rpc_error(x, code, message, hint)
}

/// The action answers with the result of the run: `ok`, the agent's text,
/// the input and the effective context.
pub open spec fn replies_run(a: TurnAction, text: Seq<char>, input: Seq<char>, context: Seq<ContextEntry>) -> bool {
    a matches TurnAction::Reply(x) && x matches DaemonRpcResponse::RunResult { output } && output.status@ == "ok"@
        && output.message@ == text && output.input@ == input && output.effective_context@ == context
}

impl DaemonTurn {
    fn prompt_in(self, table: &mut SessionTable, id: String) -> (r: (DaemonTurn, TurnAction))
        requires
            old(table).wf(),
        ensures
            final(table).wf(),
            same_request(r.0, self),
            prompted(old(table)@, self.agent@, id@, final(table)@, r.0.phase, r.1),
    {
        match table.turn_count(self.agent.as_str(), id.as_str()) {
            Some(n) => {
                if n == u64::MAX {
                    let turn = DaemonTurn { phase: TurnPhase::Done, ..self };
                    (turn, TurnAction::TurnLimit(id))
                } else {
                    table.count_turn(self.agent.as_str(), id.as_str());
                    let turn = DaemonTurn { phase: TurnPhase::Prompting, ..self };
                    (turn, TurnAction::Prompt(id))
                }
            },
            None => {
                let turn = DaemonTurn { phase: TurnPhase::Prompting, ..self };
                (turn, TurnAction::Prompt(id))
            },
        }
    }

    fn decide(self, table: &mut SessionTable) -> (r: (DaemonTurn, TurnAction))
        requires
            old(table).wf(),
            old(table)@.dom().contains(self.agent@),
        ensures
            final(table).wf(),
            same_request(r.0, self),
            decided(old(table)@, self.agent@, opt_view(self.requested), final(table)@, r.0.phase, r.1),
    {
        let choice = match &self.requested {
            Some(s) => table.choose_run_session(self.agent.as_str(), Some(s.as_str())),
            None => table.choose_run_session(self.agent.as_str(), None),
        };
        match choice {
            RunSession::Use(id) => self.prompt_in(table, id),
            RunSession::Missing => {
                let answer = match &self.requested {
                    Some(s) => session_not_found(self.agent.as_str(), s.as_str()),
                    None => session_not_found(self.agent.as_str(), ""),
                };
                let turn = DaemonTurn { phase: TurnPhase::Done, ..self };
                (turn, TurnAction::Reply(answer))
            },
            RunSession::Create => {
                let turn = DaemonTurn { phase: TurnPhase::Creating, ..self };
                (turn, TurnAction::CreateSession)
            },
        }
    }

    /// A run of `input` for `agent`, in the `requested` session or else the
    /// agent's default one, with the effective context `context`: it first
    /// connects to an agent the daemon has no connection to.
    pub fn begin(
        agent: String,
        requested: Option<String>,
        input: String,
        context: Vec<ContextEntry>,
        table: &mut SessionTable,
    ) -> (r: (DaemonTurn, TurnAction))
        requires
            old(table).wf(),
        ensures
            final(table).wf(),
            r.0.agent@ == agent@,
            opt_view(r.0.requested) == opt_view(requested),
            r.0.input@ == input@,
            r.0.context@ == context@,
            !old(table)@.dom().contains(agent@) ==> final(table)@ == old(table)@ && r.0.phase == TurnPhase::Connecting
                && r.1 is Connect,
            old(table)@.dom().contains(agent@) ==> decided(
                old(table)@,
                agent@,
                opt_view(requested),
                final(table)@,
                r.0.phase,
                r.1,
            ),
    {
        let turn = DaemonTurn { agent, requested, input, context, phase: TurnPhase::Connecting };
        if table.has_agent(turn.agent.as_str()) {
            turn.decide(table)
        } else {
            (turn, TurnAction::Connect)
        }
    }

    /// The next step of a run, from the event of the step it waited for:
    /// once connected it chooses the session; a created session becomes the
    /// agent's default and is prompted; a prompt's answer or any failure
    /// ends the run with its answer.
    pub fn step(self, table: &mut SessionTable, event: TurnEvent) -> (r: (DaemonTurn, TurnAction))
        requires
            old(table).wf(),
        ensures
            final(table).wf(),
            r.0.agent@ == self.agent@,
            match (self.phase, event) {
                (TurnPhase::Connecting, TurnEvent::Connected) => same_request(r.0, self) && decided(
                    with_agent(old(table)@, self.agent@),
                    self.agent@,
                    opt_view(self.requested),
                    final(table)@,
                    r.0.phase,
                    r.1,
                ),
                (_, TurnEvent::ConnectFailed(m)) => ended(old(table)@, final(table)@, r.0.phase) && replies_error(
                    r.1,
                    "daemon.agent_connect_failed"@,
                    m@,
                    "verify agent is installed and executable"@,
                ),
                (TurnPhase::Creating, TurnEvent::SessionCreated(id)) => same_request(r.0, self) && prompted(
                    with_default_session(old(table)@, self.agent@, id@),
                    self.agent@,
                    id@,
                    final(table)@,
                    r.0.phase,
                    r.1,
                ),
                (TurnPhase::Creating, TurnEvent::CreateFailed(m)) => ended(old(table)@, final(table)@, r.0.phase)
                    && replies_error(r.1, "daemon.session_create_failed"@, m@, "daemon restart"@),
                (TurnPhase::Prompting, TurnEvent::Answered(text)) => ended(old(table)@, final(table)@, r.0.phase)
                    && replies_run(r.1, text@, self.input@, self.context@),
                (TurnPhase::Prompting, TurnEvent::PromptFailed(m)) => ended(old(table)@, final(table)@, r.0.phase)
                    && replies_error(r.1, "daemon.agent_error"@, m@, "daemon restart"@),
                _ => ended(old(table)@, final(table)@, r.0.phase) && replies_error(
                    r.1,
                    "daemon.agent_error"@,
                    UNEXPECTED_TURN_EVENT@,
                    "daemon restart"@,
                ),
            },
    {
        match (self.phase, event) {
            (TurnPhase::Connecting, TurnEvent::Connected) => {
                if !table.has_agent(self.agent.as_str()) {
                    table.add_agent(self.agent.as_str());
                }
                self.decide(table)
            },
            (_, TurnEvent::ConnectFailed(m)) => {
                let turn = DaemonTurn { phase: TurnPhase::Done, ..self };
                (turn, TurnAction::Reply(agent_connect_failed(m)))
            },
            (TurnPhase::Creating, TurnEvent::SessionCreated(id)) => {
                if !table.has_agent(self.agent.as_str()) {
                    table.add_agent(self.agent.as_str());
                }
                table.open_default_session(self.agent.as_str(), id.clone());
                self.prompt_in(table, id)
            },
            (TurnPhase::Creating, TurnEvent::CreateFailed(m)) => {
                let turn = DaemonTurn { phase: TurnPhase::Done, ..self };
                (turn, TurnAction::Reply(session_create_failed(m)))
            },
            (TurnPhase::Prompting, TurnEvent::Answered(text)) => {
                let DaemonTurn { agent, requested, input, context, phase: _ } = self;
                let answer = run_result(input.as_str(), text, context);
                let turn = DaemonTurn { agent, requested, input, context: Vec::new(), phase: TurnPhase::Done };
                (turn, TurnAction::Reply(answer))
            },
            (TurnPhase::Prompting, TurnEvent::PromptFailed(m)) => {
                let turn = DaemonTurn { phase: TurnPhase::Done, ..self };
                (turn, TurnAction::Reply(agent_error(m)))
            },
            _ => {
                let turn = DaemonTurn { phase: TurnPhase::Done, ..self };
                (turn, TurnAction::Reply(agent_error(owned(UNEXPECTED_TURN_EVENT))))
            },
        }
    }
}

} // verus!
