//! The agent sessions that a running daemon keeps: for each agent, its
//! sessions with the number of turns run in each, and its default session.

use vstd::prelude::*;

use crate::keyed::{
    has_key, keyed, lemma_keyed_absent, lemma_keyed_empty, lemma_keyed_index, lemma_keyed_is_empty,
    lemma_keyed_push, lemma_keyed_remove, lemma_keyed_update, unique_keys,
};
use crate::text::{owned, str_eq};

verus! {

broadcast use vstd::string::group_string_axioms;

/// One session of an agent and the number of turns run in it.
pub struct SessionEntry {
    pub session_id: String,
    pub turn_count: u64,
}

/// The sessions of one agent.
pub struct AgentSessions {
    pub agent: String,
    pub sessions: Vec<SessionEntry>,
    pub default_session: Option<String>,
}

/// The sessions of every connected agent.
pub struct SessionTable {
    agents: Vec<AgentSessions>,
}

/// The sessions of one agent: turn counts by session id, and the default
/// session.
pub struct AgentView {
    pub sessions: Map<Seq<char>, u64>,
    pub default_session: Option<Seq<char>>,
}

pub open spec fn session_key() -> spec_fn(SessionEntry) -> Seq<char> {
    |e: SessionEntry| e.session_id@
}

pub open spec fn session_turns() -> spec_fn(SessionEntry) -> u64 {
    |e: SessionEntry| e.turn_count
}

pub open spec fn opt_view(o: Option<String>) -> Option<Seq<char>> {
    match o {
        Some(s) => Some(s@),
        None => None,
    }
}

/// What an agent's entry holds.
pub open spec fn agent_view(a: AgentSessions) -> AgentView {
    AgentView {
        sessions: keyed(a.sessions@, session_key(), session_turns()),
        default_session: opt_view(a.default_session),
    }
}

pub open spec fn agent_key() -> spec_fn(AgentSessions) -> Seq<char> {
    |a: AgentSessions| a.agent@
}

pub open spec fn agent_val() -> spec_fn(AgentSessions) -> AgentView {
    |a: AgentSessions| agent_view(a)
}

/// One agent's entry is well formed: its session ids are distinct and its
/// default session is one of them.
pub open spec fn agent_wf(a: AgentSessions) -> bool {
    &&& unique_keys(a.sessions@, session_key())
    &&& (a.default_session matches Some(d) ==> has_key(a.sessions@, session_key(), d@))
}

/// The default session of every agent, if it has one, is one of its
/// sessions.
pub open spec fn defaults_are_sessions(m: Map<Seq<char>, AgentView>) -> bool {
    forall|a: Seq<char>|
        #[trigger] m.dom().contains(a) ==> (m[a].default_session matches Some(d) ==> m[a].sessions.dom().contains(
            d,
        ))
}

/// How closing a session ended.
#[derive(PartialEq, Eq, Structural, Clone, Copy, Debug)]
pub enum CloseOutcome {
    Closed,
    AgentNotFound,
    SessionNotFound,
}

/// Which session a run goes to.
pub enum RunSession {
    /// This existing session.
    Use(String),
    /// A new session, to be created and made the default.
    Create,
    /// The requested session does not exist.
    Missing,
}

/// One session as listed.
pub struct SessionInfo {
    pub session_id: String,
    pub turn_count: u64,
    pub is_default: bool,
}

/// The sessions of one agent as listed.
pub struct AgentSessionInfo {
    pub agent: String,
    pub sessions: Vec<SessionInfo>,
}

/// Whether a listed session is flagged as the default: its id equals the
/// default session's, or the empty id when there is no default.
pub open spec fn flagged_default(id: Seq<char>, default_session: Option<Seq<char>>) -> bool {
    match default_session {
        Some(d) => id == d,
        None => id == Seq::<char>::empty(),
    }
}

/// The position of a session among an agent's sessions.
fn find_session(sessions: &Vec<SessionEntry>, id: &str) -> (r: Option<usize>)
    ensures
        match r {
            Some(k) => k < sessions@.len() && sessions@[k as int].session_id@ == id@,
            None => forall|k: int| 0 <= k < sessions@.len() ==> sessions@[k].session_id@ != id@,
        },
{
    let mut k: usize = 0;
    while k < sessions.len()
        invariant
            k <= sessions@.len(),
            forall|j: int| 0 <= j < k ==> sessions@[j].session_id@ != id@,
        decreases sessions.len() - k,
    {
        if str_eq(sessions[k].session_id.as_str(), id) {
            return Some(k);
        }
        k = k + 1;
    }
    None
}

/// Sets the turn count of session `id`, adding the session where it is new.
fn put_session(sessions: &mut Vec<SessionEntry>, id: String, turns: u64)
    requires
        unique_keys(old(sessions)@, session_key()),
    ensures
        unique_keys(final(sessions)@, session_key()),
        keyed(final(sessions)@, session_key(), session_turns()) == keyed(
            old(sessions)@,
            session_key(),
            session_turns(),
        ).insert(id@, turns),
{
    let ghost before = sessions@;
    match find_session(sessions, id.as_str()) {
        Some(k) => {
            let _ = sessions.remove(k);
            let entry = SessionEntry { session_id: id, turn_count: turns };
            sessions.insert(k, entry);
            proof {
                assert(sessions@ =~= before.update(k as int, entry));
                lemma_keyed_update(before, session_key(), session_turns(), k as int, entry);
            }
        },
        None => {
            let entry = SessionEntry { session_id: id, turn_count: turns };
            proof {
                assert(!has_key(before, session_key(), entry.session_id@));
            }
            sessions.push(entry);
            proof {
                lemma_keyed_push(before, session_key(), session_turns(), entry);
            }
        },
    }
}

/// Whether a session is among the keys of a map.
proof fn lemma_dom_has_key(s: Seq<SessionEntry>, k: Seq<char>)
    ensures
        keyed(s, session_key(), session_turns()).dom().contains(k) <==> has_key(s, session_key(), k),
{
}

/// The table after agent `a` opened session `id`: the session is there
/// with no turns run, and it is the default when the agent had no session
/// or no default.
pub open spec fn with_new_session(m: Map<Seq<char>, AgentView>, a: Seq<char>, id: Seq<char>) -> Map<
    Seq<char>,
    AgentView,
> {
    m.insert(
        a,
        AgentView {
            sessions: m[a].sessions.insert(id, 0),
            default_session: if m[a].sessions.dom() == Set::<Seq<char>>::empty() || m[a].default_session is None {
                Some(id)
            } else {
                m[a].default_session
            },
        },
    )
}

/// The table after one more turn in session `id` of agent `a`.
pub open spec fn with_turn_counted(m: Map<Seq<char>, AgentView>, a: Seq<char>, id: Seq<char>) -> Map<
    Seq<char>,
    AgentView,
> {
    m.insert(
        a,
        AgentView {
            sessions: m[a].sessions.insert(id, (m[a].sessions[id] + 1) as u64),
            default_session: m[a].default_session,
        },
    )
}

impl View for SessionTable {
    type V = Map<Seq<char>, AgentView>;

    closed spec fn view(&self) -> Map<Seq<char>, AgentView> {
        keyed(self.agents@, agent_key(), agent_val())
    }
}

impl SessionTable {
    /// The table is well formed: agents are distinct and each agent's entry
    /// is well formed.
    pub closed spec fn wf(&self) -> bool {
        &&& unique_keys(self.agents@, agent_key())
        &&& forall|i: int| 0 <= i < self.agents@.len() ==> agent_wf(#[trigger] self.agents@[i])
    }

    /// A well-formed table's defaults are among its sessions.
    pub proof fn lemma_wf(&self)
        requires
            self.wf(),
        ensures
            defaults_are_sessions(self@),
    {
        assert forall|a: Seq<char>| #[trigger] self@.dom().contains(a) implies (
        self@[a].default_session matches Some(d) ==> self@[a].sessions.dom().contains(d)) by {
            let i = choose|i: int| 0 <= i < self.agents@.len() && #[trigger] agent_key()(self.agents@[i]) == a;
            lemma_keyed_index(self.agents@, agent_key(), agent_val(), i);
            let e = self.agents@[i];
            assert(agent_wf(e));
            if let Some(d) = e.default_session {
                let j = choose|j: int| 0 <= j < e.sessions@.len() && #[trigger] session_key()(e.sessions@[j]) == d@;
                lemma_keyed_index(e.sessions@, session_key(), session_turns(), j);
            }
        }
    }

    /// A table without agents.
    pub fn new() -> (r: SessionTable)
        ensures
            r.wf(),
            r@ == Map::<Seq<char>, AgentView>::empty(),
    {
        let r = SessionTable { agents: Vec::new() };
        proof {
            lemma_keyed_empty(r.agents@, agent_key(), agent_val());
        }
        r
    }

    /// The position of an agent's entry.
    fn find_agent(&self, agent: &str) -> (r: Option<usize>)
        ensures
            match r {
                Some(i) => i < self.agents@.len() && self.agents@[i as int].agent@ == agent@,
                None => forall|i: int| 0 <= i < self.agents@.len() ==> self.agents@[i].agent@ != agent@,
            },
    {
        let mut i: usize = 0;
        while i < self.agents.len()
            invariant
                i <= self.agents@.len(),
                forall|j: int| 0 <= j < i ==> self.agents@[j].agent@ != agent@,
            decreases self.agents.len() - i,
        {
            if str_eq(self.agents[i].agent.as_str(), agent) {
                return Some(i);
            }
            i = i + 1;
        }
        None
    }

    /// Whether the table holds an entry for `agent`.
    pub fn has_agent(&self, agent: &str) -> (r: bool)
        requires
            self.wf(),
        ensures
            r == self@.dom().contains(agent@),
    {
        match self.find_agent(agent) {
            Some(i) => {
                proof {
                    lemma_keyed_index(self.agents@, agent_key(), agent_val(), i as int);
                }
                true
            },
            None => {
                proof {
                    lemma_keyed_absent(self.agents@, agent_key(), agent_val(), agent@);
                }
                false
            },
        }
    }

    /// Adds an agent without sessions.
    pub fn add_agent(&mut self, agent: &str)
        requires
            old(self).wf(),
            !old(self)@.dom().contains(agent@),
        ensures
            final(self).wf(),
            final(self)@ == old(self)@.insert(
                agent@,
                AgentView { sessions: Map::empty(), default_session: None },
            ),
    {
        let entry = AgentSessions { agent: owned(agent), sessions: Vec::new(), default_session: None };
        proof {
            lemma_keyed_empty(entry.sessions@, session_key(), session_turns());
            assert(!has_key(self.agents@, agent_key(), agent@));
        }
        let ghost before = self.agents@;
        self.agents.push(entry);
        proof {
            lemma_keyed_push(before, agent_key(), agent_val(), entry);
            assert(agent_view(entry) == AgentView { sessions: Map::empty(), default_session: None });
            assert forall|i: int| 0 <= i < self.agents@.len() implies agent_wf(#[trigger] self.agents@[i]) by {
                if i < before.len() {
                    assert(self.agents@[i] == before[i]);
                }
            }
        }
    }

    /// Puts back agent entry `e` at position `i`, where it was taken from.
    proof fn lemma_put_back(before: Seq<AgentSessions>, i: int, e: AgentSessions)
        requires
            unique_keys(before, agent_key()),
            forall|j: int| 0 <= j < before.len() ==> agent_wf(#[trigger] before[j]),
            0 <= i < before.len(),
            e.agent@ == before[i].agent@,
            agent_wf(e),
        ensures
            unique_keys(before.update(i, e), agent_key()),
            forall|j: int| 0 <= j < before.len() ==> agent_wf(#[trigger] before.update(i, e)[j]),
            keyed(before.update(i, e), agent_key(), agent_val()) == keyed(before, agent_key(), agent_val()).insert(
                e.agent@,
                agent_view(e),
            ),
    {
        lemma_keyed_update(before, agent_key(), agent_val(), i, e);
        assert forall|j: int| 0 <= j < before.len() implies agent_wf(#[trigger] before.update(i, e)[j]) by {
            if j != i {
                assert(before.update(i, e)[j] == before[j]);
            }
        }
    }

    /// The entry of an agent the table holds.
    fn agent_position(&self, agent: &str) -> (r: usize)
        requires
            self.wf(),
            self@.dom().contains(agent@),
        ensures
            r < self.agents@.len(),
            self.agents@[r as int].agent@ == agent@,
            agent_wf(self.agents@[r as int]),
            self@[agent@] == agent_view(self.agents@[r as int]),
    {
        match self.find_agent(agent) {
            Some(i) => {
                proof {
                    lemma_keyed_index(self.agents@, agent_key(), agent_val(), i as int);
                }
                i
            },
            None => {
                proof {
                    lemma_keyed_absent(self.agents@, agent_key(), agent_val(), agent@);
                }
                0
            },
        }
    }

    /// Records a new session `id` of `agent` with no turns run. It becomes
    /// the default session when the agent had no session or no default.
    pub fn record_session(&mut self, agent: &str, id: String)
        requires
            old(self).wf(),
            old(self)@.dom().contains(agent@),
        ensures
            final(self).wf(),
            final(self)@ == with_new_session(old(self)@, agent@, id@),
    {
        let i = self.agent_position(agent);
        let ghost before = self.agents@;
        let ghost old_e = before[i as int];
        let mut e = self.agents.remove(i);
        proof {
            lemma_keyed_is_empty(e.sessions@, session_key(), session_turns());
        }
        let is_first = e.sessions.len() == 0;
        put_session(&mut e.sessions, id.clone(), 0);
        if is_first || e.default_session.is_none() {
            e.default_session = Some(id);
        }
        proof {
            if e.default_session is Some {
                lemma_dom_has_key(e.sessions@, e.default_session->0@);
                lemma_dom_has_key(old_e.sessions@, e.default_session->0@);
            }
        }
        self.agents.insert(i, e);
        proof {
            assert(self.agents@ =~= before.update(i as int, e));
            Self::lemma_put_back(before, i as int, e);
        }
    }

    /// Records a new session `id` of `agent` with no turns run and makes it
    /// the default session.
    pub fn open_default_session(&mut self, agent: &str, id: String)
        requires
            old(self).wf(),
            old(self)@.dom().contains(agent@),
        ensures
            final(self).wf(),
            final(self)@ == old(self)@.insert(
                agent@,
                AgentView {
                    sessions: old(self)@[agent@].sessions.insert(id@, 0),
                    default_session: Some(id@),
                },
            ),
    {
        let i = self.agent_position(agent);
        let ghost before = self.agents@;
        let mut e = self.agents.remove(i);
        put_session(&mut e.sessions, id.clone(), 0);
        e.default_session = Some(id);
        proof {
            lemma_dom_has_key(e.sessions@, e.default_session->0@);
        }
        self.agents.insert(i, e);
        proof {
            assert(self.agents@ =~= before.update(i as int, e));
            Self::lemma_put_back(before, i as int, e);
        }
    }

    /// The number of turns run in a session, if the agent has it.
    pub fn turn_count(&self, agent: &str, id: &str) -> (r: Option<u64>)
        requires
            self.wf(),
        ensures
            match r {
                Some(n) => self@.dom().contains(agent@) && self@[agent@].sessions.dom().contains(id@)
                    && self@[agent@].sessions[id@] == n,
                None => !(self@.dom().contains(agent@) && self@[agent@].sessions.dom().contains(id@)),
            },
    {
        if !self.has_agent(agent) {
            return None;
        }
        let i = self.agent_position(agent);
        let e = &self.agents[i];
        match find_session(&e.sessions, id) {
            Some(k) => {
                proof {
                    lemma_keyed_index(e.sessions@, session_key(), session_turns(), k as int);
                }
                Some(e.sessions[k].turn_count)
            },
            None => {
                proof {
                    lemma_keyed_absent(e.sessions@, session_key(), session_turns(), id@);
                }
                None
            },
        }
    }

    /// Counts one more turn in session `id` of `agent`.
    pub fn count_turn(&mut self, agent: &str, id: &str)
        requires
            old(self).wf(),
            old(self)@.dom().contains(agent@),
            old(self)@[agent@].sessions.dom().contains(id@),
            old(self)@[agent@].sessions[id@] < u64::MAX,
        ensures
            final(self).wf(),
            final(self)@ == with_turn_counted(old(self)@, agent@, id@),
    {
        let i = self.agent_position(agent);
        let ghost before = self.agents@;
        let ghost old_e = before[i as int];
        let mut e = self.agents.remove(i);
        match find_session(&e.sessions, id) {
            Some(k) => {
                proof {
                    lemma_keyed_index(e.sessions@, session_key(), session_turns(), k as int);
                }
                let n = e.sessions[k].turn_count;
                put_session(&mut e.sessions, owned(id), n + 1);
            },
            None => {
                proof {
                    lemma_keyed_absent(e.sessions@, session_key(), session_turns(), id@);
                }
            },
        }
        proof {
            if e.default_session is Some {
                lemma_dom_has_key(e.sessions@, e.default_session->0@);
                lemma_dom_has_key(old_e.sessions@, e.default_session->0@);
            }
        }
        self.agents.insert(i, e);
        proof {
            assert(self.agents@ =~= before.update(i as int, e));
            Self::lemma_put_back(before, i as int, e);
        }
    }
    /// Closes session `id` of `agent`. When it was the default, another of
    /// the agent's sessions becomes the default; an agent left without
    /// sessions is dropped.
    pub fn close_session(&mut self, agent: &str, id: &str) -> (r: CloseOutcome)
        requires
            old(self).wf(),
        ensures
            final(self).wf(),
            !old(self)@.dom().contains(agent@) ==> r == CloseOutcome::AgentNotFound && final(self)@ == old(self)@,
            old(self)@.dom().contains(agent@) && !old(self)@[agent@].sessions.dom().contains(id@) ==> r
                == CloseOutcome::SessionNotFound && final(self)@ == old(self)@,
            old(self)@.dom().contains(agent@) && old(self)@[agent@].sessions.dom().contains(id@) ==> {
                let rest = old(self)@[agent@].sessions.remove(id@);
                &&& r == CloseOutcome::Closed
                &&& rest.dom() == Set::<Seq<char>>::empty() ==> final(self)@ == old(self)@.remove(agent@)
                &&& rest.dom() != Set::<Seq<char>>::empty() ==> {
                    &&& final(self)@.dom().contains(agent@)
                    &&& final(self)@ == old(self)@.insert(
                        agent@,
                        AgentView { sessions: rest, default_session: final(self)@[agent@].default_session },
                    )
                    &&& old(self)@[agent@].default_session == Some(id@) ==> (
                    final(self)@[agent@].default_session matches Some(d) && rest.dom().contains(d))
                    &&& old(self)@[agent@].default_session != Some(id@) ==> final(self)@[agent@].default_session == old(self)@[agent@].default_session
                }
            },
    {
        if !self.has_agent(agent) {
            return CloseOutcome::AgentNotFound;
        }
        let i = self.agent_position(agent);
        let k = match find_session(&self.agents[i].sessions, id) {
            Some(k) => k,
            None => {
                proof {
                    lemma_keyed_absent(self.agents@[i as int].sessions@, session_key(), session_turns(), id@);
                }
                return CloseOutcome::SessionNotFound;
            },
        };
        let ghost before = self.agents@;
        let ghost old_e = before[i as int];
        let mut e = self.agents.remove(i);
        let ghost old_sessions = e.sessions@;
        let _ = e.sessions.remove(k);
        proof {
            lemma_keyed_remove(old_sessions, session_key(), session_turns(), k as int);
            lemma_keyed_is_empty(e.sessions@, session_key(), session_turns());
        }
        let was_default = match &e.default_session {
            Some(d) => str_eq(d.as_str(), id),
            None => false,
        };
        if was_default {
            if e.sessions.len() > 0 {
                e.default_session = Some(e.sessions[0].session_id.clone());
                proof {
                    lemma_keyed_index(e.sessions@, session_key(), session_turns(), 0);
                }
            } else {
                e.default_session = None;
            }
        }
        proof {
            if e.default_session is Some {
                lemma_dom_has_key(e.sessions@, e.default_session->0@);
                lemma_dom_has_key(old_sessions, e.default_session->0@);
            }
        }
        if e.sessions.len() == 0 {
            proof {
                assert(self.agents@ =~= before.remove(i as int));
                lemma_keyed_remove(before, agent_key(), agent_val(), i as int);
                assert forall|j: int| 0 <= j < self.agents@.len() implies agent_wf(#[trigger] self.agents@[j]) by {
                    if j < i {
                        assert(self.agents@[j] == before[j]);
                    } else {
                        assert(self.agents@[j] == before[j + 1]);
                    }
                }
            }
        } else {
            self.agents.insert(i, e);
            proof {
                assert(self.agents@ =~= before.update(i as int, e));
                Self::lemma_put_back(before, i as int, e);
                lemma_keyed_index(self.agents@, agent_key(), agent_val(), i as int);
            }
        }
        CloseOutcome::Closed
    }

    /// The session a run of `agent` goes to: the requested one if it
    /// exists (else none), or the default session, or a new one when there
    /// is no default.
    pub fn choose_run_session(&self, agent: &str, requested: Option<&str>) -> (r: RunSession)
        requires
            self.wf(),
            self@.dom().contains(agent@),
        ensures
            match requested {
                Some(s) => if self@[agent@].sessions.dom().contains(s@) {
                    r matches RunSession::Use(u) && u@ == s@
                } else {
                    r is Missing
                },
                None => match self@[agent@].default_session {
                    Some(d) => r matches RunSession::Use(u) && u@ == d,
                    None => r is Create,
                },
            },
    {
        let i = self.agent_position(agent);
        let e = &self.agents[i];
        match requested {
            Some(s) => match find_session(&e.sessions, s) {
                Some(k) => {
                    proof {
                        lemma_keyed_index(e.sessions@, session_key(), session_turns(), k as int);
                    }
                    RunSession::Use(owned(s))
                },
                None => {
                    proof {
                        lemma_keyed_absent(e.sessions@, session_key(), session_turns(), s@);
                    }
                    RunSession::Missing
                },
            },
            None => match &e.default_session {
                Some(d) => RunSession::Use(d.clone()),
                None => RunSession::Create,
            },
        }
    }

    /// The sessions of every agent, each flagged when it is its agent's
    /// default.
    pub fn list(&self) -> (r: Vec<AgentSessionInfo>)
        requires
            self.wf(),
        ensures
            forall|i: int| 0 <= i < r@.len() ==> {
                let a = #[trigger] r@[i];
                &&& self@.dom().contains(a.agent@)
                &&& forall|j: int| 0 <= j < a.sessions@.len() ==> {
                    let si = #[trigger] a.sessions@[j];
                    &&& self@[a.agent@].sessions.dom().contains(si.session_id@)
                    &&& self@[a.agent@].sessions[si.session_id@] == si.turn_count
                    &&& si.is_default == flagged_default(si.session_id@, self@[a.agent@].default_session)
                }
                &&& forall|id: Seq<char>| #[trigger] self@[a.agent@].sessions.dom().contains(id) ==> exists|j: int|
                    0 <= j < a.sessions@.len() && a.sessions@[j].session_id@ == id
                &&& forall|j1: int, j2: int| 0 <= j1 < j2 < a.sessions@.len() ==> a.sessions@[j1].session_id@ != a.sessions@[j2].session_id@
            },
            forall|name: Seq<char>| #[trigger] self@.dom().contains(name) ==> exists|i: int|
                0 <= i < r@.len() && r@[i].agent@ == name,
            forall|i1: int, i2: int| 0 <= i1 < i2 < r@.len() ==> r@[i1].agent@ != r@[i2].agent@,
    {
        let mut r: Vec<AgentSessionInfo> = Vec::new();
        let mut i: usize = 0;
        while i < self.agents.len()
            invariant
                self.wf(),
                i <= self.agents@.len(),
                r@.len() == i,
                forall|x: int| 0 <= x < i ==> {
                    let a = #[trigger] r@[x];
                    &&& a.agent@ == self.agents@[x].agent@
                    &&& a.sessions@.len() == self.agents@[x].sessions@.len()
                    &&& forall|j: int| 0 <= j < a.sessions@.len() ==> {
                        let si = #[trigger] a.sessions@[j];
                        &&& si.session_id@ == self.agents@[x].sessions@[j].session_id@
                        &&& si.turn_count == self.agents@[x].sessions@[j].turn_count
                        &&& si.is_default == flagged_default(
                            si.session_id@,
                            opt_view(self.agents@[x].default_session),
                        )
                    }
                },
            decreases self.agents.len() - i,
        {
            let e = &self.agents[i];
            let mut infos: Vec<SessionInfo> = Vec::new();
            let mut j: usize = 0;
            while j < e.sessions.len()
                invariant
                    j <= e.sessions@.len(),
                    infos@.len() == j,
                    forall|y: int| 0 <= y < j ==> {
                        let si = #[trigger] infos@[y];
                        &&& si.session_id@ == e.sessions@[y].session_id@
                        &&& si.turn_count == e.sessions@[y].turn_count
                        &&& si.is_default == flagged_default(si.session_id@, opt_view(e.default_session))
                    },
                decreases e.sessions.len() - j,
            {
                let s = &e.sessions[j];
                let is_default = match &e.default_session {
                    Some(d) => str_eq(s.session_id.as_str(), d.as_str()),
                    None => str_eq(s.session_id.as_str(), ""),
                };
                proof {
                    reveal_strlit("");
                    assert(""@ =~= Seq::<char>::empty());
                }
                infos.push(SessionInfo { session_id: s.session_id.clone(), turn_count: s.turn_count, is_default });
                j = j + 1;
            }
            r.push(AgentSessionInfo { agent: e.agent.clone(), sessions: infos });
            i = i + 1;
        }
        proof {
            assert forall|x: int| 0 <= x < r@.len() implies {
                let a = #[trigger] r@[x];
                &&& self@.dom().contains(a.agent@)
                &&& forall|j: int| 0 <= j < a.sessions@.len() ==> {
                    let si = #[trigger] a.sessions@[j];
                    &&& self@[a.agent@].sessions.dom().contains(si.session_id@)
                    &&& self@[a.agent@].sessions[si.session_id@] == si.turn_count
                    &&& si.is_default == flagged_default(si.session_id@, self@[a.agent@].default_session)
                }
                &&& forall|id: Seq<char>| #[trigger] self@[a.agent@].sessions.dom().contains(id) ==> exists|j: int|
                    0 <= j < a.sessions@.len() && a.sessions@[j].session_id@ == id
                &&& forall|j1: int, j2: int| 0 <= j1 < j2 < a.sessions@.len() ==> a.sessions@[j1].session_id@ != a.sessions@[j2].session_id@
            } by {
                let a = r@[x];
                let e = self.agents@[x];
                lemma_keyed_index(self.agents@, agent_key(), agent_val(), x);
                assert(agent_wf(e));
                assert forall|j: int| 0 <= j < a.sessions@.len() implies {
                    let si = #[trigger] a.sessions@[j];
                    &&& self@[a.agent@].sessions.dom().contains(si.session_id@)
                    &&& self@[a.agent@].sessions[si.session_id@] == si.turn_count
                    &&& si.is_default == flagged_default(si.session_id@, self@[a.agent@].default_session)
                } by {
                    lemma_keyed_index(e.sessions@, session_key(), session_turns(), j);
                }
                assert forall|id: Seq<char>| #[trigger] self@[a.agent@].sessions.dom().contains(id) implies exists|j: int|
                    0 <= j < a.sessions@.len() && a.sessions@[j].session_id@ == id by {
                    lemma_dom_has_key(e.sessions@, id);
                    let j = choose|j: int| 0 <= j < e.sessions@.len() && #[trigger] session_key()(e.sessions@[j]) == id;
                    assert(a.sessions@[j].session_id@ == id);
                }
                assert forall|j1: int, j2: int| 0 <= j1 < j2 < a.sessions@.len() implies a.sessions@[j1].session_id@ != a.sessions@[j2].session_id@ by {
                    assert(session_key()(e.sessions@[j1]) != session_key()(e.sessions@[j2]));
                }
            }
            assert forall|name: Seq<char>| #[trigger] self@.dom().contains(name) implies exists|x: int|
                0 <= x < r@.len() && r@[x].agent@ == name by {
                let x = choose|x: int| 0 <= x < self.agents@.len() && #[trigger] agent_key()(self.agents@[x]) == name;
                assert(r@[x].agent@ == name);
            }
            assert forall|i1: int, i2: int| 0 <= i1 < i2 < r@.len() implies r@[i1].agent@ != r@[i2].agent@ by {
                assert(agent_key()(self.agents@[i1]) != agent_key()(self.agents@[i2]));
            }
        }
        r
    }
}

/// A session just opened has no turns, and closing it leaves the agent's
/// sessions as they were before it was opened.
pub proof fn law_close_undoes_open(m: Map<Seq<char>, AgentView>, a: Seq<char>, id: Seq<char>)
    requires
        m.dom().contains(a),
        !m[a].sessions.dom().contains(id),
    ensures
        with_new_session(m, a, id)[a].sessions[id] == 0,
        with_new_session(m, a, id)[a].sessions.remove(id) == m[a].sessions,
{
    assert(with_new_session(m, a, id)[a].sessions.remove(id) =~= m[a].sessions);
}

/// An agent's first session becomes its default session.
pub proof fn law_first_session_is_default(m: Map<Seq<char>, AgentView>, a: Seq<char>, id: Seq<char>)
    requires
        m.dom().contains(a),
        m[a].sessions.dom() == Set::<Seq<char>>::empty(),
    ensures
        with_new_session(m, a, id)[a].default_session == Some(id),
{
}

/// Opening a session and counting turns keep every default session among
/// its agent's sessions.
pub proof fn law_defaults_remain_sessions(m: Map<Seq<char>, AgentView>, a: Seq<char>, id: Seq<char>)
    requires
        defaults_are_sessions(m),
        m.dom().contains(a),
    ensures
        defaults_are_sessions(with_new_session(m, a, id)),
        m[a].sessions.dom().contains(id) ==> defaults_are_sessions(with_turn_counted(m, a, id)),
{
}

/// Counting a turn adds one to that session's count and changes nothing
/// else of the agent.
pub proof fn law_turn_counts_one(m: Map<Seq<char>, AgentView>, a: Seq<char>, id: Seq<char>, other: Seq<char>)
    requires
        m.dom().contains(a),
        m[a].sessions.dom().contains(id),
        m[a].sessions[id] < u64::MAX,
        other != id,
    ensures
        with_turn_counted(m, a, id)[a].sessions[id] == m[a].sessions[id] + 1,
        with_turn_counted(m, a, id)[a].sessions.dom() == m[a].sessions.dom(),
        m[a].sessions.dom().contains(other) ==> with_turn_counted(m, a, id)[a].sessions[other]
            == m[a].sessions[other],
        with_turn_counted(m, a, id)[a].default_session == m[a].default_session,
{
    assert(with_turn_counted(m, a, id)[a].sessions.dom() =~= m[a].sessions.dom());
}

} // verus!
