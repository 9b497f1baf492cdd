//! Runtime directory locations, the joining of filesystem paths, and the
//! Active Context: the agent, workspace, session, selectors and working
//! directory that invocations run with.
//!
//! Paths are held as strings with `/` as the separator.

use vstd::prelude::*;

use crate::keyed::{
    has_key, keyed, lemma_keyed_empty, lemma_keyed_index, lemma_keyed_push, lemma_keyed_remove, lemma_keyed_update,
    unique_keys,
};
use crate::output::ContextEntry;
use crate::text::{append, owned, str_eq, to_chars};

verus! {

broadcast use vstd::string::group_string_axioms;

/// The runtime directories of one invocation.
pub struct RuntimeLocations {
    pub config_dir: String,
    pub data_dir: String,
    pub state_dir: String,
    pub cache_dir: String,
    pub log_dir: Option<String>,
}

/// `base` extended by `part`, as `Path::join` does on Unix: an absolute
/// `part` replaces `base`; otherwise a `/` is put between them unless `base`
/// is empty or already ends with one.
pub open spec fn joined(base: Seq<char>, part: Seq<char>) -> Seq<char> {
    if part.len() > 0 && part[0] == '/' {
        part
    } else if base.len() == 0 || base.last() == '/' {
        base + part
    } else {
        base + "/"@ + part
    }
}

/// `base` extended by `part` (see `joined`).
pub fn join_path(base: &str, part: &str) -> (r: String)
    ensures
        r@ == joined(base@, part@),
{
    proof {
        reveal_strlit("/");
    }
    let p = to_chars(part);
    if p.len() > 0 && p[0] == '/' {
        return owned(part);
    }
    let b = to_chars(base);
    let mut r = owned(base);
    if !(b.len() == 0 || b[b.len() - 1] == '/') {
        append(&mut r, "/");
    }
    append(&mut r, part);
    r
}

/// Directories given on the command line in place of the defaults.
pub struct RuntimeOverrides {
    pub config_dir: Option<String>,
    pub data_dir: Option<String>,
    pub state_dir: Option<String>,
    pub cache_dir: Option<String>,
    pub log_dir: Option<String>,
}

/// The given directory, else the default.
pub open spec fn chosen(o: Option<String>, default: Seq<char>) -> Seq<char> {
    match o {
        Some(s) => s@,
        None => default,
    }
}

fn choose_dir(o: &Option<String>, default: String) -> (r: String)
    ensures
        r@ == chosen(*o, default@),
{
    match o {
        Some(s) => s.clone(),
        None => default,
    }
}

/// The runtime directories: the overrides where given, else the user-scoped
/// defaults under the home directory; the state directory defaults to
/// `<data>/state`, and the log directory, when logs are enabled, to
/// `<state>/logs`.
pub fn resolve_runtime_locations(overrides: &RuntimeOverrides, home: &str, log_enabled: bool) -> (r: RuntimeLocations)
    ensures
        r.config_dir@ == chosen(overrides.config_dir, joined(home@, ".config/acp-agent-cli"@)),
        r.data_dir@ == chosen(overrides.data_dir, joined(home@, ".local/share/acp-agent-cli"@)),
        r.state_dir@ == chosen(overrides.state_dir, joined(r.data_dir@, "state"@)),
        r.cache_dir@ == chosen(overrides.cache_dir, joined(home@, ".cache/acp-agent-cli"@)),
        match overrides.log_dir {
            Some(l) => r.log_dir matches Some(x) && x@ == l@,
            None => if log_enabled {
                r.log_dir matches Some(x) && x@ == joined(r.state_dir@, "logs"@)
            } else {
                r.log_dir is None
            },
        },
{
    let config_dir = choose_dir(&overrides.config_dir, join_path(home, ".config/acp-agent-cli"));
    let data_dir = choose_dir(&overrides.data_dir, join_path(home, ".local/share/acp-agent-cli"));
    let state_dir = choose_dir(&overrides.state_dir, join_path(data_dir.as_str(), "state"));
    let cache_dir = choose_dir(&overrides.cache_dir, join_path(home, ".cache/acp-agent-cli"));
    let log_dir = match &overrides.log_dir {
        Some(l) => Some(l.clone()),
        None => if log_enabled {
            Some(join_path(state_dir.as_str(), "logs"))
        } else {
            None
        },
    };
    RuntimeLocations { config_dir, data_dir, state_dir, cache_dir, log_dir }
}

/// The console's history file, `<state>/repl_history`.
pub fn history_file(runtime: &RuntimeLocations) -> (r: String)
    ensures
        r@ == joined(runtime.state_dir@, "repl_history"@),
{
    join_path(runtime.state_dir.as_str(), "repl_history")
}

/// The file holding the persisted Active Context, `<state>/active_context.json`.
pub fn active_context_file(runtime: &RuntimeLocations) -> (r: String)
    ensures
        r@ == joined(runtime.state_dir@, "active_context.json"@),
{
    join_path(runtime.state_dir.as_str(), "active_context.json")
}

// ---------------------------------------------------------------------------
// The Active Context
// ---------------------------------------------------------------------------

/// The persisted Active Context.
pub struct ActiveContext {
    pub name: Option<String>,
    pub agent: Option<String>,
    pub workspace: Option<String>,
    pub session_id: Option<String>,
    pub selectors: Vec<ContextEntry>,
    pub current_directory: Option<String>,
}

/// The values given for one invocation, which override the persisted ones.
pub struct InvocationContextOverrides {
    pub agent: Option<String>,
    pub workspace: Option<String>,
    pub session_id: Option<String>,
    pub selectors: Vec<ContextEntry>,
    pub current_directory: Option<String>,
}

pub open spec fn entry_key() -> spec_fn(ContextEntry) -> Seq<char> {
    |e: ContextEntry| e.key@
}

pub open spec fn entry_value() -> spec_fn(ContextEntry) -> Seq<char> {
    |e: ContextEntry| e.value@
}

/// The map that context entries with distinct keys stand for.
pub open spec fn entries_map(s: Seq<ContextEntry>) -> Map<Seq<char>, Seq<char>> {
    keyed(s, entry_key(), entry_value())
}

/// `m` with each entry of `s` set in turn, a later one replacing an earlier
/// one of the same key.
pub open spec fn put_entries(m: Map<Seq<char>, Seq<char>>, s: Seq<ContextEntry>) -> Map<Seq<char>, Seq<char>>
    decreases s.len(),
{
    if s.len() == 0 {
        m
    } else {
        put_entries(m.insert(s[0].key@, s[0].value@), s.drop_first())
    }
}

/// `m` with `key` set to the value, when there is one.
pub open spec fn put_opt(m: Map<Seq<char>, Seq<char>>, key: Seq<char>, v: Option<Seq<char>>) -> Map<
    Seq<char>,
    Seq<char>,
> {
    match v {
        Some(x) => m.insert(key, x),
        None => m,
    }
}

/// The text of an optional string.
pub open spec fn text_of(o: Option<String>) -> Option<Seq<char>> {
    match o {
        Some(s) => Some(s@),
        None => None,
    }
}

/// The invocation's value, else the persisted one.
pub open spec fn pick(given: Option<String>, persisted: Option<Option<String>>) -> Option<Seq<char>> {
    match given {
        Some(g) => Some(g@),
        None => match persisted {
            Some(p) => text_of(p),
            None => None,
        },
    }
}

/// The effective context of an invocation: the persisted selectors, then
/// the invocation's selectors over them, then the agent, workspace, session
/// and working directory, each the invocation's where given, else the
/// persisted one.
pub open spec fn effective_map(persisted: Option<ActiveContext>, o: InvocationContextOverrides) -> Map<
    Seq<char>,
    Seq<char>,
> {
    let base = match persisted {
        Some(p) => put_entries(Map::empty(), p.selectors@),
        None => Map::empty(),
    };
    let sel = put_entries(base, o.selectors@);
    let p_agent = match persisted { Some(p) => Some(p.agent), None => None };
    let p_ws = match persisted { Some(p) => Some(p.workspace), None => None };
    let p_sid = match persisted { Some(p) => Some(p.session_id), None => None };
    let p_cwd = match persisted { Some(p) => Some(p.current_directory), None => None };
    let m1 = put_opt(sel, "agent"@, pick(o.agent, p_agent));
    let m2 = put_opt(m1, "workspace"@, pick(o.workspace, p_ws));
    let m3 = put_opt(m2, "session_id"@, pick(o.session_id, p_sid));
    put_opt(m3, "current_directory"@, pick(o.current_directory, p_cwd))
}

/// Sets `key` to `value` in a list of entries with distinct keys.
pub fn set_value(entries: &mut Vec<ContextEntry>, key: String, value: String)
    requires
        unique_keys(old(entries)@, entry_key()),
    ensures
        unique_keys(final(entries)@, entry_key()),
        entries_map(final(entries)@) == entries_map(old(entries)@).insert(key@, value@),
{
    let ghost before = entries@;
    let mut i: usize = 0;
    while i < entries.len()
        invariant
            i <= entries@.len(),
            entries@ == before,
            before == old(entries)@,
            unique_keys(before, entry_key()),
            forall|j: int| 0 <= j < i ==> entries@[j].key@ != key@,
        decreases entries.len() - i,
    {
        if str_eq(entries[i].key.as_str(), key.as_str()) {
            let ghost kv = key@;
            let ghost vv = value@;
            let _ = entries.remove(i);
            let e = ContextEntry { key, value };
            entries.insert(i, e);
            proof {
                assert(entries@ =~= before.update(i as int, e));
                lemma_keyed_update(before, entry_key(), entry_value(), i as int, e);
                assert(entry_key()(e) == kv);
                assert(entry_value()(e) == vv);
            }
            return;
        }
        i = i + 1;
    }
    let e = ContextEntry { key, value };
    proof {
        assert(!has_key(before, entry_key(), e.key@));
    }
    entries.push(e);
    proof {
        lemma_keyed_push(before, entry_key(), entry_value(), e);
    }
}

/// Sets every entry of `s` in turn.
fn set_all_values(entries: &mut Vec<ContextEntry>, s: &Vec<ContextEntry>)
    requires
        unique_keys(old(entries)@, entry_key()),
    ensures
        unique_keys(final(entries)@, entry_key()),
        entries_map(final(entries)@) == put_entries(entries_map(old(entries)@), s@),
{
    let ghost start = entries_map(entries@);
    let mut i: usize = 0;
    assert(s@.skip(0) =~= s@);
    while i < s.len()
        invariant
            i <= s@.len(),
            unique_keys(entries@, entry_key()),
            put_entries(start, s@) == put_entries(entries_map(entries@), s@.skip(i as int)),
        decreases s.len() - i,
    {
        assert(s@.skip(i as int).drop_first() =~= s@.skip(i + 1));
        set_value(entries, s[i].key.clone(), s[i].value.clone());
        i = i + 1;
    }
}

fn set_option(entries: &mut Vec<ContextEntry>, key: &str, v: Option<&String>)
    requires
        unique_keys(old(entries)@, entry_key()),
    ensures
        unique_keys(final(entries)@, entry_key()),
        entries_map(final(entries)@) == put_opt(
            entries_map(old(entries)@),
            key@,
            match v {
                Some(x) => Some(x@),
                None => None,
            },
        ),
{
    if let Some(x) = v {
        set_value(entries, owned(key), x.clone());
    }
}

fn pick_value<'a>(given: &'a Option<String>, persisted: Option<&'a Option<String>>) -> (r: Option<&'a String>)
    ensures
        match r {
            Some(x) => pick(*given, match persisted { Some(p) => Some(*p), None => None }) == Some(x@),
            None => pick(*given, match persisted { Some(p) => Some(*p), None => None }) is None,
        },
{
    match given {
        Some(g) => Some(g),
        None => match persisted {
            Some(p) => match p {
                Some(x) => Some(x),
                None => None,
            },
            None => None,
        },
    }
}

/// The effective context of an invocation (see `effective_map`), one entry
/// per key.
pub fn resolve_effective_context(persisted: Option<&ActiveContext>, overrides: &InvocationContextOverrides) -> (r: Vec<
    ContextEntry,
>)
    ensures
        unique_keys(r@, entry_key()),
        entries_map(r@) == effective_map(
            match persisted {
                Some(p) => Some(*p),
                None => None,
            },
            *overrides,
        ),
{
    let mut r: Vec<ContextEntry> = Vec::new();
    proof {
        crate::keyed::lemma_keyed_empty(r@, entry_key(), entry_value());
    }
    if let Some(p) = persisted {
        set_all_values(&mut r, &p.selectors);
    }
    set_all_values(&mut r, &overrides.selectors);
    match persisted {
        Some(p) => {
            set_option(&mut r, "agent", pick_value(&overrides.agent, Some(&p.agent)));
            set_option(&mut r, "workspace", pick_value(&overrides.workspace, Some(&p.workspace)));
            set_option(&mut r, "session_id", pick_value(&overrides.session_id, Some(&p.session_id)));
            set_option(
                &mut r,
                "current_directory",
                pick_value(&overrides.current_directory, Some(&p.current_directory)),
            );
        },
        None => {
            set_option(&mut r, "agent", pick_value(&overrides.agent, None));
            set_option(&mut r, "workspace", pick_value(&overrides.workspace, None));
            set_option(&mut r, "session_id", pick_value(&overrides.session_id, None));
            set_option(&mut r, "current_directory", pick_value(&overrides.current_directory, None));
        },
    }
    r
}

/// The value a field takes when the Active Context is updated: the given
/// one, else nothing when the context is reset, else the one it had.
pub open spec fn kept(given: Option<String>, had: Option<Option<String>>, reset: bool) -> Option<Seq<char>> {
    match given {
        Some(g) => Some(g@),
        None => if reset {
            None
        } else {
            match had {
                Some(h) => text_of(h),
                None => None,
            }
        },
    }
}

fn keep_value(given: Option<String>, had: Option<&Option<String>>, reset: bool) -> (r: Option<String>)
    ensures
        text_of(r) == kept(given, match had { Some(h) => Some(*h), None => None }, reset),
{
    match given {
        Some(g) => Some(g),
        None => if reset {
            None
        } else {
            match had {
                Some(h) => match h {
                    Some(x) => Some(x.clone()),
                    None => None,
                },
                None => None,
            }
        },
    }
}

/// The Active Context after `context use`: each value given replaces the
/// one it had, and the given selectors are set over the ones it had; with
/// `clear` (or no context yet) it starts from an empty context.
pub fn update_active_context_state(
    existing: Option<&ActiveContext>,
    clear: bool,
    name: Option<String>,
    agent: Option<String>,
    workspace: Option<String>,
    session_id: Option<String>,
    selectors: Vec<ContextEntry>,
    current_directory: Option<String>,
) -> (r: ActiveContext)
    ensures
        ({
            let reset = clear || existing is None;
            let had = match existing {
                Some(e) => Some(*e),
                None => None,
            };
            &&& text_of(r.name) == kept(name, match had { Some(e) => Some(e.name), None => None }, reset)
            &&& text_of(r.agent) == kept(agent, match had { Some(e) => Some(e.agent), None => None }, reset)
            &&& text_of(r.workspace) == kept(workspace, match had { Some(e) => Some(e.workspace), None => None }, reset)
            &&& text_of(r.session_id) == kept(session_id, match had { Some(e) => Some(e.session_id), None => None }, reset)
            &&& text_of(r.current_directory) == kept(
                current_directory,
                match had { Some(e) => Some(e.current_directory), None => None },
                reset,
            )
            &&& unique_keys(r.selectors@, entry_key())
            &&& entries_map(r.selectors@) == put_entries(
                if reset {
                    Map::empty()
                } else {
                    put_entries(Map::empty(), had->0.selectors@)
                },
                selectors@,
            )
        }),
{
    let reset = clear || existing.is_none();
    let mut merged: Vec<ContextEntry> = Vec::new();
    proof {
        crate::keyed::lemma_keyed_empty(merged@, entry_key(), entry_value());
    }
    let r = match existing {
        Some(e) if !clear => {
            set_all_values(&mut merged, &e.selectors);
            set_all_values(&mut merged, &selectors);
            ActiveContext {
                name: keep_value(name, Some(&e.name), reset),
                agent: keep_value(agent, Some(&e.agent), reset),
                workspace: keep_value(workspace, Some(&e.workspace), reset),
                session_id: keep_value(session_id, Some(&e.session_id), reset),
                selectors: merged,
                current_directory: keep_value(current_directory, Some(&e.current_directory), reset),
            }
        },
        _ => {
            set_all_values(&mut merged, &selectors);
            ActiveContext {
                name: keep_value(name, None, true),
                agent: keep_value(agent, None, true),
                workspace: keep_value(workspace, None, true),
                session_id: keep_value(session_id, None, true),
                selectors: merged,
                current_directory: keep_value(current_directory, None, true),
            }
        },
    };
    r
}

/// The position of the first `=` in `s`, if any.
pub open spec fn first_equals(s: Seq<char>) -> int
    decreases s.len(),
{
    if s.len() == 0 {
        -1
    } else if s[0] == '=' {
        0
    } else {
        let k = first_equals(s.skip(1));
        if k < 0 {
            -1
        } else {
            k + 1
        }
    }
}

/// The key and value of a `KEY=VALUE` selector: split at the first `=`,
/// with a key that is not empty.
pub open spec fn selector_of(s: Seq<char>) -> Option<(Seq<char>, Seq<char>)> {
    let k = first_equals(s);
    if k > 0 {
        Some((s.take(k), s.skip(k + 1)))
    } else {
        None
    }
}

fn find_equals(s: &str) -> (r: Option<usize>)
    ensures
        match r {
            Some(k) => k == first_equals(s@) && k < s@.len(),
            None => first_equals(s@) < 0,
        },
{
    let cs = to_chars(s);
    let mut i: usize = 0;
    assert(s@.skip(0) =~= s@);
    while i < cs.len()
        invariant
            i <= cs@.len(),
            cs@ == s@,
            first_equals(s@) == if first_equals(s@.skip(i as int)) < 0 {
                -1
            } else {
                first_equals(s@.skip(i as int)) + i
            },
        decreases cs.len() - i,
    {
        assert(s@.skip(i as int).skip(1) =~= s@.skip(i + 1));
        if cs[i] == '=' {
            return Some(i);
        }
        i = i + 1;
    }
    None
}

/// The message for a selector that is not `KEY=VALUE`.
pub open spec fn bad_selector_message(s: Seq<char>) -> Seq<char> {
    "invalid selector '"@ + s + "'; expected KEY=VALUE"@
}

/// The selectors given as `KEY=VALUE`, in order; the first that is not of
/// that form is refused.
pub fn parse_selectors(raw: &Vec<String>) -> (r: Result<Vec<ContextEntry>, String>)
    ensures
        match r {
            Ok(v) => v@.len() == raw@.len() && forall|i: int| 0 <= i < raw@.len() ==> selector_of(#[trigger] raw@[i]@)
                == Some((v@[i].key@, v@[i].value@)),
            Err(m) => exists|i: int| 0 <= i < raw@.len() && selector_of(#[trigger] raw@[i]@) is None && m@
                == bad_selector_message(raw@[i]@) && forall|j: int| 0 <= j < i ==> selector_of(raw@[j]@) is Some,
        },
{
    let mut out: Vec<ContextEntry> = Vec::new();
    let mut i: usize = 0;
    while i < raw.len()
        invariant
            i <= raw@.len(),
            out@.len() == i,
            forall|j: int| 0 <= j < i ==> selector_of(#[trigger] raw@[j]@) == Some((out@[j].key@, out@[j].value@)),
        decreases raw.len() - i,
    {
        let s = raw[i].as_str();
        match find_equals(s) {
            Some(k) if k > 0 => {
                let cs = to_chars(s);
                let key = crate::text::from_chars_range(&cs, 0, k);
                let value = crate::text::from_chars_range(&cs, k + 1, cs.len());
                assert(key@ =~= s@.take(k as int));
                assert(value@ =~= s@.skip(k + 1));
                out.push(ContextEntry { key, value });
            },
            _ => {
                let mut m = owned("invalid selector '");
                append(&mut m, s);
                append(&mut m, "'; expected KEY=VALUE");
                assert(selector_of(raw@[i as int]@) is None);
                return Err(m);
            },
        }
        i = i + 1;
    }
    Ok(out)
}

/// The invocation's own agent, workspace and session win over the persisted
/// ones.
pub proof fn law_invocation_values_win(
    persisted: ActiveContext,
    o: InvocationContextOverrides,
    agent: String,
    workspace: String,
    session_id: String,
)
    requires
        o.agent == Some(agent),
        o.workspace == Some(workspace),
        o.session_id == Some(session_id),
    ensures
        effective_map(Some(persisted), o)["agent"@] == agent@,
        effective_map(Some(persisted), o)["workspace"@] == workspace@,
        effective_map(Some(persisted), o)["session_id"@] == session_id@,
{
    reveal_strlit("agent");
    reveal_strlit("workspace");
    reveal_strlit("session_id");
    reveal_strlit("current_directory");
    assert("agent"@[0] != "workspace"@[0]);
    assert("agent"@[0] != "session_id"@[0]);
    assert("workspace"@[0] != "session_id"@[0]);
    assert("agent"@[0] != "current_directory"@[0]);
    assert("workspace"@[0] != "current_directory"@[0]);
    assert("session_id"@[0] != "current_directory"@[0]);
}

proof fn lemma_put_entries_other(m: Map<Seq<char>, Seq<char>>, s: Seq<ContextEntry>, k: Seq<char>)
    requires
        forall|i: int| 0 <= i < s.len() ==> #[trigger] s[i].key@ != k,
    ensures
        put_entries(m, s).dom().contains(k) == m.dom().contains(k),
        m.dom().contains(k) ==> put_entries(m, s)[k] == m[k],
    decreases s.len(),
{
    if s.len() > 0 {
        assert(s[0].key@ != k);
        assert forall|i: int| 0 <= i < s.drop_first().len() implies #[trigger] s.drop_first()[i].key@ != k by {
            assert(s.drop_first()[i] == s[i + 1]);
        }
        lemma_put_entries_other(m.insert(s[0].key@, s[0].value@), s.drop_first(), k);
    }
}

proof fn lemma_put_entries_given(
    m1: Map<Seq<char>, Seq<char>>,
    m2: Map<Seq<char>, Seq<char>>,
    s: Seq<ContextEntry>,
    k: Seq<char>,
    i: int,
)
    requires
        0 <= i < s.len(),
        s[i].key@ == k,
    ensures
        put_entries(m1, s).dom().contains(k),
        put_entries(m2, s).dom().contains(k),
        put_entries(m1, s)[k] == put_entries(m2, s)[k],
    decreases s.len(),
{
    let n1 = m1.insert(s[0].key@, s[0].value@);
    let n2 = m2.insert(s[0].key@, s[0].value@);
    if exists|j: int| 0 <= j < s.drop_first().len() && #[trigger] s.drop_first()[j].key@ == k {
        let j = choose|j: int| 0 <= j < s.drop_first().len() && #[trigger] s.drop_first()[j].key@ == k;
        lemma_put_entries_given(n1, n2, s.drop_first(), k, j);
    } else {
        assert(i == 0) by {
            if i > 0 {
                assert(s.drop_first()[i - 1] == s[i]);
            }
        }
        lemma_put_entries_other(n1, s.drop_first(), k);
        lemma_put_entries_other(n2, s.drop_first(), k);
    }
}

/// A selector given for one invocation wins over the persisted selector of
/// the same key, unless its key is one that the agent, workspace, session
/// or working directory take.
pub proof fn law_invocation_selectors_win(
    persisted: Option<ActiveContext>,
    o: InvocationContextOverrides,
    i: int,
)
    requires
        0 <= i < o.selectors@.len(),
        o.selectors@[i].key@ != "agent"@,
        o.selectors@[i].key@ != "workspace"@,
        o.selectors@[i].key@ != "session_id"@,
        o.selectors@[i].key@ != "current_directory"@,
    ensures
        effective_map(persisted, o).dom().contains(o.selectors@[i].key@),
        effective_map(persisted, o)[o.selectors@[i].key@] == put_entries(Map::empty(), o.selectors@)[o.selectors@[
            i
        ].key@],
{
    let base = match persisted {
        Some(p) => put_entries(Map::empty(), p.selectors@),
        None => Map::empty(),
    };
    lemma_put_entries_given(base, Map::empty(), o.selectors@, o.selectors@[i].key@, i);
}

proof fn lemma_put_entries_keyed(m: Map<Seq<char>, Seq<char>>, s: Seq<ContextEntry>)
    requires
        unique_keys(s, entry_key()),
    ensures
        put_entries(m, s) == m.union_prefer_right(entries_map(s)),
    decreases s.len(),
{
    if s.len() == 0 {
        lemma_keyed_empty(s, entry_key(), entry_value());
        assert(put_entries(m, s) =~= m.union_prefer_right(entries_map(s)));
    } else {
        let rest = s.drop_first();
        lemma_keyed_remove(s, entry_key(), entry_value(), 0);
        assert(s.remove(0) =~= rest);
        lemma_keyed_index(s, entry_key(), entry_value(), 0);
        lemma_put_entries_keyed(m.insert(s[0].key@, s[0].value@), rest);
        assert(put_entries(m, s) =~= m.union_prefer_right(entries_map(s)));
    }
}

/// `context show` gives back what `context use` stored: with nothing given
/// for the invocation, the effective context is the stored selectors, then
/// the stored agent, workspace, session and working directory.
pub proof fn law_show_gives_back_stored(stored: ActiveContext, o: InvocationContextOverrides)
    requires
        unique_keys(stored.selectors@, entry_key()),
        o.agent is None,
        o.workspace is None,
        o.session_id is None,
        o.current_directory is None,
        o.selectors@.len() == 0,
    ensures
        effective_map(Some(stored), o) == put_opt(
            put_opt(
                put_opt(
                    put_opt(entries_map(stored.selectors@), "agent"@, text_of(stored.agent)),
                    "workspace"@,
                    text_of(stored.workspace),
                ),
                "session_id"@,
                text_of(stored.session_id),
            ),
            "current_directory"@,
            text_of(stored.current_directory),
        ),
{
    lemma_put_entries_keyed(Map::empty(), stored.selectors@);
    assert(Map::<Seq<char>, Seq<char>>::empty().union_prefer_right(entries_map(stored.selectors@)) =~= entries_map(
        stored.selectors@,
    ));
    assert(put_entries(entries_map(stored.selectors@), o.selectors@) == entries_map(stored.selectors@));
}

/// A selector that `context use` was given is shown by `context show`
/// afterwards with the value given (the last given for its key), unless its
/// key is one that the agent, workspace, session or working directory take:
/// `stored` is what `context use` stored, its selectors those it had, if
/// kept, with the given ones set over them.
pub proof fn law_used_selectors_are_shown(
    stored: ActiveContext,
    kept_selectors: Map<Seq<char>, Seq<char>>,
    given: Seq<ContextEntry>,
    o: InvocationContextOverrides,
    i: int,
)
    requires
        unique_keys(stored.selectors@, entry_key()),
        entries_map(stored.selectors@) == put_entries(kept_selectors, given),
        o.agent is None,
        o.workspace is None,
        o.session_id is None,
        o.current_directory is None,
        o.selectors@.len() == 0,
        0 <= i < given.len(),
        given[i].key@ != "agent"@,
        given[i].key@ != "workspace"@,
        given[i].key@ != "session_id"@,
        given[i].key@ != "current_directory"@,
    ensures
        effective_map(Some(stored), o).dom().contains(given[i].key@),
        effective_map(Some(stored), o)[given[i].key@] == put_entries(Map::empty(), given)[given[i].key@],
{
    law_show_gives_back_stored(stored, o);
    lemma_put_entries_given(kept_selectors, Map::empty(), given, given[i].key@, i);
}

/// A working directory given for one invocation (`--cwd`) is the effective
/// one, whatever the persisted Active Context holds; so are a given agent,
/// workspace and session, each on its own.
pub proof fn law_invocation_working_directory_wins(persisted: Option<ActiveContext>, o: InvocationContextOverrides)
    ensures
        o.current_directory matches Some(c) ==> effective_map(persisted, o).dom().contains("current_directory"@)
            && effective_map(persisted, o)["current_directory"@] == c@,
        o.session_id matches Some(c) ==> effective_map(persisted, o).dom().contains("session_id"@)
            && effective_map(persisted, o)["session_id"@] == c@,
        o.workspace matches Some(c) ==> effective_map(persisted, o).dom().contains("workspace"@)
            && effective_map(persisted, o)["workspace"@] == c@,
        o.agent matches Some(c) ==> effective_map(persisted, o).dom().contains("agent"@)
            && effective_map(persisted, o)["agent"@] == c@,
{
    reveal_strlit("agent");
    reveal_strlit("workspace");
    reveal_strlit("session_id");
    reveal_strlit("current_directory");
    assert("agent"@[0] != "workspace"@[0]);
    assert("agent"@[0] != "session_id"@[0]);
    assert("workspace"@[0] != "session_id"@[0]);
    assert("agent"@[0] != "current_directory"@[0]);
    assert("workspace"@[0] != "current_directory"@[0]);
    assert("session_id"@[0] != "current_directory"@[0]);
}

/// `context use` keeps every value it is not given, unless asked to clear;
/// with `clear`, only the given values remain.
pub proof fn law_context_use_keeps_or_clears(
    existing: ActiveContext,
    clear: bool,
    given: Option<String>,
)
    ensures
        given is None && !clear ==> kept(given, Some(existing.agent), clear) == text_of(existing.agent),
        given is None && clear ==> kept(given, Some(existing.agent), clear) is None,
        given is Some ==> kept(given, Some(existing.agent), clear) == text_of(given),
{
}

} // verus!
