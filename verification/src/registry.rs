//! The ACP agent registry: its index entries, the agents installed locally,
//! and the decisions taken when searching, listing, installing, updating and
//! launching them.

use vstd::prelude::*;

use crate::context::{join_path, joined};
use crate::text::{
    append, contains, contains_seq, lowercase, owned, str_eq, to_chars, to_lowercase, trim_end,
    opt_str, trim_end_char, views,
};

verus! {

broadcast use vstd::string::group_string_axioms;

/// Registry configuration, as read from `registry.yml`.
pub struct RegistryConfig {
    pub url: String,
}

/// One environment variable of an npx distribution.
pub struct EnvVar {
    pub key: String,
    pub value: String,
}

/// An npx distribution: `npx <package>` with arguments and environment.
/// `env` is ordered by key and holds each key once.
pub struct NpxDistribution {
    pub package: String,
    pub args: Vec<String>,
    pub env: Vec<EnvVar>,
}

/// A platform-specific binary distribution.
pub struct PlatformBinary {
    pub archive: String,
    pub cmd: String,
    pub args: Vec<String>,
}

/// The binary of one platform, under its platform key. The binaries of an
/// agent are ordered by platform key and hold each key once.
pub struct PlatformTarget {
    pub platform: String,
    pub binary: PlatformBinary,
}

pub struct Distribution {
    pub npx: Option<NpxDistribution>,
    pub binary: Option<Vec<PlatformTarget>>,
}

/// An agent entry of the registry index.
pub struct AgentEntry {
    pub id: String,
    pub name: String,
    pub version: String,
    pub description: String,
    pub repository: Option<String>,
    pub authors: Vec<String>,
    pub license: Option<String>,
    pub icon: Option<String>,
    pub distribution: Distribution,
}

/// The metadata of a locally installed agent.
pub struct InstalledAgent {
    pub id: String,
    pub name: String,
    pub version: String,
    pub install_path: String,
    pub executable: Option<String>,
    pub args: Vec<String>,
    pub distribution_type: Option<String>,
    pub installed_at: String,
    pub source_registry: Option<String>,
    pub healthy: Option<bool>,
}

pub struct SearchResult {
    pub query: String,
    pub matches: Vec<AgentEntry>,
    pub total: usize,
}

/// An agent found on the system without the registry.
pub struct DetectedAgent {
    pub id: String,
    pub name: String,
    pub version: String,
    pub executable_path: String,
    pub source: String,
}

pub struct InstalledResult {
    pub agents: Vec<InstalledAgent>,
    pub detected: Vec<DetectedAgent>,
    pub total: usize,
}

pub struct InstallResult {
    pub agent_id: String,
    pub version: String,
    pub install_path: String,
    pub distribution_type: String,
    pub status: String,
}

pub struct UninstallResult {
    pub agent_id: String,
    pub status: String,
    pub removed_path: String,
}

pub struct UpdateEntry {
    pub agent_id: String,
    pub previous_version: String,
    pub new_version: String,
    pub status: String,
}

pub struct UpdateResult {
    pub agent_id: Option<String>,
    pub updates: Vec<UpdateEntry>,
    pub status: String,
}

// ---------------------------------------------------------------------------
// Configuration and paths
// ---------------------------------------------------------------------------

pub const DEFAULT_REGISTRY_URL: &'static str = "https://cdn.agentclientprotocol.com/registry/v1/latest/registry.json";

/// The official registry index.
pub fn default_registry_url() -> (r: String)
    ensures
        r@ == DEFAULT_REGISTRY_URL@,
{
    owned(DEFAULT_REGISTRY_URL)
}

/// The configuration used when no configuration file exists.
pub fn default_registry_config() -> (r: RegistryConfig)
    ensures
        r.url@ == DEFAULT_REGISTRY_URL@,
{
    RegistryConfig { url: default_registry_url() }
}

/// The registry URL to use: the override when given, else the configured
/// one, without trailing slashes.
pub fn registry_url_with_override(config: &RegistryConfig, override_url: Option<&str>) -> (r: String)
    ensures
        r@ == trim_end_char(
            match override_url {
                Some(u) => u@,
                None => config.url@,
            },
            '/',
        ),
{
    match override_url {
        Some(u) => trim_end(u, '/'),
        None => trim_end(config.url.as_str(), '/'),
    }
}

/// `<data_dir>/agents`.
pub fn agents_dir(data_dir: &str) -> (r: String)
    ensures
        r@ == joined(data_dir@, "agents"@),
{
    join_path(data_dir, "agents")
}

/// `<cache_dir>/registry`.
pub fn registry_cache_dir(cache_dir: &str) -> (r: String)
    ensures
        r@ == joined(cache_dir@, "registry"@),
{
    join_path(cache_dir, "registry")
}

/// `<data_dir>/agents/<agent_id>`.
pub fn installed_agent_dir(data_dir: &str, agent_id: &str) -> (r: String)
    ensures
        r@ == joined(joined(data_dir@, "agents"@), agent_id@),
{
    let agents = agents_dir(data_dir);
    join_path(agents.as_str(), agent_id)
}

/// The operating-system part of a platform key.
pub open spec fn os_key(os: Seq<char>) -> Seq<char> {
    if os == "macos"@ {
        "darwin"@
    } else if os == "linux"@ {
        "linux"@
    } else if os == "windows"@ {
        "windows"@
    } else {
        "unknown"@
    }
}

/// The architecture part of a platform key.
pub open spec fn arch_key(arch: Seq<char>) -> Seq<char> {
    if arch == "aarch64"@ {
        "aarch64"@
    } else if arch == "x86_64"@ {
        "x86_64"@
    } else {
        "unknown"@
    }
}

/// The registry's key of the platform with this operating system and
/// architecture (as Rust names them), such as `darwin-aarch64`.
pub fn current_platform_key(os: &str, arch: &str) -> (r: String)
    ensures
        r@ == os_key(os@) + "-"@ + arch_key(arch@),
{
    let mut r = if str_eq(os, "macos") {
        owned("darwin")
    } else if str_eq(os, "linux") {
        owned("linux")
    } else if str_eq(os, "windows") {
        owned("windows")
    } else {
        owned("unknown")
    };
    append(&mut r, "-");
    if str_eq(arch, "aarch64") {
        append(&mut r, "aarch64");
    } else if str_eq(arch, "x86_64") {
        append(&mut r, "x86_64");
    } else {
        append(&mut r, "unknown");
    }
    r
}

// ---------------------------------------------------------------------------
// Search, list, show
// ---------------------------------------------------------------------------

/// Whether an agent matches a lower-case query: the query occurs in its
/// lower-cased name, description or id.
pub open spec fn agent_matches(a: AgentEntry, q: Seq<char>) -> bool {
    contains_seq(lowercase(a.name@), q) || contains_seq(lowercase(a.description@), q)
        || contains_seq(lowercase(a.id@), q)
}

/// The agents that match a lower-case query, in order; all of them for an
/// empty query.
pub open spec fn matching(s: Seq<AgentEntry>, q: Seq<char>) -> Seq<AgentEntry>
    decreases s.len(),
{
    if s.len() == 0 {
        s
    } else if q.len() == 0 || agent_matches(s.last(), q) {
        matching(s.drop_last(), q).push(s.last())
    } else {
        matching(s.drop_last(), q)
    }
}

/// Whether an agent is found by a lower-case query: the query occurs in its
/// lower-cased id, name or description, or the query is empty.
pub open spec fn found_by(a: AgentEntry, q: Seq<char>) -> bool {
    q.len() == 0 || contains_seq(lowercase(a.id@), q) || contains_seq(lowercase(a.name@), q) || contains_seq(
        lowercase(a.description@),
        q,
    )
}

proof fn lemma_matching_finds(agents: Seq<AgentEntry>, q: Seq<char>, i: int)
    requires
        0 <= i < agents.len(),
        found_by(agents[i], q),
    ensures
        matching(agents, q).contains(agents[i]),
    decreases agents.len(),
{
    let rest = agents.drop_last();
    if i == agents.len() - 1 {
        assert(matching(agents, q) == matching(rest, q).push(agents[i]));
        assert(matching(agents, q)[matching(rest, q).len() as int] == agents[i]);
    } else {
        lemma_matching_finds(rest, q, i);
        assert(rest[i] == agents[i]);
        let k = choose|k: int| 0 <= k < matching(rest, q).len() && matching(rest, q)[k] == agents[i];
        assert(matching(agents, q)[k] == agents[i]);
    }
}

proof fn lemma_matching_sound(agents: Seq<AgentEntry>, q: Seq<char>)
    ensures
        forall|j: int| 0 <= j < matching(agents, q).len() ==> agents.contains(#[trigger] matching(agents, q)[j])
            && found_by(matching(agents, q)[j], q),
    decreases agents.len(),
{
    if agents.len() > 0 {
        let rest = agents.drop_last();
        lemma_matching_sound(rest, q);
        assert forall|j: int| 0 <= j < matching(agents, q).len() implies agents.contains(
            #[trigger] matching(agents, q)[j],
        ) && found_by(matching(agents, q)[j], q) by {
            let m = matching(agents, q);
            if j < matching(rest, q).len() {
                let a = matching(rest, q)[j];
                assert(m[j] == a);
                let k = choose|k: int| 0 <= k < rest.len() && rest[k] == a;
                assert(agents[k] == a);
            } else {
                assert(m[j] == agents.last());
                assert(agents[agents.len() - 1] == agents.last());
            }
        }
    }
}

/// A registry search finds every agent whose lower-cased id, name or
/// description contains the lower-cased query, whatever its other fields
/// hold: it is among the matches that `cmd_search` counts in its total and
/// pages. And every match is an agent of the index found so (any agent, for
/// an empty query).
pub proof fn law_search_finds_by_name_description_or_id(agents: Seq<AgentEntry>, q: Seq<char>)
    ensures
        forall|i: int|
            0 <= i < agents.len() && (q.len() == 0 || contains_seq(lowercase(#[trigger] agents[i].id@), q)
                || contains_seq(lowercase(agents[i].name@), q) || contains_seq(lowercase(agents[i].description@), q))
                ==> matching(agents, q).contains(agents[i]),
        forall|j: int|
            0 <= j < matching(agents, q).len() ==> {
                let a = #[trigger] matching(agents, q)[j];
                &&& agents.contains(a)
                &&& (q.len() == 0 || contains_seq(lowercase(a.id@), q) || contains_seq(lowercase(a.name@), q)
                    || contains_seq(lowercase(a.description@), q))
            },
{
    assert forall|i: int| 0 <= i < agents.len() && found_by(#[trigger] agents[i], q) implies matching(
        agents,
        q,
    ).contains(agents[i]) by {
        lemma_matching_finds(agents, q, i);
    }
    lemma_matching_sound(agents, q);
    assert forall|j: int| 0 <= j < matching(agents, q).len() implies found_by(
        #[trigger] matching(agents, q)[j],
        q,
    ) by {}
}

/// The page of `s` that starts at `start` and holds at most `size` items.
pub open spec fn page_of<T>(s: Seq<T>, start: int, size: int) -> Seq<T> {
    let a = if start < s.len() { start } else { s.len() as int };
    let b = if a + size < s.len() { a + size } else { s.len() as int };
    s.subrange(a, b)
}

/// The first item of a 1-based page: pages and page sizes below one count
/// as one.
pub open spec fn page_start(page: u32, page_size: u32) -> int {
    let p = if page < 1 { 1 } else { page as int };
    let z = if page_size < 1 { 1 } else { page_size as int };
    (p - 1) * z
}

pub open spec fn page_len(page_size: u32) -> int {
    if page_size < 1 {
        1
    } else {
        page_size as int
    }
}

/// Whether a lower-case query occurs in the lower-cased name, description
/// or id of an agent.
pub fn matches_lowered(name: &str, description: &str, id: &str, q: &str) -> (r: bool)
    ensures
        r == (contains_seq(name@, q@) || contains_seq(description@, q@) || contains_seq(id@, q@)),
{
    contains(name, q) || contains(description, q) || contains(id, q)
}

fn agent_matches_query(a: &AgentEntry, q: &str) -> (r: bool)
    ensures
        r == agent_matches(*a, q@),
{
    let name = to_lowercase(a.name.as_str());
    let description = to_lowercase(a.description.as_str());
    let id = to_lowercase(a.id.as_str());
    matches_lowered(name.as_str(), description.as_str(), id.as_str(), q)
}

/// Searches the registry index for agents whose name, description or id
/// contains the query, ignoring case, and returns one page of them with the
/// number of all that match. Tags, category and the verified-only switch are
/// not part of the registry schema and select nothing.
pub fn cmd_search(
    agents: Vec<AgentEntry>,
    query: &str,
    tags: &[String],
    category: Option<&str>,
    verified_only: bool,
    page: u32,
    page_size: u32,
) -> (r: SearchResult)
    ensures
        r.query@ == query@,
        r.total == matching(agents@, lowercase(query@)).len(),
        r.matches@ == page_of(
            matching(agents@, lowercase(query@)),
            page_start(page, page_size),
            page_len(page_size),
        ),
{
    let q = to_lowercase(query);
    let qs = to_chars(q.as_str());
    let mut agents = agents;
    let ghost all = agents@;
    assert(all.len() == agents.len());
    let mut kept: Vec<AgentEntry> = Vec::new();
    let mut taken: usize = 0;
    while agents.len() > 0
        invariant
            taken + agents@.len() == all.len(),
            all.len() <= usize::MAX,
            agents@ == all.skip(taken as int),
            kept@ == matching(all.take(taken as int), q@),
            qs@ == q@,
        decreases agents@.len(),
    {
        let a = agents.remove(0);
        assert(a == all[taken as int]);
        assert(all.take(taken + 1).drop_last() =~= all.take(taken as int));
        assert(all.take(taken + 1).last() == a);
        if qs.len() == 0 || agent_matches_query(&a, q.as_str()) {
            kept.push(a);
        }
        taken = taken + 1;
        assert(agents@ =~= all.skip(taken as int));
    }
    assert(all.take(taken as int) =~= all);
    let total = kept.len();
    let p: u64 = if page < 1 { 1 } else { page as u64 };
    let z: u64 = if page_size < 1 { 1 } else { page_size as u64 };
    assert((p - 1) * z <= 0xffff_fffe * 0xffff_ffffu64) by (nonlinear_arith)
        requires
            1 <= p <= 0xffff_ffff,
            1 <= z <= 0xffff_ffff,
    {
    }
    let start: u64 = (p - 1) * z;
    assert(start == page_start(page, page_size)) by (nonlinear_arith)
        requires
            p == (if page < 1 { 1 } else { page as int }),
            z == (if page_size < 1 { 1 } else { page_size as int }),
            start == (p - 1) * z,
    {
    }
    let ghost matched = kept@;
    let mut matches = if start < kept.len() as u64 {
        kept.split_off(start as usize)
    } else {
        Vec::new()
    };
    if (z as usize as u64) == z && z < matches.len() as u64 {
        matches.truncate(z as usize);
    }
    assert(matches@ =~= page_of(matched, page_start(page, page_size), page_len(page_size)));
    SearchResult { query: owned(query), matches, total }
}

/// The first agent of the index with this id, or -1.
pub open spec fn entry_index(s: Seq<AgentEntry>, id: Seq<char>) -> int
    decreases s.len(),
{
    if s.len() == 0 {
        -1
    } else if s[0].id@ == id {
        0
    } else {
        let k = entry_index(s.drop_first(), id);
        if k < 0 {
            -1
        } else {
            k + 1
        }
    }
}

proof fn lemma_entry_index_first(s: Seq<AgentEntry>, id: Seq<char>, i: int)
    requires
        0 <= i < s.len(),
        s[i].id@ == id,
        forall|j: int| 0 <= j < i ==> s[j].id@ != id,
    ensures
        entry_index(s, id) == i,
    decreases i,
{
    if i > 0 {
        lemma_entry_index_first(s.drop_first(), id, i - 1);
    }
}

proof fn lemma_entry_index_absent(s: Seq<AgentEntry>, id: Seq<char>)
    requires
        forall|j: int| 0 <= j < s.len() ==> s[j].id@ != id,
    ensures
        entry_index(s, id) < 0,
    decreases s.len(),
{
    if s.len() > 0 {
        lemma_entry_index_absent(s.drop_first(), id);
    }
}

/// The position of the first agent with this id.
pub fn find_entry(agents: &Vec<AgentEntry>, id: &str) -> (r: Option<usize>)
    ensures
        match r {
            Some(k) => k == entry_index(agents@, id@) && k < agents.len(),
            None => entry_index(agents@, id@) < 0,
        },
{
    let mut i: usize = 0;
    while i < agents.len()
        invariant
            i <= agents.len(),
            forall|j: int| 0 <= j < i ==> agents@[j].id@ != id@,
        decreases agents.len() - i,
    {
        if str_eq(agents[i].id.as_str(), id) {
            proof {
                lemma_entry_index_first(agents@, id@, i as int);
            }
            return Some(i);
        }
        i = i + 1;
    }
    proof {
        lemma_entry_index_absent(agents@, id@);
    }
    None
}

/// Why a registry operation failed.
pub enum RegistryError {
    /// No agent of the index has this id.
    NotInRegistry(String),
    /// The agent is installed already, at this directory.
    AlreadyInstalled(String, String),
    /// The agent is not installed.
    NotInstalled(String),
    /// The agent has binaries, none for this platform, and no npx fallback.
    NoPlatformBinary(String),
    /// The agent has no distribution at all.
    NoDistribution(String),
    /// The archive at this URL is neither `.tar.gz`, `.tgz` nor `.zip`.
    UnsupportedArchive(String),
}

/// The message of a registry error.
pub open spec fn error_message(e: RegistryError) -> Seq<char> {
    match e {
        RegistryError::NotInRegistry(id) => "agent '"@ + id@ + "' not found in registry"@,
        RegistryError::AlreadyInstalled(id, dir) => "agent '"@ + id@ + "' is already installed at "@ + dir@,
        RegistryError::NotInstalled(id) => "agent '"@ + id@ + "' is not installed"@,
        RegistryError::NoPlatformBinary(p) => "no binary distribution available for platform '"@ + p@
            + "' and no npx fallback"@,
        RegistryError::NoDistribution(id) => "agent '"@ + id@ + "' has no distribution information"@,
        RegistryError::UnsupportedArchive(url) => "unsupported archive format: "@ + url@,
    }
}

impl RegistryError {
    /// The message of the error (see `error_message`).
    pub fn message(&self) -> (r: String)
        ensures
            r@ == error_message(*self),
    {
        let mut r;
        match self {
            RegistryError::NotInRegistry(id) => {
                r = owned("agent '");
                append(&mut r, id.as_str());
                append(&mut r, "' not found in registry");
            },
            RegistryError::AlreadyInstalled(id, dir) => {
                r = owned("agent '");
                append(&mut r, id.as_str());
                append(&mut r, "' is already installed at ");
                append(&mut r, dir.as_str());
            },
            RegistryError::NotInstalled(id) => {
                r = owned("agent '");
                append(&mut r, id.as_str());
                append(&mut r, "' is not installed");
            },
            RegistryError::NoPlatformBinary(p) => {
                r = owned("no binary distribution available for platform '");
                append(&mut r, p.as_str());
                append(&mut r, "' and no npx fallback");
            },
            RegistryError::NoDistribution(id) => {
                r = owned("agent '");
                append(&mut r, id.as_str());
                append(&mut r, "' has no distribution information");
            },
            RegistryError::UnsupportedArchive(url) => {
                r = owned("unsupported archive format: ");
                append(&mut r, url.as_str());
            },
        }
        r
    }
}

/// The index entry of the agent with this id; the registry always returns
/// the latest version, so `version` selects nothing.
pub fn cmd_show(agents: Vec<AgentEntry>, agent_id: &str, version: Option<&str>) -> (r: Result<
    AgentEntry,
    RegistryError,
>)
    ensures
        entry_index(agents@, agent_id@) >= 0 ==> r == Ok::<AgentEntry, RegistryError>(
            agents@[entry_index(agents@, agent_id@)],
        ),
        entry_index(agents@, agent_id@) < 0 ==> (r matches Err(RegistryError::NotInRegistry(id))
            && id@ == agent_id@),
{
    let mut agents = agents;
    match find_entry(&agents, agent_id) {
        Some(k) => Ok(agents.remove(k)),
        None => Err(RegistryError::NotInRegistry(owned(agent_id))),
    }
}

// ---------------------------------------------------------------------------
// Listing in name order
// ---------------------------------------------------------------------------

/// Lexicographic order of character sequences by code point, which is the
/// order of `String` values.
pub open spec fn lex_le(a: Seq<char>, b: Seq<char>) -> bool
    decreases a.len(),
{
    if a.len() == 0 {
        true
    } else if b.len() == 0 {
        false
    } else if a[0] != b[0] {
        (a[0] as u32) < (b[0] as u32)
    } else {
        lex_le(a.drop_first(), b.drop_first())
    }
}

/// Whether `a <= b` as strings.
pub fn str_le(a: &str, b: &str) -> (r: bool)
    ensures
        r == lex_le(a@, b@),
{
    let x = to_chars(a);
    let y = to_chars(b);
    let mut i: usize = 0;
    assert(x@.skip(0) =~= x@);
    assert(y@.skip(0) =~= y@);
    while i < x.len() && i < y.len() && x[i] == y[i]
        invariant
            i <= x.len(),
            i <= y.len(),
            x@ == a@,
            y@ == b@,
            lex_le(a@, b@) == lex_le(x@.skip(i as int), y@.skip(i as int)),
        decreases x.len() - i,
    {
        assert(x@.skip(i as int).drop_first() =~= x@.skip(i + 1));
        assert(y@.skip(i as int).drop_first() =~= y@.skip(i + 1));
        i = i + 1;
    }
    if i == x.len() {
        true
    } else if i == y.len() {
        false
    } else {
        (x[i] as u32) < (y[i] as u32)
    }
}

/// The key by which agents are listed: the lower-cased name.
pub open spec fn name_key(a: AgentEntry) -> Seq<char> {
    lowercase(a.name@)
}

/// Where an agent with key `k` goes in `s`: before the first agent whose key
/// is greater, after all others.
pub open spec fn insertion_point(s: Seq<AgentEntry>, k: Seq<char>) -> int
    decreases s.len(),
{
    if s.len() == 0 {
        0
    } else if !lex_le(name_key(s[0]), k) {
        0
    } else {
        1 + insertion_point(s.drop_first(), k)
    }
}

/// The agents in the order of their keys, agents with equal keys in their
/// original order (a stable sort).
pub open spec fn sorted_by_name(s: Seq<AgentEntry>) -> Seq<AgentEntry>
    decreases s.len(),
{
    if s.len() == 0 {
        s
    } else {
        let r = sorted_by_name(s.drop_last());
        r.insert(insertion_point(r, name_key(s.last())), s.last())
    }
}

/// Where key `k` goes among `keys`: before the first key that is greater,
/// after all others.
pub open spec fn key_insertion_point(keys: Seq<Seq<char>>, k: Seq<char>) -> int
    decreases keys.len(),
{
    if keys.len() == 0 {
        0
    } else if !lex_le(keys[0], k) {
        0
    } else {
        1 + key_insertion_point(keys.drop_first(), k)
    }
}

proof fn lemma_key_insertion_point(s: Seq<AgentEntry>, keys: Seq<Seq<char>>, k: Seq<char>)
    requires
        keys == s.map_values(|a: AgentEntry| name_key(a)),
    ensures
        key_insertion_point(keys, k) == insertion_point(s, k),
        0 <= insertion_point(s, k) <= s.len(),
    decreases s.len(),
{
    if s.len() > 0 {
        assert(keys.drop_first() =~= s.drop_first().map_values(|a: AgentEntry| name_key(a)));
        lemma_key_insertion_point(s.drop_first(), keys.drop_first(), k);
    }
}

/// Puts `a`, whose key is `k`, into agents ordered by `keys`: after every
/// agent whose key is not greater than `k`, so that agents of equal keys
/// keep the order in which they came.
pub fn insert_by_key(out: &mut Vec<AgentEntry>, keys: &mut Vec<String>, a: AgentEntry, k: String)
    requires
        old(keys)@.len() == old(out)@.len(),
    ensures
        ({
            let at = key_insertion_point(views(old(keys)@), k@);
            &&& 0 <= at <= old(out)@.len()
            &&& final(out)@ == old(out)@.insert(at, a)
            &&& views(final(keys)@) == views(old(keys)@).insert(at, k@)
        }),
{
    let ghost ks = views(keys@);
    let mut j: usize = 0;
    assert(ks.skip(0) =~= ks);
    while j < out.len() && str_le(keys[j].as_str(), k.as_str())
        invariant
            j <= out.len(),
            keys@.len() == out@.len(),
            out@ == old(out)@,
            keys@ == old(keys)@,
            ks == views(keys@),
            key_insertion_point(ks, k@) == j + key_insertion_point(ks.skip(j as int), k@),
        decreases out.len() - j,
    {
        assert(ks.skip(j as int)[0] == ks[j as int]);
        assert(ks.skip(j as int).drop_first() =~= ks.skip(j + 1));
        j = j + 1;
    }
    if j < out.len() {
        assert(ks.skip(j as int)[0] == ks[j as int]);
    }
    let ghost kv = k@;
    out.insert(j, a);
    keys.insert(j, k);
    assert(views(keys@) =~= ks.insert(j as int, kv));
}

/// Every agent of the registry index, ordered by name ignoring case (equal
/// names keep their index order). Tags, category and the verified-only
/// switch are not part of the registry schema and select nothing.
pub fn cmd_list(
    agents: Vec<AgentEntry>,
    tags: &[String],
    category: Option<&str>,
    verified_only: bool,
) -> (r: Vec<AgentEntry>)
    ensures
        r@ == sorted_by_name(agents@),
{
    let mut agents = agents;
    let ghost all = agents@;
    assert(all.len() == agents.len());
    let mut out: Vec<AgentEntry> = Vec::new();
    let mut keys: Vec<String> = Vec::new();
    let mut taken: usize = 0;
    while agents.len() > 0
        invariant
            taken + agents@.len() == all.len(),
            all.len() <= usize::MAX,
            agents@ == all.skip(taken as int),
            out@ == sorted_by_name(all.take(taken as int)),
            keys@.len() == out@.len(),
            views(keys@) == out@.map_values(|a: AgentEntry| name_key(a)),
        decreases agents@.len(),
    {
        let a = agents.remove(0);
        assert(a == all[taken as int]);
        assert(all.take(taken + 1).drop_last() =~= all.take(taken as int));
        let k = to_lowercase(a.name.as_str());
        proof {
            lemma_key_insertion_point(out@, views(keys@), k@);
        }
        assert(k@ == name_key(all.take(taken + 1).last()));
        let ghost before_out = out@;
        let ghost before_keys = views(keys@);
        let ghost kv = k@;
        let ghost av = a;
        insert_by_key(&mut out, &mut keys, a, k);
        assert(views(keys@) =~= out@.map_values(|a: AgentEntry| name_key(a))) by {
            let at = insertion_point(before_out, kv);
            assert(before_keys == before_out.map_values(|a: AgentEntry| name_key(a)));
            assert(before_keys.len() == before_out.len());
            assert(out@ == before_out.insert(at, av));
            assert(views(keys@) == before_keys.insert(at, kv));
            assert(0 <= at <= before_out.len());
            assert(views(keys@).len() == keys@.len());
            assert(keys@.len() == before_keys.len() + 1);
            assert forall|i: int| 0 <= i < keys@.len() implies views(keys@)[i] == name_key(out@[i]) by {
                if i < at {
                    assert(before_keys[i] == name_key(before_out[i]));
                } else if i > at {
                    assert(before_keys[i - 1] == name_key(before_out[i - 1]));
                }
            }
        }
        taken = taken + 1;
        assert(agents@ =~= all.skip(taken as int));
    }
    assert(all.take(taken as int) =~= all);
    out
}

/// Where an installed agent with id `k` goes in `s`: before the first agent
/// whose id is greater, after all others.
pub open spec fn id_insertion_point(s: Seq<InstalledAgent>, k: Seq<char>) -> int
    decreases s.len(),
{
    if s.len() == 0 {
        0
    } else if !lex_le(s[0].id@, k) {
        0
    } else {
        1 + id_insertion_point(s.drop_first(), k)
    }
}

/// The installed agents in the order of their ids, equal ids in their
/// original order.
pub open spec fn sorted_by_id(s: Seq<InstalledAgent>) -> Seq<InstalledAgent>
    decreases s.len(),
{
    if s.len() == 0 {
        s
    } else {
        let r = sorted_by_id(s.drop_last());
        r.insert(id_insertion_point(r, s.last().id@), s.last())
    }
}

proof fn lemma_id_insertion_point_bounds(s: Seq<InstalledAgent>, k: Seq<char>)
    ensures
        0 <= id_insertion_point(s, k) <= s.len(),
    decreases s.len(),
{
    if s.len() > 0 {
        lemma_id_insertion_point_bounds(s.drop_first(), k);
    }
}

/// The installed agents ordered by id, as a scan of the agents directory
/// reports them.
pub fn sort_installed_by_id(agents: Vec<InstalledAgent>) -> (r: Vec<InstalledAgent>)
    ensures
        r@ == sorted_by_id(agents@),
{
    let mut agents = agents;
    let ghost all = agents@;
    assert(all.len() == agents.len());
    let mut out: Vec<InstalledAgent> = Vec::new();
    let mut taken: usize = 0;
    while agents.len() > 0
        invariant
            taken + agents@.len() == all.len(),
            all.len() <= usize::MAX,
            agents@ == all.skip(taken as int),
            out@ == sorted_by_id(all.take(taken as int)),
        decreases agents@.len(),
    {
        let a = agents.remove(0);
        assert(a == all[taken as int]);
        assert(all.take(taken + 1).drop_last() =~= all.take(taken as int));
        let mut j: usize = 0;
        assert(out@.skip(0) =~= out@);
        while j < out.len() && str_le(out[j].id.as_str(), a.id.as_str())
            invariant
                j <= out.len(),
                id_insertion_point(out@, a.id@) == j + id_insertion_point(out@.skip(j as int), a.id@),
            decreases out.len() - j,
        {
            assert(out@.skip(j as int)[0] == out@[j as int]);
            assert(out@.skip(j as int).drop_first() =~= out@.skip(j + 1));
            j = j + 1;
        }
        if j < out.len() {
            assert(out@.skip(j as int)[0] == out@[j as int]);
        }
        proof {
            lemma_id_insertion_point_bounds(out@, a.id@);
        }
        out.insert(j, a);
        taken = taken + 1;
        assert(agents@ =~= all.skip(taken as int));
    }
    assert(all.take(taken as int) =~= all);
    out
}

// ---------------------------------------------------------------------------
// What listing in order keeps
// ---------------------------------------------------------------------------

proof fn lemma_lex_refl(a: Seq<char>)
    ensures
        lex_le(a, a),
    decreases a.len(),
{
    if a.len() > 0 {
        lemma_lex_refl(a.drop_first());
    }
}

proof fn lemma_lex_total(a: Seq<char>, b: Seq<char>)
    ensures
        lex_le(a, b) || lex_le(b, a),
    decreases a.len(),
{
    if a.len() > 0 && b.len() > 0 {
        if a[0] == b[0] {
            lemma_lex_total(a.drop_first(), b.drop_first());
        } else {
            if (a[0] as u32) == (b[0] as u32) {
                vstd::utf8::char_u32_cast(a[0], a[0] as u32);
                vstd::utf8::char_u32_cast(b[0], b[0] as u32);
            }
        }
    }
}

proof fn lemma_lex_trans(a: Seq<char>, b: Seq<char>, c: Seq<char>)
    requires
        lex_le(a, b),
        lex_le(b, c),
    ensures
        lex_le(a, c),
    decreases a.len(),
{
    if a.len() > 0 && a[0] == b[0] && b[0] == c[0] {
        lemma_lex_trans(a.drop_first(), b.drop_first(), c.drop_first());
    }
}

/// Whether the keys of `s` never decrease.
pub open spec fn key_sorted<T>(s: Seq<T>, key: spec_fn(T) -> Seq<char>) -> bool {
    forall|i: int, j: int| 0 <= i < j < s.len() ==> lex_le(#[trigger] key(s[i]), #[trigger] key(s[j]))
}

proof fn lemma_insert_keeps_sorted<T>(s: Seq<T>, key: spec_fn(T) -> Seq<char>, x: T, at: int)
    requires
        key_sorted(s, key),
        0 <= at <= s.len(),
        forall|j: int| 0 <= j < at ==> lex_le(#[trigger] key(s[j]), key(x)),
        at < s.len() ==> !lex_le(key(s[at]), key(x)),
    ensures
        key_sorted(s.insert(at, x), key),
{
    let r = s.insert(at, x);
    if at < s.len() {
        lemma_lex_total(key(s[at]), key(x));
    }
    assert forall|i: int, j: int| 0 <= i < j < r.len() implies lex_le(#[trigger] key(r[i]), #[trigger] key(r[j])) by {
        if j < at {
            assert(r[i] == s[i] && r[j] == s[j]);
        } else if j == at {
            assert(r[i] == s[i]);
        } else if i > at {
            assert(r[i] == s[i - 1] && r[j] == s[j - 1]);
        } else if i == at {
            assert(r[j] == s[j - 1]);
            if j - 1 > at {
                assert(lex_le(key(s[at]), key(s[j - 1])));
                lemma_lex_trans(key(x), key(s[at]), key(s[j - 1]));
            }
        } else {
            assert(r[i] == s[i] && r[j] == s[j - 1]);
        }
    }
}

proof fn lemma_insertion_point_props(s: Seq<AgentEntry>, k: Seq<char>)
    ensures
        0 <= insertion_point(s, k) <= s.len(),
        forall|j: int| 0 <= j < insertion_point(s, k) ==> lex_le(#[trigger] name_key(s[j]), k),
        insertion_point(s, k) < s.len() ==> !lex_le(name_key(s[insertion_point(s, k)]), k),
    decreases s.len(),
{
    if s.len() > 0 && lex_le(name_key(s[0]), k) {
        lemma_insertion_point_props(s.drop_first(), k);
        assert forall|j: int| 0 <= j < insertion_point(s, k) implies lex_le(#[trigger] name_key(s[j]), k) by {
            if j > 0 {
                assert(s[j] == s.drop_first()[j - 1]);
            }
        }
    }
}

proof fn lemma_id_insertion_point_props(s: Seq<InstalledAgent>, k: Seq<char>)
    ensures
        0 <= id_insertion_point(s, k) <= s.len(),
        forall|j: int| 0 <= j < id_insertion_point(s, k) ==> lex_le(#[trigger] s[j].id@, k),
        id_insertion_point(s, k) < s.len() ==> !lex_le(s[id_insertion_point(s, k)].id@, k),
    decreases s.len(),
{
    if s.len() > 0 && lex_le(s[0].id@, k) {
        lemma_id_insertion_point_props(s.drop_first(), k);
        assert forall|j: int| 0 <= j < id_insertion_point(s, k) implies lex_le(#[trigger] s[j].id@, k) by {
            if j > 0 {
                assert(s[j] == s.drop_first()[j - 1]);
            }
        }
    }
}

/// `registry list` orders the agents by their lower-cased names, compared
/// by code point, and lists each agent of the index exactly once.
pub proof fn law_listing_is_ordered(s: Seq<AgentEntry>)
    ensures
        forall|i: int, j: int|
            0 <= i < j < sorted_by_name(s).len() ==> lex_le(
                lowercase(#[trigger] sorted_by_name(s)[i].name@),
                lowercase(#[trigger] sorted_by_name(s)[j].name@),
            ),
        key_sorted(sorted_by_name(s), |a: AgentEntry| name_key(a)),
        sorted_by_name(s).to_multiset() == s.to_multiset(),
{
    lemma_listing_sorted(s);
    let r = sorted_by_name(s);
    assert forall|i: int, j: int| 0 <= i < j < r.len() implies lex_le(
        lowercase(#[trigger] r[i].name@),
        lowercase(#[trigger] r[j].name@),
    ) by {
        let f = |a: AgentEntry| name_key(a);
        assert(lex_le(f(r[i]), f(r[j])));
    }
}

proof fn lemma_listing_sorted(s: Seq<AgentEntry>)
    ensures
        key_sorted(sorted_by_name(s), |a: AgentEntry| name_key(a)),
        sorted_by_name(s).to_multiset() == s.to_multiset(),
    decreases s.len(),
{
    broadcast use vstd::seq_lib::to_multiset_insert, vstd::seq_lib::to_multiset_build;

    if s.len() > 0 {
        let r = sorted_by_name(s.drop_last());
        lemma_listing_sorted(s.drop_last());
        let k = name_key(s.last());
        lemma_insertion_point_props(r, k);
        let f = |a: AgentEntry| name_key(a);
        assert forall|j: int| 0 <= j < insertion_point(r, k) implies lex_le(#[trigger] f(r[j]), f(s.last())) by {
            assert(lex_le(name_key(r[j]), k));
        }
        lemma_insert_keeps_sorted(r, f, s.last(), insertion_point(r, k));
        assert(s =~= s.drop_last().push(s.last()));
        assert(s.to_multiset() =~= s.drop_last().to_multiset().insert(s.last()));
    }
}

/// A scan of the installed agents reports them ordered by id, each exactly
/// once.
pub proof fn law_installed_are_ordered(s: Seq<InstalledAgent>)
    ensures
        key_sorted(sorted_by_id(s), |a: InstalledAgent| a.id@),
        sorted_by_id(s).to_multiset() == s.to_multiset(),
    decreases s.len(),
{
    broadcast use vstd::seq_lib::to_multiset_insert, vstd::seq_lib::to_multiset_build;

    if s.len() > 0 {
        let r = sorted_by_id(s.drop_last());
        law_installed_are_ordered(s.drop_last());
        let k = s.last().id@;
        lemma_id_insertion_point_props(r, k);
        let f = |a: InstalledAgent| a.id@;
        assert forall|j: int| 0 <= j < id_insertion_point(r, k) implies lex_le(#[trigger] f(r[j]), f(s.last())) by {
            assert(lex_le(r[j].id@, k));
        }
        lemma_insert_keeps_sorted(r, f, s.last(), id_insertion_point(r, k));
        assert(s =~= s.drop_last().push(s.last()));
        assert(s.to_multiset() =~= s.drop_last().to_multiset().insert(s.last()));
    }
}

// ---------------------------------------------------------------------------
// Launch arguments
// ---------------------------------------------------------------------------

/// The first installed agent with this id, or -1.
pub open spec fn installed_index(s: Seq<InstalledAgent>, id: Seq<char>) -> int
    decreases s.len(),
{
    if s.len() == 0 {
        -1
    } else if s[0].id@ == id {
        0
    } else {
        let k = installed_index(s.drop_first(), id);
        if k < 0 {
            -1
        } else {
            k + 1
        }
    }
}

/// The binary of this platform among the targets, or -1.
pub open spec fn target_index(s: Seq<PlatformTarget>, platform: Seq<char>) -> int
    decreases s.len(),
{
    if s.len() == 0 {
        -1
    } else if s[0].platform@ == platform {
        0
    } else {
        let k = target_index(s.drop_first(), platform);
        if k < 0 {
            -1
        } else {
            k + 1
        }
    }
}

/// The arguments that the registry gives an agent: those of its binary for
/// this platform when there are some, else those of its npx distribution.
pub open spec fn registry_args(index: Seq<AgentEntry>, agent: Seq<char>, platform: Seq<char>) -> Seq<Seq<char>> {
    let k = entry_index(index, agent);
    if k < 0 {
        Seq::empty()
    } else {
        let e = index[k];
        let binary_args = match e.distribution.binary {
            Some(targets) => {
                let t = target_index(targets@, platform);
                if t >= 0 {
                    views(targets@[t].binary.args@)
                } else {
                    Seq::empty()
                }
            },
            None => Seq::empty(),
        };
        if binary_args.len() > 0 {
            binary_args
        } else {
            match e.distribution.npx {
                Some(n) => views(n.args@),
                None => Seq::empty(),
            }
        }
    }
}

/// The arguments to launch an agent with: those recorded when it was
/// installed, when the first installed agent of that id has some; else
/// those of the registry index, when it could be fetched; else none.
pub open spec fn launch_args(
    agent: Seq<char>,
    installed: Seq<InstalledAgent>,
    index: Option<Seq<AgentEntry>>,
    platform: Seq<char>,
) -> Seq<Seq<char>> {
    let i = installed_index(installed, agent);
    if i >= 0 && installed[i].args@.len() > 0 {
        views(installed[i].args@)
    } else {
        match index {
            Some(ix) => registry_args(ix, agent, platform),
            None => Seq::empty(),
        }
    }
}

proof fn lemma_installed_index_first(s: Seq<InstalledAgent>, id: Seq<char>, i: int)
    requires
        0 <= i < s.len(),
        s[i].id@ == id,
        forall|j: int| 0 <= j < i ==> s[j].id@ != id,
    ensures
        installed_index(s, id) == i,
    decreases i,
{
    if i > 0 {
        lemma_installed_index_first(s.drop_first(), id, i - 1);
    }
}

proof fn lemma_installed_index_absent(s: Seq<InstalledAgent>, id: Seq<char>)
    requires
        forall|j: int| 0 <= j < s.len() ==> s[j].id@ != id,
    ensures
        installed_index(s, id) < 0,
    decreases s.len(),
{
    if s.len() > 0 {
        lemma_installed_index_absent(s.drop_first(), id);
    }
}

/// The position of the first installed agent with this id.
pub fn find_installed(installed: &Vec<InstalledAgent>, id: &str) -> (r: Option<usize>)
    ensures
        match r {
            Some(k) => k == installed_index(installed@, id@) && k < installed.len(),
            None => installed_index(installed@, id@) < 0,
        },
{
    let mut i: usize = 0;
    while i < installed.len()
        invariant
            i <= installed.len(),
            forall|j: int| 0 <= j < i ==> installed@[j].id@ != id@,
        decreases installed.len() - i,
    {
        if str_eq(installed[i].id.as_str(), id) {
            proof {
                lemma_installed_index_first(installed@, id@, i as int);
            }
            return Some(i);
        }
        i = i + 1;
    }
    proof {
        lemma_installed_index_absent(installed@, id@);
    }
    None
}

proof fn lemma_target_index_first(s: Seq<PlatformTarget>, p: Seq<char>, i: int)
    requires
        0 <= i < s.len(),
        s[i].platform@ == p,
        forall|j: int| 0 <= j < i ==> s[j].platform@ != p,
    ensures
        target_index(s, p) == i,
    decreases i,
{
    if i > 0 {
        lemma_target_index_first(s.drop_first(), p, i - 1);
    }
}

proof fn lemma_target_index_absent(s: Seq<PlatformTarget>, p: Seq<char>)
    requires
        forall|j: int| 0 <= j < s.len() ==> s[j].platform@ != p,
    ensures
        target_index(s, p) < 0,
    decreases s.len(),
{
    if s.len() > 0 {
        lemma_target_index_absent(s.drop_first(), p);
    }
}

/// The binary of this platform (`BTreeMap::get` on the platform key).
pub fn find_target<'a>(targets: &'a Vec<PlatformTarget>, platform: &str) -> (r: Option<&'a PlatformBinary>)
    ensures
        match r {
            Some(b) => target_index(targets@, platform@) >= 0 && *b == targets@[target_index(targets@, platform@)].binary,
            None => target_index(targets@, platform@) < 0,
        },
{
    let mut i: usize = 0;
    while i < targets.len()
        invariant
            i <= targets.len(),
            forall|j: int| 0 <= j < i ==> targets@[j].platform@ != platform@,
        decreases targets.len() - i,
    {
        if str_eq(targets[i].platform.as_str(), platform) {
            proof {
                lemma_target_index_first(targets@, platform@, i as int);
            }
            return Some(&targets[i].binary);
        }
        i = i + 1;
    }
    proof {
        lemma_target_index_absent(targets@, platform@);
    }
    None
}

fn copy_strings(v: &Vec<String>) -> (r: Vec<String>)
    ensures
        r@ == v@,
{
    let c = v.clone();
    assert(c@ =~= v@);
    c
}

/// Whether launching an agent needs the registry index: the installed
/// agent of that id records no arguments, or there is none (see
/// `launch_args`).
pub fn needs_registry_args(agent: &str, installed: &Vec<InstalledAgent>) -> (r: bool)
    ensures
        r == !(installed_index(installed@, agent@) >= 0 && installed@[installed_index(installed@, agent@)].args@.len()
            > 0),
{
    match find_installed(installed, agent) {
        Some(i) => installed[i].args.len() == 0,
        None => true,
    }
}

/// The arguments to launch an agent with (see `launch_args`): `installed`
/// is what the local scan found, `index` the registry index when it could be
/// fetched, `platform` the key of this platform.
pub fn resolve_agent_args(
    agent: &str,
    installed: &Vec<InstalledAgent>,
    index: Option<&Vec<AgentEntry>>,
    platform: &str,
) -> (r: Vec<String>)
    ensures
        views(r@) == launch_args(
            agent@,
            installed@,
            match index {
                Some(ix) => Some(ix@),
                None => None,
            },
            platform@,
        ),
{
    if let Some(i) = find_installed(installed, agent) {
        if installed[i].args.len() > 0 {
            return copy_strings(&installed[i].args);
        }
    }
    let ix = match index {
        Some(ix) => ix,
        None => {
            let r: Vec<String> = Vec::new();
            assert(views(r@) =~= Seq::<Seq<char>>::empty());
            return r;
        },
    };
    let empty: Vec<String> = Vec::new();
    assert(views(empty@) =~= Seq::<Seq<char>>::empty());
    let k = match find_entry(ix, agent) {
        Some(k) => k,
        None => {
            return empty;
        },
    };
    let e = &ix[k];
    if let Some(targets) = &e.distribution.binary {
        if let Some(b) = find_target(targets, platform) {
            if b.args.len() > 0 {
                return copy_strings(&b.args);
            }
        }
    }
    match &e.distribution.npx {
        Some(n) => copy_strings(&n.args),
        None => empty,
    }
}

// ---------------------------------------------------------------------------
// Installing
// ---------------------------------------------------------------------------

/// How an agent is installed on this platform.
pub enum DistributionChoice<'a> {
    /// Download and unpack this platform's binary.
    Binary(&'a PlatformBinary),
    /// Write a wrapper script that runs the npx package.
    Npx(&'a NpxDistribution),
}

/// The distribution to install: the binary of this platform when the agent
/// has one, else its npx distribution; refused when it has binaries for
/// other platforms only, or no distribution.
pub fn select_distribution<'a>(agent: &'a AgentEntry, platform: &str) -> (r: Result<
    DistributionChoice<'a>,
    RegistryError,
>)
    ensures
        ({
            let bin = match agent.distribution.binary {
                Some(t) => target_index(t@, platform@),
                None => -1,
            };
            if bin >= 0 {
                r matches Ok(DistributionChoice::Binary(b)) && *b == agent.distribution.binary->0@[bin].binary
            } else if agent.distribution.npx is Some {
                r matches Ok(DistributionChoice::Npx(n)) && *n == agent.distribution.npx->0
            } else if agent.distribution.binary is Some {
                r matches Err(RegistryError::NoPlatformBinary(p)) && p@ == platform@
            } else {
                r matches Err(RegistryError::NoDistribution(id)) && id@ == agent.id@
            }
        }),
{
    if let Some(targets) = &agent.distribution.binary {
        if let Some(b) = find_target(targets, platform) {
            return Ok(DistributionChoice::Binary(b));
        }
    }
    if let Some(npx) = &agent.distribution.npx {
        return Ok(DistributionChoice::Npx(npx));
    }
    if agent.distribution.binary.is_some() {
        return Err(RegistryError::NoPlatformBinary(owned(platform)));
    }
    Err(RegistryError::NoDistribution(agent.id.clone()))
}

/// The kind of a downloadable archive.
#[derive(PartialEq, Eq, Structural, Clone, Copy, Debug)]
pub enum ArchiveKind {
    TarGz,
    Zip,
}

/// The kind of archive whose url, lower-cased, is `lowered`: `.tar.gz` or
/// `.tgz` for a gzipped tarball, `.zip` for a zip archive; any other url is
/// refused.
pub open spec fn archive_kind_spec(url: Seq<char>, lowered: Seq<char>) -> Result<ArchiveKind, Seq<char>> {
    if ".tar.gz"@.is_suffix_of(lowered) || ".tgz"@.is_suffix_of(lowered) {
        Ok(ArchiveKind::TarGz)
    } else if ".zip"@.is_suffix_of(lowered) {
        Ok(ArchiveKind::Zip)
    } else {
        Err(url)
    }
}

/// Whether `r` is the answer `archive_kind_spec` gives.
pub open spec fn is_archive_kind(r: Result<ArchiveKind, RegistryError>, url: Seq<char>, lowered: Seq<char>) -> bool {
    match archive_kind_spec(url, lowered) {
        Ok(k) => r == Ok::<ArchiveKind, RegistryError>(k),
        Err(u) => r matches Err(RegistryError::UnsupportedArchive(x)) && x@ == u,
    }
}

/// The kind of archive at `url`, given its lower-cased form.
pub fn archive_kind_of(url: &str, lowered: &str) -> (r: Result<ArchiveKind, RegistryError>)
    ensures
        is_archive_kind(r, url@, lowered@),
{
    if ends_with(lowered, ".tar.gz") || ends_with(lowered, ".tgz") {
        Ok(ArchiveKind::TarGz)
    } else if ends_with(lowered, ".zip") {
        Ok(ArchiveKind::Zip)
    } else {
        Err(RegistryError::UnsupportedArchive(owned(url)))
    }
}

/// The kind of archive at `url`, by the ending of its lower-cased form (see
/// `archive_kind_spec`).
pub fn archive_kind(url: &str) -> (r: Result<ArchiveKind, RegistryError>)
    ensures
        is_archive_kind(r, url@, lowercase(url@)),
{
    let lower = to_lowercase(url);
    archive_kind_of(url, lower.as_str())
}

/// Whether `s` ends with `t` (`str::ends_with`).
pub fn ends_with(s: &str, t: &str) -> (r: bool)
    ensures
        r == t@.is_suffix_of(s@),
{
    let x = to_chars(s);
    let y = to_chars(t);
    if y.len() > x.len() {
        return false;
    }
    let off = x.len() - y.len();
    let mut i: usize = 0;
    while i < y.len()
        invariant
            off + y.len() == x.len(),
            x@ == s@,
            y@ == t@,
            i <= y.len(),
            forall|j: int| 0 <= j < i ==> x@[off + j] == y@[j],
        decreases y.len() - i,
    {
        if x[off + i] != y[i] {
            assert(s@.subrange(off as int, s@.len() as int)[i as int] != t@[i as int]);
            return false;
        }
        i = i + 1;
    }
    assert(t@ =~= s@.subrange(off as int, s@.len() as int));
    true
}

/// The name of the wrapper script that runs an npx distribution.
pub open spec fn wrapper_name(windows: bool) -> Seq<char> {
    if windows {
        "run.bat"@
    } else {
        "run"@
    }
}

pub open spec fn env_line(e: EnvVar, windows: bool) -> Seq<char> {
    if windows {
        "set "@ + e.key@ + "="@ + e.value@ + "\n"@
    } else {
        "export "@ + e.key@ + "=\""@ + e.value@ + "\"\n"@
    }
}

pub open spec fn arg_word(a: String) -> Seq<char> {
    " "@ + a@
}

/// The wrapper script that runs an npx distribution: on Unix a `sh` script
/// that exports the environment and `exec`s npx, on Windows a batch file that
/// sets it and runs npx; the package, then each argument after a space.
pub open spec fn wrapper_script(npx: NpxDistribution, windows: bool) -> Seq<char> {
    (if windows {
        Seq::empty()
    } else {
        "#!/bin/sh\n"@
    }) + crate::text::concat_map(npx.env@, |e: EnvVar| env_line(e, windows)) + (if windows {
        "npx "@
    } else {
        "exec npx "@
    }) + npx.package@ + crate::text::concat_map(npx.args@, |a: String| arg_word(a)) + "\n"@
}

/// The environment of an npx distribution as the registry gives it: ordered
/// by key, each key once.
pub open spec fn env_ordered(env: Seq<EnvVar>) -> bool {
    forall|i: int, j: int|
        0 <= i < j < env.len() ==> lex_le(#[trigger] env[i].key@, #[trigger] env[j].key@) && env[i].key@
            != env[j].key@
}

/// Whether an environment is ordered by key with each key once.
pub fn env_is_ordered(env: &Vec<EnvVar>) -> (r: bool)
    ensures
        r == env_ordered(env@),
{
    let mut i: usize = 0;
    while i < env.len()
        invariant
            i <= env.len(),
            forall|a: int, b: int|
                0 <= a < i && a < b < env@.len() ==> lex_le(#[trigger] env@[a].key@, #[trigger] env@[b].key@)
                    && env@[a].key@ != env@[b].key@,
        decreases env.len() - i,
    {
        let mut j: usize = i + 1;
        while j < env.len()
            invariant
                i < env.len(),
                i < j <= env.len(),
                forall|a: int, b: int|
                    0 <= a < i && a < b < env@.len() ==> lex_le(#[trigger] env@[a].key@, #[trigger] env@[b].key@)
                        && env@[a].key@ != env@[b].key@,
                forall|b: int|
                    i < b < j ==> lex_le(env@[i as int].key@, #[trigger] env@[b].key@) && env@[i as int].key@
                        != env@[b].key@,
            decreases env.len() - j,
        {
            if !str_le(env[i].key.as_str(), env[j].key.as_str()) || str_eq(env[i].key.as_str(), env[j].key.as_str()) {
                assert(!(lex_le(env@[i as int].key@, env@[j as int].key@) && env@[i as int].key@ != env@[j as int].key@));
                return false;
            }
            j = j + 1;
        }
        assert forall|a: int, b: int|
            0 <= a < i + 1 && a < b < env@.len() implies lex_le(#[trigger] env@[a].key@, #[trigger] env@[b].key@)
                && env@[a].key@ != env@[b].key@ by {
            if a == i {
                assert(i < b < j);
            }
        }
        i = i + 1;
    }
    true
}

/// The wrapper script that runs an npx distribution (see `wrapper_script`).
pub fn npx_wrapper_script(npx: &NpxDistribution, windows: bool) -> (r: String)
    requires
        env_ordered(npx.env@),
    ensures
        r@ == wrapper_script(*npx, windows),
{
    let mut script = if windows {
        String::new()
    } else {
        owned("#!/bin/sh\n")
    };
    let ghost base = script@;
    let mut i: usize = 0;
    while i < npx.env.len()
        invariant
            i <= npx.env.len(),
            script@ == base + crate::text::concat_map(npx.env@.take(i as int), |e: EnvVar| env_line(e, windows)),
        decreases npx.env.len() - i,
    {
        proof {
            crate::text::lemma_concat_map_step(npx.env@, |e: EnvVar| env_line(e, windows), i as int);
        }
        let e = &npx.env[i];
        if windows {
            append(&mut script, "set ");
            append(&mut script, e.key.as_str());
            append(&mut script, "=");
            append(&mut script, e.value.as_str());
            append(&mut script, "\n");
        } else {
            append(&mut script, "export ");
            append(&mut script, e.key.as_str());
            append(&mut script, "=\"");
            append(&mut script, e.value.as_str());
            append(&mut script, "\"\n");
        }
        i = i + 1;
    }
    assert(npx.env@.take(i as int) =~= npx.env@);
    if windows {
        append(&mut script, "npx ");
    } else {
        append(&mut script, "exec npx ");
    }
    append(&mut script, npx.package.as_str());
    let ghost base2 = script@;
    let mut j: usize = 0;
    while j < npx.args.len()
        invariant
            j <= npx.args.len(),
            script@ == base2 + crate::text::concat_map(npx.args@.take(j as int), |a: String| arg_word(a)),
        decreases npx.args.len() - j,
    {
        proof {
            crate::text::lemma_concat_map_step(npx.args@, |a: String| arg_word(a), j as int);
        }
        append(&mut script, " ");
        append(&mut script, npx.args[j].as_str());
        j = j + 1;
    }
    assert(npx.args@.take(j as int) =~= npx.args@);
    append(&mut script, "\n");
    script
}

/// What installing a distribution leaves behind: its type, the executable
/// to launch relative to the install directory, and its arguments.
pub struct InstalledFiles {
    pub distribution_type: String,
    pub executable: Option<String>,
    pub args: Vec<String>,
}

/// What installing the chosen distribution leaves behind: a binary's
/// command and arguments, or the npx wrapper script with the npx arguments.
pub fn installed_files(choice: &DistributionChoice, windows: bool) -> (r: InstalledFiles)
    ensures
        match *choice {
            DistributionChoice::Binary(b) => r.distribution_type@ == "binary"@
                && r.executable is Some && r.executable->0@ == b.cmd@ && r.args@ == b.args@,
            DistributionChoice::Npx(n) => r.distribution_type@ == "npx"@
                && r.executable is Some && r.executable->0@ == wrapper_name(windows)
                && r.args@ == n.args@,
        },
{
    match choice {
        DistributionChoice::Binary(b) => InstalledFiles {
            distribution_type: owned("binary"),
            executable: Some(b.cmd.clone()),
            args: copy_strings(&b.args),
        },
        DistributionChoice::Npx(n) => InstalledFiles {
            distribution_type: owned("npx"),
            executable: Some(if windows {
                owned("run.bat")
            } else {
                owned("run")
            }),
            args: copy_strings(&n.args),
        },
    }
}

/// The binary's command with a leading `./` removed, as it lies in the
/// install directory (`str::trim_start_matches("./")`).
pub open spec fn strip_dot_slash(s: Seq<char>) -> Seq<char>
    decreases s.len(),
{
    if s.len() >= 2 && s[0] == '.' && s[1] == '/' {
        strip_dot_slash(s.skip(2))
    } else {
        s
    }
}

/// The path of an installed command: `<dir>/<cmd>` without leading `./`.
pub fn command_path(dir: &str, cmd: &str) -> (r: String)
    ensures
        r@ == joined(dir@, strip_dot_slash(cmd@)),
{
    let mut rest = owned(cmd);
    while crate::text::starts_with(rest.as_str(), "./")
        invariant
            strip_dot_slash(rest@) == strip_dot_slash(cmd@),
        decreases rest@.len(),
    {
        proof {
            reveal_strlit("./");
        }
        match crate::text::strip_prefix(rest.as_str(), "./") {
            Some(r) => {
                assert(rest@.subrange(0, 2) == "./"@);
                assert(rest@[0] == rest@.subrange(0, 2)[0] && rest@[1] == rest@.subrange(0, 2)[1]);
                rest = r;
            },
            None => {},
        }
    }
    proof {
        reveal_strlit("./");
    }
    join_path(dir, rest.as_str())
}

/// What to install: the index entry and where it goes.
pub struct InstallPlan {
    pub entry: AgentEntry,
    pub target_dir: String,
}

/// Finds the agent to install in the registry index and the directory it
/// goes to, `<data_dir>/agents/<agent_id>`.
pub fn plan_install(agents: Vec<AgentEntry>, data_dir: &str, agent_id: &str) -> (r: Result<
    InstallPlan,
    RegistryError,
>)
    ensures
        entry_index(agents@, agent_id@) >= 0 ==> (r matches Ok(p) && p.entry == agents@[entry_index(
            agents@,
            agent_id@,
        )] && p.target_dir@ == joined(joined(data_dir@, "agents"@), agent_id@)),
        entry_index(agents@, agent_id@) < 0 ==> (r matches Err(RegistryError::NotInRegistry(id))
            && id@ == agent_id@),
{
    let entry = cmd_show(agents, agent_id, None)?;
    Ok(InstallPlan { entry, target_dir: installed_agent_dir(data_dir, agent_id) })
}

/// The metadata recorded for a fresh installation: the requested version or
/// the index's, the files installed, the time and the registry it came from.
pub fn installed_record(
    agent_id: &str,
    entry: &AgentEntry,
    version: Option<&str>,
    target_dir: &str,
    files: InstalledFiles,
    installed_at: String,
    registry_url: &str,
) -> (r: InstalledAgent)
    ensures
        r.id@ == agent_id@,
        r.name@ == entry.name@,
        r.version@ == match version {
            Some(v) => v@,
            None => entry.version@,
        },
        r.install_path@ == target_dir@,
        r.executable == files.executable,
        r.args@ == files.args@,
        r.distribution_type matches Some(t) && t@ == files.distribution_type@,
        r.installed_at@ == installed_at@,
        r.source_registry matches Some(s) && s@ == registry_url@,
        r.healthy is None,
{
    InstalledAgent {
        id: owned(agent_id),
        name: entry.name.clone(),
        version: match version {
            Some(v) => owned(v),
            None => entry.version.clone(),
        },
        install_path: owned(target_dir),
        executable: files.executable,
        args: files.args,
        distribution_type: Some(files.distribution_type),
        installed_at,
        source_registry: Some(owned(registry_url)),
        healthy: None,
    }
}

/// How installation times are written: local date and time with the UTC
/// offset.
pub const TIMESTAMP_PATTERN: &'static str = "%Y-%m-%dT%H:%M:%S%z";

/// The local time written after `pattern` (`chrono::Local::now`, then
/// `format` and `to_string`). It depends on the clock and the time zone, so
/// nothing is stated of it. `to_string` panics on a pattern with an unknown
/// specifier, so the pattern is one known to be well formed.
#[verifier::external_body]
fn chrono_now(pattern: &str) -> String
    requires
        pattern@ == TIMESTAMP_PATTERN@,
{
    chrono::Local::now().format(pattern).to_string()
}

/// The metadata recorded for a fresh installation now (see
/// `installed_record`); the installation time is the local time.
pub fn record_installation(
    agent_id: &str,
    entry: &AgentEntry,
    version: Option<&str>,
    target_dir: &str,
    files: InstalledFiles,
    registry_url: &str,
) -> (r: InstalledAgent)
    ensures
        r.id@ == agent_id@,
        r.name@ == entry.name@,
        r.version@ == match version {
            Some(v) => v@,
            None => entry.version@,
        },
        r.install_path@ == target_dir@,
        r.executable == files.executable,
        r.args@ == files.args@,
        r.distribution_type matches Some(t) && t@ == files.distribution_type@,
        r.source_registry matches Some(s) && s@ == registry_url@,
        r.healthy is None,
{
    let now = chrono_now(TIMESTAMP_PATTERN);
    installed_record(agent_id, entry, version, target_dir, files, now, registry_url)
}

/// The report of an installation.
pub fn install_result(record: &InstalledAgent) -> (r: InstallResult)
    ensures
        r.agent_id@ == record.id@,
        r.version@ == record.version@,
        r.install_path@ == record.install_path@,
        r.distribution_type@ == match record.distribution_type {
            Some(t) => t@,
            None => Seq::empty(),
        },
        r.status@ == "installed"@,
{
    InstallResult {
        agent_id: record.id.clone(),
        version: record.version.clone(),
        install_path: record.install_path.clone(),
        distribution_type: match &record.distribution_type {
            Some(t) => t.clone(),
            None => String::new(),
        },
        status: owned("installed"),
    }
}

// ---------------------------------------------------------------------------
// Uninstalling
// ---------------------------------------------------------------------------

/// The directories that uninstalling an agent removes: its install
/// directory and its configuration directory `<config_dir>/agents/<id>`.
pub fn uninstall_paths(data_dir: &str, config_dir: &str, agent_id: &str) -> (r: (String, String))
    ensures
        r.0@ == joined(joined(data_dir@, "agents"@), agent_id@),
        r.1@ == joined(joined(config_dir@, "agents"@), agent_id@),
{
    let target = installed_agent_dir(data_dir, agent_id);
    let config = join_path(config_dir, "agents");
    (target, join_path(config.as_str(), agent_id))
}

/// The report of an uninstallation.
pub fn uninstall_result(agent_id: &str, removed_path: &str) -> (r: UninstallResult)
    ensures
        r.agent_id@ == agent_id@,
        r.status@ == "removed"@,
        r.removed_path@ == removed_path@,
{
    UninstallResult { agent_id: owned(agent_id), status: owned("removed"), removed_path: owned(removed_path) }
}

// ---------------------------------------------------------------------------
// Health of installed agents
// ---------------------------------------------------------------------------

/// The path whose presence tells whether an installed agent is healthy:
/// its executable within its install directory.
pub open spec fn probe_path(a: InstalledAgent) -> Option<Seq<char>> {
    match a.executable {
        Some(e) => Some(joined(a.install_path@, e@)),
        None => None,
    }
}

/// The paths to probe, one per installed agent (`None` when it records no
/// executable).
pub fn health_probe_paths(agents: &Vec<InstalledAgent>) -> (r: Vec<Option<String>>)
    ensures
        r@.len() == agents@.len(),
        forall|i: int| 0 <= i < r@.len() ==> match #[trigger] r@[i] {
            Some(p) => probe_path(agents@[i]) == Some(p@),
            None => probe_path(agents@[i]) is None,
        },
{
    let mut r: Vec<Option<String>> = Vec::new();
    let mut i: usize = 0;
    while i < agents.len()
        invariant
            i <= agents.len(),
            r@.len() == i,
            forall|k: int| 0 <= k < i ==> match #[trigger] r@[k] {
                Some(p) => probe_path(agents@[k]) == Some(p@),
                None => probe_path(agents@[k]) is None,
            },
        decreases agents.len() - i,
    {
        let a = &agents[i];
        let p = match &a.executable {
            Some(e) => Some(join_path(a.install_path.as_str(), e.as_str())),
            None => None,
        };
        r.push(p);
        i = i + 1;
    }
    r
}

/// The locally installed agents, with their health when it is checked:
/// `present[i]` says whether the probe path of agent `i` exists, and an
/// agent that records an executable is healthy exactly when it does. No
/// agents are detected outside the registry.
pub fn cmd_installed(
    agents: Vec<InstalledAgent>,
    check_health: bool,
    verbose: bool,
    present: &Vec<bool>,
) -> (r: InstalledResult)
    requires
        check_health ==> present@.len() == agents@.len(),
    ensures
        r.agents@.len() == agents@.len(),
        forall|i: int| 0 <= i < agents@.len() ==> {
            let a = #[trigger] r.agents@[i];
            let o = agents@[i];
            &&& a.id == o.id && a.name == o.name && a.version == o.version
            &&& a.install_path == o.install_path && a.executable == o.executable
            &&& a.args == o.args && a.distribution_type == o.distribution_type
            &&& a.installed_at == o.installed_at && a.source_registry == o.source_registry
            &&& a.healthy == if check_health && o.executable is Some {
                Some(present@[i])
            } else {
                o.healthy
            }
        },
        r.detected@.len() == 0,
        r.total == agents@.len(),
{
    let mut agents = agents;
    let ghost all = agents@;
    if check_health {
        let mut i: usize = 0;
        while i < agents.len()
            invariant
                i <= agents.len(),
                agents@.len() == all.len(),
                present@.len() == all.len(),
                forall|k: int| i <= k < all.len() ==> agents@[k] == all[k],
                forall|k: int| 0 <= k < i ==> {
                    let a = #[trigger] agents@[k];
                    let o = all[k];
                    &&& a.id == o.id && a.name == o.name && a.version == o.version
                    &&& a.install_path == o.install_path && a.executable == o.executable
                    &&& a.args == o.args && a.distribution_type == o.distribution_type
                    &&& a.installed_at == o.installed_at && a.source_registry == o.source_registry
                    &&& a.healthy == if o.executable is Some {
                        Some(present@[k])
                    } else {
                        o.healthy
                    }
                },
            decreases agents.len() - i,
        {
            if agents[i].executable.is_some() {
                let mut a = agents.remove(i);
                a.healthy = Some(present[i]);
                agents.insert(i, a);
            }
            i = i + 1;
        }
    }
    let total = agents.len();
    InstalledResult { agents, detected: Vec::new(), total }
}

// ---------------------------------------------------------------------------
// Updating
// ---------------------------------------------------------------------------

/// The installed agents that an update concerns: those with the given id, or
/// all of them.
pub open spec fn is_update_target(a: InstalledAgent, agent_id: Option<Seq<char>>) -> bool {
    match agent_id {
        Some(id) => a.id@ == id,
        None => true,
    }
}

/// One agent that an update would change: its position among the installed
/// agents, its position in the registry index, and the version it goes to.
pub struct UpdateCandidate {
    pub installed: usize,
    pub remote: usize,
    pub new_version: String,
}

/// The version an installed agent would be updated to: the requested one,
/// else the index's.
pub open spec fn target_version(remote: AgentEntry, version: Option<Seq<char>>) -> Seq<char> {
    match version {
        Some(v) => v,
        None => remote.version@,
    }
}

/// Whether installed agent `i` is updated: it is a target, the index has its
/// id, and the version it would go to differs from its own.
pub open spec fn needs_update(
    installed: Seq<InstalledAgent>,
    i: int,
    agent_id: Option<Seq<char>>,
    index: Seq<AgentEntry>,
    version: Option<Seq<char>>,
) -> bool {
    let k = entry_index(index, installed[i].id@);
    &&& is_update_target(installed[i], agent_id)
    &&& k >= 0
    &&& target_version(index[k], version) != installed[i].version@
}

/// Whether any installed agent is a target of the update.
pub fn has_update_targets(installed: &Vec<InstalledAgent>, agent_id: Option<&str>) -> (r: bool)
    ensures
        r == exists|i: int| 0 <= i < installed@.len() && is_update_target(
            #[trigger] installed@[i],
            match agent_id {
                Some(id) => Some(id@),
                None => None,
            },
        ),
{
    let ghost aid = match agent_id {
        Some(id) => Some(id@),
        None => None,
    };
    let mut i: usize = 0;
    while i < installed.len()
        invariant
            i <= installed.len(),
            aid == match agent_id {
                Some(id) => Some(id@),
                None => None::<Seq<char>>,
            },
            forall|k: int| 0 <= k < i ==> !is_update_target(#[trigger] installed@[k], aid),
        decreases installed.len() - i,
    {
        let hit = match agent_id {
            Some(id) => str_eq(installed[i].id.as_str(), id),
            None => true,
        };
        if hit {
            assert(is_update_target(installed@[i as int], aid));
            return true;
        }
        i = i + 1;
    }
    false
}

/// The installed agents that an update changes, in their installed order
/// (see `needs_update`).
pub fn update_candidates(
    installed: &Vec<InstalledAgent>,
    agent_id: Option<&str>,
    index: &Vec<AgentEntry>,
    version: Option<&str>,
) -> (r: Vec<UpdateCandidate>)
    ensures
        forall|j: int| 0 <= j < r@.len() ==> {
            let c = #[trigger] r@[j];
            &&& c.installed < installed@.len()
            &&& needs_update(installed@, c.installed as int, opt_str(agent_id), index@, opt_str(version))
            &&& c.remote == entry_index(index@, installed@[c.installed as int].id@)
            &&& c.new_version@ == target_version(index@[c.remote as int], opt_str(version))
        },
        forall|j1: int, j2: int| 0 <= j1 < j2 < r@.len() ==> r@[j1].installed < r@[j2].installed,
        forall|i: int|
            0 <= i < installed@.len() && #[trigger] needs_update(
                installed@,
                i,
                opt_str(agent_id),
                index@,
                opt_str(version),
            ) ==> exists|j: int| 0 <= j < r@.len() && r@[j].installed == i,
{
    let ghost aid = opt_str(agent_id);
    let ghost ver = opt_str(version);
    let mut r: Vec<UpdateCandidate> = Vec::new();
    let mut i: usize = 0;
    while i < installed.len()
        invariant
            i <= installed.len(),
            aid == opt_str(agent_id),
            ver == opt_str(version),
            forall|j: int| 0 <= j < r@.len() ==> {
                let c = #[trigger] r@[j];
                &&& c.installed < i
                &&& needs_update(installed@, c.installed as int, aid, index@, ver)
                &&& c.remote == entry_index(index@, installed@[c.installed as int].id@)
                &&& c.new_version@ == target_version(index@[c.remote as int], ver)
            },
            forall|j1: int, j2: int| 0 <= j1 < j2 < r@.len() ==> r@[j1].installed < r@[j2].installed,
            forall|k: int| 0 <= k < i && #[trigger] needs_update(installed@, k, aid, index@, ver) ==> exists|j: int|
                0 <= j < r@.len() && r@[j].installed == k,
        decreases installed.len() - i,
    {
        let a = &installed[i];
        let target = match agent_id {
            Some(id) => str_eq(a.id.as_str(), id),
            None => true,
        };
        if target {
            if let Some(k) = find_entry(index, a.id.as_str()) {
                let new_version = match version {
                    Some(v) => owned(v),
                    None => index[k].version.clone(),
                };
                if !str_eq(new_version.as_str(), a.version.as_str()) {
                    let ghost prev = r@;
                    r.push(UpdateCandidate { installed: i, remote: k, new_version });
                    assert(r@[prev.len() as int].installed == i);
                    assert forall|k2: int| 0 <= k2 < i + 1 && #[trigger] needs_update(installed@, k2, aid, index@, ver)
                        implies exists|j: int| 0 <= j < r@.len() && r@[j].installed == k2 by {
                        if k2 < i {
                            let j = choose|j: int| 0 <= j < prev.len() && prev[j].installed == k2;
                            assert(r@[j].installed == k2);
                        } else {
                            assert(r@[prev.len() as int].installed == k2);
                        }
                    }
                }
            }
        }
        i = i + 1;
    }
    r
}

/// The report of one changed agent: `update_available` when only checking,
/// `updated` when it was reinstalled.
pub fn update_entry(agent: &InstalledAgent, new_version: &str, check_only: bool) -> (r: UpdateEntry)
    ensures
        r.agent_id@ == agent.id@,
        r.previous_version@ == agent.version@,
        r.new_version@ == new_version@,
        r.status@ == if check_only {
            "update_available"@
        } else {
            "updated"@
        },
{
    UpdateEntry {
        agent_id: agent.id.clone(),
        previous_version: agent.version.clone(),
        new_version: owned(new_version),
        status: if check_only {
            owned("update_available")
        } else {
            owned("updated")
        },
    }
}

/// The metadata of an agent after it was reinstalled at a new version.
pub fn updated_record(
    agent: &InstalledAgent,
    new_version: &str,
    files: InstalledFiles,
    installed_at: String,
    registry_url: &str,
) -> (r: InstalledAgent)
    ensures
        r.id == agent.id && r.name == agent.name && r.install_path == agent.install_path,
        r.healthy == agent.healthy,
        r.version@ == new_version@,
        r.executable == files.executable,
        r.args@ == files.args@,
        r.distribution_type matches Some(t) && t@ == files.distribution_type@,
        r.installed_at@ == installed_at@,
        r.source_registry matches Some(s) && s@ == registry_url@,
{
    InstalledAgent {
        id: agent.id.clone(),
        name: agent.name.clone(),
        version: owned(new_version),
        install_path: agent.install_path.clone(),
        executable: files.executable,
        args: files.args,
        distribution_type: Some(files.distribution_type),
        installed_at,
        source_registry: Some(owned(registry_url)),
        healthy: agent.healthy,
    }
}

/// The metadata of an agent reinstalled now at a new version (see
/// `updated_record`); the installation time is the local time.
pub fn record_update(
    agent: &InstalledAgent,
    new_version: &str,
    files: InstalledFiles,
    registry_url: &str,
) -> (r: InstalledAgent)
    ensures
        r.id == agent.id && r.name == agent.name && r.install_path == agent.install_path,
        r.healthy == agent.healthy,
        r.version@ == new_version@,
        r.executable == files.executable,
        r.args@ == files.args@,
        r.distribution_type matches Some(t) && t@ == files.distribution_type@,
        r.source_registry matches Some(s) && s@ == registry_url@,
{
    let now = chrono_now(TIMESTAMP_PATTERN);
    updated_record(agent, new_version, files, now, registry_url)
}

/// The overall status of an update: nothing to do, updates available when
/// only checking, or updated.
pub open spec fn update_status(n: nat, check_only: bool) -> Seq<char> {
    if n == 0 {
        "no_updates_available"@
    } else if check_only {
        "updates_available"@
    } else {
        "updated"@
    }
}

/// The report of an update.
pub fn update_result(agent_id: Option<&str>, updates: Vec<UpdateEntry>, check_only: bool) -> (r: UpdateResult)
    ensures
        match agent_id {
            Some(id) => r.agent_id matches Some(x) && x@ == id@,
            None => r.agent_id is None,
        },
        r.updates@ == updates@,
        r.status@ == update_status(updates@.len(), check_only),
{
    let status = if updates.len() == 0 {
        owned("no_updates_available")
    } else if check_only {
        owned("updates_available")
    } else {
        owned("updated")
    };
    UpdateResult {
        agent_id: match agent_id {
            Some(id) => Some(owned(id)),
            None => None,
        },
        updates,
        status,
    }
}

} // verus!
