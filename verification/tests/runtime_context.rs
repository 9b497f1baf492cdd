use acp_agent_cli::context::{
    active_context_file, history_file, join_path, parse_selectors, resolve_effective_context,
    resolve_runtime_locations, set_value, update_active_context_state, ActiveContext,
    InvocationContextOverrides, RuntimeOverrides,
};
use acp_agent_cli::output::ContextEntry;
use acp_agent_cli::text::{digits_u64, i32_text, i64_text, join, padded, replace, strip_prefix, trim};

fn s(v: &[&str]) -> Vec<String> {
    v.iter().map(|x| x.to_string()).collect()
}

fn entry(k: &str, v: &str) -> ContextEntry {
    ContextEntry { key: k.to_string(), value: v.to_string() }
}

fn lookup<'a>(entries: &'a [ContextEntry], key: &str) -> Option<&'a str> {
    entries.iter().find(|e| e.key == key).map(|e| e.value.as_str())
}

fn no_overrides() -> RuntimeOverrides {
    RuntimeOverrides { config_dir: None, data_dir: None, state_dir: None, cache_dir: None, log_dir: None }
}

#[test]
fn paths_are_joined_as_on_unix() {
    assert_eq!(join_path("/home/u", ".config"), "/home/u/.config");
    assert_eq!(join_path("/home/u/", "x"), "/home/u/x");
    assert_eq!(join_path("", "x"), "x");
    assert_eq!(join_path("/home/u", "/abs"), "/abs");
}

#[test]
fn runtime_directories_default_under_home() {
    let r = resolve_runtime_locations(&no_overrides(), "/home/u", false);
    assert_eq!(r.config_dir, "/home/u/.config/acp-agent-cli");
    assert_eq!(r.data_dir, "/home/u/.local/share/acp-agent-cli");
    assert_eq!(r.state_dir, "/home/u/.local/share/acp-agent-cli/state");
    assert_eq!(r.cache_dir, "/home/u/.cache/acp-agent-cli");
    assert_eq!(r.log_dir, None);
    let logged = resolve_runtime_locations(&no_overrides(), "/home/u", true);
    assert_eq!(logged.log_dir.as_deref(), Some("/home/u/.local/share/acp-agent-cli/state/logs"));
    assert_eq!(history_file(&r), "/home/u/.local/share/acp-agent-cli/state/repl_history");
    assert_eq!(active_context_file(&r), "/home/u/.local/share/acp-agent-cli/state/active_context.json");
}

#[test]
fn runtime_directory_overrides_win() {
    let mut o = no_overrides();
    o.data_dir = Some("/d".to_string());
    let r = resolve_runtime_locations(&o, "/home/u", true);
    assert_eq!(r.state_dir, "/d/state");
    assert_eq!(r.log_dir.as_deref(), Some("/d/state/logs"));
    o.state_dir = Some("/tmp/s".to_string());
    o.log_dir = Some("/var/log/acp".to_string());
    let r = resolve_runtime_locations(&o, "/home/u", false);
    assert_eq!(r.state_dir, "/tmp/s");
    assert_eq!(r.log_dir.as_deref(), Some("/var/log/acp"));
}

#[test]
fn selectors_are_key_value_pairs() {
    let v = parse_selectors(&s(&["provider=staging", "a=b=c"])).ok().unwrap();
    assert_eq!(v.len(), 2);
    assert_eq!((v[0].key.as_str(), v[0].value.as_str()), ("provider", "staging"));
    assert_eq!((v[1].key.as_str(), v[1].value.as_str()), ("a", "b=c"));
    assert_eq!(parse_selectors(&s(&["ok=1", "novalue", "=x"])).err().unwrap(), "invalid selector 'novalue'; expected KEY=VALUE");
    assert_eq!(parse_selectors(&s(&["=x"])).err().unwrap(), "invalid selector '=x'; expected KEY=VALUE");
    assert!(parse_selectors(&Vec::new()).ok().unwrap().is_empty());
}

#[test]
fn setting_a_value_replaces_its_key() {
    let mut v = vec![entry("a", "1"), entry("b", "2")];
    set_value(&mut v, "a".to_string(), "9".to_string());
    set_value(&mut v, "c".to_string(), "3".to_string());
    assert_eq!(v.len(), 3);
    assert_eq!(lookup(&v, "a"), Some("9"));
    assert_eq!(lookup(&v, "b"), Some("2"));
    assert_eq!(lookup(&v, "c"), Some("3"));
}

#[test]
fn invocation_values_override_the_persisted_context() {
    let persisted = ActiveContext {
        name: None,
        agent: Some("persisted-agent".to_string()),
        workspace: Some("/persisted".to_string()),
        session_id: Some("persisted-session".to_string()),
        selectors: vec![entry("provider", "staging"), entry("region", "eu")],
        current_directory: Some("/cwd".to_string()),
    };
    let o = InvocationContextOverrides {
        agent: Some("override-agent".to_string()),
        workspace: Some("/override".to_string()),
        session_id: Some("override-session".to_string()),
        selectors: vec![entry("region", "us")],
        current_directory: None,
    };
    let eff = resolve_effective_context(Some(&persisted), &o);
    assert_eq!(lookup(&eff, "agent"), Some("override-agent"));
    assert_eq!(lookup(&eff, "workspace"), Some("/override"));
    assert_eq!(lookup(&eff, "session_id"), Some("override-session"));
    assert_eq!(lookup(&eff, "provider"), Some("staging"));
    assert_eq!(lookup(&eff, "region"), Some("us"));
    assert_eq!(lookup(&eff, "current_directory"), Some("/cwd"));
    let none = InvocationContextOverrides {
        agent: None,
        workspace: None,
        session_id: None,
        selectors: Vec::new(),
        current_directory: None,
    };
    assert!(resolve_effective_context(None, &none).is_empty());
}

#[test]
fn context_use_keeps_values_until_cleared() {
    let first = update_active_context_state(
        None,
        false,
        None,
        Some("persisted-agent".to_string()),
        Some("/workspace-a".to_string()),
        None,
        vec![entry("provider", "staging")],
        Some("/cwd-a".to_string()),
    );
    let second = update_active_context_state(
        Some(&first),
        false,
        None,
        None,
        None,
        Some("next-session".to_string()),
        Vec::new(),
        None,
    );
    assert_eq!(second.agent.as_deref(), Some("persisted-agent"));
    assert_eq!(second.workspace.as_deref(), Some("/workspace-a"));
    assert_eq!(second.session_id.as_deref(), Some("next-session"));
    assert_eq!(lookup(&second.selectors, "provider"), Some("staging"));
    assert_eq!(second.current_directory.as_deref(), Some("/cwd-a"));
    let cleared = update_active_context_state(
        Some(&second),
        true,
        None,
        None,
        None,
        Some("cleared-session".to_string()),
        Vec::new(),
        None,
    );
    assert_eq!(cleared.session_id.as_deref(), Some("cleared-session"));
    assert!(cleared.agent.is_none());
    assert!(cleared.workspace.is_none());
    assert!(cleared.selectors.is_empty());
    assert!(cleared.current_directory.is_none());
}

#[test]
fn text_helpers_match_std() {
    assert_eq!(trim("  a b \n"), "a b");
    assert_eq!(trim(""), "");
    assert_eq!(join(&s(&["a", "b", "c"]), ", "), "a, b, c");
    assert_eq!(join(&[], "-"), "");
    assert_eq!(i64_text(-9223372036854775808), "-9223372036854775808");
    assert_eq!(i64_text(0), "0");
    assert_eq!(i32_text(-42), "-42");
    assert_eq!(digits_u64(18446744073709551615), "18446744073709551615");
    assert_eq!(replace("single_instance", '_', '-'), "single-instance");
    assert_eq!(padded("ab", 4), "ab  ");
    assert_eq!(padded("abcdef", 4), "abcdef");
    assert_eq!(strip_prefix("--format=json", "--format="), Some("json".to_string()));
    assert_eq!(strip_prefix("-f", "--format="), None);
}
