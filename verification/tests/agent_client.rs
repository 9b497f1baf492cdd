use acp_agent_cli::acp::{
    classify_message, gather_message, ReplyProgress, expand_agent_path, extract_chunk_text, extract_text, is_agent_path, resolve_agent_args,
    stop_reason_or_unknown, AgentUpdate, ExecutableResolution, MessageRole, PromptResult, RequestIds,
    ResolveEvent, ResolveStep, RpcErrorInfo,
};
use acp_agent_cli::registry::{
    needs_registry_args, AgentEntry, Distribution, InstalledAgent, NpxDistribution, PlatformBinary, PlatformTarget,
};

fn update(kind: Option<&str>, text: Option<&str>) -> AgentUpdate {
    AgentUpdate { session_update: kind.map(|s| s.to_string()), text: text.map(|s| s.to_string()) }
}

fn installed(id: &str, dir: &str, exe: Option<&str>, args: &[&str]) -> InstalledAgent {
    InstalledAgent {
        id: id.to_string(),
        name: id.to_string(),
        version: "1.0.0".to_string(),
        install_path: dir.to_string(),
        executable: exe.map(|s| s.to_string()),
        args: args.iter().map(|s| s.to_string()).collect(),
        distribution_type: Some("binary".to_string()),
        installed_at: "2024-01-01T00:00:00+0000".to_string(),
        source_registry: None,
        healthy: None,
    }
}

#[test]
fn only_message_chunks_stream_text() {
    assert_eq!(extract_chunk_text(&update(Some("agent_message_chunk"), Some("hi"))).as_deref(), Some("hi"));
    assert_eq!(extract_chunk_text(&update(Some("agent_thought_chunk"), Some("hm"))), None);
    assert_eq!(extract_chunk_text(&update(Some("agent_message_chunk"), None)), None);
    assert_eq!(extract_chunk_text(&update(None, Some("x"))), None);
}

#[test]
fn prompt_text_joins_the_chunks_in_order() {
    let result = PromptResult {
        stop_reason: "end_turn".to_string(),
        messages: serde_json::Value::Array(Vec::new()),
        notifications: vec![
            update(Some("agent_message_chunk"), Some("Hello")),
            update(Some("tool_call"), Some("ignored")),
            update(Some("agent_message_chunk"), Some(", world")),
        ],
    };
    assert_eq!(extract_text(&result), "Hello, world");
    let empty = PromptResult {
        stop_reason: "end_turn".to_string(),
        messages: serde_json::Value::Array(Vec::new()),
        notifications: Vec::new(),
    };
    assert_eq!(extract_text(&empty), "");
    assert_eq!(stop_reason_or_unknown(None), "unknown");
    assert_eq!(stop_reason_or_unknown(Some("cancelled".to_string())), "cancelled");
}

#[test]
fn request_ids_count_up_from_one() {
    let mut ids = RequestIds::new();
    assert_eq!(ids.allocate(), 1);
    assert_eq!(ids.allocate(), 2);
    assert_eq!(ids.next_id, 3);
}

#[test]
fn answers_are_matched_to_their_request() {
    assert!(matches!(classify_message(3, Some(3), None), MessageRole::Answer));
    assert!(matches!(classify_message(3, Some(2), None), MessageRole::OtherAnswer));
    assert!(matches!(classify_message(3, None, None), MessageRole::Notification));
    let e = RpcErrorInfo { code: Some(-32601), message: Some("Method not found".to_string()) };
    assert!(matches!(classify_message(3, Some(3), Some(e)),
        MessageRole::Failure(m) if m == "agent error (code -32601): Method not found"));
    let e = RpcErrorInfo { code: None, message: None };
    assert!(matches!(classify_message(1, Some(1), Some(e)),
        MessageRole::Failure(m) if m == "agent error (code -1): unknown error"));
}

#[test]
fn agent_paths_are_recognised_and_expanded() {
    assert!(is_agent_path("/usr/bin/agent"));
    assert!(is_agent_path("./agent"));
    assert!(is_agent_path("~/bin/agent"));
    assert!(!is_agent_path("codex"));
    assert!(!is_agent_path(".agent"));
    assert!(!is_agent_path(""));
    assert_eq!(expand_agent_path("~/bin/agent", "/home/u"), "/home/u/bin/agent");
    assert_eq!(expand_agent_path("/opt/agent", "/home/u"), "/opt/agent");
}

#[test]
fn a_direct_path_must_exist() {
    let (r, step) = ExecutableResolution::begin("~/bin/agent", "/home/u");
    assert!(matches!(step, ResolveStep::CheckExists(ref p) if p == "/home/u/bin/agent"));
    let (_, step) = r.step(ResolveEvent::Exists(false));
    assert!(matches!(step, ResolveStep::Failed(m) if m == "agent executable not found at: /home/u/bin/agent"));
    let (r, _) = ExecutableResolution::begin("/opt/agent", "/home/u");
    let (_, step) = r.step(ResolveEvent::Exists(true));
    assert!(matches!(step, ResolveStep::Resolved(p) if p == "/opt/agent"));
}

#[test]
fn an_installed_agent_uses_its_executable() {
    let (r, step) = ExecutableResolution::begin("codex", "/home/u");
    assert!(matches!(step, ResolveStep::ScanInstalled));
    let list = vec![installed("codex", "/data/agents/codex", Some("./bin/codex"), &[])];
    let (r, step) = r.step(ResolveEvent::Installed(list));
    assert!(matches!(step, ResolveStep::CheckExists(ref p) if p == "/data/agents/codex/bin/codex"));
    let (_, step) = r.step(ResolveEvent::Exists(true));
    assert!(matches!(step, ResolveStep::Resolved(p) if p == "/data/agents/codex/bin/codex"));
}

#[test]
fn an_installed_agent_without_executable_fails() {
    let (r, _) = ExecutableResolution::begin("codex", "/home/u");
    let list = vec![installed("codex", "/data/agents/codex", None, &[])];
    let (_, step) = r.step(ResolveEvent::Installed(list));
    assert!(matches!(step, ResolveStep::Failed(m)
        if m == "installed agent 'codex' has no valid executable at /data/agents/codex"));
    let (r, _) = ExecutableResolution::begin("codex", "/home/u");
    let list = vec![installed("codex", "/data/agents/codex", Some("codex"), &[])];
    let (r, _) = r.step(ResolveEvent::Installed(list));
    let (_, step) = r.step(ResolveEvent::Exists(false));
    assert!(matches!(step, ResolveStep::Failed(m)
        if m == "installed agent 'codex' has no valid executable at /data/agents/codex"));
}

#[test]
fn other_agents_are_searched_on_the_path() {
    let (r, _) = ExecutableResolution::begin("gemini", "/home/u");
    let (r, step) = r.step(ResolveEvent::Installed(Vec::new()));
    assert!(matches!(step, ResolveStep::SearchPath));
    let (_, step) = r.step(ResolveEvent::PathFound(Some("/usr/bin/gemini".to_string())));
    assert!(matches!(step, ResolveStep::Resolved(p) if p == "/usr/bin/gemini"));
    let (r, _) = ExecutableResolution::begin("gemini", "/home/u");
    let (r, _) = r.step(ResolveEvent::Installed(Vec::new()));
    let (_, step) = r.step(ResolveEvent::PathFound(None));
    assert!(matches!(step, ResolveStep::Failed(m)
        if m == "agent 'gemini' not found — install it with: acp-agent-cli registry install gemini"));
    let (r, _) = ExecutableResolution::begin("gemini", "/home/u");
    let (r, _) = r.step(ResolveEvent::Installed(Vec::new()));
    let (_, step) = r.step(ResolveEvent::PathFound(Some(String::new())));
    assert!(matches!(step, ResolveStep::Failed(_)));
    let (r, _) = ExecutableResolution::begin("gemini", "/home/u");
    let (_, step) = r.step(ResolveEvent::ScanFailed("failed to read agents".to_string()));
    assert!(matches!(step, ResolveStep::Failed(m) if m == "failed to read agents"));
}

#[test]
fn launch_arguments_come_from_the_installed_metadata() {
    let list = vec![installed("codex", "/d", Some("codex"), &["--acp", "--quiet"])];
    assert_eq!(resolve_agent_args("codex", &list, None, "linux-x86_64"), vec!["--acp", "--quiet"]);
    assert!(resolve_agent_args("goose", &list, None, "linux-x86_64").is_empty());
    assert!(!needs_registry_args("codex", &list));
    assert!(needs_registry_args("goose", &list));
}

fn registry_entry(id: &str, npx_args: &[&str], binary: Option<(&str, &[&str])>) -> AgentEntry {
    AgentEntry {
        id: id.to_string(),
        name: id.to_string(),
        version: "1.0.0".to_string(),
        description: String::new(),
        repository: None,
        authors: Vec::new(),
        license: None,
        icon: None,
        distribution: Distribution {
            npx: Some(NpxDistribution {
                package: format!("@acp/{id}"),
                args: npx_args.iter().map(|s| s.to_string()).collect(),
                env: Vec::new(),
            }),
            binary: binary.map(|(platform, args)| {
                vec![PlatformTarget {
                    platform: platform.to_string(),
                    binary: PlatformBinary {
                        archive: "https://x/a.tar.gz".to_string(),
                        cmd: "./a".to_string(),
                        args: args.iter().map(|s| s.to_string()).collect(),
                    },
                }]
            }),
        },
    }
}

#[test]
fn agents_not_installed_take_the_default_registry_arguments() {
    let index = vec![
        registry_entry("goose", &["--npx-acp"], Some(("linux-x86_64", &["--bin-acp"]))),
        registry_entry("zed", &["--npx-only"], Some(("darwin-aarch64", &["--mac"]))),
    ];
    let none: Vec<InstalledAgent> = Vec::new();
    assert!(needs_registry_args("goose", &none));
    assert_eq!(resolve_agent_args("goose", &none, Some(&index), "linux-x86_64"), vec!["--bin-acp"]);
    assert_eq!(resolve_agent_args("zed", &none, Some(&index), "linux-x86_64"), vec!["--npx-only"]);
    assert!(resolve_agent_args("other", &none, Some(&index), "linux-x86_64").is_empty());
    assert!(resolve_agent_args("goose", &none, None, "linux-x86_64").is_empty());
    let bare = vec![installed("goose", "/d", Some("goose"), &[])];
    assert_eq!(resolve_agent_args("goose", &bare, Some(&index), "linux-x86_64"), vec!["--bin-acp"]);
}

#[test]
fn notifications_are_gathered_in_order_until_the_answer() {
    let mut gathered: Vec<&str> = Vec::new();
    assert!(matches!(gather_message(7, None, None, "n1", &mut gathered), ReplyProgress::Notified));
    assert!(matches!(gather_message(7, Some(3), None, "other", &mut gathered), ReplyProgress::Passed));
    assert!(matches!(gather_message(7, None, None, "n2", &mut gathered), ReplyProgress::Notified));
    assert!(matches!(gather_message(7, Some(7), None, "answer", &mut gathered), ReplyProgress::Answer("answer")));
    assert_eq!(gathered, vec!["n1", "n2"]);
    let failure = RpcErrorInfo { code: Some(-32000), message: Some("boom".to_string()) };
    match gather_message(7, Some(7), Some(failure), "answer", &mut gathered) {
        ReplyProgress::Failed(m) => assert_eq!(m, "agent error (code -32000): boom"),
        _ => panic!("expected the error"),
    }
    assert_eq!(gathered.len(), 2);
}
