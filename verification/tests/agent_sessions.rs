use acp_agent_cli::daemon::DaemonRpcResponse;
use acp_agent_cli::daemon_turn::{DaemonTurn, TurnAction, TurnEvent, TurnPhase};
use acp_agent_cli::sessions::{CloseOutcome, RunSession, SessionTable};

fn table_with(agent: &str, ids: &[&str]) -> SessionTable {
    let mut t = SessionTable::new();
    t.add_agent(agent);
    for id in ids {
        t.record_session(agent, id.to_string());
    }
    t
}

#[test]
fn first_session_becomes_the_default() {
    let t = table_with("codex", &["s1", "s2"]);
    let list = t.list();
    assert_eq!(list.len(), 1);
    assert_eq!(list[0].agent, "codex");
    assert_eq!(list[0].sessions.len(), 2);
    let s1 = list[0].sessions.iter().find(|s| s.session_id == "s1").unwrap();
    let s2 = list[0].sessions.iter().find(|s| s.session_id == "s2").unwrap();
    assert!(s1.is_default);
    assert!(!s2.is_default);
    assert_eq!(s1.turn_count, 0);
}

#[test]
fn agents_are_known_once_added() {
    let mut t = SessionTable::new();
    assert!(!t.has_agent("codex"));
    t.add_agent("codex");
    assert!(t.has_agent("codex"));
    assert!(!t.has_agent("goose"));
    assert_eq!(t.list()[0].sessions.len(), 0);
}

#[test]
fn closing_the_default_session_picks_another() {
    let mut t = table_with("codex", &["s1", "s2", "s3"]);
    assert_eq!(t.close_session("codex", "s1"), CloseOutcome::Closed);
    let list = t.list();
    let defaults: Vec<_> = list[0].sessions.iter().filter(|s| s.is_default).collect();
    assert_eq!(defaults.len(), 1);
    assert_ne!(defaults[0].session_id, "s1");
    assert_eq!(list[0].sessions.len(), 2);
}

#[test]
fn closing_the_last_session_drops_the_agent() {
    let mut t = table_with("codex", &["s1"]);
    assert_eq!(t.close_session("codex", "s1"), CloseOutcome::Closed);
    assert!(!t.has_agent("codex"));
    assert!(t.list().is_empty());
}

#[test]
fn closing_unknown_sessions_changes_nothing() {
    let mut t = table_with("codex", &["s1"]);
    assert_eq!(t.close_session("goose", "s1"), CloseOutcome::AgentNotFound);
    assert_eq!(t.close_session("codex", "s9"), CloseOutcome::SessionNotFound);
    assert_eq!(t.turn_count("codex", "s1"), Some(0));
}

#[test]
fn runs_go_to_the_requested_or_default_session() {
    let t = table_with("codex", &["s1", "s2"]);
    assert!(matches!(t.choose_run_session("codex", Some("s2")), RunSession::Use(s) if s == "s2"));
    assert!(matches!(t.choose_run_session("codex", Some("s7")), RunSession::Missing));
    assert!(matches!(t.choose_run_session("codex", None), RunSession::Use(s) if s == "s1"));
    let mut empty = SessionTable::new();
    empty.add_agent("goose");
    assert!(matches!(empty.choose_run_session("goose", None), RunSession::Create));
    empty.open_default_session("goose", "n1".to_string());
    assert!(matches!(empty.choose_run_session("goose", None), RunSession::Use(s) if s == "n1"));
}

#[test]
fn each_run_counts_one_turn() {
    let mut t = table_with("codex", &["s1", "s2"]);
    t.count_turn("codex", "s2");
    t.count_turn("codex", "s2");
    assert_eq!(t.turn_count("codex", "s2"), Some(2));
    assert_eq!(t.turn_count("codex", "s1"), Some(0));
    assert_eq!(t.turn_count("codex", "nope"), None);
    assert_eq!(t.turn_count("other", "s1"), None);
}

#[test]
fn recording_a_session_again_resets_its_turns() {
    let mut t = table_with("codex", &["s1"]);
    t.count_turn("codex", "s1");
    t.record_session("codex", "s1".to_string());
    assert_eq!(t.turn_count("codex", "s1"), Some(0));
    assert_eq!(t.list()[0].sessions.len(), 1);
}

fn run_error_code(action: &TurnAction) -> Option<String> {
    match action {
        TurnAction::Reply(DaemonRpcResponse::Error { code, .. }) => Some(code.clone()),
        _ => None,
    }
}

#[test]
fn a_daemon_run_connects_creates_counts_and_answers() {
    let mut table = SessionTable::new();
    let (turn, action) = DaemonTurn::begin("goose".to_string(), None, "hello".to_string(), Vec::new(), &mut table);
    assert!(matches!(action, TurnAction::Connect));
    assert_eq!(turn.phase, TurnPhase::Connecting);
    let (turn, action) = turn.step(&mut table, TurnEvent::Connected);
    assert!(matches!(action, TurnAction::CreateSession));
    let (turn, action) = turn.step(&mut table, TurnEvent::SessionCreated("s-1".to_string()));
    assert!(matches!(&action, TurnAction::Prompt(id) if id == "s-1"));
    assert_eq!(table.turn_count("goose", "s-1"), Some(1));
    let (turn, action) = turn.step(&mut table, TurnEvent::Answered("hi there".to_string()));
    assert_eq!(turn.phase, TurnPhase::Done);
    match action {
        TurnAction::Reply(DaemonRpcResponse::RunResult { output }) => {
            assert_eq!(output.status, "ok");
            assert_eq!(output.message, "hi there");
            assert_eq!(output.input, "hello");
        }
        _ => panic!("expected the run's result"),
    }
    let (turn, action) = DaemonTurn::begin("goose".to_string(), None, "again".to_string(), Vec::new(), &mut table);
    assert!(matches!(&action, TurnAction::Prompt(id) if id == "s-1"));
    assert_eq!(table.turn_count("goose", "s-1"), Some(2));
    let (_, action) = turn.step(&mut table, TurnEvent::PromptFailed("broken pipe".to_string()));
    assert_eq!(run_error_code(&action).as_deref(), Some("daemon.agent_error"));
}

#[test]
fn a_daemon_run_refuses_unknown_sessions_and_reports_failures() {
    let mut table = SessionTable::new();
    let (turn, _) = DaemonTurn::begin("goose".to_string(), Some("nope".to_string()), "x".to_string(), Vec::new(), &mut table);
    let (_, action) = turn.step(&mut table, TurnEvent::Connected);
    match action {
        TurnAction::Reply(DaemonRpcResponse::Error { code, message, .. }) => {
            assert_eq!(code, "daemon.session_not_found");
            assert_eq!(message, "session 'nope' not found for agent 'goose'");
        }
        _ => panic!("expected a refusal"),
    }
    let (turn, _) = DaemonTurn::begin("zed".to_string(), None, "x".to_string(), Vec::new(), &mut table);
    let (_, action) = turn.step(&mut table, TurnEvent::ConnectFailed("not found".to_string()));
    assert_eq!(run_error_code(&action).as_deref(), Some("daemon.agent_connect_failed"));
    let (turn, _) = DaemonTurn::begin("goose".to_string(), None, "x".to_string(), Vec::new(), &mut table);
    let (_, action) = turn.step(&mut table, TurnEvent::CreateFailed("no".to_string()));
    assert_eq!(run_error_code(&action).as_deref(), Some("daemon.session_create_failed"));
    let (turn, _) = DaemonTurn::begin("goose".to_string(), None, "x".to_string(), Vec::new(), &mut table);
    let (_, action) = turn.step(&mut table, TurnEvent::Answered("early".to_string()));
    assert_eq!(run_error_code(&action).as_deref(), Some("daemon.agent_error"));
}
