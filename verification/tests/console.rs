use acp_agent_cli::output::{document_text, stream_record, Format};
use acp_agent_cli::repl::{parse_repl_line, repl_agent, repl_help_lines, slash_completions, stop_notice, ReplCommand};

#[test]
fn slash_commands_complete_by_prefix() {
    assert_eq!(slash_completions("/e"), vec!["/edit", "/events", "/exit"]);
    assert_eq!(slash_completions("/"), vec![
        "/prompt", "/approve", "/reject", "/edit", "/events", "/files", "/stop", "/help", "/exit"
    ]);
    assert!(slash_completions("/xyz").is_empty());
    assert!(slash_completions("hello").is_empty());
    assert!(slash_completions("").is_empty());
}

#[test]
fn console_lines_are_parsed_into_commands() {
    assert!(matches!(parse_repl_line("   "), ReplCommand::Skip));
    assert!(matches!(parse_repl_line(" /exit "), ReplCommand::Exit));
    assert!(matches!(parse_repl_line("quit"), ReplCommand::Exit));
    assert!(matches!(parse_repl_line("/help"), ReplCommand::Help));
    assert!(matches!(parse_repl_line("/stop"), ReplCommand::Stop));
    assert!(matches!(parse_repl_line("/approve  p-1 "), ReplCommand::Approve(id) if id == "p-1"));
    assert!(matches!(parse_repl_line("/approve"), ReplCommand::Approve(id) if id.is_empty()));
    assert!(matches!(parse_repl_line("/reject p-2"), ReplCommand::Reject(id) if id == "p-2"));
    assert!(matches!(parse_repl_line("/events"), ReplCommand::Events));
    assert!(matches!(parse_repl_line("/files"), ReplCommand::Files));
    assert!(matches!(parse_repl_line("/prompt   "), ReplCommand::Unknown(t) if t == "/prompt"));
    assert!(matches!(parse_repl_line("/prompt say hi"), ReplCommand::Prompt(t) if t == "say hi"));
    assert!(matches!(parse_repl_line("/bogus"), ReplCommand::Unknown(t) if t == "/bogus"));
    assert!(matches!(parse_repl_line("  hello agent "), ReplCommand::Prompt(t) if t == "hello agent"));
    assert!(matches!(parse_repl_line("/approvex"), ReplCommand::Unknown(t) if t == "/approvex"));
}

#[test]
fn edit_splits_id_and_replacement_at_the_first_space() {
    assert!(matches!(parse_repl_line("/edit p-1 new  text"),
        ReplCommand::Edit(id, r) if id == "p-1" && r == "new  text"));
    assert!(matches!(parse_repl_line("/edit p-1"), ReplCommand::Edit(id, r) if id == "p-1" && r.is_empty()));
}

#[test]
fn the_console_needs_an_agent() {
    assert_eq!(repl_agent(Some("codex"), Some("goose")), Ok("codex".to_string()));
    assert_eq!(repl_agent(None, Some("goose")), Ok("goose".to_string()));
    assert_eq!(repl_agent(None, None),
        Err("repl requires an agent; pass --agent <name> or set one with `context use --agent`".to_string()));
}

#[test]
fn turns_that_end_otherwise_are_noted() {
    assert_eq!(stop_notice("end_turn"), None);
    assert_eq!(stop_notice("cancelled").as_deref(), Some("[stopped: cancelled]"));
    let help = repl_help_lines();
    assert_eq!(help.len(), 11);
    assert_eq!(help[0], "REPL commands");
    assert_eq!(help[10], "  /exit             Exit the REPL");
}

#[test]
fn stream_records_are_framed_per_format() {
    assert_eq!(stream_record("status: ok\n", Format::Yaml).ok().unwrap(), "---\nstatus: ok\n...\n");
    assert_eq!(stream_record("{\"status\":\"ok\"}", Format::Json).ok().unwrap(), "{\"status\":\"ok\"}\n");
    assert_eq!(
        stream_record("x = 1\n", Format::Toml).err().unwrap(),
        "--stream does not support the toml format; use yaml or json"
    );
}

#[test]
fn documents_end_with_a_newline() {
    assert_eq!(document_text("{\n}".to_string(), Format::Json), "{\n}\n");
    assert_eq!(document_text("a = 1\n".to_string(), Format::Toml), "a = 1\n");
    assert_eq!(document_text("a = 1".to_string(), Format::Toml), "a = 1\n");
    assert_eq!(document_text("".to_string(), Format::Toml), "\n");
    assert_eq!(document_text("a: 1\n".to_string(), Format::Yaml), "a: 1\n");
}
