use hook_guard::command_validator::CommandValidator;
use hook_guard::session_stats::{InfoSession, ResponseContent, SessionStats};

fn lookup(tool: &str, session: &str, at: i64) -> InfoSession {
    InfoSession {
        timestamp: at,
        session_id: session.to_string(),
        tool_name: tool.to_string(),
        query_info: serde_json::Value::Null,
        result_summary: None,
    }
}

#[test]
fn new_session_starts_empty() {
    let s = SessionStats::new("abc".to_string(), 1_000);
    assert_eq!(s.session_id, "abc");
    assert_eq!(s.start_time, Some(1_000));
    assert!(s.bash_commands.is_empty() && s.rust_operations.is_empty());
    assert!(s.mcp_usage.is_empty() && s.info_gathering_sessions.is_empty());
    let d = SessionStats::default();
    assert_eq!(d.session_id, "");
    assert_eq!(d.start_time, None);
}

#[test]
fn bash_commands_are_recorded_with_their_checks() {
    let validator = CommandValidator::new();
    let mut s = SessionStats::new("s1".to_string(), 0);
    s.record_bash_command(&validator.validate("sudo rm -rf /tmp/x"), "s1", "/w", 5);
    s.record_bash_command(&validator.validate("ls"), "s1", "/w", 6);
    assert_eq!(s.bash_commands.len(), 2);
    let c = &s.bash_commands[0];
    assert_eq!((c.command.as_str(), c.cwd.as_str(), c.timestamp), ("sudo rm -rf /tmp/x", "/w", 5));
    assert!(c.is_destructive && c.is_system_level);
    assert!(!s.bash_commands[1].is_destructive && !s.bash_commands[1].is_system_level);
}

#[test]
fn only_rust_files_are_recorded() {
    let mut s = SessionStats::new("s1".to_string(), 0);
    s.record_rust_operation("Edit", "src/main.rs", "s1", 7);
    s.record_rust_operation("Edit", "README.md", "s1", 8);
    assert_eq!(s.rust_operations.len(), 1);
    let op = &s.rust_operations[0];
    assert_eq!((op.operation_type.as_str(), op.file_path.as_str()), ("Edit", "src/main.rs"));
    assert!(!op.format_applied && !op.lint_applied);
}

#[test]
fn last_matching_rust_edit_is_updated() {
    let mut s = SessionStats::new("s1".to_string(), 0);
    s.record_rust_operation("Edit", "a.rs", "s1", 1);
    s.record_rust_operation("Write", "a.rs", "s1", 2);
    s.record_rust_operation("Write", "a.rs", "s2", 3);
    s.update_rust_operation("a.rs", "s1", true, false);
    assert!(!s.rust_operations[0].format_applied);
    assert!(s.rust_operations[1].format_applied && !s.rust_operations[1].lint_applied);
    assert!(!s.rust_operations[2].format_applied);
    s.update_rust_operation("b.rs", "s1", true, true);
    assert!(!s.rust_operations[0].lint_applied);
}

#[test]
fn mcp_usage_counts_per_server_in_first_seen_order() {
    let mut s = SessionStats::new("s1".to_string(), 0);
    s.record_mcp_usage("context7", Some(lookup("get-library-docs", "s1", 1)));
    s.record_mcp_usage("playwright", None);
    s.record_mcp_usage("context7", None);
    assert_eq!(s.mcp_usage, vec![("context7".to_string(), 2), ("playwright".to_string(), 1)]);
    assert_eq!(s.info_gathering_sessions.len(), 1);
}

#[test]
fn lookup_summary_follows_the_response() {
    let mut s = SessionStats::new("s1".to_string(), 0);
    s.record_mcp_usage("context7", Some(lookup("docs", "s1", 1)));
    s.record_mcp_usage("context7", Some(lookup("docs", "s1", 2)));
    s.record_mcp_usage("context7", Some(lookup("docs", "s2", 3)));
    let long = "あ".repeat(150);
    s.update_info_session_result("docs", "s1", &ResponseContent::Text(long));
    assert_eq!(s.info_gathering_sessions[0].result_summary, None);
    assert_eq!(
        s.info_gathering_sessions[1].result_summary,
        Some(format!("Retrieved: {}", "あ".repeat(100)))
    );
    assert_eq!(s.info_gathering_sessions[2].result_summary, None);
    s.update_info_session_result("docs", "s2", &ResponseContent::NotText);
    assert_eq!(s.info_gathering_sessions[2].result_summary.as_deref(), Some("Retrieved: Data retrieved"));
    s.update_info_session_result("docs", "s1", &ResponseContent::Missing);
    assert_eq!(
        s.info_gathering_sessions[1].result_summary.as_deref(),
        Some("Information retrieved successfully")
    );
    s.update_info_session_result("other", "s1", &ResponseContent::Missing);
    assert_eq!(s.info_gathering_sessions[0].result_summary, None);
}

#[test]
fn summary_lists_what_happened() {
    let validator = CommandValidator::new();
    let mut s = SessionStats::new("abc".to_string(), 0);
    s.record_bash_command(&validator.validate("rm -rf build"), "abc", "/w", 1);
    s.record_bash_command(&validator.validate("cat /etc/hosts"), "abc", "/w", 2);
    s.record_bash_command(&validator.validate("ls"), "abc", "/w", 3);
    s.record_rust_operation("Edit", "a.rs", "abc", 4);
    s.update_rust_operation("a.rs", "abc", true, true);
    s.record_mcp_usage("context7", Some(lookup("docs", "abc", 5)));
    let lines = s.summary_lines(185_000);
    assert_eq!(
        lines,
        vec![
            "\n📊 Session Summary (abc)",
            "  ⏱️  Duration: 3 minutes",
            "  💻 Bash Commands: 3",
            "    ⚠️  Destructive commands: 1",
            "    🔧 System-level commands: 1",
            "  🦀 Rust Operations: 1",
            "    ✨ Auto-formatted: 1",
            "    🔍 Auto-linted: 1",
            "  🔌 MCP Usage:",
            "    context7 x1",
            "  📚 Information Sessions: 1",
        ]
        .into_iter()
        .map(String::from)
        .collect::<Vec<_>>()
    );
}

#[test]
fn summary_of_an_idle_session() {
    let s = SessionStats::default();
    assert_eq!(s.summary_lines(0), vec!["\n📊 Session Summary ()".to_string()]);
    let s = SessionStats::new("x".to_string(), 120_000);
    assert_eq!(s.summary_lines(0)[1], "  ⏱️  Duration: -2 minutes");
    assert_eq!(s.summary_lines(179_999)[1], "  ⏱️  Duration: 0 minutes");
}
