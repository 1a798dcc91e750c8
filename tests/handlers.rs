use hook_guard::automation::formatter::FormatResult;
use hook_guard::automation::linter::LintResult;
use hook_guard::command_validator::SecurityLevel;
use hook_guard::handlers::{BashHandler, FileHandler, McpHandler, PromptHandler};

#[test]
fn failing_prompt_is_blocked() {
    let handler = PromptHandler::default();
    let review = handler.review("実装してください", false);
    assert_eq!(review.score, 35);
    assert!(!review.passed);
    assert_eq!(review.notification.title, "プロンプト品質警告");
    assert_eq!(review.notification.subtitle, "品質スコアが低すぎます");
    assert_eq!(review.notification.message, "プロンプト評価スコア: 35/100");
    let r = &review.response;
    assert_eq!(r.decision.as_deref(), Some("block"));
    assert_eq!(r.reason.as_deref(), Some("プロンプト評価スコアが低すぎます (35)"));
    assert!(!r.continue_);
    assert_eq!(r.stop_reason.as_deref(), Some("プロンプトの品質が基準を満たしていません"));
    assert_eq!(r.suppress_output, Some(true));
    let out = r.hook_specific_output.as_ref().unwrap();
    assert_eq!(out.hook_event_name, "UserPromptSubmit");
    assert_eq!(out.additional_context, "プロンプト評価スコア: 35/100");
}

#[test]
fn passing_prompt_continues() {
    let handler = PromptHandler::new(60);
    let review = handler.review("/help", false);
    assert_eq!(review.score, 100);
    assert!(review.passed);
    assert_eq!(review.notification.title, "プロンプト受信");
    assert_eq!(review.notification.message, "プロンプト評価スコア: 100/100");
    assert!(review.response.continue_);
    assert_eq!(review.response.decision, None);
    assert_eq!(review.response.reason, None);
    assert_eq!(review.response.stop_reason, None);
    assert_eq!(review.response.suppress_output, Some(false));
}

#[test]
fn zero_score_is_written_as_zero() {
    let review = PromptHandler::new(0).review("テロ", true);
    assert_eq!(review.score, 0);
    assert!(review.passed);
    assert_eq!(review.notification.message, "プロンプト評価スコア: 0/100");
    let review = PromptHandler::new(1).review("テロ", true);
    assert_eq!(review.response.reason.as_deref(), Some("プロンプト評価スコアが低すぎます (0)"));
}

#[test]
fn destructive_command_is_announced() {
    let handler = BashHandler::default();
    let long = format!("rm -rf /tmp/{}", "x".repeat(60));
    let review = handler.review(&long);
    assert_eq!(review.validation.level, SecurityLevel::Destructive);
    assert_eq!(review.line, format!("🚨 [BASH] ⚠️  DESTRUCTIVE: {}", long));
    let n = review.notification.unwrap();
    assert_eq!(n.title, "🚨 Warning");
    assert_eq!(n.subtitle, "Destructive command detected");
    assert_eq!(n.message, format!("Command: {}", &long[..50]));
}

#[test]
fn other_commands_are_only_printed() {
    let handler = BashHandler::new();
    let review = handler.review("sudo systemctl restart nginx");
    assert_eq!(review.line, "🔧 [BASH] System-level: sudo systemctl restart nginx");
    assert!(review.notification.is_none());
    let review = handler.review("ls -la");
    assert_eq!(review.line, "💻 [BASH] ls -la");
    assert!(review.notification.is_none());
    let review = handler.review("rm -r 日本語のディレクトリ");
    assert_eq!(review.notification.unwrap().message, "Command: rm -r 日本語のディレクトリ");
}

#[test]
fn file_edits_of_rust_files_run_automation() {
    let h = FileHandler;
    assert!(h.runs_automation("Write", "src/lib.rs"));
    assert!(h.runs_automation("MultiEdit", "a.rs"));
    assert!(!h.runs_automation("Read", "src/lib.rs"));
    assert!(!h.runs_automation("Edit", "src/lib.rsx"));
    assert!(h.is_rust_file(".rs"));
    assert!(!h.is_rust_file("rs"));
    assert!(h.is_file_edit("Edit"));
    assert!(!h.is_file_edit("edit"));
}

#[test]
fn applied_flags_follow_statuses() {
    let h = FileHandler;
    assert!(h.format_applied(&vec![FormatResult::error("a", "b"), FormatResult::success("c", "d")]));
    assert!(!h.format_applied(&vec![FormatResult::not_available("a")]));
    assert!(!h.format_applied(&vec![]));
    assert!(h.lint_applied(&vec![LintResult::warning("a", "b")]));
    assert!(h.lint_applied(&vec![LintResult::success("a", "b")]));
    assert!(!h.lint_applied(&vec![LintResult::error("a", "b"), LintResult::skipped("c")]));
}

#[test]
fn mcp_tool_names_are_split_at_the_first_separator() {
    let h = McpHandler;
    let t = h.mcp_tool("mcp__context7__get-library-docs").unwrap();
    assert_eq!((t.server.as_str(), t.tool.as_str()), ("context7", "get-library-docs"));
    let t = h.mcp_tool("mcp__a__b__c").unwrap();
    assert_eq!((t.server.as_str(), t.tool.as_str()), ("a", "b__c"));
    let t = h.mcp_tool("mcp____x").unwrap();
    assert_eq!((t.server.as_str(), t.tool.as_str()), ("", "x"));
    assert!(h.mcp_tool("Bash").is_none());
    assert!(h.mcp_tool("mcp__nosep").is_none());
    assert!(h.mcp_tool("mcp_").is_none());
}
