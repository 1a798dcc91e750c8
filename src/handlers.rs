//! What each hook event leads to: the decisions, messages and responses, with the delivery
//! (printing, notifying, logging) left to the caller.
use vstd::prelude::*;
use vstd::string::StrSliceExecFns;

use crate::automation::formatter::{FormatResult, FormatStatus};
use crate::automation::linter::{LintResult, LintStatus};
use crate::command_validator::{level_for, CommandValidation, CommandValidator, SecurityLevel};
use crate::patterns::{any_finds, set_builds};
use crate::prompt_evaluation::{prompt_score, PromptEvaluator};
use crate::text::{
    occurs_at, starts_with_seq, starts_with_text, to_chars,
    char_prefix, ends_with_seq, ends_with_text, int_text, join_text, prefix_of, push_int, same_text,
};

verus! {

/// A desktop notification to send.
#[derive(Debug, Clone)]
pub struct Notification {
    pub title: String,
    pub subtitle: String,
    pub message: String,
}

/// Event-specific part of the response to a submitted prompt.
#[derive(Debug, Clone)]
pub struct HookSpecificOutput {
    pub hook_event_name: String,
    pub additional_context: String,
}

/// The response to a submitted prompt.
#[derive(Debug, Clone)]
pub struct UserPromptSubmitResponse {
    pub decision: Option<String>,
    pub reason: Option<String>,
    pub hook_specific_output: Option<HookSpecificOutput>,
    pub continue_: bool,
    pub stop_reason: Option<String>,
    pub suppress_output: Option<bool>,
}

/// Everything that follows from a submitted prompt.
#[derive(Debug, Clone)]
pub struct PromptReview {
    pub score: i32,
    pub passed: bool,
    pub notification: Notification,
    pub response: UserPromptSubmitResponse,
}

/// The text that reports a score.
pub open spec fn score_message(score: int) -> Seq<char> {
    "プロンプト評価スコア: "@ + int_text(score) + "/100"@
}

/// The reason given when a prompt is blocked.
pub open spec fn block_reason(score: int) -> Seq<char> {
    "プロンプト評価スコアが低すぎます ("@ + int_text(score) + ")"@
}

/// Scores submitted prompts and answers them.
pub struct PromptHandler {
    evaluator: PromptEvaluator,
}

impl PromptHandler {
    /// The score a prompt needs to pass.
    pub closed spec fn threshold_value(&self) -> int {
        self.evaluator.threshold_value()
    }

    pub fn new(threshold: i32) -> (r: Self)
        ensures
            r.threshold_value() == threshold,
    {
        PromptHandler { evaluator: PromptEvaluator::new(threshold) }
    }

    /// The score of `prompt`, whether it passes, the notification to send and the response to
    /// give. A prompt that fails is blocked: the response says so, gives the reason, and stops.
    pub fn review(&self, prompt: &str, has_project_context: bool) -> (r: PromptReview)
        ensures
            r.score == prompt_score(prompt@, has_project_context),
            r.passed == (r.score >= self.threshold_value()),
            r.notification.message@ == score_message(r.score as int),
            r.response.hook_specific_output matches Some(h) && h.hook_event_name@
                == "UserPromptSubmit"@ && h.additional_context@ == score_message(r.score as int),
            r.response.continue_ == r.passed,
            r.passed ==> {
                &&& r.notification.title@ == "プロンプト受信"@
                &&& r.notification.subtitle@ == "品質チェック完了"@
                &&& r.response.decision is None
                &&& r.response.reason is None
                &&& r.response.stop_reason is None
                &&& r.response.suppress_output == Some(false)
            },
            !r.passed ==> {
                &&& r.notification.title@ == "プロンプト品質警告"@
                &&& r.notification.subtitle@ == "品質スコアが低すぎます"@
                &&& r.response.decision matches Some(d) && d@ == "block"@
                &&& r.response.reason matches Some(t) && t@ == block_reason(r.score as int)
                &&& r.response.stop_reason matches Some(t) && t@
                    == "プロンプトの品質が基準を満たしていません"@
                &&& r.response.suppress_output == Some(true)
            },
    {
        let score = self.evaluator.evaluate(prompt, has_project_context);
        let passed = self.evaluator.passes_threshold(prompt, has_project_context);
        let mut message = String::from_str("プロンプト評価スコア: ");
        push_int(&mut message, score as i64);
        message.append("/100");
        let output = HookSpecificOutput {
            hook_event_name: String::from_str("UserPromptSubmit"),
            additional_context: message.clone(),
        };
        if !passed {
            let mut reason = String::from_str("プロンプト評価スコアが低すぎます (");
            push_int(&mut reason, score as i64);
            reason.append(")");
            PromptReview {
                score,
                passed,
                notification: Notification {
                    title: String::from_str("プロンプト品質警告"),
                    subtitle: String::from_str("品質スコアが低すぎます"),
                    message,
                },
                response: UserPromptSubmitResponse {
                    decision: Some(String::from_str("block")),
                    reason: Some(reason),
                    hook_specific_output: Some(output),
                    continue_: false,
                    stop_reason: Some(String::from_str("プロンプトの品質が基準を満たしていません")),
                    suppress_output: Some(true),
                },
            }
        } else {
            PromptReview {
                score,
                passed,
                notification: Notification {
                    title: String::from_str("プロンプト受信"),
                    subtitle: String::from_str("品質チェック完了"),
                    message,
                },
                response: UserPromptSubmitResponse {
                    decision: None,
                    reason: None,
                    hook_specific_output: Some(output),
                    continue_: true,
                    stop_reason: None,
                    suppress_output: Some(false),
                },
            }
        }
    }
}

impl Default for PromptHandler {
    fn default() -> (r: Self)
        ensures
            r.threshold_value() == 60,
    {
        PromptHandler::new(60)
    }
}

/// What a shell command leads to.
#[derive(Debug, Clone)]
pub struct BashReview {
    pub validation: CommandValidation,
    /// The line to print about the command.
    pub line: String,
    /// The notification to send, for a destructive command only.
    pub notification: Option<Notification>,
}

/// The line printed about a command at a given level.
pub open spec fn bash_line(level: SecurityLevel, command: Seq<char>) -> Seq<char> {
    match level {
        SecurityLevel::Destructive => "🚨 [BASH] ⚠️  DESTRUCTIVE: "@ + command,
        SecurityLevel::SystemLevel => "🔧 [BASH] System-level: "@ + command,
        SecurityLevel::Safe => "💻 [BASH] "@ + command,
    }
}

/// Checks shell commands before they run.
pub struct BashHandler {
    validator: CommandValidator,
}

impl BashHandler {
    /// The destructive patterns in force.
    pub closed spec fn destructive(&self) -> Seq<Seq<char>> {
        self.validator.destructive()
    }

    /// The system-level patterns in force.
    pub closed spec fn system_level(&self) -> Seq<Seq<char>> {
        self.validator.system_level()
    }

    pub fn new() -> (r: Self)
        ensures
            crate::command_validator::drawn_from(
                r.destructive(),
                crate::command_validator::destructive_table(),
            ),
            crate::command_validator::drawn_from(
                r.system_level(),
                crate::command_validator::system_level_table(),
            ),
            set_builds(crate::command_validator::destructive_table()) ==> r.destructive()
                == crate::command_validator::destructive_table(),
            set_builds(crate::command_validator::system_level_table()) ==> r.system_level()
                == crate::command_validator::system_level_table(),
    {
        BashHandler { validator: CommandValidator::new() }
    }

    /// The validation of `command`, the line to print, and, for a destructive command, a
    /// warning notification that quotes its first 50 characters.
    pub fn review(&self, command: &str) -> (r: BashReview)
        ensures
            r.validation.command@ == command@,
            r.validation.is_destructive == any_finds(self.destructive(), command@),
            r.validation.is_system_level == any_finds(self.system_level(), command@),
            r.validation.level == level_for(
                r.validation.is_destructive,
                r.validation.is_system_level,
            ),
            r.line@ == bash_line(r.validation.level, command@),
            r.validation.level == SecurityLevel::Destructive <==> r.notification is Some,
            r.notification matches Some(n) ==> {
                &&& n.title@ == "🚨 Warning"@
                &&& n.subtitle@ == "Destructive command detected"@
                &&& n.message@ == "Command: "@ + prefix_of(command@, 50)
            },
    {
        let validation = self.validator.validate(command);
        match validation.level {
            SecurityLevel::Destructive => {
                let line = join_text("🚨 [BASH] ⚠️  DESTRUCTIVE: ", command);
                let quoted = char_prefix(command, 50);
                let notification = Notification {
                    title: String::from_str("🚨 Warning"),
                    subtitle: String::from_str("Destructive command detected"),
                    message: join_text("Command: ", quoted.as_str()),
                };
                BashReview { validation, line, notification: Some(notification) }
            },
            SecurityLevel::SystemLevel => {
                let line = join_text("🔧 [BASH] System-level: ", command);
                BashReview { validation, line, notification: None }
            },
            SecurityLevel::Safe => {
                let line = join_text("💻 [BASH] ", command);
                BashReview { validation, line, notification: None }
            },
        }
    }
}

impl Default for BashHandler {
    fn default() -> (r: Self)
        ensures
            crate::command_validator::drawn_from(
                r.destructive(),
                crate::command_validator::destructive_table(),
            ),
            crate::command_validator::drawn_from(
                r.system_level(),
                crate::command_validator::system_level_table(),
            ),
    {
        BashHandler::new()
    }
}

/// Whether a tool writes files.
pub open spec fn is_file_edit_tool(tool_name: Seq<char>) -> bool {
    tool_name == "Write"@ || tool_name == "Edit"@ || tool_name == "MultiEdit"@
}

/// Decides what follows an edit of a file.
pub struct FileHandler;

impl FileHandler {
    /// Whether `path` names a Rust source file.
    pub fn is_rust_file(&self, path: &str) -> (r: bool)
        ensures
            r == ends_with_seq(path@, ".rs"@),
    {
        ends_with_text(path, ".rs")
    }

    /// Whether the tool `tool_name` writes files.
    pub fn is_file_edit(&self, tool_name: &str) -> (r: bool)
        ensures
            r == is_file_edit_tool(tool_name@),
    {
        same_text(tool_name, "Write") || same_text(tool_name, "Edit") || same_text(
            tool_name,
            "MultiEdit",
        )
    }

    /// Whether formatting and linting follow the use of `tool_name` on `path`, an existing
    /// file: only after a file edit of a Rust file.
    pub fn runs_automation(&self, tool_name: &str, path: &str) -> (r: bool)
        ensures
            r == (is_file_edit_tool(tool_name@) && ends_with_seq(path@, ".rs"@)),
    {
        self.is_file_edit(tool_name) && self.is_rust_file(path)
    }

    /// Whether any of `results` formatted the file.
    pub fn format_applied(&self, results: &Vec<FormatResult>) -> (r: bool)
        ensures
            r == exists|i: int|
                0 <= i < results.len() && (#[trigger] results@[i]).status == FormatStatus::Success,
    {
        let mut i: usize = 0;
        while i < results.len()
            invariant
                i <= results.len(),
                forall|k: int| 0 <= k < i ==> (#[trigger] results@[k]).status != FormatStatus::Success,
            decreases results.len() - i,
        {
            if results[i].status == FormatStatus::Success {
                return true;
            }
            i = i + 1;
        }
        false
    }

    /// Whether any of `results` linted the file, with or without warnings.
    pub fn lint_applied(&self, results: &Vec<LintResult>) -> (r: bool)
        ensures
            r == exists|i: int|
                0 <= i < results.len() && ((#[trigger] results@[i]).status == LintStatus::Success
                    || results@[i].status == LintStatus::Warning),
    {
        let mut i: usize = 0;
        while i < results.len()
            invariant
                i <= results.len(),
                forall|k: int|
                    0 <= k < i ==> (#[trigger] results@[k]).status != LintStatus::Success
                        && results@[k].status != LintStatus::Warning,
            decreases results.len() - i,
        {
            if results[i].status == LintStatus::Success || results[i].status == LintStatus::Warning {
                return true;
            }
            i = i + 1;
        }
        false
    }
}

/// The server and tool that an MCP tool name `mcp__<server>__<tool>` names, the server ending
/// at the first `__` after the prefix.
pub open spec fn mcp_parts(name: Seq<char>) -> Option<(Seq<char>, Seq<char>)> {
    let rest = name.skip(5);
    if starts_with_seq(name, "mcp__"@) && exists|k: int| occurs_at(rest, seq!['_', '_'], k) {
        let k = choose|k: int|
            occurs_at(rest, seq!['_', '_'], k) && forall|j: int| 0 <= j < k ==> !occurs_at(rest, seq!['_', '_'], j);
        Some((rest.take(k), rest.skip(k + 2)))
    } else {
        None
    }
}

/// An MCP tool, by server and tool name.
#[derive(Debug, Clone)]
pub struct McpTool {
    pub server: String,
    pub tool: String,
}

/// Recognizes MCP tools by their names.
pub struct McpHandler;

impl McpHandler {
    /// The server and tool named by `tool_name`, when it is an MCP tool name.
    pub fn mcp_tool(&self, tool_name: &str) -> (r: Option<McpTool>)
        ensures
            match mcp_parts(tool_name@) {
                Some((server, tool)) => r matches Some(t) && t.server@ == server && t.tool@ == tool,
                None => r is None,
            },
    {
        if !starts_with_text(tool_name, "mcp__") {
            return None;
        }
        let count = tool_name.unicode_len();
        proof {
            reveal_strlit("mcp__");
        }
        let rest = tool_name.substring_char(5, count);
        let chars = to_chars(rest);
        assert(rest@ =~= tool_name@.skip(5));
        let mut k: usize = 0;
        while chars.len() > 1 && k < chars.len() - 1
            invariant
                k <= chars.len(),
                chars@ == rest@,
                rest@ == tool_name@.skip(5),
                starts_with_seq(tool_name@, "mcp__"@),
                forall|j: int| 0 <= j < k ==> !occurs_at(rest@, seq!['_', '_'], j),
            decreases chars.len() - k,
        {
            if chars[k] == '_' && chars[k + 1] == '_' {
                assert(rest@.subrange(k as int, k + 2) =~= seq!['_', '_']);
                assert(occurs_at(rest@, seq!['_', '_'], k as int));
                let server = rest.substring_char(0, k);
                let tool = rest.substring_char(k + 2, chars.len());
                proof {
                    let c = choose|c: int|
                        occurs_at(rest@, seq!['_', '_'], c) && forall|j: int|
                            0 <= j < c ==> !occurs_at(rest@, seq!['_', '_'], j);
                    if c < k {
                    } else if c > k {
                        assert(!occurs_at(rest@, seq!['_', '_'], k as int));
                    }
                    assert(c == k);
                    assert(server@ =~= rest@.take(k as int));
                    assert(tool@ =~= rest@.skip(k + 2));
                }
                return Some(McpTool { server: String::from_str(server), tool: String::from_str(tool) });
            }
            if chars[k] == '_' && chars[k + 1] != '_' {
                assert(rest@.subrange(k as int, k + 2)[1] != seq!['_', '_'][1]);
            } else {
                assert(rest@.subrange(k as int, k + 2)[0] != seq!['_', '_'][0]);
            }
            k = k + 1;
        }
        assert forall|j: int| !occurs_at(rest@, seq!['_', '_'], j) by {
            if 0 <= j && j + 2 <= rest@.len() {
                assert(j < k);
            }
        }
        None
    }
}

} // verus!
