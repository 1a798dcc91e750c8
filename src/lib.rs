//! Decision logic for coding-assistant hooks: a heuristic quality score for submitted prompts,
//! a risk classification of shell commands, the choice and reading of formatters and linters
//! after an edit, and per-session statistics. Everything here is computation on plain values;
//! reading events, running tools, notifying and logging are left to the caller.
pub mod automation;
pub mod command_validator;
pub mod handlers;
pub mod patterns;
pub mod project;
pub mod prompt_evaluation;
pub mod session_stats;
pub mod text;
