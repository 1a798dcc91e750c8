//! Which linter to run for a project or a file, and what its outcome means.
use vstd::prelude::*;

use super::{
    command_of, command_with_file, ext_is, has_ext, is_script, is_script_ext, path_debug,
    path_debug_text, EditedFile, ToolCommand, ToolCommandView, ToolOutcome,
};
use crate::project::ProjectType;
use crate::text::{contains_seq, contains_text, join_text, to_chars};

verus! {

#[derive(Debug, Clone, Copy, PartialEq, Eq, Structural)]
pub enum LintStatus {
    Success,
    Warning,
    Error,
    NotAvailable,
    Skipped,
}

/// The result of one linter run.
#[derive(Debug, Clone)]
pub struct LintResult {
    pub tool: String,
    pub status: LintStatus,
    pub message: String,
}

pub struct LintResultView {
    pub tool: Seq<char>,
    pub status: LintStatus,
    pub message: Seq<char>,
}

impl View for LintResult {
    type V = LintResultView;

    open spec fn view(&self) -> LintResultView {
        LintResultView { tool: self.tool@, status: self.status, message: self.message@ }
    }
}

pub open spec fn lint_view(tool: Seq<char>, status: LintStatus, message: Seq<char>) -> LintResultView {
    LintResultView { tool, status, message }
}

impl LintResult {
    pub fn success(tool: &str, message: &str) -> (r: Self)
        ensures
            r@ == lint_view(tool@, LintStatus::Success, message@),
    {
        LintResult {
            tool: String::from_str(tool),
            status: LintStatus::Success,
            message: String::from_str(message),
        }
    }

    pub fn warning(tool: &str, message: &str) -> (r: Self)
        ensures
            r@ == lint_view(tool@, LintStatus::Warning, message@),
    {
        LintResult {
            tool: String::from_str(tool),
            status: LintStatus::Warning,
            message: String::from_str(message),
        }
    }

    pub fn error(tool: &str, message: &str) -> (r: Self)
        ensures
            r@ == lint_view(tool@, LintStatus::Error, message@),
    {
        LintResult {
            tool: String::from_str(tool),
            status: LintStatus::Error,
            message: String::from_str(message),
        }
    }

    pub fn not_available(tool: &str) -> (r: Self)
        ensures
            r@ == lint_view(tool@, LintStatus::NotAvailable, tool@ + " is not available"@),
    {
        LintResult {
            tool: String::from_str(tool),
            status: LintStatus::NotAvailable,
            message: join_text(tool, " is not available"),
        }
    }

    pub fn skipped(message: &str) -> (r: Self)
        ensures
            r@ == lint_view(Seq::empty(), LintStatus::Skipped, message@),
    {
        LintResult {
            tool: String::new(),
            status: LintStatus::Skipped,
            message: String::from_str(message),
        }
    }

    pub fn emoji(&self) -> (r: &'static str)
        ensures
            r@ == match self.status {
                LintStatus::Success => "✅"@,
                LintStatus::Warning => "⚠️"@,
                LintStatus::Error => "❌"@,
                LintStatus::NotAvailable => "⚠️"@,
                LintStatus::Skipped => "ℹ️"@,
            },
    {
        match self.status {
            LintStatus::Success => "✅",
            LintStatus::Warning => "⚠️",
            LintStatus::Error => "❌",
            LintStatus::NotAvailable => "⚠️",
            LintStatus::Skipped => "ℹ️",
        }
    }
}

/// One linter run, with the paths it needs.
#[derive(Debug)]
pub enum LintJob {
    /// `cargo clippy -- -W clippy::all` over the Rust project in the working directory.
    CargoClippy,
    /// The same, run in the given Cargo project root.
    CargoClippyIn { root: String },
    /// `npx eslint . --fix` over the Node.js project.
    Eslint,
    /// `npm run lint`, tried when eslint cannot be started.
    NpmRunLint,
    /// `flake8 .` over the Python project.
    Flake8,
    /// `flake8 <file>`.
    Flake8File { file: String },
}

pub enum LintJobView {
    CargoClippy,
    CargoClippyIn { root: Seq<char> },
    Eslint,
    NpmRunLint,
    Flake8,
    Flake8File { file: Seq<char> },
}

impl View for LintJob {
    type V = LintJobView;

    open spec fn view(&self) -> LintJobView {
        match self {
            LintJob::CargoClippy => LintJobView::CargoClippy,
            LintJob::CargoClippyIn { root } => LintJobView::CargoClippyIn { root: root@ },
            LintJob::Eslint => LintJobView::Eslint,
            LintJob::NpmRunLint => LintJobView::NpmRunLint,
            LintJob::Flake8 => LintJobView::Flake8,
            LintJob::Flake8File { file } => LintJobView::Flake8File { file: file@ },
        }
    }
}

/// What to do next: run a linter, or report a result.
#[derive(Debug)]
pub enum LintStep {
    Run(LintJob),
    Done(LintResult),
}

pub enum LintStepView {
    Run(LintJobView),
    Done(LintResultView),
}

impl View for LintStep {
    type V = LintStepView;

    open spec fn view(&self) -> LintStepView {
        match self {
            LintStep::Run(job) => LintStepView::Run(job@),
            LintStep::Done(result) => LintStepView::Done(result@),
        }
    }
}

pub open spec fn clippy_args() -> Seq<Seq<char>> {
    seq!["clippy"@, "--"@, "-W"@, "clippy::all"@]
}

/// The command that runs `job`.
pub open spec fn lint_command(job: LintJobView) -> ToolCommandView {
    match job {
        LintJobView::CargoClippy => ToolCommandView {
            program: "cargo"@,
            args: clippy_args(),
            current_dir: None,
        },
        LintJobView::CargoClippyIn { root } => ToolCommandView {
            program: "cargo"@,
            args: clippy_args(),
            current_dir: Some(root),
        },
        LintJobView::Eslint => ToolCommandView {
            program: "npx"@,
            args: seq!["eslint"@, "."@, "--fix"@],
            current_dir: None,
        },
        LintJobView::NpmRunLint => ToolCommandView {
            program: "npm"@,
            args: seq!["run"@, "lint"@],
            current_dir: None,
        },
        LintJobView::Flake8 => ToolCommandView {
            program: "flake8"@,
            args: seq!["."@],
            current_dir: None,
        },
        LintJobView::Flake8File { file } => ToolCommandView {
            program: "flake8"@,
            args: seq![file],
            current_dir: None,
        },
    }
}

pub open spec fn lint_done(tool: Seq<char>, status: LintStatus, message: Seq<char>) -> LintStepView {
    LintStepView::Done(lint_view(tool, status, message))
}

pub open spec fn lint_not_available(tool: Seq<char>) -> LintStepView {
    lint_done(tool, LintStatus::NotAvailable, tool + " is not available"@)
}

/// How clippy's failure reads: an error when the code did not compile, else a warning.
pub open spec fn clippy_failure(stderr: Seq<char>) -> LintStepView {
    if contains_seq(stderr, "could not compile"@) {
        lint_done("cargo clippy"@, LintStatus::Error, stderr)
    } else {
        lint_done("cargo clippy"@, LintStatus::Warning, stderr)
    }
}

/// What follows once `job` has run with `outcome`.
pub open spec fn lint_next(job: LintJobView, outcome: ToolOutcome) -> LintStepView {
    match job {
        LintJobView::CargoClippy | LintJobView::CargoClippyIn { .. } => match outcome {
            ToolOutcome::Succeeded => lint_done(
                "cargo clippy"@,
                LintStatus::Success,
                "No warnings found"@,
            ),
            ToolOutcome::Failed { stderr } => clippy_failure(stderr@),
            ToolOutcome::Unavailable { error } => lint_done(
                "cargo clippy"@,
                LintStatus::Error,
                error@,
            ),
        },
        LintJobView::Eslint => match outcome {
            ToolOutcome::Succeeded => lint_done("eslint"@, LintStatus::Success, "No issues found"@),
            ToolOutcome::Failed { stderr } => lint_done("eslint"@, LintStatus::Warning, stderr@),
            ToolOutcome::Unavailable { .. } => LintStepView::Run(LintJobView::NpmRunLint),
        },
        LintJobView::NpmRunLint => match outcome {
            ToolOutcome::Succeeded => lint_done(
                "npm run lint"@,
                LintStatus::Success,
                "No issues found"@,
            ),
            _ => lint_not_available("eslint or npm run lint"@),
        },
        LintJobView::Flake8 => match outcome {
            ToolOutcome::Succeeded => lint_done("flake8"@, LintStatus::Success, "No issues found"@),
            ToolOutcome::Failed { stderr } => lint_done("flake8"@, LintStatus::Warning, stderr@),
            ToolOutcome::Unavailable { .. } => lint_not_available("flake8"@),
        },
        LintJobView::Flake8File { file } => match outcome {
            ToolOutcome::Succeeded => lint_done(
                "flake8"@,
                LintStatus::Success,
                "No issues in: "@ + path_debug_text(file),
            ),
            ToolOutcome::Failed { stderr } => lint_done("flake8"@, LintStatus::Warning, stderr@),
            ToolOutcome::Unavailable { .. } => lint_not_available("flake8"@),
        },
    }
}

/// The first step of linting a whole project of kind `project`.
pub open spec fn lint_project_start(project: ProjectType) -> LintStepView {
    match project {
        ProjectType::Rust => LintStepView::Run(LintJobView::CargoClippy),
        ProjectType::NodeJs => LintStepView::Run(LintJobView::Eslint),
        ProjectType::Python => LintStepView::Run(LintJobView::Flake8),
        ProjectType::Unknown => lint_done(
            Seq::empty(),
            LintStatus::Skipped,
            "No recognized project type found"@,
        ),
    }
}

/// The first step of linting one edited file, chosen by its extension. A JavaScript or
/// TypeScript file is linted with its whole project.
pub open spec fn lint_file_start(file: EditedFile) -> LintStepView {
    if ext_is(file.extension, "rs"@) {
        match file.cargo_root {
            Some(root) => LintStepView::Run(LintJobView::CargoClippyIn { root: root@ }),
            None => lint_done(Seq::empty(), LintStatus::Skipped, "No Cargo.toml found"@),
        }
    } else if is_script_ext(file.extension) {
        LintStepView::Run(LintJobView::Eslint)
    } else if ext_is(file.extension, "py"@) {
        LintStepView::Run(LintJobView::Flake8File { file: file.path@ })
    } else {
        lint_done(
            Seq::empty(),
            LintStatus::Skipped,
            "Unsupported file type: "@ + path_debug_text(file.path@),
        )
    }
}

/// Picks and reads linters.
pub struct Linter;

impl Linter {
    /// The first step of linting the whole project, of kind `project`.
    pub fn run_all(project: ProjectType) -> (r: LintStep)
        ensures
            r@ == lint_project_start(project),
    {
        match project {
            ProjectType::Rust => Self::lint_rust(),
            ProjectType::NodeJs => LintStep::Run(LintJob::Eslint),
            ProjectType::Python => LintStep::Run(LintJob::Flake8),
            ProjectType::Unknown => LintStep::Done(
                LintResult::skipped("No recognized project type found"),
            ),
        }
    }

    /// The first step of linting the edited file `file`.
    pub fn lint_file(file: &EditedFile) -> (r: LintStep)
        ensures
            r@ == lint_file_start(*file),
    {
        if has_ext(&file.extension, "rs") {
            Self::lint_rust_file(file)
        } else if is_script(&file.extension) {
            Self::lint_js_file(file)
        } else if has_ext(&file.extension, "py") {
            LintStep::Run(LintJob::Flake8File { file: file.path.clone() })
        } else {
            let shown = path_debug(file.path.as_str());
            LintStep::Done(
                LintResult::skipped(join_text("Unsupported file type: ", shown.as_str()).as_str()),
            )
        }
    }

    fn lint_rust() -> (r: LintStep)
        ensures
            r@ == LintStepView::Run(LintJobView::CargoClippy),
    {
        LintStep::Run(LintJob::CargoClippy)
    }

    fn lint_rust_file(file: &EditedFile) -> (r: LintStep)
        ensures
            r@ == match file.cargo_root {
                Some(root) => LintStepView::Run(LintJobView::CargoClippyIn { root: root@ }),
                None => lint_done(Seq::empty(), LintStatus::Skipped, "No Cargo.toml found"@),
            },
    {
        match &file.cargo_root {
            Some(root) => LintStep::Run(LintJob::CargoClippyIn { root: root.clone() }),
            None => LintStep::Done(LintResult::skipped("No Cargo.toml found")),
        }
    }

    fn lint_js_file(_file: &EditedFile) -> (r: LintStep)
        ensures
            r@ == LintStepView::Run(LintJobView::Eslint),
    {
        LintStep::Run(LintJob::Eslint)
    }
}

impl LintJob {
    /// The command that runs this job.
    pub fn command(&self) -> (r: ToolCommand)
        ensures
            r@ == lint_command(self@),
    {
        let r = match self {
            LintJob::CargoClippy => command_of("cargo", &vec!["clippy", "--", "-W", "clippy::all"]),
            LintJob::CargoClippyIn { root } => {
                let mut c = command_of("cargo", &vec!["clippy", "--", "-W", "clippy::all"]);
                c.current_dir = Some(root.clone());
                c
            },
            LintJob::Eslint => command_of("npx", &vec!["eslint", ".", "--fix"]),
            LintJob::NpmRunLint => command_of("npm", &vec!["run", "lint"]),
            LintJob::Flake8 => command_of("flake8", &vec!["."]),
            LintJob::Flake8File { file } => command_with_file("flake8", &vec![], file),
        };
        assert(r@.args =~= lint_command(self@).args);
        r
    }

    /// What follows once this job has run with `outcome`.
    pub fn finish(&self, outcome: &ToolOutcome) -> (r: LintStep)
        ensures
            r@ == lint_next(self@, *outcome),
    {
        match self {
            LintJob::CargoClippy | LintJob::CargoClippyIn { .. } => match outcome {
                ToolOutcome::Succeeded => LintStep::Done(
                    LintResult::success("cargo clippy", "No warnings found"),
                ),
                ToolOutcome::Failed { stderr } => {
                    let text = to_chars(stderr.as_str());
                    if !contains_text(&text, "could not compile") {
                        LintStep::Done(LintResult::warning("cargo clippy", stderr.as_str()))
                    } else {
                        LintStep::Done(LintResult::error("cargo clippy", stderr.as_str()))
                    }
                },
                ToolOutcome::Unavailable { error } => LintStep::Done(
                    LintResult::error("cargo clippy", error.as_str()),
                ),
            },
            LintJob::Eslint => match outcome {
                ToolOutcome::Succeeded => LintStep::Done(
                    LintResult::success("eslint", "No issues found"),
                ),
                ToolOutcome::Failed { stderr } => LintStep::Done(
                    LintResult::warning("eslint", stderr.as_str()),
                ),
                ToolOutcome::Unavailable { .. } => LintStep::Run(LintJob::NpmRunLint),
            },
            LintJob::NpmRunLint => match outcome {
                ToolOutcome::Succeeded => LintStep::Done(
                    LintResult::success("npm run lint", "No issues found"),
                ),
                _ => LintStep::Done(LintResult::not_available("eslint or npm run lint")),
            },
            LintJob::Flake8 => match outcome {
                ToolOutcome::Succeeded => LintStep::Done(
                    LintResult::success("flake8", "No issues found"),
                ),
                ToolOutcome::Failed { stderr } => LintStep::Done(
                    LintResult::warning("flake8", stderr.as_str()),
                ),
                ToolOutcome::Unavailable { .. } => LintStep::Done(
                    LintResult::not_available("flake8"),
                ),
            },
            LintJob::Flake8File { file } => match outcome {
                ToolOutcome::Succeeded => {
                    let shown = path_debug(file.as_str());
                    LintStep::Done(
                        LintResult::success(
                            "flake8",
                            join_text("No issues in: ", shown.as_str()).as_str(),
                        ),
                    )
                },
                ToolOutcome::Failed { stderr } => LintStep::Done(
                    LintResult::warning("flake8", stderr.as_str()),
                ),
                ToolOutcome::Unavailable { .. } => LintStep::Done(
                    LintResult::not_available("flake8"),
                ),
            },
        }
    }
}

} // verus!
