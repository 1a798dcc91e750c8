//! Which formatter to run for a project or a file, and what its outcome means.
use vstd::prelude::*;

use super::{
    command_of, command_with_file, ext_is, has_ext, is_script, is_script_ext, path_debug,
    path_debug_text, unavailable_text,
    EditedFile, ToolCommand, ToolCommandView, ToolOutcome,
};
use crate::project::ProjectType;
use crate::text::{join_text, opt_text};

verus! {

#[derive(Debug, Clone, Copy, PartialEq, Eq, Structural)]
pub enum FormatStatus {
    Success,
    Error,
    NotAvailable,
    Skipped,
}

/// The result of one formatting run.
#[derive(Debug, Clone)]
pub struct FormatResult {
    pub tool: String,
    pub status: FormatStatus,
    pub message: String,
}

pub struct FormatResultView {
    pub tool: Seq<char>,
    pub status: FormatStatus,
    pub message: Seq<char>,
}

impl View for FormatResult {
    type V = FormatResultView;

    open spec fn view(&self) -> FormatResultView {
        FormatResultView { tool: self.tool@, status: self.status, message: self.message@ }
    }
}

pub open spec fn format_view(tool: Seq<char>, status: FormatStatus, message: Seq<char>) -> FormatResultView {
    FormatResultView { tool, status, message }
}

/// The result for a tool that could not be started.
pub open spec fn not_available_view(tool: Seq<char>) -> FormatResultView {
    format_view(tool, FormatStatus::NotAvailable, tool + " is not available"@)
}

/// The result for work that was not attempted.
pub open spec fn skipped_view(message: Seq<char>) -> FormatResultView {
    format_view(Seq::empty(), FormatStatus::Skipped, message)
}

impl FormatResult {
    pub fn success(tool: &str, message: &str) -> (r: Self)
        ensures
            r@ == format_view(tool@, FormatStatus::Success, message@),
    {
        FormatResult {
            tool: String::from_str(tool),
            status: FormatStatus::Success,
            message: String::from_str(message),
        }
    }

    pub fn error(tool: &str, message: &str) -> (r: Self)
        ensures
            r@ == format_view(tool@, FormatStatus::Error, message@),
    {
        FormatResult {
            tool: String::from_str(tool),
            status: FormatStatus::Error,
            message: String::from_str(message),
        }
    }

    pub fn not_available(tool: &str) -> (r: Self)
        ensures
            r@ == not_available_view(tool@),
    {
        FormatResult {
            tool: String::from_str(tool),
            status: FormatStatus::NotAvailable,
            message: join_text(tool, " is not available"),
        }
    }

    pub fn skipped(message: &str) -> (r: Self)
        ensures
            r@ == skipped_view(message@),
    {
        FormatResult {
            tool: String::new(),
            status: FormatStatus::Skipped,
            message: String::from_str(message),
        }
    }

    pub fn emoji(&self) -> (r: &'static str)
        ensures
            r@ == match self.status {
                FormatStatus::Success => "✅"@,
                FormatStatus::Error => "❌"@,
                FormatStatus::NotAvailable => "⚠️"@,
                FormatStatus::Skipped => "ℹ️"@,
            },
    {
        match self.status {
            FormatStatus::Success => "✅",
            FormatStatus::Error => "❌",
            FormatStatus::NotAvailable => "⚠️",
            FormatStatus::Skipped => "ℹ️",
        }
    }
}

/// One formatter run, with the paths it needs.
#[derive(Debug)]
pub enum FormatJob {
    /// `cargo fmt` over the Rust project in the working directory.
    CargoFmt,
    /// `cargo fmt -- <file>`, run in the file's Cargo project root.
    CargoFmtFile { file: String, root: String },
    /// `rustfmt <file>`, for a Rust file outside any Cargo project.
    Rustfmt { file: String },
    /// `npx prettier --write .` over the Node.js project.
    Prettier,
    /// `npm run format`, tried when prettier cannot be started.
    NpmRunFormat,
    /// `npx prettier --write <file>`.
    PrettierFile { file: String },
    /// `black .` over the Python project.
    Black,
    /// `black <file>`.
    BlackFile { file: String },
}

pub enum FormatJobView {
    CargoFmt,
    CargoFmtFile { file: Seq<char>, root: Seq<char> },
    Rustfmt { file: Seq<char> },
    Prettier,
    NpmRunFormat,
    PrettierFile { file: Seq<char> },
    Black,
    BlackFile { file: Seq<char> },
}

impl View for FormatJob {
    type V = FormatJobView;

    open spec fn view(&self) -> FormatJobView {
        match self {
            FormatJob::CargoFmt => FormatJobView::CargoFmt,
            FormatJob::CargoFmtFile { file, root } => FormatJobView::CargoFmtFile {
                file: file@,
                root: root@,
            },
            FormatJob::Rustfmt { file } => FormatJobView::Rustfmt { file: file@ },
            FormatJob::Prettier => FormatJobView::Prettier,
            FormatJob::NpmRunFormat => FormatJobView::NpmRunFormat,
            FormatJob::PrettierFile { file } => FormatJobView::PrettierFile { file: file@ },
            FormatJob::Black => FormatJobView::Black,
            FormatJob::BlackFile { file } => FormatJobView::BlackFile { file: file@ },
        }
    }
}

/// What to do next: run a formatter, or report a result.
#[derive(Debug)]
pub enum FormatStep {
    Run(FormatJob),
    Done(FormatResult),
}

pub enum FormatStepView {
    Run(FormatJobView),
    Done(FormatResultView),
}

impl View for FormatStep {
    type V = FormatStepView;

    open spec fn view(&self) -> FormatStepView {
        match self {
            FormatStep::Run(job) => FormatStepView::Run(job@),
            FormatStep::Done(result) => FormatStepView::Done(result@),
        }
    }
}

pub open spec fn command_view(program: Seq<char>, args: Seq<Seq<char>>, dir: Option<Seq<char>>) -> ToolCommandView {
    ToolCommandView { program, args, current_dir: dir }
}

/// The command that runs `job`.
pub open spec fn format_command(job: FormatJobView) -> ToolCommandView {
    match job {
        FormatJobView::CargoFmt => command_view("cargo"@, seq!["fmt"@], None),
        FormatJobView::CargoFmtFile { file, root } => command_view(
            "cargo"@,
            seq!["fmt"@, "--"@, file],
            Some(root),
        ),
        FormatJobView::Rustfmt { file } => command_view("rustfmt"@, seq![file], None),
        FormatJobView::Prettier => command_view("npx"@, seq!["prettier"@, "--write"@, "."@], None),
        FormatJobView::NpmRunFormat => command_view("npm"@, seq!["run"@, "format"@], None),
        FormatJobView::PrettierFile { file } => command_view(
            "npx"@,
            seq!["prettier"@, "--write"@, file],
            None,
        ),
        FormatJobView::Black => command_view("black"@, seq!["."@], None),
        FormatJobView::BlackFile { file } => command_view("black"@, seq![file], None),
    }
}

pub open spec fn done(tool: Seq<char>, status: FormatStatus, message: Seq<char>) -> FormatStepView {
    FormatStepView::Done(format_view(tool, status, message))
}

/// The usual reading of an outcome: success, an error carrying what the tool reported, or
/// `unavailable` when it could not be started.
pub open spec fn read_outcome(
    tool: Seq<char>,
    success_message: Seq<char>,
    outcome: ToolOutcome,
    unavailable: FormatStepView,
) -> FormatStepView {
    match outcome {
        ToolOutcome::Succeeded => done(tool, FormatStatus::Success, success_message),
        ToolOutcome::Failed { stderr } => done(tool, FormatStatus::Error, stderr@),
        ToolOutcome::Unavailable { error } => unavailable,
    }
}

/// What follows once `job` has run with `outcome`.
pub open spec fn format_next(job: FormatJobView, outcome: ToolOutcome) -> FormatStepView {
    let error_text = unavailable_text(outcome);
    match job {
        FormatJobView::CargoFmt => read_outcome(
            "cargo fmt"@,
            "Rust project formatted"@,
            outcome,
            done("cargo fmt"@, FormatStatus::Error, error_text),
        ),
        FormatJobView::CargoFmtFile { file, root } => read_outcome(
            "cargo fmt"@,
            "Formatted: "@ + path_debug_text(file),
            outcome,
            done("cargo fmt"@, FormatStatus::Error, error_text),
        ),
        FormatJobView::Rustfmt { file } => read_outcome(
            "rustfmt"@,
            "Formatted: "@ + path_debug_text(file),
            outcome,
            FormatStepView::Done(not_available_view("rustfmt"@)),
        ),
        FormatJobView::Prettier => read_outcome(
            "prettier"@,
            "Formatted with prettier"@,
            outcome,
            FormatStepView::Run(FormatJobView::NpmRunFormat),
        ),
        FormatJobView::NpmRunFormat => match outcome {
            ToolOutcome::Succeeded => done("npm run format"@, FormatStatus::Success, "Formatted"@),
            _ => FormatStepView::Done(not_available_view("prettier or npm run format"@)),
        },
        FormatJobView::PrettierFile { file } => read_outcome(
            "prettier"@,
            "Formatted with prettier: "@ + path_debug_text(file),
            outcome,
            FormatStepView::Done(not_available_view("prettier"@)),
        ),
        FormatJobView::Black => read_outcome(
            "black"@,
            "Python project formatted"@,
            outcome,
            FormatStepView::Done(not_available_view("black"@)),
        ),
        FormatJobView::BlackFile { file } => read_outcome(
            "black"@,
            "Formatted: "@ + path_debug_text(file),
            outcome,
            FormatStepView::Done(not_available_view("black"@)),
        ),
    }
}

/// The first step of formatting a whole project of kind `project`.
pub open spec fn format_project_start(project: ProjectType) -> FormatStepView {
    match project {
        ProjectType::Rust => FormatStepView::Run(FormatJobView::CargoFmt),
        ProjectType::NodeJs => FormatStepView::Run(FormatJobView::Prettier),
        ProjectType::Python => FormatStepView::Run(FormatJobView::Black),
        ProjectType::Unknown => FormatStepView::Done(
            skipped_view("No recognized project type found"@),
        ),
    }
}

/// The first step of formatting one edited file, chosen by its extension.
pub open spec fn format_file_start(file: EditedFile) -> FormatStepView {
    if ext_is(file.extension, "rs"@) {
        match file.cargo_root {
            Some(root) => FormatStepView::Run(
                FormatJobView::CargoFmtFile { file: file.path@, root: root@ },
            ),
            None => FormatStepView::Run(FormatJobView::Rustfmt { file: file.path@ }),
        }
    } else if is_script_ext(file.extension) {
        FormatStepView::Run(FormatJobView::PrettierFile { file: file.path@ })
    } else if ext_is(file.extension, "py"@) {
        FormatStepView::Run(FormatJobView::BlackFile { file: file.path@ })
    } else {
        FormatStepView::Done(skipped_view("Unsupported file type: "@ + path_debug_text(file.path@)))
    }
}

/// Picks and reads formatters.
pub struct Formatter;

impl Formatter {
    /// The first step of formatting the whole project, of kind `project`.
    pub fn run_all(project: ProjectType) -> (r: FormatStep)
        ensures
            r@ == format_project_start(project),
    {
        match project {
            ProjectType::Rust => FormatStep::Run(FormatJob::CargoFmt),
            ProjectType::NodeJs => FormatStep::Run(FormatJob::Prettier),
            ProjectType::Python => FormatStep::Run(FormatJob::Black),
            ProjectType::Unknown => FormatStep::Done(
                FormatResult::skipped("No recognized project type found"),
            ),
        }
    }

    /// The first step of formatting the edited file `file`.
    pub fn format_file(file: &EditedFile) -> (r: FormatStep)
        ensures
            r@ == format_file_start(*file),
    {
        if has_ext(&file.extension, "rs") {
            Self::format_rust_file(file)
        } else if is_script(&file.extension) {
            FormatStep::Run(FormatJob::PrettierFile { file: file.path.clone() })
        } else if has_ext(&file.extension, "py") {
            FormatStep::Run(FormatJob::BlackFile { file: file.path.clone() })
        } else {
            let shown = path_debug(file.path.as_str());
            FormatStep::Done(
                FormatResult::skipped(join_text("Unsupported file type: ", shown.as_str()).as_str()),
            )
        }
    }

    fn format_rust_file(file: &EditedFile) -> (r: FormatStep)
        ensures
            r@ == match file.cargo_root {
                Some(root) => FormatStepView::Run(
                    FormatJobView::CargoFmtFile { file: file.path@, root: root@ },
                ),
                None => FormatStepView::Run(FormatJobView::Rustfmt { file: file.path@ }),
            },
    {
        match &file.cargo_root {
            Some(root) => FormatStep::Run(
                FormatJob::CargoFmtFile { file: file.path.clone(), root: root.clone() },
            ),
            None => FormatStep::Run(FormatJob::Rustfmt { file: file.path.clone() }),
        }
    }
}

/// The usual reading of an outcome, as `read_outcome` states it.
fn read(tool: &str, success_message: &str, outcome: &ToolOutcome, unavailable: FormatStep) -> (r:
    FormatStep)
    ensures
        r@ == read_outcome(tool@, success_message@, *outcome, unavailable@),
{
    match outcome {
        ToolOutcome::Succeeded => FormatStep::Done(FormatResult::success(tool, success_message)),
        ToolOutcome::Failed { stderr } => FormatStep::Done(FormatResult::error(tool, stderr.as_str())),
        ToolOutcome::Unavailable { .. } => unavailable,
    }
}

fn unavailable_error(tool: &str, outcome: &ToolOutcome) -> (r: FormatStep)
    ensures
        r@ == done(
            tool@,
            FormatStatus::Error,
            unavailable_text(*outcome),
        ),
{
    match outcome {
        ToolOutcome::Unavailable { error } => {
            FormatStep::Done(FormatResult::error(tool, error.as_str()))
        },
        _ => {
            proof {
                reveal_strlit("");
                assert(""@ =~= Seq::<char>::empty());
            }
            FormatStep::Done(FormatResult::error(tool, ""))
        },
    }
}

impl FormatJob {
    /// The command that runs this job.
    pub fn command(&self) -> (r: ToolCommand)
        ensures
            r@ == format_command(self@),
    {
        let r = match self {
            FormatJob::CargoFmt => command_of("cargo", &vec!["fmt"]),
            FormatJob::CargoFmtFile { file, root } => {
                let mut c = command_with_file("cargo", &vec!["fmt", "--"], file);
                c.current_dir = Some(root.clone());
                c
            },
            FormatJob::Rustfmt { file } => command_with_file("rustfmt", &vec![], file),
            FormatJob::Prettier => command_of("npx", &vec!["prettier", "--write", "."]),
            FormatJob::NpmRunFormat => command_of("npm", &vec!["run", "format"]),
            FormatJob::PrettierFile { file } => command_with_file(
                "npx",
                &vec!["prettier", "--write"],
                file,
            ),
            FormatJob::Black => command_of("black", &vec!["."]),
            FormatJob::BlackFile { file } => command_with_file("black", &vec![], file),
        };
        assert(r@.args =~= format_command(self@).args);
        r
    }

    /// What follows once this job has run with `outcome`.
    pub fn finish(&self, outcome: &ToolOutcome) -> (r: FormatStep)
        ensures
            r@ == format_next(self@, *outcome),
    {
        match self {
            FormatJob::CargoFmt => read(
                "cargo fmt",
                "Rust project formatted",
                outcome,
                unavailable_error("cargo fmt", outcome),
            ),
            FormatJob::CargoFmtFile { file, .. } => {
                let shown = path_debug(file.as_str());
                read(
                    "cargo fmt",
                    join_text("Formatted: ", shown.as_str()).as_str(),
                    outcome,
                    unavailable_error("cargo fmt", outcome),
                )
            },
            FormatJob::Rustfmt { file } => {
                let shown = path_debug(file.as_str());
                read(
                    "rustfmt",
                    join_text("Formatted: ", shown.as_str()).as_str(),
                    outcome,
                    FormatStep::Done(FormatResult::not_available("rustfmt")),
                )
            },
            FormatJob::Prettier => read(
                "prettier",
                "Formatted with prettier",
                outcome,
                FormatStep::Run(FormatJob::NpmRunFormat),
            ),
            FormatJob::NpmRunFormat => match outcome {
                ToolOutcome::Succeeded => FormatStep::Done(
                    FormatResult::success("npm run format", "Formatted"),
                ),
                _ => FormatStep::Done(FormatResult::not_available("prettier or npm run format")),
            },
            FormatJob::PrettierFile { file } => {
                let shown = path_debug(file.as_str());
                read(
                    "prettier",
                    join_text("Formatted with prettier: ", shown.as_str()).as_str(),
                    outcome,
                    FormatStep::Done(FormatResult::not_available("prettier")),
                )
            },
            FormatJob::Black => read(
                "black",
                "Python project formatted",
                outcome,
                FormatStep::Done(FormatResult::not_available("black")),
            ),
            FormatJob::BlackFile { file } => {
                let shown = path_debug(file.as_str());
                read(
                    "black",
                    join_text("Formatted: ", shown.as_str()).as_str(),
                    outcome,
                    FormatStep::Done(FormatResult::not_available("black")),
                )
            },
        }
    }
}

} // verus!
