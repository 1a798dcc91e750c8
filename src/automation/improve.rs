//! The all-in-one pass after an edit: format and lint every kind of project found, and sum
//! the outcomes up in one report.
use vstd::prelude::*;

use super::{command_of, ToolCommand, ToolCommandView, ToolOutcome};
use crate::project::string_contains;
use crate::text::{join_text, starts_with_seq, starts_with_text, string_texts, word_texts};

verus! {

/// One tool run of the pass.
#[derive(Debug, Clone, Copy, PartialEq, Eq, Structural)]
pub enum ImproveJob {
    CargoFmt,
    CargoClippy,
    Prettier,
    NpmRunFormat,
    Eslint,
    NpmRunLint,
    Black,
    Flake8,
}

/// What follows a run: another run, or a line for the report (or none).
#[derive(Debug)]
pub enum ImproveStep {
    Run(ImproveJob),
    Report(Option<String>),
}

pub enum ImproveStepView {
    Run(ImproveJob),
    Report(Option<Seq<char>>),
}

impl View for ImproveStep {
    type V = ImproveStepView;

    open spec fn view(&self) -> ImproveStepView {
        match self {
            ImproveStep::Run(job) => ImproveStepView::Run(*job),
            ImproveStep::Report(Some(line)) => ImproveStepView::Report(Some(line@)),
            ImproveStep::Report(None) => ImproveStepView::Report(None),
        }
    }
}

/// The runs that start the pass, for the marker files `present`: Rust, then Node.js, then
/// Python, each formatted before it is linted.
pub open spec fn improvement_plan(present: Seq<Seq<char>>) -> Seq<ImproveJob> {
    (if present.contains("Cargo.toml"@) {
        seq![ImproveJob::CargoFmt, ImproveJob::CargoClippy]
    } else {
        Seq::empty()
    }) + (if present.contains("package.json"@) {
        seq![ImproveJob::Prettier, ImproveJob::Eslint]
    } else {
        Seq::empty()
    }) + (if present.contains("requirements.txt"@) || present.contains("pyproject.toml"@) {
        seq![ImproveJob::Black, ImproveJob::Flake8]
    } else {
        Seq::empty()
    })
}

/// The command that runs `job`.
pub open spec fn improve_command(job: ImproveJob) -> ToolCommandView {
    let (program, args) = match job {
        ImproveJob::CargoFmt => ("cargo"@, seq!["fmt"@]),
        ImproveJob::CargoClippy => ("cargo"@, seq!["clippy"@, "--"@, "-D"@, "warnings"@]),
        ImproveJob::Prettier => ("npx"@, seq!["prettier"@, "--write"@, "."@]),
        ImproveJob::NpmRunFormat => ("npm"@, seq!["run"@, "format"@]),
        ImproveJob::Eslint => ("npx"@, seq!["eslint"@, "."@, "--fix"@]),
        ImproveJob::NpmRunLint => ("npm"@, seq!["run"@, "lint"@]),
        ImproveJob::Black => ("black"@, seq!["."@]),
        ImproveJob::Flake8 => ("flake8"@, seq!["."@]),
    };
    ToolCommandView { program, args, current_dir: None }
}

pub open spec fn line(text: Seq<char>) -> ImproveStepView {
    ImproveStepView::Report(Some(text))
}

/// The usual reading: a line on success, `failure` followed by what the tool reported on
/// failure, and `unavailable` when the tool could not be started.
pub open spec fn read_run(
    outcome: ToolOutcome,
    success: Seq<char>,
    failure: Seq<char>,
    unavailable: ImproveStepView,
) -> ImproveStepView {
    match outcome {
        ToolOutcome::Succeeded => line(success),
        ToolOutcome::Failed { stderr } => line(failure + stderr@),
        ToolOutcome::Unavailable { .. } => unavailable,
    }
}

/// What follows once `job` has run with `outcome`.
pub open spec fn improve_next(job: ImproveJob, outcome: ToolOutcome) -> ImproveStepView {
    let error = match outcome {
        ToolOutcome::Unavailable { error } => error@,
        _ => Seq::empty(),
    };
    match job {
        ImproveJob::CargoFmt => read_run(
            outcome,
            "✅ cargo fmt 完了"@,
            "❌ cargo fmt エラー: "@,
            line("❌ cargo fmt 実行エラー: "@ + error),
        ),
        ImproveJob::CargoClippy => read_run(
            outcome,
            "✅ cargo clippy 完了"@,
            "⚠️ cargo clippy 警告/エラー: "@,
            line("❌ cargo clippy 実行エラー: "@ + error),
        ),
        ImproveJob::Prettier => read_run(
            outcome,
            "✅ prettier フォーマット完了"@,
            "❌ prettier エラー: "@,
            ImproveStepView::Run(ImproveJob::NpmRunFormat),
        ),
        ImproveJob::NpmRunFormat => match outcome {
            ToolOutcome::Succeeded => line("✅ npm run format 完了"@),
            ToolOutcome::Failed { .. } => ImproveStepView::Report(None),
            ToolOutcome::Unavailable { .. } => line(
                "⚠️ prettier または npm run format が見つかりません"@,
            ),
        },
        ImproveJob::Eslint => read_run(
            outcome,
            "✅ eslint 完了"@,
            "⚠️ eslint 警告/エラー: "@,
            ImproveStepView::Run(ImproveJob::NpmRunLint),
        ),
        ImproveJob::NpmRunLint => match outcome {
            ToolOutcome::Succeeded => line("✅ npm run lint 完了"@),
            ToolOutcome::Failed { .. } => ImproveStepView::Report(None),
            ToolOutcome::Unavailable { .. } => line("⚠️ eslint または npm run lint が見つかりません"@),
        },
        ImproveJob::Black => read_run(
            outcome,
            "✅ black フォーマット完了"@,
            "❌ black エラー: "@,
            line("⚠️ black が見つかりません"@),
        ),
        ImproveJob::Flake8 => read_run(
            outcome,
            "✅ flake8 完了"@,
            "⚠️ flake8 警告/エラー: "@,
            line("⚠️ flake8 が見つかりません"@),
        ),
    }
}

/// The report lines joined by line breaks.
pub open spec fn join_lines(lines: Seq<Seq<char>>) -> Seq<char>
    decreases lines.len(),
{
    if lines.len() == 0 {
        Seq::empty()
    } else if lines.len() == 1 {
        lines[0]
    } else {
        join_lines(lines.drop_last()) + "\n"@ + lines.last()
    }
}

/// Whether a report line tells of a failure.
pub open spec fn is_failure_line(text: Seq<char>) -> bool {
    starts_with_seq(text, "❌"@)
}

/// The runs that start the pass, for `present`, the names of the files found in the working
/// directory.
pub fn improvement_jobs(present: &Vec<String>) -> (r: Vec<ImproveJob>)
    ensures
        r@ == improvement_plan(string_texts(present@)),
{
    let mut jobs: Vec<ImproveJob> = Vec::new();
    if string_contains(present, "Cargo.toml") {
        jobs.push(ImproveJob::CargoFmt);
        jobs.push(ImproveJob::CargoClippy);
    }
    if string_contains(present, "package.json") {
        jobs.push(ImproveJob::Prettier);
        jobs.push(ImproveJob::Eslint);
    }
    if string_contains(present, "requirements.txt") || string_contains(present, "pyproject.toml") {
        jobs.push(ImproveJob::Black);
        jobs.push(ImproveJob::Flake8);
    }
    assert(jobs@ =~= improvement_plan(string_texts(present@)));
    jobs
}

fn report_line(outcome: &ToolOutcome, success: &str, failure: &str, unavailable: ImproveStep) -> (r:
    ImproveStep)
    ensures
        r@ == read_run(*outcome, success@, failure@, unavailable@),
{
    match outcome {
        ToolOutcome::Succeeded => ImproveStep::Report(Some(String::from_str(success))),
        ToolOutcome::Failed { stderr } => ImproveStep::Report(
            Some(join_text(failure, stderr.as_str())),
        ),
        ToolOutcome::Unavailable { .. } => unavailable,
    }
}

fn start_error(outcome: &ToolOutcome, prefix: &str) -> (r: ImproveStep)
    ensures
        r@ == line(
            prefix@ + match *outcome {
                ToolOutcome::Unavailable { error } => error@,
                _ => Seq::empty(),
            },
        ),
{
    match outcome {
        ToolOutcome::Unavailable { error } => ImproveStep::Report(
            Some(join_text(prefix, error.as_str())),
        ),
        _ => {
            proof {
                reveal_strlit("");
                assert(""@ =~= Seq::<char>::empty());
                assert(prefix@ + ""@ =~= prefix@);
            }
            ImproveStep::Report(Some(join_text(prefix, "")))
        },
    }
}

impl ImproveJob {
    /// The command that runs this job.
    pub fn command(&self) -> (r: ToolCommand)
        ensures
            r@ == improve_command(*self),
    {
        let r = match self {
            ImproveJob::CargoFmt => command_of("cargo", &vec!["fmt"]),
            ImproveJob::CargoClippy => command_of("cargo", &vec!["clippy", "--", "-D", "warnings"]),
            ImproveJob::Prettier => command_of("npx", &vec!["prettier", "--write", "."]),
            ImproveJob::NpmRunFormat => command_of("npm", &vec!["run", "format"]),
            ImproveJob::Eslint => command_of("npx", &vec!["eslint", ".", "--fix"]),
            ImproveJob::NpmRunLint => command_of("npm", &vec!["run", "lint"]),
            ImproveJob::Black => command_of("black", &vec!["."]),
            ImproveJob::Flake8 => command_of("flake8", &vec!["."]),
        };
        assert(r@.args =~= improve_command(*self).args);
        r
    }

    /// What follows once this job has run with `outcome`.
    pub fn finish(&self, outcome: &ToolOutcome) -> (r: ImproveStep)
        ensures
            r@ == improve_next(*self, *outcome),
    {
        match self {
            ImproveJob::CargoFmt => report_line(
                outcome,
                "✅ cargo fmt 完了",
                "❌ cargo fmt エラー: ",
                start_error(outcome, "❌ cargo fmt 実行エラー: "),
            ),
            ImproveJob::CargoClippy => report_line(
                outcome,
                "✅ cargo clippy 完了",
                "⚠️ cargo clippy 警告/エラー: ",
                start_error(outcome, "❌ cargo clippy 実行エラー: "),
            ),
            ImproveJob::Prettier => report_line(
                outcome,
                "✅ prettier フォーマット完了",
                "❌ prettier エラー: ",
                ImproveStep::Run(ImproveJob::NpmRunFormat),
            ),
            ImproveJob::NpmRunFormat => match outcome {
                ToolOutcome::Succeeded => ImproveStep::Report(
                    Some(String::from_str("✅ npm run format 完了")),
                ),
                ToolOutcome::Failed { .. } => ImproveStep::Report(None),
                ToolOutcome::Unavailable { .. } => ImproveStep::Report(
                    Some(String::from_str("⚠️ prettier または npm run format が見つかりません")),
                ),
            },
            ImproveJob::Eslint => report_line(
                outcome,
                "✅ eslint 完了",
                "⚠️ eslint 警告/エラー: ",
                ImproveStep::Run(ImproveJob::NpmRunLint),
            ),
            ImproveJob::NpmRunLint => match outcome {
                ToolOutcome::Succeeded => ImproveStep::Report(
                    Some(String::from_str("✅ npm run lint 完了")),
                ),
                ToolOutcome::Failed { .. } => ImproveStep::Report(None),
                ToolOutcome::Unavailable { .. } => ImproveStep::Report(
                    Some(String::from_str("⚠️ eslint または npm run lint が見つかりません")),
                ),
            },
            ImproveJob::Black => report_line(
                outcome,
                "✅ black フォーマット完了",
                "❌ black エラー: ",
                ImproveStep::Report(Some(String::from_str("⚠️ black が見つかりません"))),
            ),
            ImproveJob::Flake8 => report_line(
                outcome,
                "✅ flake8 完了",
                "⚠️ flake8 警告/エラー: ",
                ImproveStep::Report(Some(String::from_str("⚠️ flake8 が見つかりません"))),
            ),
        }
    }
}

/// The report of the pass: its lines joined by line breaks, as `Err` when one of them tells
/// of a failure and as `Ok` otherwise.
pub fn summarize_improvements(lines: &Vec<String>) -> (r: Result<String, String>)
    ensures
        r matches Ok(s) ==> s@ == join_lines(string_texts(lines@)),
        r matches Err(s) ==> s@ == join_lines(string_texts(lines@)),
        r is Err <==> exists|i: int|
            0 <= i < lines.len() && is_failure_line(#[trigger] string_texts(lines@)[i]),
{
    let ghost texts = string_texts(lines@);
    let mut summary = String::new();
    let mut failed = false;
    let mut i: usize = 0;
    while i < lines.len()
        invariant
            i <= lines.len(),
            texts == string_texts(lines@),
            summary@ == join_lines(texts.take(i as int)),
            failed <==> exists|k: int| 0 <= k < i && is_failure_line(#[trigger] texts[k]),
        decreases lines.len() - i,
    {
        if i > 0 {
            summary.append("\n");
        }
        summary.append(lines[i].as_str());
        assert(texts.take(i + 1).drop_last() =~= texts.take(i as int));
        assert(texts[i as int] == lines@[i as int]@);
        proof {
            if i == 0 {
                reveal_strlit("");
                assert(texts.take(1) =~= seq![texts[0]]);
                assert(summary@ =~= join_lines(texts.take(1)));
            }
        }
        if starts_with_text(lines[i].as_str(), "❌") {
            failed = true;
        }
        i = i + 1;
    }
    assert(texts.take(i as int) =~= texts);
    if failed {
        Err(summary)
    } else {
        Ok(summary)
    }
}

} // verus!
