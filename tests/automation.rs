use hook_guard::automation::formatter::{FormatJob, FormatResult, FormatStatus, FormatStep, Formatter};
use hook_guard::automation::linter::{LintJob, LintResult, LintStatus, LintStep, Linter};
use hook_guard::automation::{EditedFile, ToolOutcome};
use hook_guard::project::{
    check_language_files_exist, find_cargo_project_root, project_marker_files, ProjectType,
};

fn names(v: &[&str]) -> Vec<String> {
    v.iter().map(|s| s.to_string()).collect()
}

fn file(path: &str, ext: Option<&str>, root: Option<&str>) -> EditedFile {
    EditedFile {
        path: path.to_string(),
        extension: ext.map(|e| e.to_string()),
        cargo_root: root.map(|r| r.to_string()),
    }
}

fn failed(s: &str) -> ToolOutcome {
    ToolOutcome::Failed { stderr: s.to_string() }
}

fn unavailable(s: &str) -> ToolOutcome {
    ToolOutcome::Unavailable { error: s.to_string() }
}

fn format_done(step: FormatStep) -> FormatResult {
    match step {
        FormatStep::Done(r) => r,
        FormatStep::Run(job) => panic!("expected a result, got {:?}", job),
    }
}

fn lint_done(step: LintStep) -> LintResult {
    match step {
        LintStep::Done(r) => r,
        LintStep::Run(job) => panic!("expected a result, got {:?}", job),
    }
}

#[test]
fn project_type_follows_marker_priority() {
    assert_eq!(ProjectType::detect(&names(&["Cargo.toml", "package.json"])), ProjectType::Rust);
    assert_eq!(ProjectType::detect(&names(&["package.json", "pyproject.toml"])), ProjectType::NodeJs);
    assert_eq!(ProjectType::detect(&names(&["pyproject.toml"])), ProjectType::Python);
    assert_eq!(ProjectType::detect(&names(&["requirements.txt"])), ProjectType::Python);
    assert_eq!(ProjectType::detect(&names(&["go.mod"])), ProjectType::Unknown);
    assert_eq!(ProjectType::detect(&names(&[])), ProjectType::Unknown);
}

#[test]
fn language_files_are_recognized() {
    assert!(check_language_files_exist(&names(&["README.md", "go.mod"])));
    assert!(check_language_files_exist(&names(&["composer.json"])));
    assert!(!check_language_files_exist(&names(&["README.md", "cargo.toml"])));
    assert!(!check_language_files_exist(&names(&[])));
    assert_eq!(project_marker_files().len(), 10);
}

#[test]
fn nearest_cargo_root_is_chosen() {
    let dirs = vec![
        ("/w/app/src".to_string(), false),
        ("/w/app".to_string(), true),
        ("/w".to_string(), true),
    ];
    assert_eq!(find_cargo_project_root(&dirs), Some("/w/app".to_string()));
    let none = vec![("/w/src".to_string(), false), ("/".to_string(), false)];
    assert_eq!(find_cargo_project_root(&none), None);
    assert_eq!(find_cargo_project_root(&vec![]), None);
}

#[test]
fn format_results_carry_their_fields() {
    let r = FormatResult::not_available("black");
    assert_eq!(r.tool, "black");
    assert_eq!(r.status, FormatStatus::NotAvailable);
    assert_eq!(r.message, "black is not available");
    assert_eq!(r.emoji(), "⚠️");
    let r = FormatResult::skipped("nothing to do");
    assert_eq!(r.tool, "");
    assert_eq!(r.status, FormatStatus::Skipped);
    assert_eq!(r.emoji(), "ℹ️");
    assert_eq!(FormatResult::success("a", "b").emoji(), "✅");
    assert_eq!(FormatResult::error("a", "b").emoji(), "❌");
}

#[test]
fn lint_results_carry_their_fields() {
    let r = LintResult::not_available("flake8");
    assert_eq!(r.message, "flake8 is not available");
    assert_eq!(r.status, LintStatus::NotAvailable);
    assert_eq!(LintResult::warning("x", "y").emoji(), "⚠️");
    assert_eq!(LintResult::error("x", "y").emoji(), "❌");
    assert_eq!(LintResult::success("x", "y").emoji(), "✅");
    assert_eq!(LintResult::skipped("y").emoji(), "ℹ️");
    assert_eq!(LintResult::skipped("y").tool, "");
}

#[test]
fn project_formatting_starts_by_type() {
    assert!(matches!(Formatter::run_all(ProjectType::Rust), FormatStep::Run(FormatJob::CargoFmt)));
    assert!(matches!(Formatter::run_all(ProjectType::NodeJs), FormatStep::Run(FormatJob::Prettier)));
    assert!(matches!(Formatter::run_all(ProjectType::Python), FormatStep::Run(FormatJob::Black)));
    let r = format_done(Formatter::run_all(ProjectType::Unknown));
    assert_eq!(r.status, FormatStatus::Skipped);
    assert_eq!(r.message, "No recognized project type found");
}

#[test]
fn cargo_fmt_command_and_outcomes() {
    let c = FormatJob::CargoFmt.command();
    assert_eq!(c.program, "cargo");
    assert_eq!(c.args, vec!["fmt".to_string()]);
    assert_eq!(c.current_dir, None);
    let r = format_done(FormatJob::CargoFmt.finish(&ToolOutcome::Succeeded));
    assert_eq!((r.tool.as_str(), r.status, r.message.as_str()), ("cargo fmt", FormatStatus::Success, "Rust project formatted"));
    let r = format_done(FormatJob::CargoFmt.finish(&failed("bad syntax")));
    assert_eq!((r.status, r.message.as_str()), (FormatStatus::Error, "bad syntax"));
    let r = format_done(FormatJob::CargoFmt.finish(&unavailable("not found")));
    assert_eq!((r.status, r.message.as_str()), (FormatStatus::Error, "not found"));
}

#[test]
fn rust_file_is_formatted_in_its_project() {
    let f = file("/w/app/src/main.rs", Some("rs"), Some("/w/app"));
    let job = match Formatter::format_file(&f) {
        FormatStep::Run(job) => job,
        FormatStep::Done(r) => panic!("unexpected {:?}", r),
    };
    let c = job.command();
    assert_eq!(c.program, "cargo");
    assert_eq!(c.args, vec!["fmt".to_string(), "--".to_string(), "/w/app/src/main.rs".to_string()]);
    assert_eq!(c.current_dir, Some("/w/app".to_string()));
    let r = format_done(job.finish(&ToolOutcome::Succeeded));
    assert_eq!(r.message, "Formatted: \"/w/app/src/main.rs\"");
}

#[test]
fn lone_rust_file_uses_rustfmt() {
    let f = file("/tmp/x.rs", Some("rs"), None);
    let job = match Formatter::format_file(&f) {
        FormatStep::Run(job) => job,
        FormatStep::Done(r) => panic!("unexpected {:?}", r),
    };
    assert_eq!(job.command().program, "rustfmt");
    assert_eq!(job.command().args, vec!["/tmp/x.rs".to_string()]);
    let r = format_done(job.finish(&unavailable("No such file")));
    assert_eq!((r.tool.as_str(), r.status, r.message.as_str()), ("rustfmt", FormatStatus::NotAvailable, "rustfmt is not available"));
}

#[test]
fn prettier_falls_back_to_npm_run_format() {
    let next = FormatJob::Prettier.finish(&unavailable("npx missing"));
    let job = match next {
        FormatStep::Run(job) => job,
        FormatStep::Done(r) => panic!("unexpected {:?}", r),
    };
    assert!(matches!(job, FormatJob::NpmRunFormat));
    assert_eq!(job.command().args, vec!["run".to_string(), "format".to_string()]);
    let r = format_done(job.finish(&ToolOutcome::Succeeded));
    assert_eq!((r.tool.as_str(), r.message.as_str()), ("npm run format", "Formatted"));
    let r = format_done(FormatJob::NpmRunFormat.finish(&failed("no script")));
    assert_eq!(r.message, "prettier or npm run format is not available");
}

#[test]
fn script_and_python_files_pick_their_formatter() {
    for ext in ["js", "jsx", "ts", "tsx"] {
        let f = file("web/app.x", Some(ext), None);
        assert!(matches!(Formatter::format_file(&f), FormatStep::Run(FormatJob::PrettierFile { .. })));
    }
    let f = file("tool.py", Some("py"), None);
    let r = match Formatter::format_file(&f) {
        FormatStep::Run(job) => format_done(job.finish(&ToolOutcome::Succeeded)),
        FormatStep::Done(r) => panic!("unexpected {:?}", r),
    };
    assert_eq!((r.tool.as_str(), r.message.as_str()), ("black", "Formatted: \"tool.py\""));
}

#[test]
fn unsupported_file_is_skipped_with_its_path() {
    let r = format_done(Formatter::format_file(&file("notes.txt", Some("txt"), None)));
    assert_eq!(r.status, FormatStatus::Skipped);
    assert_eq!(r.message, "Unsupported file type: \"notes.txt\"");
    let r = lint_done(Linter::lint_file(&file("Makefile", None, None)));
    assert_eq!(r.status, LintStatus::Skipped);
    assert_eq!(r.message, "Unsupported file type: \"Makefile\"");
}

#[test]
fn clippy_failure_reads_by_compile_error() {
    let r = lint_done(LintJob::CargoClippy.finish(&failed("warning: unused\nerror: could not compile `x`")));
    assert_eq!(r.status, LintStatus::Error);
    let r = lint_done(LintJob::CargoClippy.finish(&failed("warning: unused variable")));
    assert_eq!(r.status, LintStatus::Warning);
    assert_eq!(r.message, "warning: unused variable");
    let r = lint_done(LintJob::CargoClippy.finish(&ToolOutcome::Succeeded));
    assert_eq!((r.tool.as_str(), r.message.as_str()), ("cargo clippy", "No warnings found"));
    let r = lint_done(LintJob::CargoClippy.finish(&unavailable("no cargo")));
    assert_eq!((r.status, r.message.as_str()), (LintStatus::Error, "no cargo"));
}

#[test]
fn linting_starts_by_type_and_file() {
    assert!(matches!(Linter::run_all(ProjectType::Rust), LintStep::Run(LintJob::CargoClippy)));
    assert!(matches!(Linter::run_all(ProjectType::NodeJs), LintStep::Run(LintJob::Eslint)));
    assert!(matches!(Linter::run_all(ProjectType::Python), LintStep::Run(LintJob::Flake8)));
    assert_eq!(lint_done(Linter::run_all(ProjectType::Unknown)).message, "No recognized project type found");
    let r = lint_done(Linter::lint_file(&file("a.rs", Some("rs"), None)));
    assert_eq!((r.status, r.message.as_str()), (LintStatus::Skipped, "No Cargo.toml found"));
    match Linter::lint_file(&file("/w/a.rs", Some("rs"), Some("/w"))) {
        LintStep::Run(job) => {
            let c = job.command();
            assert_eq!(c.args, vec!["clippy", "--", "-W", "clippy::all"].into_iter().map(String::from).collect::<Vec<_>>());
            assert_eq!(c.current_dir, Some("/w".to_string()));
        }
        LintStep::Done(r) => panic!("unexpected {:?}", r),
    }
    assert!(matches!(Linter::lint_file(&file("a.tsx", Some("tsx"), None)), LintStep::Run(LintJob::Eslint)));
}

#[test]
fn eslint_falls_back_and_flake8_reads() {
    assert!(matches!(LintJob::Eslint.finish(&unavailable("x")), LintStep::Run(LintJob::NpmRunLint)));
    let r = lint_done(LintJob::NpmRunLint.finish(&unavailable("x")));
    assert_eq!(r.message, "eslint or npm run lint is not available");
    let r = lint_done(LintJob::Eslint.finish(&failed("2 problems")));
    assert_eq!((r.status, r.message.as_str()), (LintStatus::Warning, "2 problems"));
    let job = match Linter::lint_file(&file("pkg/mod.py", Some("py"), None)) {
        LintStep::Run(job) => job,
        LintStep::Done(r) => panic!("unexpected {:?}", r),
    };
    assert_eq!(job.command().args, vec!["pkg/mod.py".to_string()]);
    let r = lint_done(job.finish(&ToolOutcome::Succeeded));
    assert_eq!(r.message, "No issues in: \"pkg/mod.py\"");
    let r = lint_done(LintJob::Flake8.finish(&unavailable("x")));
    assert_eq!(r.message, "flake8 is not available");
}
