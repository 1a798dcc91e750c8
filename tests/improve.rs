use hook_guard::automation::improve::{improvement_jobs, summarize_improvements, ImproveJob, ImproveStep};
use hook_guard::automation::ToolOutcome;

fn names(v: &[&str]) -> Vec<String> {
    v.iter().map(|s| s.to_string()).collect()
}

fn report(step: ImproveStep) -> Option<String> {
    match step {
        ImproveStep::Report(line) => line,
        ImproveStep::Run(job) => panic!("expected a line, got {:?}", job),
    }
}

#[test]
fn jobs_cover_every_project_kind_found() {
    assert_eq!(
        improvement_jobs(&names(&["pyproject.toml", "Cargo.toml", "package.json"])),
        vec![
            ImproveJob::CargoFmt,
            ImproveJob::CargoClippy,
            ImproveJob::Prettier,
            ImproveJob::Eslint,
            ImproveJob::Black,
            ImproveJob::Flake8,
        ]
    );
    assert_eq!(improvement_jobs(&names(&["requirements.txt"])), vec![ImproveJob::Black, ImproveJob::Flake8]);
    assert!(improvement_jobs(&names(&["go.mod"])).is_empty());
}

#[test]
fn commands_of_the_pass() {
    let c = ImproveJob::CargoClippy.command();
    assert_eq!(c.program, "cargo");
    assert_eq!(c.args, names(&["clippy", "--", "-D", "warnings"]));
    assert_eq!(ImproveJob::Eslint.command().args, names(&["eslint", ".", "--fix"]));
    assert_eq!(ImproveJob::Flake8.command().program, "flake8");
}

#[test]
fn outcomes_become_report_lines() {
    assert_eq!(report(ImproveJob::CargoFmt.finish(&ToolOutcome::Succeeded)).as_deref(), Some("✅ cargo fmt 完了"));
    assert_eq!(
        report(ImproveJob::CargoFmt.finish(&ToolOutcome::Failed { stderr: "x".to_string() })).as_deref(),
        Some("❌ cargo fmt エラー: x")
    );
    assert_eq!(
        report(ImproveJob::CargoClippy.finish(&ToolOutcome::Unavailable { error: "gone".to_string() })).as_deref(),
        Some("❌ cargo clippy 実行エラー: gone")
    );
    assert_eq!(
        report(ImproveJob::Flake8.finish(&ToolOutcome::Failed { stderr: "E1".to_string() })).as_deref(),
        Some("⚠️ flake8 警告/エラー: E1")
    );
    assert_eq!(
        report(ImproveJob::Black.finish(&ToolOutcome::Unavailable { error: "e".to_string() })).as_deref(),
        Some("⚠️ black が見つかりません")
    );
}

#[test]
fn prettier_and_eslint_fall_back_to_npm() {
    assert!(matches!(
        ImproveJob::Prettier.finish(&ToolOutcome::Unavailable { error: "e".to_string() }),
        ImproveStep::Run(ImproveJob::NpmRunFormat)
    ));
    assert!(matches!(
        ImproveJob::Eslint.finish(&ToolOutcome::Unavailable { error: "e".to_string() }),
        ImproveStep::Run(ImproveJob::NpmRunLint)
    ));
    assert_eq!(report(ImproveJob::NpmRunFormat.finish(&ToolOutcome::Failed { stderr: "x".to_string() })), None);
    assert_eq!(
        report(ImproveJob::NpmRunLint.finish(&ToolOutcome::Unavailable { error: "e".to_string() })).as_deref(),
        Some("⚠️ eslint または npm run lint が見つかりません")
    );
}

#[test]
fn summary_fails_on_an_error_line() {
    let ok = names(&["✅ cargo fmt 完了", "⚠️ cargo clippy 警告/エラー: w"]);
    assert_eq!(summarize_improvements(&ok), Ok("✅ cargo fmt 完了\n⚠️ cargo clippy 警告/エラー: w".to_string()));
    let bad = names(&["✅ black フォーマット完了", "❌ prettier エラー: x"]);
    assert_eq!(summarize_improvements(&bad), Err("✅ black フォーマット完了\n❌ prettier エラー: x".to_string()));
    assert_eq!(summarize_improvements(&vec![]), Ok(String::new()));
}
