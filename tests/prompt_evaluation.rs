use hook_guard::prompt_evaluation::{evaluate_prompt, PromptEvaluator};

#[test]
fn test_slash_command() {
    let evaluator = PromptEvaluator::default();
    assert_eq!(evaluator.evaluate("/help", true), 100);
}

#[test]
fn test_vague_prompt() {
    let evaluator = PromptEvaluator::default();
    let score = evaluator.evaluate("なんでも動くようにして", true);
    assert!(score < 60);
}

#[test]
fn test_specific_prompt() {
    let evaluator = PromptEvaluator::default();
    let score = evaluator.evaluate("Rustで認証機能を実装してください。30行以内で記述してください。", true);
    assert!(score >= 60);
}

#[test]
fn slash_command_after_white_space_scores_full() {
    let evaluator = PromptEvaluator::default();
    assert_eq!(evaluator.evaluate("  \t/review テロ", false), 100);
    assert_eq!(evaluator.evaluate("\u{3000}/compact", false), 100);
}

#[test]
fn slash_not_first_is_scored() {
    let evaluator = PromptEvaluator::default();
    // "a/b": too short (-30), no constraint (-20), no verb (-10).
    assert_eq!(evaluator.evaluate("a/b", true), 40);
}

#[test]
fn block_term_scores_zero() {
    let evaluator = PromptEvaluator::default();
    let prompt = "Rustで詐欺サイトの検出機能を実装してください。30行以内でお願いします。";
    assert_eq!(evaluator.evaluate(prompt, true), 0);
    assert!(!evaluator.passes_threshold(prompt, true));
    assert_eq!(evaluator.evaluate("テロ", true), 0);
}

#[test]
fn short_task_prompt_without_context_scores_35() {
    let evaluator = PromptEvaluator::default();
    assert_eq!(evaluator.evaluate("実装してください", false), 35);
    assert!(!evaluator.passes_threshold("実装してください", false));
}

#[test]
fn forty_char_prompt_with_verb_constraint_and_context_scores_100() {
    let prompt = "Rustでログイン画面の入力チェックを実装して。変更は50行以内にしてください。";
    assert_eq!(prompt.chars().count(), 40);
    let evaluator = PromptEvaluator::default();
    assert_eq!(evaluator.evaluate(prompt, true), 100);
    assert!(evaluator.passes_threshold(prompt, true));
}

#[test]
fn empty_prompt_takes_every_absence_penalty() {
    let evaluator = PromptEvaluator::default();
    // length -30, constraint -20, context -15, verb -10
    assert_eq!(evaluator.evaluate("", false), 25);
    assert_eq!(evaluator.evaluate("", true), 40);
}

#[test]
fn long_prompt_is_penalized() {
    let evaluator = PromptEvaluator::default();
    let mut prompt = String::from("diffで修正を提示してください。");
    while prompt.chars().count() <= 500 {
        prompt.push('あ');
    }
    assert_eq!(evaluator.evaluate(&prompt, true), 70);
}

#[test]
fn each_vague_phrase_costs_fifteen() {
    let evaluator = PromptEvaluator::default();
    let base = "この関数のテストを作成して差分だけ返してください";
    assert_eq!(evaluator.evaluate(base, true), 100);
    let one = "この関数のテストを適当に作成して差分だけ返してください";
    assert_eq!(evaluator.evaluate(one, true), 85);
    let two = "この関数のテストを適当に作成して差分だけ返して、よろしく";
    assert_eq!(evaluator.evaluate(two, true), 70);
}

#[test]
fn non_coding_and_security_terms_cost_each() {
    let evaluator = PromptEvaluator::default();
    // non-coding: 小説 and 歴史 (-40)
    let prompt = "小説と歴史の資料を整理するスクリプトを作成して、diffで見せてください";
    assert_eq!(evaluator.evaluate(prompt, true), 60);
    // security: 脆弱性 and 攻撃 (-50)
    let prompt = "脆弱性と攻撃の検出を修正するパッチをdiffで見せてください、お願いします";
    assert_eq!(evaluator.evaluate(prompt, true), 50);
}

#[test]
fn score_is_clamped_at_zero() {
    let evaluator = PromptEvaluator::default();
    let prompt = "マルウェアとハッキングと攻撃と脆弱性とエクスプロイトの物語";
    assert_eq!(evaluator.evaluate(prompt, false), 0);
}

#[test]
fn more_penalties_never_raise_the_score() {
    let evaluator = PromptEvaluator::default();
    let p = "この関数のテストを作成して差分だけ返してください";
    let q = "この関数のテストを適当に作成して差分だけ返してください";
    let r = "この関数を適当になんとかして";
    let sp = evaluator.evaluate(p, true);
    let sq = evaluator.evaluate(q, true);
    let sr = evaluator.evaluate(r, false);
    assert!(sp >= sq && sq >= sr);
    for s in [sp, sq, sr] {
        assert!((0..=100).contains(&s));
    }
}

#[test]
fn passes_matches_score_against_threshold() {
    let prompts = ["実装してください", "/help", "", "テロ", "この関数のテストを適当に作成して差分だけ返してください"];
    for threshold in [-5, 0, 35, 60, 85, 100, 101] {
        let evaluator = PromptEvaluator::new(threshold);
        for p in prompts {
            for ctx in [false, true] {
                assert_eq!(
                    evaluator.passes_threshold(p, ctx),
                    evaluator.evaluate(p, ctx) >= threshold
                );
            }
        }
    }
}

#[test]
fn free_function_agrees_with_evaluator() {
    let evaluator = PromptEvaluator::default();
    for p in ["実装してください", "/help", "なんでも動くようにして", "テロ"] {
        assert_eq!(evaluate_prompt(p, false), evaluator.evaluate(p, false));
    }
    assert_eq!(evaluate_prompt("実装してください", false), 35);
}
