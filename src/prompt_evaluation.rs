//! Heuristic quality score of a prompt, and the pass/block decision against a threshold.
use vstd::prelude::*;

use crate::text::{
    begins_after_white, begins_after_white_space, contains_seq, contains_text, to_chars, word_texts,
};

verus! {

/// How many of `words` occur in `p`.
pub open spec fn count_present(words: Seq<Seq<char>>, p: Seq<char>) -> nat
    decreases words.len(),
{
    if words.len() == 0 {
        0
    } else {
        count_present(words.drop_last(), p) + if contains_seq(p, words.last()) {
            1nat
        } else {
            0nat
        }
    }
}

/// Whether at least one of `words` occurs in `p`.
pub open spec fn has_any(words: Seq<Seq<char>>, p: Seq<char>) -> bool {
    exists|i: int| 0 <= i < words.len() && contains_seq(p, #[trigger] words[i])
}

/// Phrases that leave the task unspecified; each one found costs 15 points.
pub open spec fn vague_phrases() -> Seq<Seq<char>> {
    seq![
        "なんでも"@,
        "適当に"@,
        "よろしく"@,
        "問題を解決"@,
        "動くようにして"@,
        "コードをなんとかして"@,
        "良い感じにして"@,
    ]
}

/// Phrases that bound the size or form of the answer; without any, 20 points are lost.
pub open spec fn constraint_markers() -> Seq<Seq<char>> {
    seq!["行以内"@, "diff"@, "差分"@]
}

/// Words that signal a request unrelated to code; each one found costs 20 points.
pub open spec fn non_coding_topics() -> Seq<Seq<char>> {
    seq![
        "詩"@,
        "物語"@,
        "エッセイ"@,
        "マーケティング"@,
        "一般的な知識"@,
        "歴史"@,
        "レシピ"@,
        "小説"@,
    ]
}

/// Verbs naming a concrete programming task; without any, 10 points are lost.
pub open spec fn task_verbs() -> Seq<Seq<char>> {
    seq!["実装"@, "作成"@, "デバッグ"@, "リファクタリング"@, "テスト"@, "最適化"@, "修正"@, "生成"@]
}

/// Terms that block a prompt outright.
pub open spec fn block_terms() -> Seq<Seq<char>> {
    seq!["ヘイトスピーチ"@, "差別"@, "テロ"@, "児童ポルノ"@, "違法行為"@, "詐欺"@]
}

/// Security-sensitive terms; each one found costs 25 points.
pub open spec fn sensitive_terms() -> Seq<Seq<char>> {
    seq!["マルウェア"@, "ハッキング"@, "攻撃"@, "脆弱性"@, "エクスプロイト"@]
}

/// Whether the prompt is a slash command, which bypasses scoring.
pub open spec fn is_slash_command(p: Seq<char>) -> bool {
    begins_after_white_space(p, '/')
}

/// Whether the prompt's length in characters is outside 15 to 500.
pub open spec fn length_penalized(p: Seq<char>) -> bool {
    p.len() > 500 || p.len() < 15
}

/// The score before the block rule and the clamp at zero.
pub open spec fn raw_score(p: Seq<char>, has_project_context: bool) -> int {
    100 - (if length_penalized(p) { 30int } else { 0int }) - 15 * count_present(vague_phrases(), p)
        - (if has_any(constraint_markers(), p) { 0int } else { 20int }) - (if has_project_context {
        0int
    } else {
        15int
    }) - 20 * count_present(non_coding_topics(), p) - (if has_any(task_verbs(), p) {
        0int
    } else {
        10int
    }) - 25 * count_present(sensitive_terms(), p)
}

/// The quality score of prompt `p`: 100 for a slash command, 0 for a prompt holding a block
/// term, and otherwise 100 less every penalty that applies, but not below 0.
pub open spec fn prompt_score(p: Seq<char>, has_project_context: bool) -> int {
    if is_slash_command(p) {
        100
    } else if has_any(block_terms(), p) {
        0
    } else if raw_score(p, has_project_context) < 0 {
        0
    } else {
        raw_score(p, has_project_context)
    }
}

/// Whether prompt `p` passes `threshold`.
pub open spec fn prompt_passes(p: Seq<char>, has_project_context: bool, threshold: int) -> bool {
    prompt_score(p, has_project_context) >= threshold
}

proof fn lemma_count_bounded(words: Seq<Seq<char>>, p: Seq<char>)
    ensures
        count_present(words, p) <= words.len(),
    decreases words.len(),
{
    if words.len() > 0 {
        lemma_count_bounded(words.drop_last(), p);
    }
}

/// Whether every word of `words` found in `p` is also found in `q`.
pub open spec fn words_cover(words: Seq<Seq<char>>, q: Seq<char>, p: Seq<char>) -> bool {
    forall|i: int|
        0 <= i < words.len() ==> (contains_seq(p, #[trigger] words[i]) ==> contains_seq(q, words[i]))
}

/// Whether prompt `q` (with its context flag) triggers every penalty condition, and the block
/// rule, that prompt `p` triggers.
pub open spec fn penalties_cover(q: Seq<char>, q_context: bool, p: Seq<char>, p_context: bool) -> bool {
    &&& (length_penalized(p) ==> length_penalized(q))
    &&& words_cover(vague_phrases(), q, p)
    &&& (!has_any(constraint_markers(), p) ==> !has_any(constraint_markers(), q))
    &&& (!p_context ==> !q_context)
    &&& words_cover(non_coding_topics(), q, p)
    &&& (!has_any(task_verbs(), p) ==> !has_any(task_verbs(), q))
    &&& words_cover(sensitive_terms(), q, p)
    &&& (has_any(block_terms(), p) ==> has_any(block_terms(), q))
}

proof fn lemma_count_monotone(words: Seq<Seq<char>>, q: Seq<char>, p: Seq<char>)
    requires
        words_cover(words, q, p),
    ensures
        count_present(words, p) <= count_present(words, q),
    decreases words.len(),
{
    if words.len() > 0 {
        let rest = words.drop_last();
        assert forall|i: int|
            0 <= i < rest.len() && contains_seq(p, #[trigger] rest[i]) implies contains_seq(
            q,
            rest[i],
        ) by {
            assert(rest[i] == words[i]);
        }
        lemma_count_monotone(rest, q, p);
        assert(words.last() == words[words.len() - 1]);
    }
}

/// A prompt that is a slash command, once leading white space is removed, scores 100.
pub proof fn lemma_slash_command_scores_full(p: Seq<char>, has_project_context: bool)
    requires
        is_slash_command(p),
    ensures
        prompt_score(p, has_project_context) == 100,
{
}

/// A prompt that holds a block term scores 0, whatever else it holds, unless it is a slash
/// command; so it fails every positive threshold.
pub proof fn lemma_block_term_scores_zero(p: Seq<char>, has_project_context: bool, threshold: int)
    requires
        has_any(block_terms(), p),
        !is_slash_command(p),
    ensures
        prompt_score(p, has_project_context) == 0,
        threshold > 0 ==> !prompt_passes(p, has_project_context, threshold),
{
}

/// A prompt passes a threshold exactly when its score reaches it.
pub proof fn lemma_passes_iff_score_reaches(p: Seq<char>, has_project_context: bool, threshold: int)
    ensures
        prompt_passes(p, has_project_context, threshold) == (prompt_score(p, has_project_context)
            >= threshold),
{
}

/// Every score lies between 0 and 100.
pub proof fn lemma_score_in_range(p: Seq<char>, has_project_context: bool)
    ensures
        0 <= prompt_score(p, has_project_context) <= 100,
{
    lemma_count_bounded(vague_phrases(), p);
    lemma_count_bounded(non_coding_topics(), p);
    lemma_count_bounded(sensitive_terms(), p);
}

/// Triggering more penalty conditions never raises the score: when `q` triggers every
/// condition that `p` triggers (and neither is a slash command), `q` scores at most what `p`
/// scores.
pub proof fn lemma_more_penalties_lower_score(
    q: Seq<char>,
    q_context: bool,
    p: Seq<char>,
    p_context: bool,
)
    requires
        !is_slash_command(p),
        !is_slash_command(q),
        penalties_cover(q, q_context, p, p_context),
    ensures
        prompt_score(q, q_context) <= prompt_score(p, p_context),
{
    lemma_count_monotone(vague_phrases(), q, p);
    lemma_count_monotone(non_coding_topics(), q, p);
    lemma_count_monotone(sensitive_terms(), q, p);
    lemma_score_in_range(p, p_context);
}

fn vague_phrase_list() -> (r: Vec<&'static str>)
    ensures
        word_texts(r@) == vague_phrases(),
{
    let r = vec!["なんでも", "適当に", "よろしく", "問題を解決", "動くようにして", "コードをなんとかして", "良い感じにして"];
    assert(word_texts(r@) =~= vague_phrases());
    r
}

fn constraint_marker_list() -> (r: Vec<&'static str>)
    ensures
        word_texts(r@) == constraint_markers(),
{
    let r = vec!["行以内", "diff", "差分"];
    assert(word_texts(r@) =~= constraint_markers());
    r
}

fn non_coding_topic_list() -> (r: Vec<&'static str>)
    ensures
        word_texts(r@) == non_coding_topics(),
{
    let r = vec!["詩", "物語", "エッセイ", "マーケティング", "一般的な知識", "歴史", "レシピ", "小説"];
    assert(word_texts(r@) =~= non_coding_topics());
    r
}

fn task_verb_list() -> (r: Vec<&'static str>)
    ensures
        word_texts(r@) == task_verbs(),
{
    let r = vec!["実装", "作成", "デバッグ", "リファクタリング", "テスト", "最適化", "修正", "生成"];
    assert(word_texts(r@) =~= task_verbs());
    r
}

fn block_term_list() -> (r: Vec<&'static str>)
    ensures
        word_texts(r@) == block_terms(),
{
    let r = vec!["ヘイトスピーチ", "差別", "テロ", "児童ポルノ", "違法行為", "詐欺"];
    assert(word_texts(r@) =~= block_terms());
    r
}

fn sensitive_term_list() -> (r: Vec<&'static str>)
    ensures
        word_texts(r@) == sensitive_terms(),
{
    let r = vec!["マルウェア", "ハッキング", "攻撃", "脆弱性", "エクスプロイト"];
    assert(word_texts(r@) =~= sensitive_terms());
    r
}

/// How many of `words` occur in `p`.
fn count_words(p: &Vec<char>, words: &Vec<&str>) -> (r: usize)
    ensures
        r == count_present(word_texts(words@), p@),
        r <= words.len(),
{
    let ghost ws = word_texts(words@);
    let mut n: usize = 0;
    let mut i: usize = 0;
    while i < words.len()
        invariant
            i <= words.len(),
            ws == word_texts(words@),
            n == count_present(ws.take(i as int), p@),
            n <= i,
        decreases words.len() - i,
    {
        let found = contains_text(p, words[i]);
        assert(ws.take(i + 1).drop_last() =~= ws.take(i as int));
        if found {
            n = n + 1;
        }
        i = i + 1;
    }
    assert(ws.take(i as int) =~= ws);
    n
}

/// Whether at least one of `words` occurs in `p`.
fn any_word(p: &Vec<char>, words: &Vec<&str>) -> (r: bool)
    ensures
        r == has_any(word_texts(words@), p@),
{
    let ghost ws = word_texts(words@);
    let mut i: usize = 0;
    while i < words.len()
        invariant
            i <= words.len(),
            ws == word_texts(words@),
            forall|k: int| 0 <= k < i ==> !contains_seq(p@, #[trigger] ws[k]),
        decreases words.len() - i,
    {
        if contains_text(p, words[i]) {
            assert(contains_seq(p@, ws[i as int]));
            return true;
        }
        i = i + 1;
    }
    false
}

/// Scores prompt quality from 0 to 100 and decides whether a prompt passes a threshold.
pub struct PromptEvaluator {
    threshold: i32,
}

impl Default for PromptEvaluator {
    fn default() -> (r: Self)
        ensures
            r.threshold_value() == 60,
    {
        PromptEvaluator { threshold: 60 }
    }
}

impl PromptEvaluator {
    /// The score a prompt needs to pass.
    pub closed spec fn threshold_value(&self) -> int {
        self.threshold as int
    }

    pub fn new(threshold: i32) -> (r: Self)
        ensures
            r.threshold_value() == threshold,
    {
        PromptEvaluator { threshold }
    }

    /// The quality score of `prompt`; `has_project_context` tells whether the working
    /// directory holds a recognized project marker file.
    pub fn evaluate(&self, prompt: &str, has_project_context: bool) -> (r: i32)
        ensures
            r == prompt_score(prompt@, has_project_context),
            0 <= r <= 100,
    {
        evaluate_prompt(prompt, has_project_context)
    }

    /// Whether the score of `prompt` reaches this evaluator's threshold.
    pub fn passes_threshold(&self, prompt: &str, has_project_context: bool) -> (r: bool)
        ensures
            r == prompt_passes(prompt@, has_project_context, self.threshold_value()),
    {
        self.evaluate(prompt, has_project_context) >= self.threshold
    }

    /// Points lost to vague phrases: 15 for each one found.
    fn check_vague_words(&self, p: &Vec<char>) -> (r: i32)
        ensures
            r == 15 * count_present(vague_phrases(), p@),
            0 <= r <= 105,
    {
        let words = vague_phrase_list();
        let n = count_words(p, &words);
        n as i32 * 15
    }

    fn has_constraints(&self, p: &Vec<char>) -> (r: bool)
        ensures
            r == has_any(constraint_markers(), p@),
    {
        let words = constraint_marker_list();
        any_word(p, &words)
    }

    /// Points lost to topics unrelated to code: 20 for each one found.
    fn check_non_coding_intent(&self, p: &Vec<char>) -> (r: i32)
        ensures
            r == 20 * count_present(non_coding_topics(), p@),
            0 <= r <= 160,
    {
        let words = non_coding_topic_list();
        let n = count_words(p, &words);
        n as i32 * 20
    }

    fn has_specific_task_verb(&self, p: &Vec<char>) -> (r: bool)
        ensures
            r == has_any(task_verbs(), p@),
    {
        let words = task_verb_list();
        any_word(p, &words)
    }

    fn has_definite_block_keywords(&self, p: &Vec<char>) -> (r: bool)
        ensures
            r == has_any(block_terms(), p@),
    {
        let words = block_term_list();
        any_word(p, &words)
    }

    /// Points lost to security-sensitive terms: 25 for each one found.
    fn check_sensitive_security_keywords(&self, p: &Vec<char>) -> (r: i32)
        ensures
            r == 25 * count_present(sensitive_terms(), p@),
            0 <= r <= 125,
    {
        let words = sensitive_term_list();
        let n = count_words(p, &words);
        n as i32 * 25
    }
}

/// The quality score of `prompt`, from 0 to 100; `has_project_context` tells whether the
/// working directory holds a recognized project marker file.
pub fn evaluate_prompt(prompt: &str, has_project_context: bool) -> (r: i32)
    ensures
        r == prompt_score(prompt@, has_project_context),
        0 <= r <= 100,
{
    let rules = PromptEvaluator { threshold: 60 };
    let p = to_chars(prompt);
    if begins_after_white(&p, '/') {
        return 100;
    }
    let mut score: i32 = 100;
    let char_count = p.len();
    if char_count > 500 || char_count < 15 {
        score = score - 30;
    }
    score = score - rules.check_vague_words(&p);
    if !rules.has_constraints(&p) {
        score = score - 20;
    }
    if !has_project_context {
        score = score - 15;
    }
    score = score - rules.check_non_coding_intent(&p);
    if !rules.has_specific_task_verb(&p) {
        score = score - 10;
    }
    if rules.has_definite_block_keywords(&p) {
        return 0;
    }
    score = score - rules.check_sensitive_security_keywords(&p);
    if score < 0 {
        0
    } else {
        score
    }
}

} // verus!
