//! Fixed tables of regular expressions, compiled once into a set and searched as a whole.
use vstd::prelude::*;

use regex::RegexSet;

use crate::text::word_texts;

verus! {

#[verifier::external_type_specification]
#[verifier::external_body]
pub struct ExRegexSet(regex::RegexSet);

#[verifier::external_type_specification]
#[verifier::external_body]
pub struct ExRegexError(regex::Error);

/// The patterns that a compiled regex set was built from, in order.
pub uninterp spec fn set_patterns(s: RegexSet) -> Seq<Seq<char>>;

/// Whether a regex set can be built from `patterns`: each is a valid regular expression and
/// together they stay within the default size limits.
pub uninterp spec fn set_builds(patterns: Seq<Seq<char>>) -> bool;

/// Whether the regular expression `pattern` matches somewhere in `haystack` (an unanchored
/// search).
pub uninterp spec fn regex_finds(pattern: Seq<char>, haystack: Seq<char>) -> bool;

/// Whether at least one of `patterns` matches somewhere in `haystack`.
pub open spec fn any_finds(patterns: Seq<Seq<char>>, haystack: Seq<char>) -> bool {
    exists|i: int| 0 <= i < patterns.len() && regex_finds(#[trigger] patterns[i], haystack)
}

/// Relies on `regex::RegexSet::new`: whether it succeeds depends on the patterns alone, and
/// when it does, the set holds the given patterns in the order given (`RegexSet::patterns`
/// documents this).
#[verifier::external_body]
fn compile_set(patterns: &Vec<&str>) -> (r: Result<RegexSet, regex::Error>)
    ensures
        r is Ok <==> set_builds(word_texts(patterns@)),
        r is Ok ==> set_patterns(r->Ok_0) == word_texts(patterns@),
{
    RegexSet::new(patterns)
}

/// Relies on `regex::RegexSet::empty`: a set of no patterns.
#[verifier::external_body]
fn empty_set() -> (r: RegexSet)
    ensures
        set_patterns(r) == Seq::<Seq<char>>::empty(),
{
    RegexSet::empty()
}

/// Relies on `regex::RegexSet::is_match`: true if and only if one of the set's patterns
/// matches the haystack.
#[verifier::external_body]
fn set_is_match(s: &RegexSet, haystack: &str) -> (r: bool)
    ensures
        r == (exists|i: int|
            0 <= i < set_patterns(*s).len() && #[trigger] regex_finds(set_patterns(*s)[i], haystack@)),
{
    s.is_match(haystack)
}

/// Relies on `regex::RegexSet::len`: the number of patterns in the set.
#[verifier::external_body]
fn set_len(s: &RegexSet) -> (r: usize)
    ensures
        r == set_patterns(*s).len(),
{
    s.len()
}

/// A fixed table of patterns, compiled once and read-only afterwards.
pub struct PatternSet {
    compiled: RegexSet,
}

impl PatternSet {
    /// The patterns that are in force.
    pub closed spec fn patterns(&self) -> Seq<Seq<char>> {
        set_patterns(self.compiled)
    }

    /// Compiles `table`. A pattern that does not compile is left out, so every pattern in
    /// force comes from the table, and when the whole table compiles, all of it is in force.
    pub fn compile(table: &Vec<&str>) -> (r: Self)
        ensures
            set_builds(word_texts(table@)) ==> r.patterns() == word_texts(table@),
            forall|i: int|
                0 <= i < r.patterns().len() ==> word_texts(table@).contains(
                    #[trigger] r.patterns()[i],
                ),
    {
        if let Ok(s) = compile_set(table) {
            proof {
                assert forall|i: int| 0 <= i < set_patterns(s).len() implies word_texts(
                    table@,
                ).contains(#[trigger] set_patterns(s)[i]) by {
                    assert(word_texts(table@)[i] == set_patterns(s)[i]);
                }
            }
            return PatternSet { compiled: s };
        }
        let mut kept: Vec<&str> = Vec::new();
        let mut i: usize = 0;
        while i < table.len()
            invariant
                i <= table.len(),
                forall|k: int|
                    0 <= k < kept.len() ==> word_texts(table@).contains(#[trigger] kept@[k]@),
            decreases table.len() - i,
        {
            let single = vec![table[i]];
            if compile_set(&single).is_ok() {
                assert(word_texts(table@)[i as int] == table@[i as int]@);
                kept.push(table[i]);
            }
            i = i + 1;
        }
        match compile_set(&kept) {
            Ok(s) => {
                proof {
                    assert forall|j: int| 0 <= j < set_patterns(s).len() implies word_texts(
                        table@,
                    ).contains(#[trigger] set_patterns(s)[j]) by {
                        assert(word_texts(kept@)[j] == set_patterns(s)[j]);
                        assert(word_texts(kept@)[j] == kept@[j]@);
                    }
                }
                PatternSet { compiled: s }
            },
            Err(_) => PatternSet { compiled: empty_set() },
        }
    }

    /// Whether one of the patterns in force matches somewhere in `text`.
    pub fn is_match(&self, text: &str) -> (r: bool)
        ensures
            r == any_finds(self.patterns(), text@),
    {
        set_is_match(&self.compiled, text)
    }

    /// How many patterns are in force.
    pub fn len(&self) -> (r: usize)
        ensures
            r == self.patterns().len(),
    {
        set_len(&self.compiled)
    }
}

} // verus!
