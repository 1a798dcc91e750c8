//! Character-level text operations that the scoring and classification rules are built on.
use vstd::prelude::*;
use vstd::string::StrSliceExecFns;

verus! {

/// Whether `needle` occurs in `hay` as a contiguous run of characters.
pub open spec fn contains_seq(hay: Seq<char>, needle: Seq<char>) -> bool {
    exists|i: int|
        0 <= i && i + needle.len() <= hay.len() && #[trigger] hay.subrange(i, i + needle.len())
            == needle
}

/// The texts of a list of words.
pub open spec fn word_texts(words: Seq<&str>) -> Seq<Seq<char>> {
    words.map_values(|w: &str| w@)
}

/// The texts of a list of strings.
pub open spec fn string_texts(v: Seq<String>) -> Seq<Seq<char>> {
    v.map_values(|s: String| s@)
}

/// The text of an optional string.
pub open spec fn opt_text(o: Option<String>) -> Option<Seq<char>> {
    match o {
        Some(s) => Some(s@),
        None => None,
    }
}

/// Owned copies of `words`, in order.
pub fn to_strings(words: &Vec<&str>) -> (r: Vec<String>)
    ensures
        string_texts(r@) == word_texts(words@),
{
    let mut r: Vec<String> = Vec::new();
    let mut i: usize = 0;
    while i < words.len()
        invariant
            i <= words.len(),
            r.len() == i,
            string_texts(r@) == word_texts(words@.take(i as int)),
        decreases words.len() - i,
    {
        let w = String::from_str(words[i]);
        let ghost before = r@;
        r.push(w);
        assert(r@[i as int]@ == words@[i as int]@);
        assert forall|k: int| 0 <= k < i implies r@[k]@ == words@[k]@ by {
            assert(r@[k] == before[k]);
            assert(string_texts(before)[k] == word_texts(words@.take(i as int))[k]);
        }
        i = i + 1;
        assert(string_texts(r@) =~= word_texts(words@.take(i as int)));
    }
    assert(words@.take(i as int) =~= words@);
    r
}

/// At most the first `n` characters of `s`.
pub open spec fn prefix_of(s: Seq<char>, n: nat) -> Seq<char> {
    if s.len() <= n {
        s
    } else {
        s.take(n as int)
    }
}

/// The first `n` characters of `s`, or all of it when it is shorter.
pub fn char_prefix(s: &str, n: usize) -> (r: String)
    ensures
        r@ == prefix_of(s@, n as nat),
{
    let count = s.unicode_len();
    if count <= n {
        return String::from_str(s);
    }
    let head = s.substring_char(0, n);
    assert(s@.subrange(0, n as int) =~= s@.take(n as int));
    String::from_str(head)
}

/// The text `a` followed by the text `b`.
pub fn join_text(a: &str, b: &str) -> (r: String)
    ensures
        r@ == a@ + b@,
{
    let mut r = String::from_str(a);
    r.append(b);
    r
}

/// Whether `needle` occurs in `hay` starting at position `i`.
pub open spec fn occurs_at(hay: Seq<char>, needle: Seq<char>, i: int) -> bool {
    0 <= i && i + needle.len() <= hay.len() && hay.subrange(i, i + needle.len()) == needle
}

/// Whether a character has Unicode's White_Space property.
pub uninterp spec fn white_space(c: char) -> bool;

/// Whether `k` is the position of the first character of `s` that is not white space.
pub open spec fn first_non_white(s: Seq<char>, k: int) -> bool {
    &&& 0 <= k < s.len()
    &&& !white_space(s[k])
    &&& forall|j: int| 0 <= j < k ==> white_space(#[trigger] s[j])
}

/// Whether `s`, once its leading white space is removed, begins with `c`.
pub open spec fn begins_after_white_space(s: Seq<char>, c: char) -> bool {
    exists|k: int| first_non_white(s, k) && s[k] == c
}

/// Relies on `char::is_whitespace`: whether `c` has the White_Space property.
#[verifier::external_body]
fn is_white_space(c: char) -> (r: bool)
    ensures
        r == white_space(c),
{
    c.is_whitespace()
}

/// The characters of `s`, in order.
pub fn to_chars(s: &str) -> (r: Vec<char>)
    ensures
        r@ == s@,
{
    let mut r: Vec<char> = Vec::new();
    for c in it: s.chars()
        invariant
            r@ == it.seq().take(it.index() as int),
    {
        r.push(c);
    }
    r
}

/// Whether `needle` occurs in `hay` at position `i`.
fn matches_at(hay: &Vec<char>, needle: &Vec<char>, i: usize) -> (r: bool)
    requires
        i + needle.len() <= hay.len(),
    ensures
        r == occurs_at(hay@, needle@, i as int),
{
    let mut j: usize = 0;
    while j < needle.len()
        invariant
            j <= needle.len(),
            i + needle.len() <= hay.len(),
            forall|k: int| 0 <= k < j ==> hay@[i + k] == needle@[k],
        decreases needle.len() - j,
    {
        if hay[i + j] != needle[j] {
            assert(hay@.subrange(i as int, i + needle.len())[j as int] != needle@[j as int]);
            return false;
        }
        j = j + 1;
    }
    assert(hay@.subrange(i as int, i + needle.len()) =~= needle@);
    true
}

/// Whether `needle` occurs anywhere in `hay`.
pub fn contains_chars(hay: &Vec<char>, needle: &Vec<char>) -> (r: bool)
    ensures
        r == contains_seq(hay@, needle@),
{
    if needle.len() > hay.len() {
        return false;
    }
    if needle.len() == 0 {
        assert(hay@.subrange(0int, 0int + needle@.len()) =~= needle@);
        return true;
    }
    let last = hay.len() - needle.len();
    let mut i: usize = 0;
    while i <= last
        invariant
            last == hay.len() - needle.len(),
            0 < needle.len() <= hay.len(),
            i <= last + 1,
            forall|k: int| 0 <= k < i ==> !occurs_at(hay@, needle@, k),
        decreases last + 1 - i,
    {
        if matches_at(hay, needle, i) {
            assert(hay@.subrange(i as int, i + needle@.len()) == needle@);
            return true;
        }
        i = i + 1;
    }
    assert forall|k: int|
        0 <= k && k + needle@.len() <= hay@.len() implies #[trigger] hay@.subrange(
        k,
        k + needle@.len(),
    ) != needle@ by {
        assert(!occurs_at(hay@, needle@, k));
    }
    false
}

/// Whether the text `needle` occurs anywhere in `hay`.
pub fn contains_text(hay: &Vec<char>, needle: &str) -> (r: bool)
    ensures
        r == contains_seq(hay@, needle@),
{
    let n = to_chars(needle);
    contains_chars(hay, &n)
}

/// Whether `s` ends with `suffix`.
pub open spec fn ends_with_seq(s: Seq<char>, suffix: Seq<char>) -> bool {
    suffix.len() <= s.len() && s.subrange(s.len() - suffix.len(), s.len() as int) == suffix
}

/// Whether the texts `a` and `b` are equal.
pub fn same_text(a: &str, b: &str) -> (r: bool)
    ensures
        r == (a@ == b@),
{
    let x = to_chars(a);
    let y = to_chars(b);
    if x.len() != y.len() {
        return false;
    }
    let mut i: usize = 0;
    while i < x.len()
        invariant
            i <= x.len(),
            x.len() == y.len(),
            x@ == a@,
            y@ == b@,
            forall|k: int| 0 <= k < i ==> x@[k] == y@[k],
        decreases x.len() - i,
    {
        if x[i] != y[i] {
            assert(x@[i as int] != y@[i as int]);
            assert(a@ != b@);
            return false;
        }
        i = i + 1;
    }
    assert(x@ =~= y@);
    true
}

/// Whether `s` begins with `prefix`.
pub open spec fn starts_with_seq(s: Seq<char>, prefix: Seq<char>) -> bool {
    prefix.len() <= s.len() && s.take(prefix.len() as int) == prefix
}

/// Whether the text `s` begins with the text `prefix`.
pub fn starts_with_text(s: &str, prefix: &str) -> (r: bool)
    ensures
        r == starts_with_seq(s@, prefix@),
{
    let x = to_chars(s);
    let y = to_chars(prefix);
    if y.len() > x.len() {
        return false;
    }
    let mut i: usize = 0;
    while i < y.len()
        invariant
            i <= y.len() <= x.len(),
            x@ == s@,
            y@ == prefix@,
            forall|k: int| 0 <= k < i ==> x@[k] == y@[k],
        decreases y.len() - i,
    {
        if x[i] != y[i] {
            assert(x@.take(y@.len() as int)[i as int] == x@[i as int]);
            assert(x@.take(y@.len() as int) != y@);
            return false;
        }
        i = i + 1;
    }
    assert(x@.take(y@.len() as int) =~= y@);
    true
}

/// Whether the text `s` ends with the text `suffix`.
pub fn ends_with_text(s: &str, suffix: &str) -> (r: bool)
    ensures
        r == ends_with_seq(s@, suffix@),
{
    let x = to_chars(s);
    let y = to_chars(suffix);
    if y.len() > x.len() {
        return false;
    }
    let start = x.len() - y.len();
    let mut i: usize = 0;
    while i < y.len()
        invariant
            i <= y.len(),
            start + y.len() == x.len(),
            x@ == s@,
            y@ == suffix@,
            forall|k: int| 0 <= k < i ==> x@[start + k] == y@[k],
        decreases y.len() - i,
    {
        if x[start + i] != y[i] {
            assert(x@.subrange(start as int, x@.len() as int)[i as int] == x@[start + i]);
            assert(x@.subrange(start as int, x@.len() as int) != y@);
            return false;
        }
        i = i + 1;
    }
    assert(x@.subrange(start as int, x@.len() as int) =~= y@);
    true
}

/// Whether `s`, once its leading white space is removed, begins with `c`.
pub fn begins_after_white(s: &Vec<char>, c: char) -> (r: bool)
    ensures
        r == begins_after_white_space(s@, c),
{
    let mut i: usize = 0;
    while i < s.len() && is_white_space(s[i])
        invariant
            i <= s.len(),
            forall|j: int| 0 <= j < i ==> white_space(#[trigger] s@[j]),
        decreases s.len() - i,
    {
        i = i + 1;
    }
    if i < s.len() {
        assert(first_non_white(s@, i as int));
        if s[i] == c {
            return true;
        }
        assert forall|k: int| first_non_white(s@, k) implies s@[k] != c by {
            if k < i {
                assert(white_space(s@[k]));
            } else if k > i {
                assert(white_space(s@[i as int]));
            }
        }
        false
    } else {
        assert forall|k: int| first_non_white(s@, k) implies s@[k] != c by {
            assert(white_space(s@[k]));
        }
        false
    }
}

/// The decimal digit for `d`, which is below ten.
pub open spec fn digit_char(d: nat) -> char {
    if d == 0 { '0' } else if d == 1 { '1' } else if d == 2 { '2' } else if d == 3 { '3' }
    else if d == 4 { '4' } else if d == 5 { '5' } else if d == 6 { '6' } else if d == 7 { '7' }
    else if d == 8 { '8' } else { '9' }
}

/// The decimal notation of `n`, without leading zeros.
pub open spec fn decimal(n: nat) -> Seq<char>
    decreases n,
{
    if n < 10 {
        seq![digit_char(n)]
    } else {
        decimal(n / 10) + seq![digit_char(n % 10)]
    }
}

/// The decimal notation of an integer, with a leading `-` when it is negative.
pub open spec fn int_text(n: int) -> Seq<char> {
    if n < 0 {
        seq!['-'] + decimal((-n) as nat)
    } else {
        decimal(n as nat)
    }
}

fn digit_text(d: u32) -> (r: &'static str)
    requires
        d < 10,
    ensures
        r@ == seq![digit_char(d as nat)],
{
    if d == 0 {
        proof { reveal_strlit("0"); }
        "0"
    } else if d == 1 {
        proof { reveal_strlit("1"); }
        "1"
    } else if d == 2 {
        proof { reveal_strlit("2"); }
        "2"
    } else if d == 3 {
        proof { reveal_strlit("3"); }
        "3"
    } else if d == 4 {
        proof { reveal_strlit("4"); }
        "4"
    } else if d == 5 {
        proof { reveal_strlit("5"); }
        "5"
    } else if d == 6 {
        proof { reveal_strlit("6"); }
        "6"
    } else if d == 7 {
        proof { reveal_strlit("7"); }
        "7"
    } else if d == 8 {
        proof { reveal_strlit("8"); }
        "8"
    } else {
        proof { reveal_strlit("9"); }
        "9"
    }
}

/// Appends the decimal notation of `n` to `out`.
pub fn push_decimal(out: &mut String, n: u64)
    ensures
        final(out)@ == old(out)@ + decimal(n as nat),
    decreases n,
{
    if n < 10 {
        out.append(digit_text(n as u32));
    } else {
        push_decimal(out, n / 10);
        out.append(digit_text((n % 10) as u32));
        assert(final(out)@ =~= old(out)@ + decimal(n as nat));
    }
}

/// Appends the decimal notation of `n`, signed, to `out`.
pub fn push_int(out: &mut String, n: i64)
    ensures
        final(out)@ == old(out)@ + int_text(n as int),
{
    if n < 0 {
        proof { reveal_strlit("-"); }
        out.append("-");
        let m: u64 = if n == i64::MIN { 9223372036854775808u64 } else { (-n) as u64 };
        push_decimal(out, m);
        assert(final(out)@ =~= old(out)@ + int_text(n as int));
    } else {
        push_decimal(out, n as u64);
    }
}

} // verus!
