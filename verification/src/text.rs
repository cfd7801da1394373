//! Character-level helpers for the validation stage: whitespace
//! trimming and a character search, each specified over `Seq<char>`.

use vstd::prelude::*;

verus! {

/// The characters removed when a field is trimmed: the Unicode
/// White_Space set.
pub open spec fn is_space_char(c: char) -> bool {
    c == ' ' || c == '\t' || c == '\n' || c == '\r' || c == '\u{000b}' || c == '\u{000c}'
        || c == '\u{0085}' || c == '\u{00a0}' || c == '\u{1680}' || c == '\u{2000}' || c
        == '\u{2001}' || c == '\u{2002}' || c == '\u{2003}' || c == '\u{2004}' || c == '\u{2005}'
        || c == '\u{2006}' || c == '\u{2007}' || c == '\u{2008}' || c == '\u{2009}' || c
        == '\u{200a}' || c == '\u{2028}' || c == '\u{2029}' || c == '\u{202f}' || c == '\u{205f}'
        || c == '\u{3000}'
}

/// Whether every character of `s` is whitespace; holds in particular of
/// the empty sequence.
pub open spec fn all_space(s: Seq<char>) -> bool {
    forall|k: int| 0 <= k < s.len() ==> is_space_char(s[k])
}

/// What is left of `s` once its leading whitespace is removed.
pub open spec fn trim_leading(s: Seq<char>) -> Seq<char>
    decreases s.len(),
{
    if s.len() == 0 {
        s
    } else if is_space_char(s[0]) {
        trim_leading(s.subrange(1, s.len() as int))
    } else {
        s
    }
}

/// What is left of `s` once its trailing whitespace is removed.
pub open spec fn trim_trailing(s: Seq<char>) -> Seq<char>
    decreases s.len(),
{
    if s.len() == 0 {
        s
    } else if is_space_char(s[s.len() - 1]) {
        trim_trailing(s.take(s.len() - 1))
    } else {
        s
    }
}

/// `s` with leading and trailing whitespace removed.
pub open spec fn trim_spec(s: Seq<char>) -> Seq<char> {
    trim_trailing(trim_leading(s))
}

/// Whether `c` is one of the characters a trim removes.
pub fn is_space(c: char) -> (r: bool)
    ensures
        r == is_space_char(c),
{
    c == ' ' || c == '\t' || c == '\n' || c == '\r' || c == '\u{000b}' || c == '\u{000c}'
        || c == '\u{0085}' || c == '\u{00a0}' || c == '\u{1680}' || c == '\u{2000}' || c
        == '\u{2001}' || c == '\u{2002}' || c == '\u{2003}' || c == '\u{2004}' || c == '\u{2005}'
        || c == '\u{2006}' || c == '\u{2007}' || c == '\u{2008}' || c == '\u{2009}' || c
        == '\u{200a}' || c == '\u{2028}' || c == '\u{2029}' || c == '\u{202f}' || c == '\u{205f}'
        || c == '\u{3000}'
}

/// When the first `i` characters are whitespace and the one at `i` (if
/// any) is not, trimming the front leaves exactly the tail from `i`.
proof fn lemma_trim_leading_skip(s: Seq<char>, i: int)
    requires
        0 <= i <= s.len(),
        forall|k: int| 0 <= k < i ==> is_space_char(s[k]),
        i < s.len() ==> !is_space_char(s[i]),
    ensures
        trim_leading(s) == s.subrange(i, s.len() as int),
    decreases i,
{
    if i == 0 {
        assert(s.subrange(0, s.len() as int) =~= s);
    } else {
        let t = s.subrange(1, s.len() as int);
        lemma_trim_leading_skip(t, i - 1);
        assert(t.subrange(i - 1, t.len() as int) =~= s.subrange(i, s.len() as int));
    }
}

/// When every character from `j` on is whitespace and the one before
/// `j` (if any) is not, trimming the back leaves exactly the first `j`.
proof fn lemma_trim_trailing_skip(s: Seq<char>, j: int)
    requires
        0 <= j <= s.len(),
        forall|k: int| j <= k < s.len() ==> is_space_char(s[k]),
        j > 0 ==> !is_space_char(s[j - 1]),
    ensures
        trim_trailing(s) == s.take(j),
    decreases s.len() - j,
{
    if j == s.len() {
        assert(s.take(j) =~= s);
    } else {
        let t = s.take(s.len() - 1);
        lemma_trim_trailing_skip(t, j);
        assert(t.take(j) =~= s.take(j));
    }
}

/// A whitespace-only sequence trims to the empty sequence.
pub proof fn lemma_trim_all_space(s: Seq<char>)
    requires
        all_space(s),
    ensures
        trim_spec(s).len() == 0,
{
    lemma_trim_leading_skip(s, s.len() as int);
    assert(s.subrange(s.len() as int, s.len() as int) =~= Seq::<char>::empty());
}

/// A trimmed sequence neither starts nor ends with whitespace, so
/// trimming it again changes nothing.
pub proof fn lemma_trim_idempotent(s: Seq<char>)
    ensures
        trim_spec(trim_spec(s)) == trim_spec(s),
{
    let t = trim_spec(s);
    lemma_trim_spec_ends(s);
    lemma_trim_leading_skip(t, 0);
    assert(trim_leading(t) =~= t);
    lemma_trim_trailing_skip(t, t.len() as int);
    assert(t.take(t.len() as int) =~= t);
}

/// The first and last characters of a trimmed, non-empty sequence are
/// not whitespace.
pub proof fn lemma_trim_spec_ends(s: Seq<char>)
    ensures
        trim_spec(s).len() > 0 ==> !is_space_char(trim_spec(s)[0]),
        trim_spec(s).len() > 0 ==> !is_space_char(trim_spec(s)[trim_spec(s).len() - 1]),
{
    lemma_trim_leading_head(s);
    lemma_trim_trailing_last(trim_leading(s));
    lemma_trim_trailing_head(trim_leading(s));
}

/// Trimming the front leaves no leading whitespace.
proof fn lemma_trim_leading_head(s: Seq<char>)
    ensures
        trim_leading(s).len() > 0 ==> !is_space_char(trim_leading(s)[0]),
    decreases s.len(),
{
    if s.len() > 0 && is_space_char(s[0]) {
        lemma_trim_leading_head(s.subrange(1, s.len() as int));
    }
}

/// Trimming the back leaves no trailing whitespace.
proof fn lemma_trim_trailing_last(s: Seq<char>)
    ensures
        trim_trailing(s).len() > 0 ==> !is_space_char(
            trim_trailing(s)[trim_trailing(s).len() - 1],
        ),
    decreases s.len(),
{
    if s.len() > 0 && is_space_char(s[s.len() - 1]) {
        lemma_trim_trailing_last(s.take(s.len() - 1));
    }
}

/// Trimming the back keeps the first character as it was.
proof fn lemma_trim_trailing_head(s: Seq<char>)
    ensures
        trim_trailing(s).len() > 0 ==> trim_trailing(s)[0] == s[0],
    decreases s.len(),
{
    if s.len() > 0 && is_space_char(s[s.len() - 1]) {
        lemma_trim_trailing_head(s.take(s.len() - 1));
    }
}

/// Removes leading and trailing whitespace from `s`, as the validation
/// rules require of every trimmed field.
pub fn trim(s: &str) -> (r: String)
    ensures
        r@ == trim_spec(s@),
{
    let n = s.unicode_len();
    let mut i: usize = 0;
    while i < n && is_space(s.get_char(i))
        invariant
            n == s@.len(),
            0 <= i <= n,
            forall|k: int| 0 <= k < i ==> is_space_char(s@[k]),
        decreases n - i,
    {
        i = i + 1;
    }
    if i == n {
        proof {
            lemma_trim_leading_skip(s@, n as int);
            assert(s@.subrange(n as int, n as int) =~= Seq::<char>::empty());
        }
        return String::new();
    }
    let mut j: usize = n;
    while is_space(s.get_char(j - 1))
        invariant
            n == s@.len(),
            i < j <= n,
            !is_space_char(s@[i as int]),
            forall|k: int| j <= k < n ==> is_space_char(s@[k]),
        decreases j,
    {
        j = j - 1;
    }
    let t = s.substring_char(i, j);
    proof {
        lemma_trim_leading_skip(s@, i as int);
        let mid = s@.subrange(i as int, n as int);
        lemma_trim_trailing_skip(mid, j - i as int);
        assert(mid.take(j - i) =~= s@.subrange(i as int, j as int));
    }
    t.to_owned()
}

/// Whether `c` occurs anywhere in `s`; the email rule asks this of `@`.
pub fn contains_char(s: &str, c: char) -> (r: bool)
    ensures
        r == s@.contains(c),
{
    let n = s.unicode_len();
    let mut i: usize = 0;
    while i < n
        invariant
            n == s@.len(),
            0 <= i <= n,
            forall|k: int| 0 <= k < i ==> s@[k] != c,
        decreases n - i,
    {
        if s.get_char(i) == c {
            return true;
        }
        i = i + 1;
    }
    false
}

} // verus!
