//! Text helpers for answers typed at a prompt: Unicode white space, trimming
//! at both ends, and comparison that ignores ASCII case.

use vstd::prelude::*;
use vstd::std_specs::iter::IteratorSpec;

verus! {

/// Whether `c` is one of the code points with the Unicode property
/// `White_Space`.
pub open spec fn is_white_space(c: char) -> bool {
    ||| '\u{9}' <= c <= '\u{d}'
    ||| c == ' '
    ||| c == '\u{85}'
    ||| c == '\u{a0}'
    ||| c == '\u{1680}'
    ||| '\u{2000}' <= c <= '\u{200a}'
    ||| c == '\u{2028}'
    ||| c == '\u{2029}'
    ||| c == '\u{202f}'
    ||| c == '\u{205f}'
    ||| c == '\u{3000}'
}

/// Tells whether `c` is a white-space character.
pub fn white_space(c: char) -> (r: bool)
    ensures
        r == is_white_space(c),
{
    ('\u{9}' <= c && c <= '\u{d}') || c == ' ' || c == '\u{85}' || c == '\u{a0}' || c == '\u{1680}'
        || ('\u{2000}' <= c && c <= '\u{200a}') || c == '\u{2028}' || c == '\u{2029}' || c
        == '\u{202f}' || c == '\u{205f}' || c == '\u{3000}'
}

/// `s` without the white space it starts with.
pub open spec fn trim_start(s: Seq<char>) -> Seq<char>
    decreases s.len(),
{
    if s.len() > 0 && is_white_space(s.first()) {
        trim_start(s.drop_first())
    } else {
        s
    }
}

/// `s` without the white space it ends with.
pub open spec fn trim_end(s: Seq<char>) -> Seq<char>
    decreases s.len(),
{
    if s.len() > 0 && is_white_space(s.last()) {
        trim_end(s.drop_last())
    } else {
        s
    }
}

/// `s` without the white space at either end.
pub open spec fn trimmed(s: Seq<char>) -> Seq<char> {
    trim_end(trim_start(s))
}

/// Skipping `i` leading white-space characters does not change what
/// `trim_start` gives.
proof fn lemma_trim_start_skip(s: Seq<char>, i: int)
    requires
        0 <= i <= s.len(),
        forall|k: int| 0 <= k < i ==> is_white_space(#[trigger] s[k]),
    ensures
        trim_start(s) == trim_start(s.skip(i)),
    decreases i,
{
    if i == 0 {
        assert(s.skip(0) =~= s);
    } else {
        lemma_trim_start_skip(s, i - 1);
        let t = s.skip(i - 1);
        assert(t.first() == s[i - 1]);
        assert(t.drop_first() =~= s.skip(i));
    }
}

/// Dropping trailing white-space characters down to length `j` does not
/// change what `trim_end` gives.
proof fn lemma_trim_end_take(s: Seq<char>, j: int)
    requires
        0 <= j <= s.len(),
        forall|k: int| j <= k < s.len() ==> is_white_space(#[trigger] s[k]),
    ensures
        trim_end(s) == trim_end(s.take(j)),
    decreases s.len() - j,
{
    if j == s.len() {
        assert(s.take(j) =~= s);
    } else {
        lemma_trim_end_take(s, j + 1);
        let t = s.take(j + 1);
        assert(t.last() == s[j]);
        assert(t.drop_last() =~= s.take(j));
    }
}

/// Trimming keeps exactly the stretch from the first character that is not
/// white space to the last one: where everything before `i` and everything
/// from `j` on is white space, and the stretch between them neither starts
/// nor ends with white space, `trimmed(s)` is that stretch.
pub proof fn lemma_trimmed_is_subrange(s: Seq<char>, i: int, j: int)
    requires
        0 <= i <= j <= s.len(),
        forall|k: int| 0 <= k < i ==> is_white_space(#[trigger] s[k]),
        forall|k: int| j <= k < s.len() ==> is_white_space(#[trigger] s[k]),
        i < j ==> !is_white_space(s[i]) && !is_white_space(s[j - 1]),
    ensures
        trimmed(s) == s.subrange(i, j),
{
    if i == j {
        lemma_trim_start_skip(s, s.len() as int);
        assert(s.skip(s.len() as int) =~= Seq::<char>::empty());
        assert(s.subrange(i, j) =~= Seq::<char>::empty());
    } else {
        let rest = s.skip(i);
        lemma_trim_start_skip(s, i);
        assert(rest.first() == s[i]);
        assert forall|k: int| j - i <= k < rest.len() implies is_white_space(#[trigger] rest[k]) by {
            assert(rest[k] == s[i + k]);
        }
        lemma_trim_end_take(rest, j - i);
        assert(rest.take(j - i) =~= s.subrange(i, j));
        assert(s.subrange(i, j).last() == s[j - 1]);
    }
}

/// Returns `s` without the white space at either end.
pub fn trim(s: &str) -> (r: &str)
    ensures
        r@ == trimmed(s@),
{
    let n = s.unicode_len();
    let mut start: usize = 0;
    let mut end: usize = 0;
    let mut i: usize = 0;
    for c in it: s.chars()
        invariant
            n == s@.len(),
            it.seq() == s@,
            i == it.index(),
            start <= end <= i,
            forall|k: int| 0 <= k < start ==> is_white_space(#[trigger] s@[k]),
            forall|k: int| end <= k < i ==> is_white_space(#[trigger] s@[k]),
            start < end ==> !is_white_space(s@[start as int]) && !is_white_space(s@[end - 1]),
            start == end ==> start == i,
    {
        if !white_space(c) {
            if start == end {
                start = i;
            }
            end = i + 1;
        } else if start == end {
            start = i + 1;
            end = i + 1;
        }
        i = i + 1;
    }
    proof {
        lemma_trimmed_is_subrange(s@, start as int, end as int);
    }
    s.substring_char(start, end)
}

/// `c` with an upper-case ASCII letter replaced by its lower-case form.
pub open spec fn ascii_lower(c: char) -> char {
    if 'A' <= c <= 'Z' {
        ((c as u8) + 32) as char
    } else {
        c
    }
}

/// Returns `c` with an upper-case ASCII letter replaced by its lower-case
/// form.
pub fn to_ascii_lower(c: char) -> (r: char)
    ensures
        r == ascii_lower(c),
{
    if 'A' <= c && c <= 'Z' {
        ((c as u8) + 32) as char
    } else {
        c
    }
}

/// Whether `a` and `b` are the same text once upper-case ASCII letters are
/// read as lower-case ones.
pub open spec fn eq_ignoring_ascii_case(a: Seq<char>, b: Seq<char>) -> bool {
    &&& a.len() == b.len()
    &&& forall|i: int| 0 <= i < a.len() ==> ascii_lower(#[trigger] a[i]) == ascii_lower(b[i])
}

/// Tells whether `a` and `b` are the same text, ignoring ASCII case.
pub fn eq_ignore_ascii_case(a: &str, b: &str) -> (r: bool)
    ensures
        r == eq_ignoring_ascii_case(a@, b@),
{
    let mut rest_a = a.chars();
    let mut rest_b = b.chars();
    let ghost mut i: int = 0;
    loop
        invariant
            0 <= i <= a@.len(),
            i <= b@.len(),
            rest_a.remaining() == a@.skip(i),
            rest_b.remaining() == b@.skip(i),
            forall|k: int| 0 <= k < i ==> ascii_lower(#[trigger] a@[k]) == ascii_lower(b@[k]),
        decreases a@.len() - i,
    {
        match (rest_a.next(), rest_b.next()) {
            (None, None) => {
                return true;
            },
            (Some(x), Some(y)) => {
                if to_ascii_lower(x) != to_ascii_lower(y) {
                    return false;
                }
                proof {
                    i = i + 1;
                }
            },
            _ => {
                return false;
            },
        }
    }
}

/// Returns the characters of `s`, one by one.
pub fn chars_of(s: &str) -> (v: Vec<char>)
    ensures
        v@ == s@,
{
    let mut v: Vec<char> = Vec::new();
    for c in it: s.chars()
        invariant
            it.seq() == s@,
            v@ == s@.take(it.index()),
    {
        v.push(c);
        assert(s@.take(it.index() + 1) =~= s@.take(it.index()).push(c));
    }
    assert(s@.take(s@.len() as int) =~= s@);
    v
}

/// Whether `part` occurs in `whole` as a run of neighbouring characters.
pub open spec fn occurs_in(part: Seq<char>, whole: Seq<char>) -> bool {
    exists|i: int| occurs_at(part, whole, i)
}

/// Whether `part` stands in `whole` from position `i` on.
pub open spec fn occurs_at(part: Seq<char>, whole: Seq<char>, i: int) -> bool {
    0 <= i && i + part.len() <= whole.len() && whole.subrange(i, i + part.len()) == part
}

} // verus!
