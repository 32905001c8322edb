//! Coordinates in decimal degrees, carried as the text in which they are
//! written out: digits, at most one point with digits on both sides, and a
//! minus sign in front where the number is negative. The three words by
//! which a number that is no number, or is without bound, is written out
//! count as well.

use crate::text::chars_of;
use vstd::prelude::*;

verus! {

/// Whether `c` is one of the ten decimal digits.
pub open spec fn is_digit(c: char) -> bool {
    '0' <= c <= '9'
}

/// Whether every character of `s` is a decimal digit.
pub open spec fn all_digits(s: Seq<char>) -> bool {
    forall|i: int| 0 <= i < s.len() ==> is_digit(#[trigger] s[i])
}

/// Whether `s` has a point at `k`, with nothing but digits, and at least
/// one of them, on either side.
pub open spec fn has_point_at(s: Seq<char>, k: int) -> bool {
    &&& 0 < k < s.len() - 1
    &&& s[k] == '.'
    &&& all_digits(s.take(k))
    &&& all_digits(s.skip(k + 1))
}

/// Whether `s` writes out a number without a sign: digits, or digits, a
/// point and digits.
pub open spec fn is_magnitude(s: Seq<char>) -> bool {
    ||| s.len() > 0 && all_digits(s)
    ||| exists|k: int| has_point_at(s, k)
}

/// Whether `s` is a number written out in decimal.
pub open spec fn is_decimal(s: Seq<char>) -> bool {
    ||| s == "NaN"@
    ||| s == "inf"@
    ||| s == "-inf"@
    ||| is_magnitude(s)
    ||| s.len() > 0 && s[0] == '-' && is_magnitude(s.drop_first())
}

/// Returns the first position at or after `from` at which `v` holds no
/// digit, or the length of `v` where it holds digits to the end.
fn digits_end(v: &Vec<char>, from: usize) -> (end: usize)
    requires
        from <= v.len(),
    ensures
        from <= end <= v.len(),
        forall|k: int| from <= k < end ==> is_digit(#[trigger] v@[k]),
        end < v.len() ==> !is_digit(v@[end as int]),
{
    let mut end: usize = from;
    while end < v.len() && '0' <= v[end] && v[end] <= '9'
        invariant
            from <= end <= v.len(),
            forall|k: int| from <= k < end ==> is_digit(#[trigger] v@[k]),
        decreases v.len() - end,
    {
        end = end + 1;
    }
    end
}

/// Tells whether the characters of `v` from `start` on write out a number
/// without a sign.
fn magnitude_from(v: &Vec<char>, start: usize) -> (r: bool)
    requires
        start <= v.len(),
    ensures
        r == is_magnitude(v@.skip(start as int)),
{
    let ghost body = v@.skip(start as int);
    let n = v.len();
    let whole_end = digits_end(v, start);
    let ghost j = whole_end - start;
    if whole_end == start {
        proof {
            assert forall|k: int| !has_point_at(body, k) by {
                if has_point_at(body, k) {
                    assert(is_digit(body.take(k)[0]));
                }
            }
            if body.len() > 0 {
                assert(!is_digit(body[0]));
            }
        }
        return false;
    }
    if whole_end == n {
        proof {
            assert forall|i: int| 0 <= i < body.len() implies is_digit(#[trigger] body[i]) by {
                assert(body[i] == v@[start + i]);
            }
        }
        return true;
    }
    assert(body[j] == v@[whole_end as int]);
    assert forall|i: int| 0 <= i < j implies is_digit(#[trigger] body[i]) by {
        assert(body[i] == v@[start + i]);
    }
    if v[whole_end] != '.' {
        proof {
            assert forall|k: int| !has_point_at(body, k) by {
                if has_point_at(body, k) {
                    if j < k {
                        assert(is_digit(body.take(k)[j]));
                    } else if j > k {
                        assert(is_digit(body.skip(k + 1)[j - k - 1]));
                    }
                }
            }
        }
        return false;
    }
    let fraction_end = digits_end(v, whole_end + 1);
    proof {
        assert forall|k: int| has_point_at(body, k) implies k == j by {
            if k < j {
                assert(is_digit(body[k]));
            } else if k > j {
                assert(is_digit(body.take(k)[j]));
            }
        }
        if fraction_end == n && fraction_end > whole_end + 1 {
            assert forall|i: int| 0 <= i < body.skip(j + 1).len() implies is_digit(
                #[trigger] body.skip(j + 1)[i],
            ) by {
                assert(body.skip(j + 1)[i] == v@[whole_end + 1 + i]);
            }
            assert(has_point_at(body, j));
        } else if has_point_at(body, j) {
            if fraction_end < n {
                assert(is_digit(body.skip(j + 1)[fraction_end - whole_end - 1]));
            }
        }
    }
    fraction_end == n && fraction_end > whole_end + 1
}

/// Tells whether `text` is a number written out in decimal.
pub fn is_decimal_text(text: &str) -> (r: bool)
    ensures
        r == is_decimal(text@),
{
    let v = chars_of(text);
    let n = v.len();
    proof {
        reveal_strlit("NaN");
        reveal_strlit("inf");
        reveal_strlit("-inf");
    }
    if n == 3 && v[0] == 'N' && v[1] == 'a' && v[2] == 'N' {
        assert(text@ =~= "NaN"@);
        return true;
    }
    if n == 3 && v[0] == 'i' && v[1] == 'n' && v[2] == 'f' {
        assert(text@ =~= "inf"@);
        return true;
    }
    if n == 4 && v[0] == '-' && v[1] == 'i' && v[2] == 'n' && v[3] == 'f' {
        assert(text@ =~= "-inf"@);
        return true;
    }
    if n > 0 && v[0] == '-' {
        proof {
            assert(v@.skip(1) =~= text@.drop_first());
            assert forall|k: int| !has_point_at(text@, k) by {
                if has_point_at(text@, k) {
                    assert(is_digit(text@.take(k)[0]));
                }
            }
        }
        magnitude_from(&v, 1)
    } else {
        proof {
            assert(v@.skip(0) =~= text@);
        }
        magnitude_from(&v, 0)
    }
}

/// A coordinate in decimal degrees: a number written out in decimal.
#[derive(Debug)]
pub struct Coordinate {
    text: String,
}

impl View for Coordinate {
    type V = Seq<char>;

    closed spec fn view(&self) -> Seq<char> {
        self.text@
    }
}

impl Coordinate {
    /// Every coordinate holds a number written out in decimal.
    #[verifier::type_invariant]
    spec fn well_formed(self) -> bool {
        is_decimal(self.text@)
    }

    /// The coordinate zero, written `0`.
    pub fn zero() -> (c: Coordinate)
        ensures
            c@ == "0"@,
    {
        proof {
            reveal_strlit("0");
            assert("0"@.len() > 0 && all_digits("0"@));
        }
        Coordinate { text: String::from_str("0") }
    }

    /// Takes `text` for a coordinate where it is a number written out in
    /// decimal, and refuses it otherwise.
    pub fn from_decimal(text: &str) -> (r: Option<Coordinate>)
        ensures
            match r {
                Some(c) => is_decimal(text@) && c@ == text@,
                None => !is_decimal(text@),
            },
    {
        if is_decimal_text(text) {
            Some(Coordinate { text: String::from_str(text) })
        } else {
            None
        }
    }

    /// Makes a coordinate of what was read for it. A reading is the number
    /// that was typed, written out in decimal, or `None` where no number
    /// could be made of what was typed. Where there is none, or where the
    /// reading is no number written out in decimal, the coordinate is zero
    /// and the second component is `true`: the caller owes a warning.
    pub fn from_reading(reading: Option<&str>) -> (r: (Coordinate, bool))
        ensures
            r.0@ == coordinate_of(option_view(reading)),
            r.1 == fell_back(option_view(reading)),
    {
        match reading {
            Some(text) => match Coordinate::from_decimal(text) {
                Some(c) => (c, false),
                None => (Coordinate::zero(), true),
            },
            None => (Coordinate::zero(), true),
        }
    }

    /// The text of the coordinate.
    pub fn as_str(&self) -> (s: &str)
        ensures
            s@ == self@,
            is_decimal(s@),
    {
        proof {
            use_type_invariant(self);
        }
        self.text.as_str()
    }
}

impl Clone for Coordinate {
    fn clone(&self) -> (c: Coordinate)
        ensures
            c@ == self@,
    {
        proof {
            use_type_invariant(self);
        }
        Coordinate { text: self.text.clone() }
    }
}

/// A reading as a value of its own: the text, where there is one.
pub open spec fn option_view(reading: Option<&str>) -> Option<Seq<char>> {
    match reading {
        Some(text) => Some(text@),
        None => None,
    }
}

/// Whether a reading is replaced by zero: there is none, or it is no number
/// written out in decimal.
pub open spec fn fell_back(reading: Option<Seq<char>>) -> bool {
    match reading {
        Some(text) => !is_decimal(text),
        None => true,
    }
}

/// The coordinate that a reading gives: the reading itself, or zero where
/// it is replaced.
pub open spec fn coordinate_of(reading: Option<Seq<char>>) -> Seq<char> {
    match reading {
        Some(text) if is_decimal(text) => text,
        _ => "0"@,
    }
}

} // verus!
