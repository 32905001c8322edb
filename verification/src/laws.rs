//! What holds of every request and of every answer, stated over the query
//! that a request is written out as.

use crate::answer::Answer;
use crate::decimal::{coordinate_of, fell_back, has_point_at, is_decimal, is_digit, is_magnitude};
use crate::request::{flag_text, query_text, RequestView};
use crate::text::{eq_ignoring_ascii_case, occurs_at, occurs_in, trimmed};
use vstd::prelude::*;

verus! {

/// Whether `whole` ends with `part`.
pub open spec fn ends_with(whole: Seq<char>, part: Seq<char>) -> bool {
    occurs_at(part, whole, whole.len() - part.len())
}

/// A latitude that could not be read is asked for as zero: where the
/// reading fell back, the query carries `latitude=0` as its first
/// parameter, whole, up to the `&` that ends it.
pub proof fn lemma_unread_latitude_is_zero(reading: Option<Seq<char>>, lon: Seq<char>, flag: bool)
    requires
        fell_back(reading),
    ensures
        coordinate_of(reading) == "0"@,
        occurs_at(
            "?latitude=0&"@,
            query_text(RequestView { lat: coordinate_of(reading), lon, currentweather: flag }),
            8,
        ),
        occurs_in(
            "latitude=0"@,
            query_text(RequestView { lat: coordinate_of(reading), lon, currentweather: flag }),
        ),
{
    reveal_strlit("0");
    reveal_strlit("forecast?latitude=");
    reveal_strlit("&longitude=");
    reveal_strlit("?latitude=0&");
    reveal_strlit("latitude=0");
    let q = query_text(RequestView { lat: coordinate_of(reading), lon, currentweather: flag });
    assert(q.subrange(8, 20) =~= "?latitude=0&"@);
    assert(q.subrange(9, 19) =~= "latitude=0"@);
    assert(occurs_at("latitude=0"@, q, 9));
}

/// A longitude that could not be read is asked for as zero: where the
/// reading fell back, the query carries `longitude=0` as its second
/// parameter, whole, between the two `&` that bound it.
pub proof fn lemma_unread_longitude_is_zero(lat: Seq<char>, reading: Option<Seq<char>>, flag: bool)
    requires
        fell_back(reading),
    ensures
        coordinate_of(reading) == "0"@,
        occurs_at(
            "&longitude=0&"@,
            query_text(RequestView { lat, lon: coordinate_of(reading), currentweather: flag }),
            18 + lat.len() as int,
        ),
        occurs_in(
            "longitude=0"@,
            query_text(RequestView { lat, lon: coordinate_of(reading), currentweather: flag }),
        ),
{
    reveal_strlit("0");
    reveal_strlit("forecast?latitude=");
    reveal_strlit("&longitude=");
    reveal_strlit("&current_weather=");
    reveal_strlit("&longitude=0&");
    reveal_strlit("longitude=0");
    let q = query_text(RequestView { lat, lon: coordinate_of(reading), currentweather: flag });
    let at: int = 18 + lat.len() as int;
    assert(q.subrange(at, at + 13) =~= "&longitude=0&"@);
    assert(q.subrange(at + 1, at + 1 + 11) =~= "longitude=0"@);
    assert(occurs_at("longitude=0"@, q, at + 1));
}

/// The flag of the query follows the answer: a line that reads `yes`,
/// whatever its case and the white space around it, gives a query that ends
/// with `current_weather=true`; every other line, `no` among them, gives
/// one that ends with `current_weather=false`.
pub proof fn lemma_flag_follows_answer(line: Seq<char>, lat: Seq<char>, lon: Seq<char>)
    ensures
        Answer::of(line).wants() <==> eq_ignoring_ascii_case(trimmed(line), "yes"@),
        eq_ignoring_ascii_case(trimmed(line), "yes"@) ==> ends_with(
            query_text(RequestView { lat, lon, currentweather: Answer::of(line).wants() }),
            "&current_weather=true"@,
        ),
        !eq_ignoring_ascii_case(trimmed(line), "yes"@) ==> ends_with(
            query_text(RequestView { lat, lon, currentweather: Answer::of(line).wants() }),
            "&current_weather=false"@,
        ),
        occurs_in(
            "current_weather="@ + flag_text(eq_ignoring_ascii_case(trimmed(line), "yes"@)),
            query_text(RequestView { lat, lon, currentweather: Answer::of(line).wants() }),
        ),
{
    reveal_strlit("&current_weather=");
    reveal_strlit("true");
    reveal_strlit("false");
    reveal_strlit("&current_weather=true");
    reveal_strlit("&current_weather=false");
    let flag = Answer::of(line).wants();
    let q = query_text(RequestView { lat, lon, currentweather: flag });
    let part = "current_weather="@ + flag_text(flag);
    reveal_strlit("current_weather=");
    if flag {
        assert(q.subrange(q.len() - 21, q.len() as int) =~= "&current_weather=true"@);
        assert(q.subrange(q.len() - 20, q.len() - 20 + part.len()) =~= part);
        assert(occurs_at(part, q, q.len() - 20));
    } else {
        assert(q.subrange(q.len() - 22, q.len() as int) =~= "&current_weather=false"@);
        assert(q.subrange(q.len() - 21, q.len() - 21 + part.len()) =~= part);
        assert(occurs_at(part, q, q.len() - 21));
    }
}

/// A latitude that was read is asked for as it was read: the query carries
/// the reading, whole, as the value of its first parameter.
pub proof fn lemma_read_latitude_is_asked(reading: Seq<char>, lon: Seq<char>, flag: bool)
    requires
        is_decimal(reading),
    ensures
        !fell_back(Some(reading)),
        coordinate_of(Some(reading)) == reading,
        occurs_at(
            "?latitude="@ + reading + "&"@,
            query_text(RequestView { lat: coordinate_of(Some(reading)), lon, currentweather: flag }),
            8,
        ),
{
    reveal_strlit("forecast?latitude=");
    reveal_strlit("&longitude=");
    reveal_strlit("?latitude=");
    reveal_strlit("&");
    let q = query_text(RequestView { lat: reading, lon, currentweather: flag });
    let part = "?latitude="@ + reading + "&"@;
    assert(q.subrange(8, 8 + part.len() as int) =~= part);
}

/// A longitude that was read is asked for as it was read: the query carries
/// the reading, whole, as the value of its second parameter.
pub proof fn lemma_read_longitude_is_asked(lat: Seq<char>, reading: Seq<char>, flag: bool)
    requires
        is_decimal(reading),
    ensures
        !fell_back(Some(reading)),
        coordinate_of(Some(reading)) == reading,
        occurs_at(
            "&longitude="@ + reading + "&"@,
            query_text(RequestView { lat, lon: coordinate_of(Some(reading)), currentweather: flag }),
            18 + lat.len() as int,
        ),
{
    reveal_strlit("forecast?latitude=");
    reveal_strlit("&longitude=");
    reveal_strlit("&current_weather=");
    reveal_strlit("&");
    let q = query_text(RequestView { lat, lon: reading, currentweather: flag });
    let part = "&longitude="@ + reading + "&"@;
    let at: int = 18 + lat.len() as int;
    assert(q.subrange(at, at + part.len() as int) =~= part);
}

/// No number written out in decimal holds the `&` that parts the
/// parameters of a query.
pub proof fn lemma_decimal_has_no_separator(s: Seq<char>)
    requires
        is_decimal(s),
    ensures
        forall|i: int| 0 <= i < s.len() ==> #[trigger] s[i] != '&',
{
    reveal_strlit("NaN");
    reveal_strlit("inf");
    reveal_strlit("-inf");
    assert forall|i: int| 0 <= i < s.len() implies #[trigger] s[i] != '&' by {
        if s == "NaN"@ || s == "inf"@ || s == "-inf"@ {
        } else if is_magnitude(s) {
            lemma_magnitude_is_digits_and_point(s, i);
        } else {
            if i > 0 {
                lemma_magnitude_is_digits_and_point(s.drop_first(), i - 1);
            }
        }
    }
}

/// Every character of a number without a sign is a digit or the point.
proof fn lemma_magnitude_is_digits_and_point(s: Seq<char>, i: int)
    requires
        is_magnitude(s),
        0 <= i < s.len(),
    ensures
        is_digit(s[i]) || s[i] == '.',
{
    if !(s.len() > 0 && crate::decimal::all_digits(s)) {
        let k = choose|k: int| has_point_at(s, k);
        if i < k {
            assert(is_digit(s.take(k)[i]));
        } else if i > k {
            assert(is_digit(s.skip(k + 1)[i - k - 1]));
        }
    }
}

/// A query is read back in one way only: two requests that are written out
/// as the same query are the same request.
pub proof fn lemma_query_determines_request(a: RequestView, b: RequestView)
    requires
        is_decimal(a.lat),
        is_decimal(a.lon),
        is_decimal(b.lat),
        is_decimal(b.lon),
        query_text(a) == query_text(b),
    ensures
        a == b,
{
    reveal_strlit("forecast?latitude=");
    reveal_strlit("&longitude=");
    reveal_strlit("&current_weather=");
    reveal_strlit("true");
    reveal_strlit("false");
    lemma_decimal_has_no_separator(a.lat);
    lemma_decimal_has_no_separator(a.lon);
    lemma_decimal_has_no_separator(b.lat);
    lemma_decimal_has_no_separator(b.lon);
    let qa = query_text(a);
    let qb = query_text(b);
    let la: int = a.lat.len() as int;
    let lb: int = b.lat.len() as int;
    if la < lb {
        assert(qa[18 + la] == '&');
        assert(qb[18 + la] == b.lat[la]);
    }
    if lb < la {
        assert(qb[18 + lb] == '&');
        assert(qa[18 + lb] == a.lat[lb]);
    }
    assert(a.lat =~= b.lat) by {
        assert forall|i: int| 0 <= i < la implies a.lat[i] == b.lat[i] by {
            assert(qa[18 + i] == a.lat[i]);
            assert(qb[18 + i] == b.lat[i]);
        }
    }
    let at: int = 18 + la + 11;
    let na: int = a.lon.len() as int;
    let nb: int = b.lon.len() as int;
    if na < nb {
        assert(qa[at + na] == '&');
        assert(qb[at + na] == b.lon[na]);
    }
    if nb < na {
        assert(qb[at + nb] == '&');
        assert(qa[at + nb] == a.lon[nb]);
    }
    assert(a.lon =~= b.lon) by {
        assert forall|i: int| 0 <= i < na implies a.lon[i] == b.lon[i] by {
            assert(qa[at + i] == a.lon[i]);
            assert(qb[at + i] == b.lon[i]);
        }
    }
    assert(qa.len() == at + na + 17 + flag_text(a.currentweather).len());
    assert(qb.len() == at + nb + 17 + flag_text(b.currentweather).len());
}

} // verus!
