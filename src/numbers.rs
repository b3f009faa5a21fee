//! Values that the wire protocol carries as text: integers, decimals,
//! instants and UUIDs.
use vstd::prelude::*;
use vstd::string::*;

verus! {

/// A decimal number: `mantissa / 10^scale`.
#[derive(Clone, Copy, Debug, PartialEq, Eq, Structural)]
pub struct Decimal {
    pub mantissa: i128,
    pub scale: u32,
}

/// An instant in UTC: seconds since the Unix epoch and the nanoseconds past
/// that second.
#[derive(Clone, Copy, Debug, PartialEq, Eq, Structural)]
pub struct Timestamp {
    pub seconds: i64,
    pub nanos: u32,
}

/// A UUID, as its 128-bit value.
#[derive(Clone, Copy, Debug, PartialEq, Eq, Structural)]
pub struct Uuid {
    pub value: u128,
}

/// What rust_decimal reads out of a text, as mantissa and scale.
pub uninterp spec fn decimal_of(s: Seq<char>) -> Option<(i128, u32)>;

/// What chrono reads out of a text as an instant in UTC, as seconds since the
/// epoch and nanoseconds past that second.
pub uninterp spec fn instant_of(s: Seq<char>) -> Option<(i64, u32)>;

/// What the uuid crate reads out of a text, as a 128-bit value.
pub uninterp spec fn uuid_of(s: Seq<char>) -> Option<u128>;

/// Relies on `<rust_decimal::Decimal as FromStr>::from_str`, which depends on
/// the text alone; `mantissa` and `scale` take the result apart.
#[verifier::external_body]
pub(crate) fn parse_decimal(s: &str) -> (r: Option<(i128, u32)>)
    ensures
        r == decimal_of(s@),
{
    <rust_decimal::Decimal as std::str::FromStr>::from_str(s).ok().map(|d| (d.mantissa(), d.scale()))
}

/// Relies on `<chrono::DateTime<chrono::Utc> as FromStr>::from_str` (a relaxed
/// RFC 3339), which depends on the text alone; `timestamp` and
/// `timestamp_subsec_nanos` take the result apart.
#[verifier::external_body]
pub(crate) fn parse_instant(s: &str) -> (r: Option<(i64, u32)>)
    ensures
        r == instant_of(s@),
{
    s.parse::<chrono::DateTime<chrono::Utc>>().ok().map(|d| (d.timestamp(), d.timestamp_subsec_nanos()))
}

/// Relies on `uuid::Uuid::parse_str`, which depends on the text alone;
/// `as_u128` gives the value.
#[verifier::external_body]
pub(crate) fn parse_uuid(s: &str) -> (r: Option<u128>)
    ensures
        r == uuid_of(s@),
{
    uuid::Uuid::parse_str(s).ok().map(|u| u.as_u128())
}

pub open spec fn decimal_text(s: Seq<char>) -> Option<Decimal> {
    match decimal_of(s) {
        Some((m, e)) => Some(Decimal { mantissa: m, scale: e }),
        None => None,
    }
}

pub open spec fn timestamp_text(s: Seq<char>) -> Option<Timestamp> {
    match instant_of(s) {
        Some((t, n)) => Some(Timestamp { seconds: t, nanos: n }),
        None => None,
    }
}

pub open spec fn uuid_text(s: Seq<char>) -> Option<Uuid> {
    match uuid_of(s) {
        Some(v) => Some(Uuid { value: v }),
        None => None,
    }
}

impl Decimal {
    /// Reads a decimal number out of its text.
    pub fn parse(s: &str) -> (r: Option<Decimal>)
        ensures
            r == decimal_text(s@),
    {
        match parse_decimal(s) {
            Some((m, e)) => Some(Decimal { mantissa: m, scale: e }),
            None => None,
        }
    }
}

impl Timestamp {
    /// Reads an instant out of its RFC 3339 text.
    pub fn parse(s: &str) -> (r: Option<Timestamp>)
        ensures
            r == timestamp_text(s@),
    {
        match parse_instant(s) {
            Some((t, n)) => Some(Timestamp { seconds: t, nanos: n }),
            None => None,
        }
    }
}

impl Uuid {
    /// Reads a UUID out of its text.
    pub fn parse(s: &str) -> (r: Option<Uuid>)
        ensures
            r == uuid_text(s@),
    {
        match parse_uuid(s) {
            Some(v) => Some(Uuid { value: v }),
            None => None,
        }
    }
}

pub open spec fn is_digit(c: char) -> bool {
    '0' <= c <= '9'
}

pub open spec fn all_digits(s: Seq<char>) -> bool {
    forall|i: int| 0 <= i < s.len() ==> is_digit(#[trigger] s[i])
}

/// The number that a string of decimal digits writes.
pub open spec fn digits_value(s: Seq<char>) -> int
    decreases s.len(),
{
    if s.len() == 0 {
        0
    } else {
        digits_value(s.drop_last()) * 10 + (s.last() as int - '0' as int)
    }
}

/// One or more decimal digits.
pub open spec fn is_numeral(s: Seq<char>) -> bool {
    s.len() > 0 && all_digits(s)
}

/// The integer that a text writes as std's integer parsing reads it: an
/// optional `+` or `-`, then one or more decimal digits.
pub open spec fn int_of_text(s: Seq<char>) -> Option<int> {
    if s.len() > 0 && s[0] == '-' && is_numeral(s.drop_first()) {
        Some(-digits_value(s.drop_first()))
    } else if s.len() > 0 && s[0] == '+' && is_numeral(s.drop_first()) {
        Some(digits_value(s.drop_first()))
    } else if is_numeral(s) {
        Some(digits_value(s))
    } else {
        None
    }
}

/// The text read as an `i64`: `None` where it writes no integer or one out of range.
pub open spec fn i64_of_text(s: Seq<char>) -> Option<i64> {
    match int_of_text(s) {
        Some(v) => if i64::MIN <= v <= i64::MAX { Some(v as i64) } else { None },
        None => None,
    }
}

/// The text read as a `u64`: no `-` sign, and the value in range.
pub open spec fn u64_of_text(s: Seq<char>) -> Option<u64> {
    if s.len() > 0 && s[0] == '-' {
        None
    } else {
        match int_of_text(s) {
            Some(v) => if 0 <= v <= u64::MAX { Some(v as u64) } else { None },
            None => None,
        }
    }
}

proof fn lemma_digits_grow(s: Seq<char>, k: int)
    requires
        all_digits(s),
        0 <= k <= s.len(),
    ensures
        0 <= digits_value(s.subrange(0, k)) <= digits_value(s),
    decreases s.len(),
{
    if s.len() > 0 && k < s.len() {
        assert(s.drop_last().subrange(0, k) =~= s.subrange(0, k));
        assert(is_digit(s[s.len() - 1]));
        lemma_digits_grow(s.drop_last(), k);
    } else if k == s.len() {
        assert(s.subrange(0, k) =~= s);
        lemma_digits_nonneg(s);
    }
}

proof fn lemma_digits_nonneg(s: Seq<char>)
    requires
        all_digits(s),
    ensures
        digits_value(s) >= 0,
    decreases s.len(),
{
    if s.len() > 0 {
        assert(is_digit(s[s.len() - 1]));
        lemma_digits_nonneg(s.drop_last());
    }
}

/// Reads the digits of `s` from `start` on, if they are one or more digits
/// whose value is at most `limit`.
fn parse_digits(s: &str, start: usize, limit: u64) -> (r: Option<u64>)
    requires
        start <= s@.len(),
    ensures
        ({
            let d = s@.subrange(start as int, s@.len() as int);
            r == if is_numeral(d) && digits_value(d) <= limit {
                Some(digits_value(d) as u64)
            } else {
                None
            }
        }),
{
    let n = s.unicode_len();
    if start >= n {
        return None;
    }
    let ghost d = s@.subrange(start as int, n as int);
    let mut acc: u64 = 0;
    let mut i: usize = start;
    while i < n
        invariant
            n == s@.len(),
            start <= i <= n,
            d == s@.subrange(start as int, n as int),
            all_digits(d.subrange(0, i - start)),
            acc as int == digits_value(d.subrange(0, i - start)),
            acc <= limit,
        decreases n - i,
    {
        let c = s.get_char(i);
        let ghost p = d.subrange(0, i - start + 1);
        assert(p.drop_last() =~= d.subrange(0, i - start));
        if c < '0' || c > '9' {
            assert(!all_digits(d)) by {
                assert(d[i - start] == c);
            }
            return None;
        }
        let v: u64 = (c as u32 - '0' as u32) as u64;
        assert(all_digits(p)) by {
            assert forall|j: int| 0 <= j < p.len() implies is_digit(#[trigger] p[j]) by {
                if j < p.len() - 1 {
                    assert(p[j] == d.subrange(0, i - start)[j]);
                }
            }
        }
        if v > limit || acc > (limit - v) / 10 {
            proof {
                assert(digits_value(p) > limit) by (nonlinear_arith)
                    requires
                        digits_value(p) == acc * 10 + v,
                        acc >= 0,
                        v > limit || acc > (limit - v) / 10,
                ;
                if is_numeral(d) {
                    lemma_digits_grow(d, i - start + 1);
                    assert(d.subrange(0, i - start + 1) == p);
                }
            }
            return None;
        }
        proof {
            assert(acc * 10 + v <= limit) by (nonlinear_arith)
                requires
                    acc <= (limit - v) / 10,
                    v <= limit,
            ;
        }
        acc = acc * 10 + v;
        i = i + 1;
    }
    assert(d.subrange(0, n - start) =~= d);
    Some(acc)
}

/// Reads an integer written in decimal, with an optional sign, as the API
/// sends quantities inside strings (`"100"`). `None` where the text writes
/// no integer or one out of the range of `i64`.
pub fn from_str(s: &str) -> (r: Option<i64>)
    ensures
        r == i64_of_text(s@),
{
    let n = s.unicode_len();
    if n == 0 {
        return None;
    }
    let c = s.get_char(0);
    assert(s@.subrange(1, n as int) =~= s@.drop_first());
    assert(s@.subrange(0, n as int) =~= s@);
    if c == '-' {
        assert(!is_numeral(s@)) by {
            assert(s@[0] == c);
        }
        let r = parse_digits(s, 1, 0x8000_0000_0000_0000u64);
        proof {
            if is_numeral(s@.drop_first()) {
                lemma_digits_nonneg(s@.drop_first());
            }
        }
        match r {
            Some(m) => {
                if m == 0x8000_0000_0000_0000u64 {
                    Some(i64::MIN)
                } else {
                    Some(-(m as i64))
                }
            },
            None => None,
        }
    } else if c == '+' {
        assert(!is_numeral(s@)) by {
            assert(s@[0] == c);
        }
        let r = parse_digits(s, 1, i64::MAX as u64);
        proof {
            if is_numeral(s@.drop_first()) {
                lemma_digits_nonneg(s@.drop_first());
            }
        }
        match r {
            Some(m) => Some(m as i64),
            None => None,
        }
    } else {
        let r = parse_digits(s, 0, i64::MAX as u64);
        proof {
            if is_numeral(s@) {
                lemma_digits_nonneg(s@);
            }
        }
        match r {
            Some(m) => Some(m as i64),
            None => None,
        }
    }
}

/// Reads an unsigned integer written in decimal, with an optional `+`.
/// `None` where the text writes no such integer or one out of the range of
/// `u64`.
pub fn from_str_unsigned(s: &str) -> (r: Option<u64>)
    ensures
        r == u64_of_text(s@),
{
    let n = s.unicode_len();
    if n == 0 {
        return None;
    }
    let c = s.get_char(0);
    assert(s@.subrange(1, n as int) =~= s@.drop_first());
    assert(s@.subrange(0, n as int) =~= s@);
    if c == '-' {
        None
    } else if c == '+' {
        assert(!is_numeral(s@)) by {
            assert(s@[0] == c);
        }
        proof {
            if is_numeral(s@.drop_first()) {
                lemma_digits_nonneg(s@.drop_first());
            }
        }
        parse_digits(s, 1, u64::MAX)
    } else {
        proof {
            if is_numeral(s@) {
                lemma_digits_nonneg(s@);
            }
        }
        parse_digits(s, 0, u64::MAX)
    }
}

} // verus!
