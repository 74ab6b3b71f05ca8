//! The calls whose results chance and time decide, and what holds of every
//! outcome.
use vstd::prelude::*;

use crate::text::{digit_value, is_digit};

verus! {

/// A lower-case hexadecimal digit.
pub open spec fn is_hex(c: char) -> bool {
    is_digit(c) || ('a' <= c && c <= 'f')
}

/// The hyphenated text of a random (version 4) UUID: groups of 8, 4, 4, 4 and
/// 12 lower-case hexadecimal digits, the third of which begins with the
/// version and the fourth with the variant.
pub open spec fn is_uuid_v4(s: Seq<char>) -> bool {
    &&& s.len() == 36
    &&& forall|i: int|
        0 <= i < 36 ==> if i == 8 || i == 13 || i == 18 || i == 23 {
            #[trigger] s[i] == '-'
        } else {
            is_hex(s[i])
        }
    &&& s[14] == '4'
    &&& s[19] == '8' || s[19] == '9' || s[19] == 'a' || s[19] == 'b'
}

/// Decimal digits from one position up to another.
pub open spec fn digits_between(s: Seq<char>, from: int, to: int) -> bool {
    0 <= from <= to <= s.len() && forall|i: int| from <= i < to ==> is_digit(#[trigger] s[i])
}

/// A number of two decimal digits at a position, between two bounds.
pub open spec fn two_digits(s: Seq<char>, at: int, low: int, high: int) -> bool {
    digits_between(s, at, at + 2) && low <= 10 * digit_value(s[at]) + digit_value(s[at + 1])
        <= high
}

/// An RFC 3339 date and time whose date and time of day part at position `t`,
/// with no fraction of a second or one of 3, 6 or 9 digits, in UTC. A year of
/// more than four digits has a plus sign.
pub open spec fn is_rfc3339_utc_at(s: Seq<char>, t: int) -> bool {
    let end = s.len() - 6;
    &&& 10 <= t && t + 9 <= end
    &&& t == 10 || (t >= 12 && s[0] == '+' && digits_between(s, 1, t - 6))
    &&& digits_between(s, t - 10, t - 6) && s[t - 6] == '-'
    &&& two_digits(s, t - 5, 1, 12) && s[t - 3] == '-'
    &&& two_digits(s, t - 2, 1, 31) && s[t] == 'T'
    &&& two_digits(s, t + 1, 0, 23) && s[t + 3] == ':'
    &&& two_digits(s, t + 4, 0, 59) && s[t + 6] == ':'
    &&& two_digits(s, t + 7, 0, 59)
    &&& end == t + 9 || (s[t + 9] == '.' && digits_between(s, t + 10, end) && (end == t + 13 || end
        == t + 16 || end == t + 19))
    &&& s.skip(end) == "+00:00"@
}

pub open spec fn is_rfc3339_utc(s: Seq<char>) -> bool {
    exists|t: int| is_rfc3339_utc_at(s, t)
}

/// Calls `uuid::Uuid::new_v4` and writes the UUID down with its `Display`.
///
/// Trusted: whatever the random bytes are, the text is that of a version 4
/// UUID. Nothing is said of which one, nor that two calls differ. The call
/// panics where the operating system yields no random bytes, which no
/// argument decides.
#[verifier::external_body]
pub(crate) fn fresh_uuid() -> (r: String)
    ensures
        is_uuid_v4(r@),
{
    uuid::Uuid::new_v4().to_string()
}

/// Calls `chrono::Utc::now` and writes the time down with `to_rfc3339`.
///
/// Trusted: whatever the time is, the text is an RFC 3339 date and time in
/// UTC. Nothing is said of which one. The call panics where the system clock
/// stands before 1970, which no argument decides.
#[verifier::external_body]
pub(crate) fn now_rfc3339() -> (r: String)
    ensures
        is_rfc3339_utc(r@),
{
    chrono::Utc::now().to_rfc3339()
}

} // verus!
