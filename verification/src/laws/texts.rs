//! Numbers as text.
use vstd::prelude::*;

use crate::config::parse_port;
use crate::text::{decimal_text, signed_decimal_text};

verus! {

/// The character that stands for a digit.
pub open spec fn shows(c: char, digit: int) -> bool {
    c as int == '0' as int + digit
}

/// A digit is written as its character. A longer number is written as the
/// number without its last digit, and then that digit.
pub proof fn law_decimal_text_by_digits(n: u64, r: String, shorter: String)
    requires
        call_ensures(decimal_text, (n,), r),
        call_ensures(decimal_text, (n / 10,), shorter),
    ensures
        r@.len() > 0,
        shows(r@.last(), n as int % 10),
        n < 10 ==> r@.len() == 1,
        n >= 10 ==> r@.drop_last() == shorter@,
{
    if n >= 10 {
        assert(r@.drop_last() =~= shorter@);
    }
}

/// Numbers that differ are written differently.
pub proof fn law_decimal_text_is_injective(m: u64, n: u64, r: String)
    requires
        call_ensures(decimal_text, (m,), r),
        call_ensures(decimal_text, (n,), r),
    ensures
        m == n,
{
    crate::laws::lemma_decimal_value(m as nat);
    crate::laws::lemma_decimal_value(n as nat);
}

/// A number below zero is written as a minus sign and its magnitude, every
/// other one like a natural number.
pub proof fn law_signed_decimal_text(n: i32, r: String, magnitude: String)
    requires
        call_ensures(signed_decimal_text, (n,), r),
        call_ensures(
            decimal_text,
            (if n < 0 {
                (-n) as u64
            } else {
                n as u64
            },),
            magnitude,
        ),
    ensures
        n >= 0 ==> r@ == magnitude@,
        n < 0 ==> r@ == seq!['-'] + magnitude@,
{
    reveal_strlit("-");
    assert("-"@ =~= seq!['-']);
}

pub open spec fn a_digit(c: char) -> bool {
    '0' <= c && c <= '9'
}

/// What is read as a port is digits, behind at most one plus sign.
pub proof fn law_ports_are_digits(s: &str, port: u16)
    requires
        call_ensures(parse_port, (s,), Some(port)),
    ensures
        s@.len() > 0,
        a_digit(s@.last()),
        forall|i: int|
            0 <= i < s@.len() ==> a_digit(#[trigger] s@[i]) || (i == 0 && s@[i] == '+'),
{
    let digits = crate::text::behind_plus(s@);
    let shift = s@.len() - digits.len();
    assert forall|i: int| 0 <= i < s@.len() implies a_digit(#[trigger] s@[i]) || (i == 0 && s@[i]
        == '+') by {
        if i >= shift {
            assert(crate::text::is_digit(digits[i - shift]));
        }
    }
    assert(crate::text::is_digit(digits[digits.len() - 1]));
}

/// The empty text and a plus sign alone name no port; a digit names itself,
/// with a plus sign and without.
pub proof fn law_short_ports(s: &str, r: Option<u16>)
    requires
        call_ensures(parse_port, (s,), r),
    ensures
        s@.len() == 0 ==> r is None,
        s@ == seq!['+'] ==> r is None,
        s@.len() == 1 && a_digit(s@[0]) ==> (r matches Some(v) && shows(s@[0], v as int)),
        s@.len() == 2 && s@[0] == '+' && a_digit(s@[1]) ==> (r matches Some(v) && shows(
            s@[1],
            v as int,
        )),
{
    let digits = crate::text::behind_plus(s@);
    reveal_with_fuel(crate::text::digits_value, 2);
    if digits.len() == 1 {
        assert(digits.drop_last().len() == 0);
        if a_digit(digits[0]) {
            assert(crate::text::all_digits(digits));
        }
    }
}

/// One more digit multiplies the port by ten and adds the digit, as long as the
/// result is a port. Anything else behind a text names no port, and nothing
/// behind a text that names none mends it.
pub proof fn law_longer_ports(s: &str, t: &str, c: char, r: Option<u16>, longer: Option<u16>)
    requires
        call_ensures(parse_port, (s,), r),
        call_ensures(parse_port, (t,), longer),
        t@ == s@.push(c),
        s@.len() > 0,
        s@ != seq!['+'],
    ensures
        !a_digit(c) ==> longer is None,
        r is None ==> longer is None,
        r matches Some(v) ==> a_digit(c) ==> ({
            let value = 10 * v + (c as int - '0' as int);
            longer == if value <= 65535 {
                Some(value as u16)
            } else {
                None
            }
        }),
{
    let before = crate::text::behind_plus(s@);
    let after = crate::text::behind_plus(t@);
    assert(s@[0] == t@[0]);
    assert(after =~= before.push(c));
    assert(after.drop_last() =~= before);
    assert(before.len() > 0) by {
        if before.len() == 0 {
            assert(s@ =~= seq!['+']);
        }
    }
    assert(after[after.len() - 1] == c);
    if crate::text::all_digits(after) {
        assert(crate::text::is_digit(after[after.len() - 1]));
        assert forall|i: int| 0 <= i < before.len() implies crate::text::is_digit(
            #[trigger] before[i],
        ) by {
            assert(after[i] == before[i]);
        }
    }
    if crate::text::all_digits(before) && a_digit(c) {
        assert forall|i: int| 0 <= i < after.len() implies crate::text::is_digit(
            #[trigger] after[i],
        ) by {
            if i < before.len() {
                assert(after[i] == before[i]);
            }
        }
    }
}

} // verus!
