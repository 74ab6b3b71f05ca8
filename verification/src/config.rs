//! What the environment variables settle, and their defaults.
use vstd::prelude::*;

use crate::text::{
    all_digits, behind_plus, decimal, decimal_text, digits_value, is_digit, port_of, text_of,
};

verus! {

/// The port that the master listens on unless it is told otherwise.
pub const DEFAULT_MASTER_PORT: u16 = 7000;

/// The port that `MASTER_PORT` asks for; the default where it is not set or
/// names no port.
pub open spec fn listen_port_of(master_port: Option<Seq<char>>) -> u16 {
    match master_port {
        Some(s) => match port_of(s) {
            Some(port) => port,
            None => DEFAULT_MASTER_PORT,
        },
        None => DEFAULT_MASTER_PORT,
    }
}

/// More digits never count less.
proof fn lemma_digits_grow(digits: Seq<char>, i: int)
    requires
        0 <= i <= digits.len(),
        all_digits(digits),
    ensures
        digits_value(digits.take(i)) <= digits_value(digits),
    decreases digits.len(),
{
    if i < digits.len() {
        lemma_digits_grow(digits.drop_last(), i);
        assert(digits.drop_last().take(i) =~= digits.take(i));
        assert(is_digit(digits[digits.len() - 1]));
    } else {
        assert(digits.take(i) =~= digits);
    }
}

/// Reads a port.
pub fn parse_port(s: &str) -> (r: Option<u16>)
    ensures
        r == port_of(s@),
{
    let n: usize = s.unicode_len();
    let start: usize = if n > 0 && s.get_char(0) == '+' {
        1
    } else {
        0
    };
    let ghost digits = behind_plus(s@);
    if start == n {
        return None;
    }
    let mut i: usize = start;
    let mut value: u32 = 0;
    while i < n
        invariant
            n == s@.len(),
            start <= i <= n,
            start <= 1,
            digits == s@.skip(start as int),
            digits == behind_plus(s@),
            forall|j: int| 0 <= j < i - start ==> is_digit(#[trigger] digits[j]),
            value == digits_value(digits.take(i - start)),
            value <= u16::MAX,
        decreases n - i,
    {
        let c: char = s.get_char(i);
        assert(c == digits[i - start]);
        if !('0' <= c && c <= '9') {
            assert(!is_digit(digits[i - start]));
            return None;
        }
        value = value * 10 + (c as u32 - '0' as u32);
        i = i + 1;
        assert(digits.take(i - start).drop_last() =~= digits.take(i - 1 - start));
        if value > 65535 {
            proof {
                if all_digits(digits) {
                    lemma_digits_grow(digits, i - start);
                }
            }
            return None;
        }
    }
    assert(digits.take(i - start) =~= digits);
    Some(value as u16)
}

/// The port that the master listens on.
pub fn listen_port(master_port: Option<String>) -> (r: u16)
    ensures
        r == listen_port_of(text_of(master_port)),
{
    match master_port {
        Some(s) => match parse_port(s.as_str()) {
            Some(port) => port,
            None => DEFAULT_MASTER_PORT,
        },
        None => DEFAULT_MASTER_PORT,
    }
}

/// The address that the master listens on.
pub fn listen_address(port: u16) -> (r: String)
    ensures
        r@ == "0.0.0.0:"@ + decimal(port as nat),
{
    let mut addr = "0.0.0.0:".to_string();
    addr.append(decimal_text(port as u64).as_str());
    addr
}

/// The address of this host, as far as it could be detected.
pub open spec fn local_ip_of(detected: Option<Seq<char>>) -> Seq<char> {
    match detected {
        Some(ip) => ip,
        None => "127.0.0.1"@,
    }
}

/// The address of this host: the one that was detected, or else the loopback
/// address.
pub fn local_ip_best_effort(detected: Option<String>) -> (r: String)
    ensures
        r@ == local_ip_of(text_of(detected)),
{
    match detected {
        Some(ip) => ip,
        None => "127.0.0.1".to_string(),
    }
}

/// The URL at which managers reach the master: the one that
/// `MASTER_ADVERTISE_URL` gives, or else one made of the address of this host
/// and the port that the master listens on.
pub open spec fn master_url_of(
    advertised: Option<Seq<char>>,
    detected: Option<Seq<char>>,
    port: u16,
) -> Seq<char> {
    match advertised {
        Some(url) => url,
        None => "http://"@ + local_ip_of(detected) + ":"@ + decimal(port as nat),
    }
}

/// The URL at which managers reach the master, which listens on that port. The
/// address of this host counts only where `MASTER_ADVERTISE_URL` is not set.
pub fn master_url(advertised: Option<String>, detected: Option<String>, port: u16) -> (r: String)
    ensures
        r@ == master_url_of(text_of(advertised), text_of(detected), port),
{
    match advertised {
        Some(url) => url,
        None => {
            let mut url = "http://".to_string();
            url.append(local_ip_best_effort(detected).as_str());
            url.append(":");
            url.append(decimal_text(port as u64).as_str());
            url
        },
    }
}

} // verus!
