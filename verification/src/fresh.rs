//! A time stamp and a nonce for each signing operation.

use crate::credentials::Credentials;
use crate::credentials::SignError;
use crate::params::pairs_of;
use crate::sign::outcome_of;
use crate::sign::sign;
use crate::sign::sign_outcome;
use vstd::prelude::*;
use vstd::string::*;

verus! {

/// The decimal digit for a value below ten.
pub open spec fn digit_char(d: int) -> char {
    (0x30 + d) as char
}

/// The decimal digits of a natural number, without leading zeros.
pub open spec fn decimal_digits(n: nat) -> Seq<char>
    decreases n,
{
    if n < 10 {
        seq![digit_char(n as int)]
    } else {
        decimal_digits(n / 10).push(digit_char((n % 10) as int))
    }
}

/// An integer in decimal, with `-` before a negative one.
pub open spec fn decimal_text(n: int) -> Seq<char> {
    if n < 0 {
        seq!['-'] + decimal_digits((-n) as nat)
    } else {
        decimal_digits(n as nat)
    }
}

/// The lower-case hexadecimal digit for a value below sixteen.
pub open spec fn hex_lower(d: int) -> char {
    if d < 10 {
        (0x30 + d) as char
    } else {
        (0x61 + d - 10) as char
    }
}

/// The octets in lower-case hexadecimal digits, two for each.
pub open spec fn hex_text(octets: Seq<u8>) -> Seq<char>
    decreases octets.len(),
{
    if octets.len() == 0 {
        Seq::empty()
    } else {
        hex_text(octets.drop_last()) + seq![
            hex_lower(octets.last() as int / 16),
            hex_lower(octets.last() as int % 16),
        ]
    }
}

/// A time stamp: a number of seconds in decimal.
pub open spec fn is_timestamp_text(t: Seq<char>) -> bool {
    exists|seconds: int|
        i64::MIN <= seconds <= i64::MAX && t == #[trigger] decimal_text(seconds)
}

/// A nonce: sixteen octets in hexadecimal digits.
pub open spec fn is_nonce_text(t: Seq<char>) -> bool {
    exists|octets: Seq<u8>| octets.len() == 16 && t == #[trigger] hex_text(octets)
}

/// Calls `chrono::Utc::now` and `DateTime::timestamp`: the seconds since
/// the first of January 1970, by the clock of the machine. Nothing is
/// stated of the number.
#[verifier::external_body]
fn unix_seconds() -> i64 {
    chrono::Utc::now().timestamp()
}

/// Calls `rand::random`, which draws from the generator of the thread, a
/// cryptographic one that the operating system seeds. Nothing is stated of
/// the octets.
#[verifier::external_body]
fn random_octets() -> [u8; 16] {
    rand::random::<[u8; 16]>()
}

/// Appends the decimal digits of `n`.
fn push_decimal_digits(out: &mut String, n: u64)
    ensures
        final(out)@ == old(out)@ + decimal_digits(n as nat),
    decreases n,
{
    if n >= 10 {
        push_decimal_digits(out, n / 10);
    }
    let d: u8 = (n % 10) as u8;
    out.push((0x30 + d) as char);
}

/// Writes an integer in decimal.
pub fn decimal_string(n: i64) -> (out: String)
    ensures
        out@ == decimal_text(n as int),
{
    let mut out = String::new();
    if n < 0 {
        out.push('-');
        let magnitude: u64 = (-(n + 1)) as u64 + 1;
        push_decimal_digits(&mut out, magnitude);
    } else {
        push_decimal_digits(&mut out, n as u64);
    }
    out
}

/// The lower-case hexadecimal digit of a value below sixteen.
fn hex_digit(d: u8) -> (c: char)
    requires
        d < 16,
    ensures
        c == hex_lower(d as int),
{
    if d < 10 {
        (0x30 + d) as char
    } else {
        (0x61 + (d - 10)) as char
    }
}

/// Writes octets in lower-case hexadecimal digits.
pub fn hex_string(octets: &[u8]) -> (out: String)
    ensures
        out@ == hex_text(octets@),
{
    let mut out = String::new();
    let mut i: usize = 0;
    while i < octets.len()
        invariant
            i <= octets@.len(),
            out@ == hex_text(octets@.take(i as int)),
        decreases octets@.len() - i,
    {
        let b: u8 = octets[i];
        proof {
            assert(octets@.take(i + 1).drop_last() == octets@.take(i as int));
            assert(octets@.take(i + 1).last() == b);
        }
        out.push(hex_digit(b / 16));
        out.push(hex_digit(b % 16));
        i += 1;
    }
    proof {
        assert(octets@.take(i as int) == octets@);
    }
    out
}

/// The time stamp of this moment: the seconds of the clock, in decimal.
pub fn fresh_timestamp() -> (t: String)
    ensures
        is_timestamp_text(t@),
{
    let seconds = unix_seconds();
    decimal_string(seconds)
}

/// A new nonce: sixteen random octets in hexadecimal digits. It does not
/// depend on the time stamp.
pub fn fresh_nonce() -> (n: String)
    ensures
        is_nonce_text(n@),
{
    let octets = random_octets();
    hex_string(octets.as_slice())
}

/// Signs a request with a token, with the time stamp of this moment and a
/// new nonce. Whatever the two are, the result is that of `sign` with them.
pub fn sign_now(
    credentials: &Credentials,
    method: &str,
    endpoint_url: &str,
    request_parameters: &Vec<(String, String)>,
) -> (r: Result<String, SignError>)
    ensures
        exists|timestamp: Seq<char>, nonce: Seq<char>|
            is_timestamp_text(timestamp) && is_nonce_text(nonce) && outcome_of(r)
                == #[trigger] sign_outcome(
                credentials@,
                method@,
                endpoint_url@,
                pairs_of(request_parameters@),
                timestamp,
                nonce,
            ),
{
    let timestamp = fresh_timestamp();
    let nonce = fresh_nonce();
    sign(
        credentials,
        method,
        endpoint_url,
        request_parameters,
        timestamp.as_str(),
        nonce.as_str(),
    )
}

} // verus!
