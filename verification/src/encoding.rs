//! Percent-encoding of octets under the OAuth reserved-character rule.

use vstd::prelude::*;
use vstd::string::*;

verus! {

/// The octets that are written as they are: ASCII letters, digits and `-`, `.`, `_`, `*`.
pub open spec fn is_unreserved(b: u8) -> bool {
    ||| 0x30 <= b <= 0x39
    ||| 0x41 <= b <= 0x5A
    ||| 0x61 <= b <= 0x7A
    ||| b == 0x2D
    ||| b == 0x2E
    ||| b == 0x5F
    ||| b == 0x2A
}

/// The upper-case hexadecimal digit for a value below sixteen.
pub open spec fn hex_upper(d: int) -> char {
    if d < 10 {
        (0x30 + d) as char
    } else {
        (0x41 + d - 10) as char
    }
}

/// `%XX`, the escape of one octet.
pub open spec fn escaped_octet(b: u8) -> Seq<char> {
    seq!['%', hex_upper(b as int / 16), hex_upper(b as int % 16)]
}

/// What one octet becomes in the encoded text.
pub open spec fn encoded_octet(b: u8) -> Seq<char> {
    if is_unreserved(b) {
        seq![b as char]
    } else {
        escaped_octet(b)
    }
}

/// The percent-encoded text of a sequence of octets.
pub open spec fn percent_encoded(bytes: Seq<u8>) -> Seq<char>
    decreases bytes.len(),
{
    if bytes.len() == 0 {
        Seq::empty()
    } else {
        percent_encoded(bytes.drop_last()) + encoded_octet(bytes.last())
    }
}

/// A character that the encoded text may hold as it is.
pub open spec fn is_unreserved_char(c: char) -> bool {
    (c as int) < 0x80 && is_unreserved(c as u8)
}

/// An upper-case hexadecimal digit.
pub open spec fn is_hex_upper_char(c: char) -> bool {
    0x30 <= (c as int) <= 0x39 || 0x41 <= (c as int) <= 0x46
}

/// Every character of an encoded text is one of `A-Z a-z 0-9 - . _ *` or
/// the sign `%`.
pub open spec fn in_encoded_alphabet(t: Seq<char>) -> bool {
    forall|i: int| 0 <= i < t.len() ==> is_unreserved_char(#[trigger] t[i]) || t[i] == '%'
}

/// Every `%` of the text is followed by two upper-case hexadecimal digits.
pub open spec fn escapes_are_complete(t: Seq<char>) -> bool {
    forall|i: int|
        0 <= i < t.len() && #[trigger] t[i] == '%' ==> i + 2 < t.len() && is_hex_upper_char(
            t[i + 1],
        ) && is_hex_upper_char(t[i + 2])
}

/// Encoding is total and leaves no octet outside the unreserved set as it
/// is: whatever the octets are, the encoded text holds only unreserved
/// characters and complete escapes.
pub proof fn lemma_percent_encoded_alphabet(bytes: Seq<u8>)
    ensures
        in_encoded_alphabet(percent_encoded(bytes)),
        escapes_are_complete(percent_encoded(bytes)),
    decreases bytes.len(),
{
    if bytes.len() > 0 {
        let head = percent_encoded(bytes.drop_last());
        let tail = encoded_octet(bytes.last());
        let all = percent_encoded(bytes);
        lemma_percent_encoded_alphabet(bytes.drop_last());
        assert(all == head + tail);
        assert forall|i: int| 0 <= i < all.len() implies (is_unreserved_char(#[trigger] all[i])
            || all[i] == '%') && (all[i] == '%' ==> i + 2 < all.len() && is_hex_upper_char(
            all[i + 1],
        ) && is_hex_upper_char(all[i + 2])) by {
            if i < head.len() {
                assert(all[i] == head[i]);
                if head[i] == '%' {
                    assert(all[i + 1] == head[i + 1]);
                    assert(all[i + 2] == head[i + 2]);
                }
            } else {
                assert(all[i] == tail[i - head.len()]);
                if !is_unreserved(bytes.last()) {
                    assert(all[head.len() as int + 1] == tail[1]);
                    assert(all[head.len() as int + 2] == tail[2]);
                }
            }
        }
    }
}

/// The sign `%` is itself escaped, so text that is already encoded is
/// encoded once more.
pub proof fn lemma_percent_sign_is_escaped()
    ensures
        percent_encoded(seq![0x25u8]) == seq!['%', '2', '5'],
{
    let one = seq![0x25u8];
    assert(one.drop_last() == Seq::<u8>::empty());
    assert(percent_encoded(one.drop_last()) == Seq::<char>::empty());
    assert(percent_encoded(one) == Seq::<char>::empty() + encoded_octet(0x25u8));
}

/// The encoded text of no octets is empty.
pub proof fn lemma_percent_encoded_empty()
    ensures
        percent_encoded(Seq::<u8>::empty()) == Seq::<char>::empty(),
{
}

/// `String::push` appends one character to the end of the string.
pub assume_specification[ String::push ](s: &mut String, ch: char)
    ensures
        final(s)@ == old(s)@.push(ch),
;

/// Calls `percent_encoding::percent_encode_byte`, which returns the three
/// characters `%XX` for every octet, `XX` being its value in upper-case
/// hexadecimal digits.
#[verifier::external_body]
fn escape_octet(b: u8) -> (r: &'static str)
    ensures
        r@ == escaped_octet(b),
{
    percent_encoding::percent_encode_byte(b)
}

/// Tests whether an octet is written as it is.
pub fn unreserved(b: u8) -> (r: bool)
    ensures
        r == is_unreserved(b),
{
    (0x30 <= b && b <= 0x39) || (0x41 <= b && b <= 0x5A) || (0x61 <= b && b <= 0x7A) || b == 0x2D
        || b == 0x2E || b == 0x5F || b == 0x2A
}

/// Percent-encodes a sequence of octets.
pub fn percent_encode_bytes(input: &[u8]) -> (out: String)
    ensures
        out@ == percent_encoded(input@),
        in_encoded_alphabet(out@),
        escapes_are_complete(out@),
{
    let mut out = String::new();
    let mut i: usize = 0;
    while i < input.len()
        invariant
            i <= input@.len(),
            out@ == percent_encoded(input@.take(i as int)),
        decreases input@.len() - i,
    {
        let b: u8 = input[i];
        proof {
            assert(input@.take(i + 1).drop_last() == input@.take(i as int));
            assert(input@.take(i + 1).last() == b);
        }
        if unreserved(b) {
            out.push(b as char);
        } else {
            out.append(escape_octet(b));
        }
        i += 1;
    }
    proof {
        assert(input@.take(i as int) == input@);
        lemma_percent_encoded_alphabet(input@);
    }
    out
}

/// Percent-encodes the UTF-8 octets of a string.
pub fn percent_encode(input: &str) -> (out: String)
    ensures
        out@ == percent_encoded(input.spec_bytes()),
        in_encoded_alphabet(out@),
        escapes_are_complete(out@),
{
    percent_encode_bytes(input.as_bytes())
}

} // verus!
