//! The signature base string, the signing key and the signature itself.

use crate::encoding::percent_encode;
use crate::encoding::percent_encode_bytes;
use crate::encoding::percent_encoded;
use crate::ordering::TextPair;
use crate::params::canonical_parameter_string;
use crate::params::canonical_parameter_text;
use crate::params::encoded_text;
use crate::params::pairs_of;
use vstd::prelude::*;
use vstd::string::*;
use vstd::utf8::encode_utf8;

verus! {

/// An ASCII lower-case letter becomes its upper-case letter; every other
/// octet stays.
pub open spec fn upper_octet(b: u8) -> u8 {
    if 0x61 <= b <= 0x7A {
        (b - 0x20) as u8
    } else {
        b
    }
}

/// The octets with every ASCII letter in upper case.
pub open spec fn uppercased(bytes: Seq<u8>) -> Seq<u8> {
    Seq::new(bytes.len(), |i: int| upper_octet(bytes[i]))
}

/// The signature base string: the method in upper case, the endpoint and
/// the canonical parameter string, each encoded, joined by `&`. The
/// parameter string is thereby encoded a second time as a whole.
pub open spec fn signature_base_text(
    method: Seq<char>,
    endpoint: Seq<char>,
    pairs: Seq<TextPair>,
) -> Seq<char> {
    percent_encoded(uppercased(encode_utf8(method))) + seq!['&'] + encoded_text(endpoint) + seq![
        '&',
    ] + encoded_text(canonical_parameter_text(pairs))
}

/// The signing key: the two secrets, each encoded, joined by `&`. With an
/// empty token secret the key ends in `&`.
pub open spec fn signing_key_text(consumer_secret: Seq<char>, token_secret: Seq<char>) -> Seq<
    char,
> {
    encoded_text(consumer_secret) + seq!['&'] + encoded_text(token_secret)
}

/// The HMAC-SHA1 digest of `message` under `key`.
pub uninterp spec fn hmac_sha1_digest(key: Seq<u8>, message: Seq<u8>) -> Seq<u8>;

/// The base64 text of `octets`, in the standard alphabet and padded.
pub uninterp spec fn base64_text(octets: Seq<u8>) -> Seq<char>;

/// The signature of a base string under a signing key: the base64 text of
/// the HMAC-SHA1 digest of the one under the other, both taken as UTF-8.
pub open spec fn signature_text(key: Seq<char>, base: Seq<char>) -> Seq<char> {
    base64_text(hmac_sha1_digest(encode_utf8(key), encode_utf8(base)))
}

/// The signature of a request.
pub open spec fn oauth_signature_text(
    method: Seq<char>,
    endpoint: Seq<char>,
    consumer_secret: Seq<char>,
    token_secret: Seq<char>,
    pairs: Seq<TextPair>,
) -> Seq<char> {
    signature_text(
        signing_key_text(consumer_secret, token_secret),
        signature_base_text(method, endpoint, pairs),
    )
}

/// Calls `hmacsha1::hmac_sha1`, which computes the HMAC of the message
/// under the key with SHA-1 as the hash and returns its twenty octets. The
/// digest is a function of the key and the message alone; what it is, is
/// not stated here.
#[verifier::external_body]
fn hmac_sha1(key: &[u8], message: &[u8]) -> (digest: [u8; 20])
    ensures
        digest@ == hmac_sha1_digest(key@, message@),
{
    hmacsha1::hmac_sha1(key, message)
}

/// Calls `base64::encode`, which writes the octets in base64 with the
/// standard alphabet and padding. The text is a function of the octets
/// alone; what it is, is not stated here.
#[verifier::external_body]
fn base64_encode(octets: &[u8; 20]) -> (text: String)
    ensures
        text@ == base64_text(octets@),
{
    base64::encode(octets)
}

/// Puts every ASCII letter of the input in upper case.
pub fn uppercase_octets(input: &[u8]) -> (out: Vec<u8>)
    ensures
        out@ == uppercased(input@),
{
    let mut out: Vec<u8> = Vec::new();
    let mut i: usize = 0;
    while i < input.len()
        invariant
            i <= input@.len(),
            out@.len() == i,
            forall|k: int| 0 <= k < i ==> #[trigger] out@[k] == upper_octet(input@[k]),
        decreases input@.len() - i,
    {
        let b: u8 = input[i];
        if 0x61 <= b && b <= 0x7A {
            out.push(b - 0x20);
        } else {
            out.push(b);
        }
        i += 1;
    }
    proof {
        assert(out@ =~= uppercased(input@));
    }
    out
}

/// Builds the signing key from the consumer secret and the token secret.
/// The token secret may be empty.
pub fn signing_key(consumer_secret: &str, token_secret: &str) -> (key: String)
    ensures
        key@ == signing_key_text(consumer_secret@, token_secret@),
{
    let mut key = percent_encode(consumer_secret);
    let token_part = percent_encode(token_secret);
    proof {
        reveal_strlit("&");
        assert("&"@ == seq!['&']);
    }
    key.append("&");
    key.append(token_part.as_str());
    key
}

/// Builds the signature base string of a request from its method, its
/// endpoint without the query, and the parameters that are signed.
pub fn signature_base_string(method: &str, endpoint: &str, params: &Vec<(String, String)>) -> (base:
    String)
    ensures
        base@ == signature_base_text(method@, endpoint@, pairs_of(params@)),
{
    let upper = uppercase_octets(method.as_bytes());
    let mut base = percent_encode_bytes(upper.as_slice());
    let endpoint_part = percent_encode(endpoint);
    let canonical = canonical_parameter_string(params);
    let params_part = percent_encode(canonical.as_str());
    proof {
        reveal_strlit("&");
        assert("&"@ == seq!['&']);
    }
    base.append("&");
    base.append(endpoint_part.as_str());
    base.append("&");
    base.append(params_part.as_str());
    base
}

/// The raw HMAC-SHA1 digest, twenty octets, of a base string under a
/// signing key.
pub fn signature_digest(key: &str, base: &str) -> (digest: [u8; 20])
    ensures
        digest@ == hmac_sha1_digest(encode_utf8(key@), encode_utf8(base@)),
{
    hmac_sha1(key.as_bytes(), base.as_bytes())
}

/// Signs a base string under a signing key and returns the signature as
/// base64 text.
pub fn sign_base_string(key: &str, base: &str) -> (signature: String)
    ensures
        signature@ == signature_text(key@, base@),
{
    let digest = signature_digest(key, base);
    base64_encode(&digest)
}

/// Computes the signature of a request: the base string of the method, the
/// endpoint and the parameters, signed under the key of the two secrets.
pub fn oauth_signature(
    method: &str,
    endpoint: &str,
    consumer_secret: &str,
    token_secret: &str,
    params: &Vec<(String, String)>,
) -> (signature: String)
    ensures
        signature@ == oauth_signature_text(
            method@,
            endpoint@,
            consumer_secret@,
            token_secret@,
            pairs_of(params@),
        ),
{
    let key = signing_key(consumer_secret, token_secret);
    let base = signature_base_string(method, endpoint, params);
    sign_base_string(key.as_str(), base.as_str())
}

} // verus!
