//! The value of the `Authorization` header.

use crate::ordering::TextPair;
use crate::params::encode_pairs;
use crate::params::encoded_pairs;
use crate::params::pairs_of;
use crate::params::render_pairs;
use crate::params::rendered_pairs;
use vstd::prelude::*;
use vstd::string::*;

verus! {

/// The header value for a list of parameters: the word `OAuth`, a space,
/// and each parameter as `name="value"` with name and value encoded, in
/// the order of the list, joined by a comma and a space.
pub open spec fn authorization_header_text(pairs: Seq<TextPair>) -> Seq<char> {
    "OAuth "@ + rendered_pairs(encoded_pairs(pairs), "=\""@, "\""@, ", "@)
}

/// Assembles the header value from the protocol parameters, the signature
/// among them. The parameters are written in the order in which they are
/// given; nothing follows the last one.
pub fn authorization_header(params: &Vec<(String, String)>) -> (header: String)
    ensures
        header@ == authorization_header_text(pairs_of(params@)),
{
    let encoded = encode_pairs(params);
    let body = render_pairs(&encoded, "=\"", "\"", ", ");
    let mut header = "OAuth ".to_owned();
    header.append(body.as_str());
    header
}

} // verus!
