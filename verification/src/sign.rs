//! Signing a request: from credentials, method, endpoint, parameters, time
//! stamp and nonce to the value of the `Authorization` header.

use crate::credentials::Credentials;
use crate::credentials::CredentialsView;
use crate::credentials::SignError;
use crate::header::authorization_header;
use crate::header::authorization_header_text;
use crate::ordering::TextPair;
use crate::params::pairs_of;
use crate::signature::oauth_signature;
use crate::signature::oauth_signature_text;
use vstd::prelude::*;
use vstd::string::*;

verus! {

/// The six protocol parameters of a request, in ascending order of name.
pub open spec fn protocol_pairs(
    consumer_key: Seq<char>,
    nonce: Seq<char>,
    timestamp: Seq<char>,
    token: Seq<char>,
) -> Seq<TextPair> {
    seq![
        ("oauth_consumer_key"@, consumer_key),
        ("oauth_nonce"@, nonce),
        ("oauth_signature_method"@, "HMAC-SHA1"@),
        ("oauth_timestamp"@, timestamp),
        ("oauth_token"@, token),
        ("oauth_version"@, "1.0"@),
    ]
}

/// Some name occurs at two places of the list.
pub open spec fn has_duplicate_names(pairs: Seq<TextPair>) -> bool {
    exists|i: int, j: int| 0 <= i < j < pairs.len() && #[trigger] pairs[i].0 == #[trigger] pairs[j].0
}

/// The header of a request signed with a token. The signature covers the
/// protocol parameters and the parameters of the request; the header holds
/// the protocol parameters and, after them, the signature.
pub open spec fn signed_header_text(
    consumer_key: Seq<char>,
    consumer_secret: Seq<char>,
    token_key: Seq<char>,
    token_secret: Seq<char>,
    method: Seq<char>,
    endpoint: Seq<char>,
    request: Seq<TextPair>,
    timestamp: Seq<char>,
    nonce: Seq<char>,
) -> Seq<char> {
    let protocol = protocol_pairs(consumer_key, nonce, timestamp, token_key);
    let signature = oauth_signature_text(
        method,
        endpoint,
        consumer_secret,
        token_secret,
        protocol + request,
    );
    authorization_header_text(protocol.push(("oauth_signature"@, signature)))
}

/// What signing gives: a configuration error where the token is missing,
/// an encoding error where a name occurs twice among the protocol
/// parameters and those of the request, and the header in every other
/// case.
pub open spec fn sign_outcome(
    credentials: CredentialsView,
    method: Seq<char>,
    endpoint: Seq<char>,
    request: Seq<TextPair>,
    timestamp: Seq<char>,
    nonce: Seq<char>,
) -> Result<Seq<char>, SignError> {
    if !credentials.has_token() {
        Err(SignError::ConfigurationError)
    } else if has_duplicate_names(
        protocol_pairs(credentials.consumer_key, nonce, timestamp, credentials.token_key->0)
            + request,
    ) {
        Err(SignError::EncodingError)
    } else {
        Ok(
            signed_header_text(
                credentials.consumer_key,
                credentials.consumer_secret,
                credentials.token_key->0,
                credentials.token_secret->0,
                method,
                endpoint,
                request,
                timestamp,
                nonce,
            ),
        )
    }
}

/// The text of a header that was returned, or the error.
pub open spec fn outcome_of(r: Result<String, SignError>) -> Result<Seq<char>, SignError> {
    match r {
        Ok(header) => Ok(header@),
        Err(e) => Err(e),
    }
}

/// Tests whether a name occurs twice in the list.
pub fn find_duplicate_name(params: &Vec<(String, String)>) -> (found: bool)
    ensures
        found == has_duplicate_names(pairs_of(params@)),
{
    let ghost pairs = pairs_of(params@);
    let mut j: usize = 0;
    while j < params.len()
        invariant
            j <= params@.len(),
            pairs == pairs_of(params@),
            forall|a: int, b: int| 0 <= a < b < j ==> pairs[a].0 != pairs[b].0,
        decreases params@.len() - j,
    {
        let mut i: usize = 0;
        while i < j
            invariant
                i <= j < params@.len(),
                pairs == pairs_of(params@),
                forall|a: int| 0 <= a < i ==> pairs[a].0 != pairs[j as int].0,
            decreases j - i,
        {
            if params[i].0 == params[j].0 {
                proof {
                    assert(0 <= i < j < pairs.len() && pairs[i as int].0 == pairs[j as int].0);
                }
                return true;
            }
            i += 1;
        }
        j += 1;
    }
    false
}

/// Builds the six protocol parameters.
pub fn protocol_parameters(consumer_key: &str, nonce: &str, timestamp: &str, token: &str) -> (out:
    Vec<(String, String)>)
    ensures
        pairs_of(out@) == protocol_pairs(consumer_key@, nonce@, timestamp@, token@),
{
    let mut out: Vec<(String, String)> = Vec::new();
    out.push(("oauth_consumer_key".to_owned(), consumer_key.to_owned()));
    out.push(("oauth_nonce".to_owned(), nonce.to_owned()));
    out.push(("oauth_signature_method".to_owned(), "HMAC-SHA1".to_owned()));
    out.push(("oauth_timestamp".to_owned(), timestamp.to_owned()));
    out.push(("oauth_token".to_owned(), token.to_owned()));
    out.push(("oauth_version".to_owned(), "1.0".to_owned()));
    proof {
        assert(pairs_of(out@) =~= protocol_pairs(consumer_key@, nonce@, timestamp@, token@));
    }
    out
}

/// Copies a list of parameters.
pub fn copy_pairs(params: &Vec<(String, String)>) -> (out: Vec<(String, String)>)
    ensures
        pairs_of(out@) == pairs_of(params@),
{
    let mut out: Vec<(String, String)> = Vec::new();
    let mut i: usize = 0;
    while i < params.len()
        invariant
            i <= params@.len(),
            out@.len() == i,
            forall|k: int|
                0 <= k < i ==> (#[trigger] out@[k]).0@ == params@[k].0@ && out@[k].1@
                    == params@[k].1@,
        decreases params@.len() - i,
    {
        out.push((params[i].0.clone(), params[i].1.clone()));
        i += 1;
    }
    proof {
        assert(pairs_of(out@) =~= pairs_of(params@));
    }
    out
}

/// Builds the header of a request signed with the four credentials given.
/// The signature covers the six protocol parameters and the parameters of
/// the request; the header holds the protocol parameters and, last, the
/// signature.
pub fn signed_header(
    consumer_key: &str,
    consumer_secret: &str,
    token_key: &str,
    token_secret: &str,
    method: &str,
    endpoint_url: &str,
    request_parameters: &Vec<(String, String)>,
    timestamp: &str,
    nonce: &str,
) -> (header: String)
    ensures
        header@ == signed_header_text(
            consumer_key@,
            consumer_secret@,
            token_key@,
            token_secret@,
            method@,
            endpoint_url@,
            pairs_of(request_parameters@),
            timestamp@,
            nonce@,
        ),
{
    let mut protocol = protocol_parameters(consumer_key, nonce, timestamp, token_key);
    let ghost protocol_view = pairs_of(protocol@);
    let mut signed = copy_pairs(&protocol);
    let mut request = copy_pairs(request_parameters);
    signed.append(&mut request);
    proof {
        assert(pairs_of(signed@) =~= protocol_view + pairs_of(request_parameters@));
    }
    let signature = oauth_signature(method, endpoint_url, consumer_secret, token_secret, &signed);
    protocol.push(("oauth_signature".to_owned(), signature));
    proof {
        assert(pairs_of(protocol@) =~= protocol_view.push(("oauth_signature"@, signature@)));
    }
    authorization_header(&protocol)
}

/// Tests whether a name occurs twice among the six protocol parameters and
/// the parameters of a request.
pub fn request_repeats_a_name(
    consumer_key: &str,
    token_key: &str,
    request_parameters: &Vec<(String, String)>,
    timestamp: &str,
    nonce: &str,
) -> (found: bool)
    ensures
        found == has_duplicate_names(
            protocol_pairs(consumer_key@, nonce@, timestamp@, token_key@) + pairs_of(
                request_parameters@,
            ),
        ),
{
    let mut all = protocol_parameters(consumer_key, nonce, timestamp, token_key);
    let ghost protocol_view = pairs_of(all@);
    let mut request = copy_pairs(request_parameters);
    all.append(&mut request);
    proof {
        assert(pairs_of(all@) =~= protocol_view + pairs_of(request_parameters@));
    }
    find_duplicate_name(&all)
}

/// Signs a request with a token and returns the value of its
/// `Authorization` header.
///
/// The parameters of the request go into the signature and stay out of the
/// header. The time stamp and the nonce are the caller's: with the same
/// six inputs the result is the same.
pub fn sign(
    credentials: &Credentials,
    method: &str,
    endpoint_url: &str,
    request_parameters: &Vec<(String, String)>,
    timestamp: &str,
    nonce: &str,
) -> (r: Result<String, SignError>)
    ensures
        outcome_of(r) == sign_outcome(
            credentials@,
            method@,
            endpoint_url@,
            pairs_of(request_parameters@),
            timestamp@,
            nonce@,
        ),
{
    let token_key = match credentials.token_key() {
        Some(k) => k,
        None => {
            return Err(SignError::ConfigurationError);
        },
    };
    let token_secret = match credentials.token_secret() {
        Some(s) => s,
        None => {
            return Err(SignError::ConfigurationError);
        },
    };
    let consumer_key = credentials.consumer_key();
    if request_repeats_a_name(consumer_key, token_key, request_parameters, timestamp, nonce) {
        return Err(SignError::EncodingError);
    }
    Ok(
        signed_header(
            consumer_key,
            credentials.consumer_secret(),
            token_key,
            token_secret,
            method,
            endpoint_url,
            request_parameters,
            timestamp,
            nonce,
        ),
    )
}

/// The names of the six protocol parameters differ from one another.
pub proof fn lemma_protocol_names_are_distinct(
    consumer_key: Seq<char>,
    nonce: Seq<char>,
    timestamp: Seq<char>,
    token: Seq<char>,
)
    ensures
        !has_duplicate_names(protocol_pairs(consumer_key, nonce, timestamp, token)),
{
    reveal_strlit("oauth_consumer_key");
    reveal_strlit("oauth_nonce");
    reveal_strlit("oauth_signature_method");
    reveal_strlit("oauth_timestamp");
    reveal_strlit("oauth_token");
    reveal_strlit("oauth_version");
    let p = protocol_pairs(consumer_key, nonce, timestamp, token);
    assert(p[0].0.len() == 18);
    assert(p[1].0.len() == 11);
    assert(p[2].0.len() == 22);
    assert(p[3].0.len() == 15);
    assert(p[4].0.len() == 11);
    assert(p[5].0.len() == 13);
    assert(p[1].0[6] == 'n');
    assert(p[4].0[6] == 't');
}

/// With a token and no parameters of the request, signing gives a header.
pub proof fn lemma_sign_without_parameters_succeeds(
    credentials: CredentialsView,
    method: Seq<char>,
    endpoint: Seq<char>,
    timestamp: Seq<char>,
    nonce: Seq<char>,
)
    requires
        credentials.has_token(),
    ensures
        sign_outcome(credentials, method, endpoint, Seq::empty(), timestamp, nonce) == Ok::<
            Seq<char>,
            SignError,
        >(
            signed_header_text(
                credentials.consumer_key,
                credentials.consumer_secret,
                credentials.token_key->0,
                credentials.token_secret->0,
                method,
                endpoint,
                Seq::empty(),
                timestamp,
                nonce,
            ),
        ),
{
    let protocol = protocol_pairs(
        credentials.consumer_key,
        nonce,
        timestamp,
        credentials.token_key->0,
    );
    lemma_protocol_names_are_distinct(
        credentials.consumer_key,
        nonce,
        timestamp,
        credentials.token_key->0,
    );
    assert(protocol + Seq::<TextPair>::empty() =~= protocol);
}

/// Signing is reproducible: two results for the same credentials, method,
/// endpoint, parameters, time stamp and nonce are the same header, to the
/// character, or the same error.
pub proof fn lemma_sign_is_reproducible(
    credentials: CredentialsView,
    method: Seq<char>,
    endpoint: Seq<char>,
    request: Seq<TextPair>,
    timestamp: Seq<char>,
    nonce: Seq<char>,
    first: Result<String, SignError>,
    second: Result<String, SignError>,
)
    requires
        outcome_of(first) == sign_outcome(credentials, method, endpoint, request, timestamp, nonce),
        outcome_of(second) == sign_outcome(
            credentials,
            method,
            endpoint,
            request,
            timestamp,
            nonce,
        ),
    ensures
        outcome_of(first) == outcome_of(second),
        first matches Ok(a) ==> second matches Ok(b) && a@ == b@,
        first matches Err(e) ==> second == Err::<String, SignError>(e),
{
}

} // verus!
