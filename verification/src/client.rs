//! The client of the Twitter API: credentials that sign requests with
//! OAuth 1.0a.

use crate::credentials::Credentials;
use crate::credentials::CredentialsView;
use crate::credentials::SignError;
use crate::fresh::fresh_nonce;
use crate::fresh::fresh_timestamp;
use crate::fresh::is_nonce_text;
use crate::fresh::is_timestamp_text;
use crate::ordering::TextPair;
use crate::params::pairs_of;
use crate::sign::lemma_sign_without_parameters_succeeds;
use crate::sign::outcome_of;
use crate::sign::sign;
use crate::sign::sign_outcome;
use crate::sign::signed_header_text;
use crate::signature::oauth_signature;
use crate::signature::oauth_signature_text;
use vstd::prelude::*;
use vstd::string::*;

verus! {

/// Holds the consumer key and secret and, once it is set, the access
/// token.
pub struct Client {
    credentials: Credentials,
}

impl View for Client {
    type V = CredentialsView;

    closed spec fn view(&self) -> CredentialsView {
        self.credentials@
    }
}

impl Client {
    /// A client of the consumer given, without an access token yet.
    pub fn new(consumer_key: String, consumer_secret: String) -> (client: Client)
        ensures
            client@ == (CredentialsView {
                consumer_key: consumer_key@,
                consumer_secret: consumer_secret@,
                token_key: None,
                token_secret: None,
            }),
    {
        Client { credentials: Credentials::new(consumer_key, consumer_secret) }
    }

    /// Sets the access token that requests are signed with.
    pub fn set_access_token(&mut self, access_token_key: String, access_token_secret: String)
        ensures
            final(self)@ == (CredentialsView {
                token_key: Some(access_token_key@),
                token_secret: Some(access_token_secret@),
                ..old(self)@
            }),
    {
        self.credentials.set_token(access_token_key, access_token_secret);
    }

    /// The credentials of the client.
    pub fn credentials(&self) -> (c: &Credentials)
        ensures
            c@ == self@,
    {
        &self.credentials
    }

    /// Builds the `Authorization` header of a request from its method and
    /// its endpoint, with the time stamp and the nonce given. Without an
    /// access token the result is a configuration error.
    pub fn generate_oauth1a_header_at(
        &self,
        method: &str,
        endpoint: &str,
        timestamp: &str,
        nonce: &str,
    ) -> (r: Result<String, SignError>)
        ensures
            !self@.has_token() ==> r == Err::<String, SignError>(SignError::ConfigurationError),
            self@.has_token() ==> outcome_of(r) == Ok::<Seq<char>, SignError>(
                signed_header_text(
                    self@.consumer_key,
                    self@.consumer_secret,
                    self@.token_key->0,
                    self@.token_secret->0,
                    method@,
                    endpoint@,
                    Seq::empty(),
                    timestamp@,
                    nonce@,
                ),
            ),
    {
        let none: Vec<(String, String)> = Vec::new();
        proof {
            assert(pairs_of(none@) =~= Seq::<TextPair>::empty());
            if self@.has_token() {
                lemma_sign_without_parameters_succeeds(
                    self@,
                    method@,
                    endpoint@,
                    timestamp@,
                    nonce@,
                );
            }
        }
        sign(&self.credentials, method, endpoint, &none, timestamp, nonce)
    }

    /// Builds the `Authorization` header of a request from its method and
    /// its endpoint, with the time stamp of this moment and a new nonce.
    /// Without an access token the result is a configuration error; with
    /// one it is the header for some time stamp and some nonce.
    pub fn generate_oauth1a_header(&self, method: &str, endpoint: &str) -> (r: Result<
        String,
        SignError,
    >)
        ensures
            !self@.has_token() ==> r == Err::<String, SignError>(SignError::ConfigurationError),
            self@.has_token() ==> exists|timestamp: Seq<char>, nonce: Seq<char>|
                is_timestamp_text(timestamp) && is_nonce_text(nonce) && outcome_of(r) == Ok::<
                    Seq<char>,
                    SignError,
                >(
                    #[trigger] signed_header_text(
                        self@.consumer_key,
                        self@.consumer_secret,
                        self@.token_key->0,
                        self@.token_secret->0,
                        method@,
                        endpoint@,
                        Seq::empty(),
                        timestamp,
                        nonce,
                    ),
                ),
    {
        let timestamp = fresh_timestamp();
        let nonce = fresh_nonce();
        self.generate_oauth1a_header_at(method, endpoint, timestamp.as_str(), nonce.as_str())
    }

    /// Builds the `Authorization` header of a request whose parameters are
    /// signed with it, with the time stamp and the nonce given.
    pub fn sign_request_at(
        &self,
        method: &str,
        endpoint: &str,
        request_parameters: &Vec<(String, String)>,
        timestamp: &str,
        nonce: &str,
    ) -> (r: Result<String, SignError>)
        ensures
            outcome_of(r) == sign_outcome(
                self@,
                method@,
                endpoint@,
                pairs_of(request_parameters@),
                timestamp@,
                nonce@,
            ),
    {
        sign(&self.credentials, method, endpoint, request_parameters, timestamp, nonce)
    }

    /// Computes the signature of a request under the two secrets given.
    /// The token secret may be empty.
    pub fn calc_oauth1a_signature(
        &self,
        method: &str,
        endpoint: &str,
        consumer_secret: &str,
        access_token_secret: &str,
        params: &Vec<(String, String)>,
    ) -> (signature: String)
        ensures
            signature@ == oauth_signature_text(
                method@,
                endpoint@,
                consumer_secret@,
                access_token_secret@,
                pairs_of(params@),
            ),
    {
        oauth_signature(method, endpoint, consumer_secret, access_token_secret, params)
    }
}

} // verus!
