//! Credentials that always hold an access token, and the headers of the
//! requests they sign.

use crate::credentials::CredentialsView;
use crate::fresh::fresh_nonce;
use crate::fresh::fresh_timestamp;
use crate::fresh::is_nonce_text;
use crate::fresh::is_timestamp_text;
use crate::ordering::TextPair;
use crate::params::pairs_of;
use crate::sign::signed_header;
use crate::sign::signed_header_text;
use crate::signature::oauth_signature;
use crate::signature::oauth_signature_text;
use vstd::prelude::*;
use vstd::string::*;

verus! {

/// Holds the consumer key and secret and the access token of one account.
pub struct Twitter {
    consummer_key: String,
    consummer_secret: String,
    access_token_key: String,
    access_token_secret: String,
}

impl View for Twitter {
    type V = CredentialsView;

    closed spec fn view(&self) -> CredentialsView {
        CredentialsView {
            consumer_key: self.consummer_key@,
            consumer_secret: self.consummer_secret@,
            token_key: Some(self.access_token_key@),
            token_secret: Some(self.access_token_secret@),
        }
    }
}

impl Twitter {
    /// The credentials of a consumer and of an access token.
    pub fn new(
        consummer_key: String,
        consummer_secret: String,
        access_token_key: String,
        access_token_secret: String,
    ) -> (twitter: Twitter)
        ensures
            twitter@ == (CredentialsView {
                consumer_key: consummer_key@,
                consumer_secret: consummer_secret@,
                token_key: Some(access_token_key@),
                token_secret: Some(access_token_secret@),
            }),
    {
        Twitter { consummer_key, consummer_secret, access_token_key, access_token_secret }
    }

    /// The access token is always there.
    pub proof fn lemma_has_token(&self)
        ensures
            self@.has_token(),
    {
    }

    /// Builds the `Authorization` header of a request from its method and
    /// its endpoint, with the time stamp and the nonce given.
    pub fn get_request_header_at(
        &self,
        method: &str,
        endpoint: &str,
        timestamp: &str,
        nonce: &str,
    ) -> (header: String)
        ensures
            header@ == signed_header_text(
                self@.consumer_key,
                self@.consumer_secret,
                self@.token_key->0,
                self@.token_secret->0,
                method@,
                endpoint@,
                Seq::empty(),
                timestamp@,
                nonce@,
            ),
    {
        let none: Vec<(String, String)> = Vec::new();
        proof {
            assert(pairs_of(none@) =~= Seq::<TextPair>::empty());
        }
        signed_header(
            self.consummer_key.as_str(),
            self.consummer_secret.as_str(),
            self.access_token_key.as_str(),
            self.access_token_secret.as_str(),
            method,
            endpoint,
            &none,
            timestamp,
            nonce,
        )
    }

    /// Builds the `Authorization` header of a request from its method and
    /// its endpoint, with the time stamp of this moment and a new nonce:
    /// it is the header for some time stamp and some nonce.
    pub fn get_request_header(&self, method: &str, endpoint: &str) -> (header: String)
        ensures
            exists|timestamp: Seq<char>, nonce: Seq<char>|
                is_timestamp_text(timestamp) && is_nonce_text(nonce) && header@
                    == #[trigger] signed_header_text(
                    self@.consumer_key,
                    self@.consumer_secret,
                    self@.token_key->0,
                    self@.token_secret->0,
                    method@,
                    endpoint@,
                    Seq::empty(),
                    timestamp,
                    nonce,
                ),
    {
        let timestamp = fresh_timestamp();
        let nonce = fresh_nonce();
        self.get_request_header_at(method, endpoint, timestamp.as_str(), nonce.as_str())
    }

    /// Computes the signature of a request under the two secrets given.
    pub fn get_oauth_signature(
        &self,
        method: &str,
        endpoint: &str,
        consummer_secret: &str,
        access_token_secret: &str,
        oauth_params: &Vec<(String, String)>,
    ) -> (signature: String)
        ensures
            signature@ == oauth_signature_text(
                method@,
                endpoint@,
                consummer_secret@,
                access_token_secret@,
                pairs_of(oauth_params@),
            ),
    {
        oauth_signature(method, endpoint, consummer_secret, access_token_secret, oauth_params)
    }
}

} // verus!
