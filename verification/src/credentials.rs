//! The credentials that requests are signed with, and the errors of signing.

use vstd::prelude::*;
use vstd::string::*;

verus! {

/// Why a request could not be signed.
#[derive(Debug, Clone, Copy, PartialEq, Eq, Structural)]
pub enum SignError {
    /// A credential that the signing mode needs is missing: signing with a
    /// token was asked for, and the token key or the token secret is not
    /// set.
    ConfigurationError,
    /// The set of parameters to sign is not a mapping: a name occurs twice
    /// in it.
    EncodingError,
}

/// What a set of credentials holds.
pub struct CredentialsView {
    pub consumer_key: Seq<char>,
    pub consumer_secret: Seq<char>,
    pub token_key: Option<Seq<char>>,
    pub token_secret: Option<Seq<char>>,
}

impl CredentialsView {
    /// Both parts of the token are there.
    pub open spec fn has_token(self) -> bool {
        self.token_key is Some && self.token_secret is Some
    }
}

/// A consumer key and secret, and the key and secret of an access token
/// where there is one.
pub struct Credentials {
    consumer_key: String,
    consumer_secret: String,
    token_key: Option<String>,
    token_secret: Option<String>,
}

/// The text of a string that may be absent.
pub open spec fn text_of(s: Option<String>) -> Option<Seq<char>> {
    match s {
        Some(s) => Some(s@),
        None => None,
    }
}

/// The text of a string slice that may be absent.
pub open spec fn text_of_slice(s: Option<&str>) -> Option<Seq<char>> {
    match s {
        Some(s) => Some(s@),
        None => None,
    }
}

impl View for Credentials {
    type V = CredentialsView;

    closed spec fn view(&self) -> CredentialsView {
        CredentialsView {
            consumer_key: self.consumer_key@,
            consumer_secret: self.consumer_secret@,
            token_key: text_of(self.token_key),
            token_secret: text_of(self.token_secret),
        }
    }
}

impl Credentials {
    /// Credentials of a consumer alone, without a token.
    pub fn new(consumer_key: String, consumer_secret: String) -> (c: Credentials)
        ensures
            c@ == (CredentialsView {
                consumer_key: consumer_key@,
                consumer_secret: consumer_secret@,
                token_key: None,
                token_secret: None,
            }),
    {
        Credentials { consumer_key, consumer_secret, token_key: None, token_secret: None }
    }

    /// Credentials of a consumer together with an access token.
    pub fn with_token(
        consumer_key: String,
        consumer_secret: String,
        token_key: String,
        token_secret: String,
    ) -> (c: Credentials)
        ensures
            c@ == (CredentialsView {
                consumer_key: consumer_key@,
                consumer_secret: consumer_secret@,
                token_key: Some(token_key@),
                token_secret: Some(token_secret@),
            }),
    {
        Credentials {
            consumer_key,
            consumer_secret,
            token_key: Some(token_key),
            token_secret: Some(token_secret),
        }
    }

    /// Sets the access token. The consumer key and secret stay as they are.
    pub fn set_token(&mut self, token_key: String, token_secret: String)
        ensures
            final(self)@ == (CredentialsView {
                token_key: Some(token_key@),
                token_secret: Some(token_secret@),
                ..old(self)@
            }),
    {
        self.token_key = Some(token_key);
        self.token_secret = Some(token_secret);
    }

    /// The consumer key.
    pub fn consumer_key(&self) -> (s: &str)
        ensures
            s@ == self@.consumer_key,
    {
        self.consumer_key.as_str()
    }

    /// The consumer secret.
    pub fn consumer_secret(&self) -> (s: &str)
        ensures
            s@ == self@.consumer_secret,
    {
        self.consumer_secret.as_str()
    }

    /// The key of the access token, where one is set.
    pub fn token_key(&self) -> (s: Option<&str>)
        ensures
            text_of_slice(s) == self@.token_key,
    {
        match &self.token_key {
            Some(t) => Some(t.as_str()),
            None => None,
        }
    }

    /// The secret of the access token, where one is set.
    pub fn token_secret(&self) -> (s: Option<&str>)
        ensures
            text_of_slice(s) == self@.token_secret,
    {
        match &self.token_secret {
            Some(t) => Some(t.as_str()),
            None => None,
        }
    }
}

} // verus!
