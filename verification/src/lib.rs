//! OAuth 1.0a request signing for the Twitter API.
//!
//! The crate turns credentials, an HTTP method, an endpoint and a set of
//! parameters into the value of an `Authorization` header. Every step is a
//! pure function with a contract over sequences of octets and characters.

pub mod client;
pub mod credentials;
pub mod encoding;
pub mod endpoint;
pub mod fresh;
pub mod header;
pub mod ordering;
pub mod params;
pub mod sign;
pub mod signature;
pub mod twitter;
