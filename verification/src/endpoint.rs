//! The addresses of the Twitter API.

use vstd::prelude::*;
use vstd::string::*;

verus! {

/// The address of a resource of version 1.1 of the API: the path after the
/// base of that version, then `.json`.
pub open spec fn api_v1_text(path: Seq<char>) -> Seq<char> {
    "https://api.twitter.com/1.1/"@ + path + ".json"@
}

/// The address of a resource of version 2 of the API: the path after the
/// base of that version.
pub open spec fn api_v2_text(path: Seq<char>) -> Seq<char> {
    "https://api.twitter.com/2/"@ + path
}

/// Builds the address of a resource of version 1.1 of the API.
pub fn api_v1_endpoint(path: &str) -> (endpoint: String)
    ensures
        endpoint@ == api_v1_text(path@),
{
    let mut endpoint = "https://api.twitter.com/1.1/".to_owned();
    endpoint.append(path);
    endpoint.append(".json");
    endpoint
}

/// Builds the address of a resource of version 2 of the API.
pub fn api_v2_endpoint(path: &str) -> (endpoint: String)
    ensures
        endpoint@ == api_v2_text(path@),
{
    let mut endpoint = "https://api.twitter.com/2/".to_owned();
    endpoint.append(path);
    endpoint
}

/// The address at which version 1.1 posts a status.
pub fn statuses_update_endpoint() -> (endpoint: String)
    ensures
        endpoint@ == api_v1_text("statuses/update"@),
{
    api_v1_endpoint("statuses/update")
}

/// The address at which version 1.1 deletes the status `id`.
pub fn statuses_destroy_endpoint(id: &str) -> (endpoint: String)
    ensures
        endpoint@ == api_v1_text("statuses/destroy/"@ + id@),
{
    let mut path = "statuses/destroy/".to_owned();
    path.append(id);
    api_v1_endpoint(path.as_str())
}

/// The address at which version 2 creates a tweet.
pub fn tweets_endpoint() -> (endpoint: String)
    ensures
        endpoint@ == api_v2_text("tweets"@),
{
    api_v2_endpoint("tweets")
}

/// The address at which version 2 deletes the tweet `id`.
pub fn tweet_endpoint(id: &str) -> (endpoint: String)
    ensures
        endpoint@ == api_v2_text("tweets/"@ + id@),
{
    let mut path = "tweets/".to_owned();
    path.append(id);
    api_v2_endpoint(path.as_str())
}

} // verus!
