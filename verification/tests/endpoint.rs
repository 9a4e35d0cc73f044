use tweers::endpoint::api_v1_endpoint;
use tweers::endpoint::api_v2_endpoint;
use tweers::endpoint::statuses_destroy_endpoint;
use tweers::endpoint::statuses_update_endpoint;
use tweers::endpoint::tweet_endpoint;
use tweers::endpoint::tweets_endpoint;

#[test]
fn version_one_addresses_end_in_json() {
    assert_eq!(api_v1_endpoint("statuses/update"),
        "https://api.twitter.com/1.1/statuses/update.json");
    assert_eq!(api_v1_endpoint(""), "https://api.twitter.com/1.1/.json");
}

#[test]
fn version_two_addresses_are_base_and_path() {
    assert_eq!(api_v2_endpoint("statuses/update"), "https://api.twitter.com/2/statuses/update");
    assert_eq!(api_v2_endpoint(""), "https://api.twitter.com/2/");
}

#[test]
fn addresses_of_statuses_and_tweets() {
    assert_eq!(statuses_update_endpoint(), "https://api.twitter.com/1.1/statuses/update.json");
    assert_eq!(statuses_destroy_endpoint("42"),
        "https://api.twitter.com/1.1/statuses/destroy/42.json");
    assert_eq!(tweets_endpoint(), "https://api.twitter.com/2/tweets");
    assert_eq!(tweet_endpoint("42"), "https://api.twitter.com/2/tweets/42");
}
