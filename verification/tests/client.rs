use tweers::client::Client;
use tweers::credentials::Credentials;
use tweers::credentials::SignError;
use tweers::twitter::Twitter;

const SAMPLE_HEADER: &str = "OAuth oauth_consumer_key=\"ck\", oauth_nonce=\"n1\", oauth_signature_method=\"HMAC-SHA1\", oauth_timestamp=\"1000000000\", oauth_token=\"tk\", oauth_version=\"1.0\", oauth_signature=\"M7nlEgkI9G2sDhWQcE3BXo2l%2FoE%3D\"";

fn protocol() -> Vec<(String, String)> {
    vec![
        ("oauth_consumer_key".to_string(), "ck".to_string()),
        ("oauth_nonce".to_string(), "n1".to_string()),
        ("oauth_signature_method".to_string(), "HMAC-SHA1".to_string()),
        ("oauth_timestamp".to_string(), "1000000000".to_string()),
        ("oauth_token".to_string(), "tk".to_string()),
        ("oauth_version".to_string(), "1.0".to_string()),
    ]
}

fn value_of<'a>(header: &'a str, name: &str) -> &'a str {
    let body = header.strip_prefix("OAuth ").unwrap();
    for part in body.split(", ") {
        let (n, v) = part.split_once('=').unwrap();
        if n == name {
            return v.strip_prefix('"').unwrap().strip_suffix('"').unwrap();
        }
    }
    panic!("no parameter {}", name)
}

#[test]
fn new_client_has_no_token() {
    let client = Client::new("ck".to_string(), "cs".to_string());
    assert_eq!(client.credentials().consumer_key(), "ck");
    assert_eq!(client.credentials().consumer_secret(), "cs");
    assert_eq!(client.credentials().token_key(), None);
    assert_eq!(client.credentials().token_secret(), None);
}

#[test]
fn set_access_token_sets_both_parts_and_keeps_the_consumer() {
    let mut client = Client::new("ck".to_string(), "cs".to_string());
    client.set_access_token("tk".to_string(), "ts".to_string());
    assert_eq!(client.credentials().consumer_key(), "ck");
    assert_eq!(client.credentials().consumer_secret(), "cs");
    assert_eq!(client.credentials().token_key(), Some("tk"));
    assert_eq!(client.credentials().token_secret(), Some("ts"));
    client.set_access_token("tk2".to_string(), "ts2".to_string());
    assert_eq!(client.credentials().token_key(), Some("tk2"));
    assert_eq!(client.credentials().token_secret(), Some("ts2"));
}

#[test]
fn credentials_hold_what_they_were_made_with() {
    let mut c = Credentials::new("a".to_string(), "b".to_string());
    assert_eq!((c.consumer_key(), c.consumer_secret(), c.token_key(), c.token_secret()),
        ("a", "b", None, None));
    c.set_token("c".to_string(), "d".to_string());
    assert_eq!((c.consumer_key(), c.consumer_secret(), c.token_key(), c.token_secret()),
        ("a", "b", Some("c"), Some("d")));
    let w = Credentials::with_token("a".to_string(), "b".to_string(), "c".to_string(),
        "d".to_string());
    assert_eq!((w.consumer_key(), w.consumer_secret(), w.token_key(), w.token_secret()),
        ("a", "b", Some("c"), Some("d")));
}

#[test]
fn header_without_token_is_a_configuration_error() {
    let client = Client::new("ck".to_string(), "cs".to_string());
    assert_eq!(client.generate_oauth1a_header("POST", "https://api.example.com/1/resource"),
        Err(SignError::ConfigurationError));
    assert_eq!(
        client.generate_oauth1a_header_at("POST", "https://api.example.com/1/resource", "1", "n"),
        Err(SignError::ConfigurationError)
    );
    assert_eq!(client.sign_request_at("POST", "u", &Vec::new(), "1", "n"),
        Err(SignError::ConfigurationError));
}

#[test]
fn client_header_at_is_the_sample_header() {
    let mut client = Client::new("ck".to_string(), "cs".to_string());
    client.set_access_token("tk".to_string(), "ts".to_string());
    let r = client.generate_oauth1a_header_at("POST", "https://api.example.com/1/resource",
        "1000000000", "n1");
    assert_eq!(r, Ok(SAMPLE_HEADER.to_string()));
    let r = client.sign_request_at("POST", "https://api.example.com/1/resource", &Vec::new(),
        "1000000000", "n1");
    assert_eq!(r, Ok(SAMPLE_HEADER.to_string()));
}

#[test]
fn client_header_is_the_header_of_its_time_stamp_and_nonce() {
    let mut client = Client::new("ck".to_string(), "cs".to_string());
    client.set_access_token("tk".to_string(), "ts".to_string());
    let url = "https://api.example.com/1/resource";
    let header = client.generate_oauth1a_header("POST", url).unwrap();
    let nonce = value_of(&header, "oauth_nonce").to_string();
    let timestamp = value_of(&header, "oauth_timestamp").to_string();
    assert_eq!(nonce.len(), 32);
    assert!(nonce.chars().all(|c| c.is_ascii_digit() || ('a'..='f').contains(&c)));
    assert!(!timestamp.is_empty());
    assert!(timestamp.chars().all(|c| c.is_ascii_digit()));
    assert!(timestamp.parse::<i64>().unwrap() > 1_000_000_000);
    assert_eq!(client.generate_oauth1a_header_at("POST", url, &timestamp, &nonce), Ok(header));
}

#[test]
fn two_headers_have_different_nonces() {
    let mut client = Client::new("ck".to_string(), "cs".to_string());
    client.set_access_token("tk".to_string(), "ts".to_string());
    let a = client.generate_oauth1a_header("GET", "http://h/p").unwrap();
    let b = client.generate_oauth1a_header("GET", "http://h/p").unwrap();
    assert_ne!(value_of(&a, "oauth_nonce"), value_of(&b, "oauth_nonce"));
}

#[test]
fn client_signature_of_the_sample_request() {
    let client = Client::new("ck".to_string(), "cs".to_string());
    let s = client.calc_oauth1a_signature("POST", "https://api.example.com/1/resource", "cs",
        "ts", &protocol());
    assert_eq!(s, "M7nlEgkI9G2sDhWQcE3BXo2l/oE=");
}

#[test]
fn client_signature_with_empty_token_secret() {
    let client = Client::new("ck".to_string(), "abc".to_string());
    let s = client.calc_oauth1a_signature("GET", "http://h/p", "abc", "", &Vec::new());
    assert_eq!(s, tweers::signature::sign_base_string("abc&", "GET&http%3A%2F%2Fh%2Fp&"));
}

#[test]
fn twitter_header_at_is_the_sample_header() {
    let twitter = Twitter::new("ck".to_string(), "cs".to_string(), "tk".to_string(),
        "ts".to_string());
    let h = twitter.get_request_header_at("POST", "https://api.example.com/1/resource",
        "1000000000", "n1");
    assert_eq!(h, SAMPLE_HEADER);
}

#[test]
fn twitter_header_is_the_header_of_its_time_stamp_and_nonce() {
    let twitter = Twitter::new("ck".to_string(), "cs".to_string(), "tk".to_string(),
        "ts".to_string());
    let url = "https://api.twitter.com/2/statuses/update";
    let header = twitter.get_request_header("POST", url);
    let nonce = value_of(&header, "oauth_nonce").to_string();
    let timestamp = value_of(&header, "oauth_timestamp").to_string();
    assert_eq!(nonce.len(), 32);
    assert_eq!(twitter.get_request_header_at("POST", url, &timestamp, &nonce), header);
}

#[test]
fn twitter_signature_of_the_sample_request() {
    let twitter = Twitter::new("ck".to_string(), "cs".to_string(), "tk".to_string(),
        "ts".to_string());
    let s = twitter.get_oauth_signature("POST", "https://api.example.com/1/resource", "cs", "ts",
        &protocol());
    assert_eq!(s, "M7nlEgkI9G2sDhWQcE3BXo2l/oE=");
}
