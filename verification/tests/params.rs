use tweers::ordering::octets_before_or_equal;
use tweers::ordering::pair_before_or_equal;
use tweers::params::canonical_parameter_string;
use tweers::params::encode_pairs;
use tweers::params::render_pairs;
use tweers::params::sort_pairs;

fn pairs(items: &[(&str, &str)]) -> Vec<(String, String)> {
    items.iter().map(|(k, v)| (k.to_string(), v.to_string())).collect()
}

#[test]
fn octets_are_ordered_lexicographically() {
    assert!(octets_before_or_equal(b"", b""));
    assert!(octets_before_or_equal(b"", b"a"));
    assert!(!octets_before_or_equal(b"a", b""));
    assert!(octets_before_or_equal(b"a", b"a"));
    assert!(octets_before_or_equal(b"a", b"ab"));
    assert!(!octets_before_or_equal(b"ab", b"a"));
    assert!(octets_before_or_equal(b"Z", b"a"));
    assert!(!octets_before_or_equal(b"b", b"a"));
    assert!(octets_before_or_equal(&[0x7F], &[0x80]));
}

#[test]
fn pairs_are_ordered_by_name_then_value() {
    let a1 = ("a".to_string(), "1".to_string());
    let a2 = ("a".to_string(), "2".to_string());
    let b0 = ("b".to_string(), "0".to_string());
    assert!(pair_before_or_equal(&a1, &a2));
    assert!(!pair_before_or_equal(&a2, &a1));
    assert!(pair_before_or_equal(&a2, &b0));
    assert!(!pair_before_or_equal(&b0, &a1));
    assert!(pair_before_or_equal(&a1, &a1));
}

#[test]
fn canonical_string_of_no_parameters_is_empty() {
    assert_eq!(canonical_parameter_string(&Vec::new()), "");
}

#[test]
fn canonical_string_of_one_parameter_has_no_separator() {
    assert_eq!(canonical_parameter_string(&pairs(&[("a b", "x/y")])), "a%20b=x%2Fy");
}

#[test]
fn canonical_string_sorts_by_encoded_name_then_value() {
    let given = pairs(&[("b", "2"), ("a", "1"), ("a", "0"), ("a b", "x/y"), ("A", "z")]);
    assert_eq!(canonical_parameter_string(&given), "A=z&a=0&a=1&a%20b=x%2Fy&b=2");
}

#[test]
fn canonical_string_is_the_same_for_every_order() {
    let expected = "oauth_consumer_key=ck&oauth_nonce=n1&oauth_token=tk&status=hi%20there";
    let a = pairs(&[("oauth_consumer_key", "ck"), ("oauth_nonce", "n1"), ("oauth_token", "tk"),
        ("status", "hi there")]);
    let b = pairs(&[("status", "hi there"), ("oauth_token", "tk"), ("oauth_nonce", "n1"),
        ("oauth_consumer_key", "ck")]);
    let c = pairs(&[("oauth_nonce", "n1"), ("status", "hi there"), ("oauth_consumer_key", "ck"),
        ("oauth_token", "tk")]);
    assert_eq!(canonical_parameter_string(&a), expected);
    assert_eq!(canonical_parameter_string(&b), expected);
    assert_eq!(canonical_parameter_string(&c), expected);
}

#[test]
fn encode_pairs_keeps_the_order() {
    let encoded = encode_pairs(&pairs(&[("z z", "1&2"), ("a", "=")]));
    assert_eq!(encoded, pairs(&[("z%20z", "1%262"), ("a", "%3D")]));
}

#[test]
fn sort_pairs_sorts_and_keeps_every_pair() {
    let sorted = sort_pairs(pairs(&[("b", "1"), ("a", "2"), ("b", "0"), ("a", "2"), ("", "x")]));
    assert_eq!(sorted, pairs(&[("", "x"), ("a", "2"), ("a", "2"), ("b", "0"), ("b", "1")]));
}

#[test]
fn render_pairs_joins_without_trailing_separator() {
    let list = pairs(&[("a", "1"), ("b", "2"), ("c", "3")]);
    assert_eq!(render_pairs(&list, "=\"", "\"", ", "), "a=\"1\", b=\"2\", c=\"3\"");
    assert_eq!(render_pairs(&list, "=", "", "&"), "a=1&b=2&c=3");
    assert_eq!(render_pairs(&Vec::new(), "=", "", "&"), "");
}
