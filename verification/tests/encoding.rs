use tweers::encoding::percent_encode;
use tweers::encoding::percent_encode_bytes;
use tweers::encoding::unreserved;

fn in_alphabet(c: char) -> bool {
    c.is_ascii_alphanumeric() || c == '-' || c == '.' || c == '_' || c == '*' || c == '%'
}

#[test]
fn empty_text_encodes_to_empty_text() {
    assert_eq!(percent_encode(""), "");
    assert_eq!(percent_encode_bytes(&[]), "");
}

#[test]
fn unreserved_characters_stay() {
    let kept = "ABCXYZabcxyz0123456789-._*";
    assert_eq!(percent_encode(kept), kept);
}

#[test]
fn reserved_characters_are_escaped_in_upper_case() {
    assert_eq!(percent_encode(" ~!*-._"), "%20%7E%21*-._");
    assert_eq!(percent_encode("https://api.example.com/1/resource"),
        "https%3A%2F%2Fapi.example.com%2F1%2Fresource");
    assert_eq!(percent_encode("a=b&c"), "a%3Db%26c");
    assert_eq!(percent_encode("+/="), "%2B%2F%3D");
}

#[test]
fn multi_byte_characters_are_escaped_octet_by_octet() {
    assert_eq!(percent_encode("別"), "%E5%88%A5");
    assert_eq!(percent_encode("é"), "%C3%A9");
}

#[test]
fn encoded_text_is_encoded_again() {
    assert_eq!(percent_encode("%"), "%25");
    assert_eq!(percent_encode("%41"), "%2541");
    assert_eq!(percent_encode(&percent_encode("a b")), "a%2520b");
}

#[test]
fn every_octet_value_gives_text_in_the_alphabet() {
    let mut b: u16 = 0;
    while b < 256 {
        let octet = b as u8;
        let text = percent_encode_bytes(&[octet]);
        assert!(text.chars().all(in_alphabet));
        if unreserved(octet) {
            assert_eq!(text, (octet as char).to_string());
        } else {
            assert_eq!(text, format!("%{:02X}", octet));
        }
        b += 1;
    }
}

#[test]
fn only_letters_digits_and_four_signs_are_unreserved() {
    let mut count = 0;
    let mut b: u16 = 0;
    while b < 256 {
        let octet = b as u8;
        let expected = octet.is_ascii_alphanumeric() || b"-._*".contains(&octet);
        assert_eq!(unreserved(octet), expected);
        if expected {
            count += 1;
        }
        b += 1;
    }
    assert_eq!(count, 66);
}
