use cognito_sigv4::error::SigningFailure;
use cognito_sigv4::headers::{header_map_from, SignedHeader, MAX_HEADERS, MAX_HEADER_NAME_LEN};

fn header(name: &str, value: &str) -> SignedHeader {
    SignedHeader { name: name.to_string(), value: value.to_string() }
}

#[test]
fn no_headers_give_an_empty_map() {
    let map = header_map_from(&vec![]).unwrap();
    assert!(map.is_empty());
}

#[test]
fn headers_stand_under_their_lowercased_names() {
    let map = header_map_from(&vec![header("X-Amz-Date", "20240101T000000Z"), header("b", "B")])
        .unwrap();
    assert_eq!(map.len(), 2);
    assert_eq!(map.get("x-amz-date").unwrap(), "20240101T000000Z");
    assert_eq!(map.get("b").unwrap(), "B");
    let names: Vec<&str> = map.keys().map(|name| name.as_str()).collect();
    assert_eq!(names, vec!["x-amz-date", "b"]);
}

#[test]
fn a_later_value_replaces_an_earlier_one() {
    let map =
        header_map_from(&vec![header("a", "1"), header("b", "2"), header("A", "3")]).unwrap();
    assert_eq!(map.len(), 2);
    assert_eq!(map.get_all("a").iter().count(), 1);
    assert_eq!(map.get("a").unwrap(), "3");
    assert_eq!(map.get("b").unwrap(), "2");
}

#[test]
fn every_name_character_is_accepted() {
    let name = "!#$%&'*+-.^_`|~0123456789abcdefghijklmnopqrstuvwxyzABCDEFGHIJKLMNOPQRSTUVWXYZ";
    let map = header_map_from(&vec![header(name, "v")]).unwrap();
    assert_eq!(map.keys().next().unwrap().as_str(), name.to_ascii_lowercase());
}

#[test]
fn other_characters_are_refused_in_a_name() {
    for c in "\"(),/:;<=>?@[\\]{} \t\n\u{7f}\u{e9}\u{0}".chars() {
        let name = format!("a{}b", c);
        let r = header_map_from(&vec![header(&name, "v")]);
        assert_eq!(r.unwrap_err(), SigningFailure::InvalidHeaderName);
    }
}

#[test]
fn a_name_is_neither_empty_nor_overlong() {
    assert_eq!(
        header_map_from(&vec![header("", "v")]).unwrap_err(),
        SigningFailure::InvalidHeaderName
    );
    let longest = "a".repeat(MAX_HEADER_NAME_LEN);
    assert!(header_map_from(&vec![header(&longest, "v")]).is_ok());
    let too_long = "a".repeat(MAX_HEADER_NAME_LEN + 1);
    assert_eq!(
        header_map_from(&vec![header(&too_long, "v")]).unwrap_err(),
        SigningFailure::InvalidHeaderName
    );
}

#[test]
fn values_hold_tabs_and_all_but_control_characters() {
    let value = "a\tb c~\u{80}\u{e9}\u{10348}";
    let map = header_map_from(&vec![header("a", value), header("empty", "")]).unwrap();
    assert_eq!(map.get("a").unwrap().as_bytes(), value.as_bytes());
    assert_eq!(map.get("empty").unwrap(), "");
    for c in ['\n', '\r', '\u{0}', '\u{1f}', '\u{7f}'] {
        let value = format!("a{}b", c);
        let r = header_map_from(&vec![header("a", &value)]);
        assert_eq!(r.unwrap_err(), SigningFailure::InvalidHeaderValue);
    }
}

#[test]
fn the_first_header_that_cannot_be_placed_decides() {
    let r = header_map_from(&vec![header("a", "1"), header("b", "\n"), header("c d", "3")]);
    assert_eq!(r.unwrap_err(), SigningFailure::InvalidHeaderValue);
    let r = header_map_from(&vec![header("a", "1"), header("c d", "3"), header("b", "\n")]);
    assert_eq!(r.unwrap_err(), SigningFailure::InvalidHeaderName);
    let r = header_map_from(&vec![header("c d", "\n")]);
    assert_eq!(r.unwrap_err(), SigningFailure::InvalidHeaderName);
}

#[test]
fn as_many_headers_as_allowed_are_placed() {
    let headers: Vec<SignedHeader> =
        (0..MAX_HEADERS).map(|i| header(&format!("h{}", i), &format!("{}", i))).collect();
    let map = header_map_from(&headers).unwrap();
    assert_eq!(map.len(), MAX_HEADERS);
    assert_eq!(map.get("h1023").unwrap(), "1023");
}
