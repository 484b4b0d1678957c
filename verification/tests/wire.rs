use mattermost_driver::address::Address;
use mattermost_driver::wire::{text_of, Header, Response};

fn named(name: &str, value: &[u8]) -> Header {
    Header { name: name.to_string(), value: value.to_vec() }
}

#[test]
fn the_text_of_a_header() {
    assert_eq!(text_of(b"plain text"), Some("plain text".to_string()));
    assert_eq!(text_of(b""), Some(String::new()));
    assert_eq!(text_of(b"tab\there ~!"), Some("tab\there ~!".to_string()));
    assert_eq!(text_of(b" "), Some(" ".to_string()));
    assert_eq!(text_of(b"\x7e"), Some("~".to_string()));
    assert_eq!(text_of(b"\x7f"), None);
    assert_eq!(text_of(b"\x1f"), None);
    assert_eq!(text_of(b"\x00"), None);
    assert_eq!(text_of(b"a\r\nb"), None);
    assert_eq!(text_of(b"\x80"), None);
    assert_eq!(text_of(b"caf\xc3\xa9"), None);
    assert_eq!(text_of(b"ok\xff"), None);
}

#[test]
fn the_text_of_a_header_is_what_hyper_reads() {
    for byte in 0u8..=255 {
        let value = [b'a', byte, b'z'];
        let ours = text_of(&value);
        let theirs = hyper::header::HeaderValue::from_bytes(&value)
            .ok()
            .and_then(|v| v.to_str().ok().map(|t| t.to_string()));
        assert_eq!(ours, theirs);
    }
}

#[test]
fn a_header_is_found_by_its_name() {
    let response = Response {
        status: 200,
        headers: vec![
            named("Content-Type", b"a"),
            named("TOKEN", b"one"),
            named("token", b"two"),
            named("tokens", b"three"),
        ],
        body: vec![],
    };
    assert_eq!(response.header("token").map(|v| v.as_slice()), Some(&b"one"[..]));
    assert_eq!(response.header("Token").map(|v| v.as_slice()), Some(&b"one"[..]));
    assert_eq!(response.header("content-type").map(|v| v.as_slice()), Some(&b"a"[..]));
    assert_eq!(response.header("tokens").map(|v| v.as_slice()), Some(&b"three"[..]));
    assert!(response.header("toke").is_none());
    assert!(response.header("").is_none());
}

#[test]
fn urls_are_read_by_the_url_crate() {
    let address = Address::parse("HTTPS://Example.COM:443/a/../b?q=1#f").unwrap();
    assert_eq!(address.as_str(), "https://example.com/b?q=1#f");
    assert_eq!(address.scheme(), "https");
    let plain = Address::parse("http://example.com").unwrap();
    assert_eq!(plain.as_str(), "http://example.com/");
    assert_eq!(plain.scheme(), "http");
    assert!(Address::parse("example.com").is_err());
    assert!(Address::parse("").is_err());
    assert!(Address::parse("/api/v4/").is_err());
    let copy = address.clone();
    assert_eq!(copy, address);
}

#[test]
fn paths_are_resolved_by_the_url_crate() {
    let base = Address::parse("https://example.com/api/v4/").unwrap();
    assert_eq!(base.join("users/me/teams").unwrap().as_str(), "https://example.com/api/v4/users/me/teams");
    assert_eq!(base.join("/x").unwrap().as_str(), "https://example.com/x");
    assert_eq!(base.join("../y z").unwrap().as_str(), "https://example.com/api/y%20z");
    assert_eq!(base.join("").unwrap().as_str(), "https://example.com/api/v4/");
    let other = base.join("http://other.example/").unwrap();
    assert_eq!(other.as_str(), "http://other.example/");
    assert_eq!(other.scheme(), "http");
    assert!(base.join("//[").is_err());
    for reference in ["a/b", "?q", "#f", "//host/p", "x:y"] {
        let ours = base.join(reference).map(|a| a.as_str().to_string());
        let theirs = url::Url::parse(base.as_str())
            .unwrap()
            .join(reference)
            .map(|u| u.as_str().to_string());
        assert_eq!(ours, theirs);
    }
}
