use hyper::header::{HeaderMap, HeaderValue, AUTHORIZATION};
use keeper::auth::{key_checked, key_in_text, require_auth, white_space, Auth};

fn headers(values: &[&[u8]]) -> HeaderMap<HeaderValue> {
    let mut map = HeaderMap::new();
    for value in values {
        map.append(AUTHORIZATION, HeaderValue::from_bytes(value).unwrap());
    }
    map
}

fn key_of(value: &[u8]) -> Option<String> {
    require_auth(&headers(&[value])).ok()
}

#[test]
fn bearer_key_is_presented() {
    assert_eq!(key_of(b"Bearer abc123"), Some("abc123".to_string()));
    assert_eq!(key_of(b"bearer abc123"), Some("abc123".to_string()));
    assert_eq!(key_of(b"BEARER abc123"), Some("abc123".to_string()));
    assert_eq!(key_of(b"bEaReR ABC"), Some("ABC".to_string()));
}

#[test]
fn white_space_around_the_words_is_ignored() {
    assert_eq!(key_of(b"  Bearer \t  abc123\t "), Some("abc123".to_string()));
    assert_eq!(key_in_text("\u{a0}bearer\u{2003}\u{3000}k\n"), Some("k".to_string()));
}

#[test]
fn other_headers_present_no_key() {
    for value in [
        &b""[..],
        b"   ",
        b"Bearer",
        b"Bearer ",
        b"abc123",
        b"Basic abc123",
        b"Bearer abc 123",
        b"Bearerabc123",
        b"Bearers abc123",
        b"Beare abc123",
        b"Bearer abc\xff",
    ] {
        assert_eq!(key_of(value), None);
    }
}

#[test]
fn request_without_key_is_unauthorized() {
    let failure = require_auth(&HeaderMap::new()).unwrap_err();
    assert_eq!(failure.status_code, 401);
    assert_eq!(failure.error_code, None);
    assert_eq!(failure.external_message, "invalid Authorization header");
    assert_eq!(failure.internal_message, "invalid Authorization header");
}

#[test]
fn first_of_several_values_counts() {
    assert_eq!(require_auth(&headers(&[b"Bearer one", b"Bearer two"])).unwrap(), "one");
    assert!(require_auth(&headers(&[b"Basic one", b"Bearer two"])).is_err());
}

#[test]
fn other_names_do_not_count() {
    let mut map = HeaderMap::new();
    map.insert(hyper::header::PROXY_AUTHORIZATION, HeaderValue::from_static("Bearer k"));
    assert!(require_auth(&map).is_err());
}

#[test]
fn key_of_any_characters_is_found_whole() {
    assert_eq!(key_in_text("bearer \u{e9}\u{1F600}x"), Some("\u{e9}\u{1F600}x".to_string()));
}

#[test]
fn white_space_is_that_of_unicode() {
    for c in '\0'..=char::MAX {
        assert_eq!(white_space(c), c.is_whitespace(), "{:?}", c);
    }
}

#[test]
fn scheme_is_compared_in_lower_case() {
    for c in '\0'..=char::MAX {
        if !c.is_whitespace() {
            let scheme = format!("{}earer", c);
            let named = scheme.to_lowercase().trim() == "bearer";
            assert_eq!(key_in_text(&format!("{} k", scheme)).is_some(), named, "{:?}", c);
        }
    }
    for letter in ['e', 'a', 'r'] {
        for c in '\0'..=char::MAX {
            let lower = c.to_lowercase().to_string() == letter.to_string();
            assert_eq!(lower, c.to_ascii_lowercase() == letter, "{:?}", c);
        }
    }
}

#[test]
fn known_key_is_authorized() {
    let auth = key_checked(Ok(Some(Auth { host: "web".to_string(), global_view: true }))).unwrap();
    assert_eq!(auth.host, "web");
    assert!(auth.global_view);
}

#[test]
fn unknown_key_is_unauthorized() {
    let failure = key_checked(Ok(None)).unwrap_err();
    assert_eq!(failure.status_code, 401);
    assert_eq!(failure.external_message, "invalid Authorization header");
}

#[test]
fn failing_key_store_is_an_internal_error() {
    let failure = key_checked(Err("disk on fire".to_string())).unwrap_err();
    assert_eq!(failure.status_code, 500);
    assert_eq!(failure.error_code, Some("Internal".to_string()));
    assert_eq!(failure.external_message, "Internal Server Error");
    assert_eq!(failure.internal_message, "internal error: disk on fire");
}
