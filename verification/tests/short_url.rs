use dwarfer::short_url::{ShortUrl, ShortUrlError, SHORT_URL_PATTERN};

fn pattern() -> regex::Regex {
    regex::Regex::new(SHORT_URL_PATTERN).unwrap()
}

#[test]
fn test_short_url_validation() {
    assert!(ShortUrl::new("valid123").is_ok());
    assert!(ShortUrl::new("INVALID").map(|value| value.as_str() == "invalid").unwrap_or(false));
    assert!(ShortUrl::new("invalid!").is_err());
    assert!(ShortUrl::new(&"toolong".repeat(10)).is_err());
}

#[test]
fn test_short_url_random() {
    let url1 = ShortUrl::random();
    let url2 = ShortUrl::random();
    assert_ne!(url1, url2);
    assert!(pattern().is_match(url1.as_str()));
    assert!(pattern().is_match(url2.as_str()));
}

#[test]
fn random_has_six_characters_of_the_alphabet() {
    for _ in 0..50 {
        let id = ShortUrl::random();
        assert_eq!(id.as_str().chars().count(), 6);
        assert!(id.as_str().chars().all(|c| c.is_ascii_lowercase() || c.is_ascii_digit()));
    }
}

#[test]
fn new_accepts_every_allowed_character() {
    let id = ShortUrl::new("a-z.0_9+").unwrap();
    assert_eq!(id.as_str(), "a-z.0_9+");
}

#[test]
fn new_lowercases_mixed_case() {
    assert_eq!(ShortUrl::new("MiXeD-Case").unwrap().as_str(), "mixed-case");
}

#[test]
fn new_length_bounds() {
    assert_eq!(ShortUrl::new(""), Err(ShortUrlError::Invalid));
    assert!(ShortUrl::new(&"a".repeat(64)).is_ok());
    assert_eq!(ShortUrl::new(&"a".repeat(65)), Err(ShortUrlError::Invalid));
    assert!(ShortUrl::new("x").is_ok());
}

#[test]
fn new_rejects_other_characters() {
    for bad in ["with space", "slash/", "tilde~", "ñandu", "a\n", "quest?ion"] {
        assert_eq!(ShortUrl::new(bad), Err(ShortUrlError::Invalid), "{bad}");
    }
}

#[test]
fn new_keeps_a_valid_text_unchanged() {
    let first = ShortUrl::new("abc-123").unwrap();
    let again = ShortUrl::new(first.as_str()).unwrap();
    assert_eq!(first, again);
}

#[test]
fn from_lowercase_does_not_normalize() {
    assert_eq!(ShortUrl::from_lowercase("ABC".to_string()), Err(ShortUrlError::Invalid));
    assert_eq!(ShortUrl::from_lowercase("abc".to_string()).unwrap().as_str(), "abc");
}

#[test]
fn clone_and_equality() {
    let a = ShortUrl::new("same").unwrap();
    let b = a.clone();
    assert_eq!(a, b);
    assert_ne!(a, ShortUrl::new("other").unwrap());
}

#[test]
fn short_url_error_message() {
    assert_eq!(
        ShortUrlError::Invalid.message(),
        "Invalid ShortUrl: it should contain only a-z, 0-9, . - _ +"
    );
}
