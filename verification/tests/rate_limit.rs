use kiro_rs::kiro::error::{
    normalize_retry_after, normalize_retry_after_with, UpstreamRateLimitError,
};

#[test]
fn accepts_delta_seconds_and_http_date() {
    let seconds = UpstreamRateLimitError::new(Some(" 1800 ".to_string()));
    assert_eq!(seconds.retry_after(), Some("1800"));
    assert!(!seconds.should_retry_locally());

    let date = "Sun, 12 Jul 2026 02:30:00 GMT";
    let http_date = UpstreamRateLimitError::new(Some(date.to_string()));
    assert_eq!(http_date.retry_after(), Some(date));
    assert!(!http_date.should_retry_locally());
}

#[test]
fn rejects_invalid_retry_after() {
    let error = UpstreamRateLimitError::new(Some("not-a-retry-delay".to_string()));
    assert_eq!(error.retry_after(), None);
    assert!(error.should_retry_locally());
}

#[test]
fn a_missing_delay_is_retried_locally() {
    let error = UpstreamRateLimitError::new(None);
    assert_eq!(error.retry_after(), None);
    assert!(error.should_retry_locally());
    assert_eq!(error.message(), "upstream rate limited");
}

#[test]
fn headers_give_the_first_delay() {
    let mut headers = http::HeaderMap::new();
    headers.append(http::header::RETRY_AFTER, http::HeaderValue::from_static("7"));
    headers.append(http::header::RETRY_AFTER, http::HeaderValue::from_static("9"));
    assert_eq!(UpstreamRateLimitError::from_headers(&headers).retry_after(), Some("7"));
}

#[test]
fn headers_without_a_readable_delay_give_none() {
    let empty = http::HeaderMap::new();
    assert_eq!(UpstreamRateLimitError::from_headers(&empty).retry_after(), None);

    let mut opaque = http::HeaderMap::new();
    opaque.insert(http::header::RETRY_AFTER, http::HeaderValue::from_bytes(&[0x31, 0xff]).unwrap());
    assert_eq!(UpstreamRateLimitError::from_headers(&opaque).retry_after(), None);

    let mut other = http::HeaderMap::new();
    other.insert(http::header::AGE, http::HeaderValue::from_static("7"));
    assert_eq!(UpstreamRateLimitError::from_headers(&other).retry_after(), None);
}

#[test]
fn a_delay_fits_in_64_bits() {
    assert_eq!(
        normalize_retry_after("18446744073709551615".to_string()),
        Some("18446744073709551615".to_string())
    );
    assert_eq!(normalize_retry_after("18446744073709551616".to_string()), None);
    assert_eq!(normalize_retry_after("-1".to_string()), None);
    assert_eq!(normalize_retry_after("+5".to_string()), Some("+5".to_string()));
    assert_eq!(normalize_retry_after("   ".to_string()), None);
}

#[test]
fn a_date_counts_if_it_is_one() {
    assert_eq!(normalize_retry_after_with(" soon ", true), Some("soon".to_string()));
    assert_eq!(normalize_retry_after_with(" soon ", false), None);
    assert_eq!(normalize_retry_after_with("  ", true), None);
}

#[test]
fn a_kept_delay_stays_the_same() {
    let once = UpstreamRateLimitError::new(Some("\t60\n".to_string()));
    let twice = UpstreamRateLimitError::new(once.retry_after().map(|s| s.to_string()));
    assert_eq!(twice.retry_after(), Some("60"));
    assert_eq!(once.clone().retry_after(), Some("60"));
}
