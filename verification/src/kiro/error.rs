//! Typed errors of calls to the Kiro upstream.

use vstd::prelude::*;

use crate::numbers::{decimal, decimal_reads_back, parse_unsigned, read_unsigned};
use crate::text::{
    chars_of, is_blank, is_digit, string_of, trim, trim_chars, trim_is_idempotent,
    trim_keeps_trimmed, trimming_takes_the_blanks,
};

verus! {

/// `http::HeaderMap`, a multimap from header names to header values.
#[verifier::external_type_specification]
#[verifier::external_body]
#[verifier::reject_recursive_types(T)]
pub struct ExHeaderMap<T>(http::HeaderMap<T>);

/// `http::HeaderValue`, the bytes of one header value.
#[verifier::external_type_specification]
#[verifier::external_body]
pub struct ExHeaderValue(http::HeaderValue);

/// The values that a header map holds under each name, in the order in which
/// they were added. Names are in lower case.
pub uninterp spec fn header_values(headers: http::HeaderMap) -> Map<Seq<char>, Seq<Seq<u8>>>;

/// The bytes of a header value.
pub uninterp spec fn header_bytes(value: http::HeaderValue) -> Seq<u8>;

/// Whether [`httpdate::parse_http_date`] accepts a text as an HTTP date.
pub uninterp spec fn is_http_date(s: Seq<char>) -> bool;

/// `http::HeaderMap::get` with `http::header::RETRY_AFTER`: the first value
/// under `retry-after`, or nothing if the map has no such name.
#[verifier::external_body]
fn retry_after_value(headers: &http::HeaderMap) -> (r: Option<&http::HeaderValue>)
    ensures
        match r {
            Some(v) => {
                &&& header_values(*headers).contains_key("retry-after"@)
                &&& header_values(*headers)["retry-after"@].len() > 0
                &&& header_bytes(*v) == header_values(*headers)["retry-after"@][0]
            },
            None => !header_values(*headers).contains_key("retry-after"@),
        },
{
    headers.get(http::header::RETRY_AFTER)
}

/// A byte that can stand in the text form of a header value.
pub open spec fn is_visible_byte(b: u8) -> bool {
    32 <= b < 127 || b == 9
}

/// The text form of a header value: its bytes as ASCII characters, if all of
/// them are visible.
pub open spec fn header_text(bytes: Seq<u8>) -> Option<Seq<char>> {
    if forall|i: int| 0 <= i < bytes.len() ==> is_visible_byte(#[trigger] bytes[i]) {
        Some(bytes.map_values(|b: u8| b as char))
    } else {
        None
    }
}

/// `http::HeaderValue::to_str`: the value as text if all its bytes are visible
/// ASCII characters or tabs, and an error otherwise.
#[verifier::external_body]
fn header_value_text(value: &http::HeaderValue) -> (r: Option<String>)
    ensures
        match r {
            Some(s) => header_text(header_bytes(*value)) == Some(s@),
            None => header_text(header_bytes(*value)) is None,
        },
{
    value.to_str().ok().map(str::to_owned)
}

/// `httpdate::parse_http_date`: whether the text is an HTTP date in one of the
/// formats that the function reads.
#[verifier::external_body]
fn accepts_http_date(value: &str) -> (r: bool)
    ensures
        r == is_http_date(value@),
{
    httpdate::parse_http_date(value).is_ok()
}

/// The usable form of a `Retry-After` value, given whether its trimmed form is
/// an HTTP date: the trimmed form, if it is that or a number of seconds.
pub open spec fn normalized_with(value: Seq<char>, is_date: bool) -> Option<Seq<char>> {
    let s = trim(value);
    if s.len() > 0 && (parse_unsigned(s, u64::MAX as nat) is Some || is_date) {
        Some(s)
    } else {
        None
    }
}

/// The usable form of a `Retry-After` value.
pub open spec fn normalized(value: Seq<char>) -> Option<Seq<char>> {
    normalized_with(value, is_http_date(trim(value)))
}

/// The usable form of an optional `Retry-After` value.
pub open spec fn normalized_opt(value: Option<Seq<char>>) -> Option<Seq<char>> {
    match value {
        Some(v) => normalized(v),
        None => None,
    }
}

/// The usable form of a `Retry-After` value, where the caller says whether the
/// trimmed value is an HTTP date.
pub fn normalize_retry_after_with(value: &str, is_date: bool) -> (r: Option<String>)
    ensures
        match r {
            Some(s) => normalized_with(value@, is_date) == Some(s@),
            None => normalized_with(value@, is_date) is None,
        },
{
    let chars = chars_of(value);
    let s = trim_chars(chars.as_slice());
    if s.len() == 0 {
        return None;
    }
    if read_unsigned(s, u64::MAX).is_some() || is_date {
        Some(string_of(s))
    } else {
        None
    }
}

/// The usable form of a `Retry-After` value: trimmed, and nothing unless it is
/// a number of seconds or an HTTP date.
pub fn normalize_retry_after(value: String) -> (r: Option<String>)
    ensures
        match r {
            Some(s) => normalized(value@) == Some(s@),
            None => normalized(value@) is None,
        },
{
    let chars = chars_of(value.as_str());
    let trimmed = string_of(trim_chars(chars.as_slice()));
    let is_date = accepts_http_date(trimmed.as_str());
    normalize_retry_after_with(value.as_str(), is_date)
}

/// The upstream still answered with HTTP 429 after every failover and retry
/// that applied.
#[derive(Debug)]
pub struct UpstreamRateLimitError {
    retry_after: Option<String>,
}

impl UpstreamRateLimitError {
    /// The delay that the upstream asked for, if it gave a usable one.
    pub closed spec fn delay(&self) -> Option<Seq<char>> {
        crate::text::view_opt(self.retry_after)
    }

    /// The error for a `Retry-After` value as it came.
    pub fn new(retry_after: Option<String>) -> (r: Self)
        ensures
            r.delay() == normalized_opt(crate::text::view_opt(retry_after)),
    {
        let retry_after = match retry_after {
            Some(value) => normalize_retry_after(value),
            None => None,
        };
        UpstreamRateLimitError { retry_after }
    }

    /// The error for the headers of the upstream's answer: its first
    /// `Retry-After` value counts, if it is text.
    pub fn from_headers(headers: &http::HeaderMap) -> (r: Self)
        ensures
            r.delay() == (if header_values(*headers).contains_key("retry-after"@) {
                normalized_opt(header_text(header_values(*headers)["retry-after"@][0]))
            } else {
                None
            }),
    {
        let retry_after = match retry_after_value(headers) {
            Some(value) => header_value_text(value),
            None => None,
        };
        Self::new(retry_after)
    }

    /// The delay that the upstream asked for.
    pub fn retry_after(&self) -> (r: Option<&str>)
        ensures
            match r {
                Some(s) => self.delay() == Some(s@),
                None => self.delay() is None,
            },
    {
        match &self.retry_after {
            Some(s) => Some(s.as_str()),
            None => None,
        }
    }

    /// Whether a short local retry is worth while: it is if the upstream gave
    /// no delay.
    pub fn should_retry_locally(&self) -> (r: bool)
        ensures
            r == (self.delay() is None),
    {
        self.retry_after.is_none()
    }

    /// The error as text.
    pub fn message(&self) -> (r: String)
        ensures
            r@ == "upstream rate limited"@,
    {
        "upstream rate limited".to_string()
    }
}

impl Clone for UpstreamRateLimitError {
    fn clone(&self) -> (r: Self)
        ensures
            r == *self,
    {
        UpstreamRateLimitError { retry_after: crate::text::copy_opt(&self.retry_after) }
    }
}

/// A delay that was kept is trimmed, is not empty, and is kept again as it is.
pub proof fn kept_delay_is_stable(value: Seq<char>)
    requires
        normalized(value) is Some,
    ensures
        ({
            let s = normalized(value).unwrap();
            &&& s == trim(value)
            &&& s.len() > 0
            &&& parse_unsigned(s, u64::MAX as nat) is Some || is_http_date(s)
            &&& normalized(s) == Some(s)
        }),
{
    trim_is_idempotent(value);
}

/// A delay in whole seconds is kept, without the blanks around it, and is waited for: it
/// is not tried again at once. Where the upstream gave no delay, or none that can be read,
/// it is.
pub proof fn a_delay_in_seconds_is_kept(
    n: u64,
    left: Seq<char>,
    right: Seq<char>,
    value: String,
    e: UpstreamRateLimitError,
    kept: Option<&str>,
    again: bool,
    none: UpstreamRateLimitError,
    nothing: Option<&str>,
    at_once: bool,
)
    requires
        is_blank(left) && is_blank(right),
        call_ensures(UpstreamRateLimitError::new, (Some(value),), e),
        call_ensures(UpstreamRateLimitError::retry_after, (&e,), kept),
        call_ensures(UpstreamRateLimitError::should_retry_locally, (&e,), again),
        call_ensures(UpstreamRateLimitError::new, (None,), none),
        call_ensures(UpstreamRateLimitError::retry_after, (&none,), nothing),
        call_ensures(UpstreamRateLimitError::should_retry_locally, (&none,), at_once),
    ensures
        value@ == left + decimal(n as nat) + right ==> (kept matches Some(s) && s@ == decimal(
            n as nat,
        )) && !again,
        is_http_date(trim(value@)) && trim(value@).len() > 0 ==> (kept matches Some(s) && s@ == trim(
            value@,
        )) && !again,
        !is_http_date(trim(value@)) && parse_unsigned(trim(value@), u64::MAX as nat) is None
            ==> kept is None && again,
        value@ == left ==> kept is None && again,
        nothing is None && at_once,
{
    let s = decimal(n as nat);
    decimal_reads_back(n as nat, u64::MAX as nat);
    assert(is_digit(s[0]) && is_digit(s.last()));
    trimming_takes_the_blanks(left, s, right);
}

/// Of the headers of an answer the first delay counts, if it can be seen as text; headers
/// without one give none.
pub proof fn the_first_delay_counts(
    headers: http::HeaderMap,
    e: UpstreamRateLimitError,
    seconds: Seq<u8>,
    n: u64,
)
    requires
        call_ensures(UpstreamRateLimitError::from_headers, (&headers,), e),
    ensures
        !header_values(headers).contains_key("retry-after"@) ==> e.delay() is None,
        header_values(headers).contains_key("retry-after"@) && header_values(
            headers,
        )["retry-after"@][0] == seconds && (forall|i: int|
            0 <= i < seconds.len() ==> 32 <= (#[trigger] seconds[i]) < 127) && seconds.map_values(
            |b: u8| b as char,
        ) == decimal(n as nat) ==> e.delay() == Some(decimal(n as nat)),
        header_values(headers).contains_key("retry-after"@) && (exists|i: int|
            0 <= i < header_values(headers)["retry-after"@][0].len() && (#[trigger] header_values(
                headers,
            )["retry-after"@][0][i]) >= 128) ==> e.delay() is None,
{
    let s = decimal(n as nat);
    decimal_reads_back(n as nat, u64::MAX as nat);
    assert(is_digit(s[0]) && is_digit(s.last()));
    trim_keeps_trimmed(s);
    if header_values(headers).contains_key("retry-after"@) {
        let bytes = header_values(headers)["retry-after"@][0];
        if exists|i: int| 0 <= i < bytes.len() && (#[trigger] bytes[i]) >= 128 {
            let i = choose|i: int| 0 <= i < bytes.len() && (#[trigger] bytes[i]) >= 128;
            assert(!is_visible_byte(bytes[i]));
        }
    }
}

} // verus!
