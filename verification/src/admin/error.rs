//! The errors of the administration interface and how they are answered.

use vstd::prelude::*;

use crate::numbers::{decimal, write_decimal};
use crate::text::view_opt;

verus! {

/// An error of the administration service.
#[derive(Debug)]
pub enum AdminServiceError {
    /// There is no credential with this id.
    NotFound {
        /// The id that was asked for.
        id: u64,
    },
    /// A call to the upstream failed.
    UpstreamError(String),
    /// The upstream limits the rate of requests.
    RateLimited {
        /// When to try again, as the upstream said it.
        retry_after: Option<String>,
    },
    /// Something is wrong on this side.
    InternalError(String),
    /// The credential, or another value in the request, is not valid.
    InvalidCredential(String),
}

/// What an [`AdminServiceError`] says.
#[verifier::ext_equal]
pub enum ErrorView {
    /// See [`AdminServiceError::NotFound`].
    NotFound(u64),
    /// See [`AdminServiceError::UpstreamError`].
    Upstream(Seq<char>),
    /// See [`AdminServiceError::RateLimited`].
    RateLimited(Option<Seq<char>>),
    /// See [`AdminServiceError::InternalError`].
    Internal(Seq<char>),
    /// See [`AdminServiceError::InvalidCredential`].
    Invalid(Seq<char>),
}

impl View for AdminServiceError {
    type V = ErrorView;

    open spec fn view(&self) -> ErrorView {
        match self {
            AdminServiceError::NotFound { id } => ErrorView::NotFound(*id),
            AdminServiceError::UpstreamError(m) => ErrorView::Upstream(m@),
            AdminServiceError::RateLimited { retry_after } => ErrorView::RateLimited(
                view_opt(*retry_after),
            ),
            AdminServiceError::InternalError(m) => ErrorView::Internal(m@),
            AdminServiceError::InvalidCredential(m) => ErrorView::Invalid(m@),
        }
    }
}

impl ErrorView {
    /// The text that a client is shown.
    pub open spec fn message(self) -> Seq<char> {
        match self {
            ErrorView::NotFound(id) => "凭据不存在: "@ + decimal(id as nat),
            ErrorView::Upstream(_) => "上游服务请求失败"@,
            ErrorView::RateLimited(_) => "上游请求过于频繁，请稍后重试"@,
            ErrorView::Internal(m) => "内部错误: "@ + m,
            ErrorView::Invalid(m) => "凭据无效: "@ + m,
        }
    }

    /// The HTTP status of the answer.
    pub open spec fn status(self) -> u16 {
        match self {
            ErrorView::NotFound(_) => 404,
            ErrorView::Upstream(_) => 502,
            ErrorView::RateLimited(_) => 429,
            ErrorView::Internal(_) => 500,
            ErrorView::Invalid(_) => 400,
        }
    }

    /// The kind of the error in the body of the answer.
    pub open spec fn kind(self) -> ErrorKind {
        match self {
            ErrorView::NotFound(_) => ErrorKind::NotFound,
            ErrorView::Upstream(_) => ErrorKind::ApiError,
            ErrorView::RateLimited(_) => ErrorKind::RateLimit,
            ErrorView::Internal(_) => ErrorKind::InternalError,
            ErrorView::Invalid(_) => ErrorKind::InvalidRequest,
        }
    }

    /// The `Retry-After` header of the answer: the delay that the upstream gave,
    /// if it can stand in a header.
    pub open spec fn retry_after(self) -> Option<Seq<char>> {
        match self {
            ErrorView::RateLimited(Some(v)) if is_header_value(v) => Some(v),
            _ => None,
        }
    }
}

/// The kinds of error that a body names.
#[derive(Debug, Clone, Copy, PartialEq, Eq, Structural)]
pub enum ErrorKind {
    /// Something was not found.
    NotFound,
    /// The upstream failed.
    ApiError,
    /// Too many requests.
    RateLimit,
    /// Something is wrong on this side.
    InternalError,
    /// The request is not valid.
    InvalidRequest,
}

impl ErrorKind {
    /// The name of the kind in a body.
    pub open spec fn label(self) -> Seq<char> {
        match self {
            ErrorKind::NotFound => "not_found"@,
            ErrorKind::ApiError => "api_error"@,
            ErrorKind::RateLimit => "rate_limit_error"@,
            ErrorKind::InternalError => "internal_error"@,
            ErrorKind::InvalidRequest => "invalid_request"@,
        }
    }

    /// The name of the kind in a body.
    pub fn name(&self) -> (r: String)
        ensures
            r@ == self.label(),
    {
        match self {
            ErrorKind::NotFound => "not_found".to_string(),
            ErrorKind::ApiError => "api_error".to_string(),
            ErrorKind::RateLimit => "rate_limit_error".to_string(),
            ErrorKind::InternalError => "internal_error".to_string(),
            ErrorKind::InvalidRequest => "invalid_request".to_string(),
        }
    }
}

/// The body of an error answer.
#[derive(Debug)]
pub struct AdminErrorResponse {
    /// What kind of error it is.
    pub kind: ErrorKind,
    /// The text that a client is shown.
    pub message: String,
}

impl AdminErrorResponse {
    /// The body for something that was not found.
    pub fn not_found(message: String) -> (r: Self)
        ensures
            r.kind == ErrorKind::NotFound,
            r.message == message,
    {
        AdminErrorResponse { kind: ErrorKind::NotFound, message }
    }

    /// The body for a failed upstream.
    pub fn api_error(message: String) -> (r: Self)
        ensures
            r.kind == ErrorKind::ApiError,
            r.message == message,
    {
        AdminErrorResponse { kind: ErrorKind::ApiError, message }
    }

    /// The body for too many requests.
    pub fn rate_limit(message: String) -> (r: Self)
        ensures
            r.kind == ErrorKind::RateLimit,
            r.message == message,
    {
        AdminErrorResponse { kind: ErrorKind::RateLimit, message }
    }

    /// The body for an error on this side.
    pub fn internal_error(message: String) -> (r: Self)
        ensures
            r.kind == ErrorKind::InternalError,
            r.message == message,
    {
        AdminErrorResponse { kind: ErrorKind::InternalError, message }
    }

    /// The body for a request that is not valid.
    pub fn invalid_request(message: String) -> (r: Self)
        ensures
            r.kind == ErrorKind::InvalidRequest,
            r.message == message,
    {
        AdminErrorResponse { kind: ErrorKind::InvalidRequest, message }
    }
}

/// An answer over HTTP.
#[derive(Debug)]
pub struct HttpAnswer {
    /// The status.
    pub status: u16,
    /// The `Retry-After` header, if the answer has one.
    pub retry_after: Option<String>,
    /// The body.
    pub body: AdminErrorResponse,
}

/// A character that can stand in a header value: no control character but the
/// tab, and not the delete character.
pub open spec fn is_header_char(c: char) -> bool {
    let n = c as u32;
    (n >= 32 && n != 127) || n == 9
}

/// Whether a text can stand in a header.
pub open spec fn is_header_value(s: Seq<char>) -> bool {
    forall|i: int| 0 <= i < s.len() ==> is_header_char(#[trigger] s[i])
}

/// `http::HeaderValue::from_str`: whether the text can stand in a header. Bytes
/// from 32 on, without 127, and tabs are accepted; every byte of a character
/// beyond ASCII is at least 128.
#[verifier::external_body]
fn accepts_header_value(value: &str) -> (r: bool)
    ensures
        r == is_header_value(value@),
{
    http::HeaderValue::from_str(value).is_ok()
}

impl AdminServiceError {
    /// The text that a client is shown.
    pub fn message(&self) -> (r: String)
        ensures
            r@ == self@.message(),
    {
        match self {
            AdminServiceError::NotFound { id } => {
                let mut out = "凭据不存在: ".to_string();
                out.append(write_decimal(*id).as_str());
                out
            },
            AdminServiceError::UpstreamError(_) => "上游服务请求失败".to_string(),
            AdminServiceError::RateLimited { .. } => "上游请求过于频繁，请稍后重试".to_string(),
            AdminServiceError::InternalError(msg) => {
                let mut out = "内部错误: ".to_string();
                out.append(msg.as_str());
                out
            },
            AdminServiceError::InvalidCredential(msg) => {
                let mut out = "凭据无效: ".to_string();
                out.append(msg.as_str());
                out
            },
        }
    }

    /// The HTTP status of the answer.
    pub fn status_code(&self) -> (r: u16)
        ensures
            r == self@.status(),
    {
        match self {
            AdminServiceError::NotFound { .. } => 404,
            AdminServiceError::UpstreamError(_) => 502,
            AdminServiceError::RateLimited { .. } => 429,
            AdminServiceError::InternalError(_) => 500,
            AdminServiceError::InvalidCredential(_) => 400,
        }
    }

    /// The body of the answer.
    pub fn into_response(self) -> (r: AdminErrorResponse)
        ensures
            r.kind == self@.kind(),
            r.message@ == self@.message(),
    {
        let message = self.message();
        match &self {
            AdminServiceError::NotFound { .. } => AdminErrorResponse::not_found(message),
            AdminServiceError::UpstreamError(_) => AdminErrorResponse::api_error(message),
            AdminServiceError::RateLimited { .. } => AdminErrorResponse::rate_limit(message),
            AdminServiceError::InternalError(_) => AdminErrorResponse::internal_error(message),
            AdminServiceError::InvalidCredential(_) => AdminErrorResponse::invalid_request(message),
        }
    }

    /// The whole answer.
    pub fn into_http_response(self) -> (r: HttpAnswer)
        ensures
            r.status == self@.status(),
            view_opt(r.retry_after) == self@.retry_after(),
            r.body.kind == self@.kind(),
            r.body.message@ == self@.message(),
    {
        let retry_after = match &self {
            AdminServiceError::RateLimited { retry_after: Some(value) } => {
                if accepts_header_value(value.as_str()) {
                    Some(value.clone())
                } else {
                    None
                }
            },
            _ => None,
        };
        let status: u16 = self.status_code();
        HttpAnswer { status, retry_after, body: self.into_response() }
    }
}

/// The answer to a failed upstream call is the same whatever the upstream said:
/// nothing of its text reaches a client.
pub proof fn upstream_text_is_not_exposed(one: Seq<char>, other: Seq<char>)
    ensures
        ErrorView::Upstream(one).status() == ErrorView::Upstream(other).status(),
        ErrorView::Upstream(one).retry_after() == ErrorView::Upstream(other).retry_after(),
        ErrorView::Upstream(one).kind() == ErrorView::Upstream(other).kind(),
        ErrorView::Upstream(one).message() == ErrorView::Upstream(other).message(),
{
}

/// Only a rate limit is answered with a `Retry-After` header.
pub proof fn only_rate_limits_carry_a_delay(e: ErrorView)
    requires
        e.retry_after() is Some,
    ensures
        e.status() == 429,
        e.kind() == ErrorKind::RateLimit,
        e == ErrorView::RateLimited(e.retry_after()),
{
}

/// Every error has its status, its kind and its text: what was not found and what is not
/// valid is the client's to mend and is told in full, what the upstream said is not told,
/// and a limit of the upstream is told with the delay that it asked for.
pub proof fn every_error_has_its_answer(e: AdminServiceError, r: HttpAnswer)
    requires
        call_ensures(AdminServiceError::into_http_response, (e,), r),
    ensures
        e matches AdminServiceError::NotFound { id } ==> r.status == 404 && r.body.kind
            == ErrorKind::NotFound && r.body.message@ == "凭据不存在: "@ + decimal(id as nat),
        e is UpstreamError ==> r.status == 502 && r.body.kind == ErrorKind::ApiError
            && r.body.message@ == "上游服务请求失败"@,
        e matches AdminServiceError::InternalError(m) ==> r.status == 500 && r.body.kind
            == ErrorKind::InternalError && r.body.message@ == "内部错误: "@ + m@,
        e matches AdminServiceError::InvalidCredential(m) ==> r.status == 400 && r.body.kind
            == ErrorKind::InvalidRequest && r.body.message@ == "凭据无效: "@ + m@,
        e is RateLimited ==> r.status == 429 && r.body.kind == ErrorKind::RateLimit
            && r.body.message@ == "上游请求过于频繁，请稍后重试"@,
        !(e is RateLimited) ==> r.retry_after is None,
        e matches AdminServiceError::RateLimited { retry_after: None } ==> r.retry_after is None,
        e matches AdminServiceError::RateLimited { retry_after: Some(v) } ==> (forall|i: int|
            0 <= i < v@.len() ==> ' ' <= (#[trigger] v@[i]) <= '~') ==> (r.retry_after matches Some(d)
            && d@ == v@),
        e matches AdminServiceError::RateLimited { retry_after: Some(v) } ==> (v@.contains('\n')
            || v@.contains('\r')) ==> r.retry_after is None,
{
    if let AdminServiceError::RateLimited { retry_after: Some(v) } = e {
        if v@.contains('\n') {
            let i = choose|i: int| 0 <= i < v@.len() && v@[i] == '\n';
            assert(!is_header_char(v@[i]));
        }
        if v@.contains('\r') {
            let i = choose|i: int| 0 <= i < v@.len() && v@[i] == '\r';
            assert(!is_header_char(v@[i]));
        }
    }
}

/// The status, the text and the body that are asked for one by one are those of the
/// whole answer.
pub proof fn the_parts_of_an_answer_agree(
    e: AdminServiceError,
    whole: HttpAnswer,
    status: u16,
    message: String,
    body: AdminErrorResponse,
)
    requires
        call_ensures(AdminServiceError::into_http_response, (e,), whole),
        call_ensures(AdminServiceError::status_code, (&e,), status),
        call_ensures(AdminServiceError::message, (&e,), message),
        call_ensures(AdminServiceError::into_response, (e,), body),
    ensures
        status == whole.status,
        message@ == whole.body.message@,
        body.kind == whole.body.kind,
        body.message@ == whole.body.message@,
{
}

/// The kinds of error have the names that a body shows.
pub proof fn kinds_have_their_names(names: Seq<String>)
    requires
        names.len() == 5,
        call_ensures(ErrorKind::name, (&ErrorKind::NotFound,), names[0]),
        call_ensures(ErrorKind::name, (&ErrorKind::ApiError,), names[1]),
        call_ensures(ErrorKind::name, (&ErrorKind::RateLimit,), names[2]),
        call_ensures(ErrorKind::name, (&ErrorKind::InternalError,), names[3]),
        call_ensures(ErrorKind::name, (&ErrorKind::InvalidRequest,), names[4]),
    ensures
        names[0]@ == "not_found"@,
        names[1]@ == "api_error"@,
        names[2]@ == "rate_limit_error"@,
        names[3]@ == "internal_error"@,
        names[4]@ == "invalid_request"@,
{
}

} // verus!
