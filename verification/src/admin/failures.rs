//! What the failures of the layers below mean for a client.
//!
//! The layers below report a failure as text. The functions here tell from that
//! text whether the client, the upstream or the gateway is at fault.

use vstd::prelude::*;

use crate::admin::error::{AdminServiceError, ErrorView};
use crate::text::{contains, mentions};

verus! {

/// What a failed change of a credential means.
pub open spec fn change_failure(message: Seq<char>, id: u64) -> ErrorView {
    if contains(message, "不存在"@) {
        ErrorView::NotFound(id)
    } else {
        ErrorView::Internal(message)
    }
}

/// Whether a message tells of the upstream, or of the way to it.
pub open spec fn tells_of_upstream(message: Seq<char>) -> bool {
    ||| contains(message, "获取使用额度失败"@)
    ||| contains(message, "凭证已过期或无效"@)
    ||| contains(message, "权限不足"@)
    ||| contains(message, "已被限流"@)
    ||| contains(message, "服务器错误"@)
    ||| contains(message, "Token 刷新失败"@)
    ||| contains(message, "暂时不可用"@)
    ||| contains(message, "error sending request"@)
    ||| contains(message, "error trying to connect"@)
    ||| contains(message, "connection"@)
    ||| contains(message, "timeout"@)
    ||| contains(message, "timed out"@)
    ||| contains(message, "proxy"@)
    ||| contains(message, "SOCKS"@)
    ||| contains(message, "dns"@)
    ||| contains(message, "DNS"@)
}

/// What a failed call that involves the upstream means.
pub open spec fn balance_failure(message: Seq<char>, id: u64) -> ErrorView {
    if contains(message, "不存在"@) {
        ErrorView::NotFound(id)
    } else if contains(message, "API Key 凭据不支持刷新"@) {
        ErrorView::Invalid(message)
    } else if contains(message, "Invalid profileArn"@) {
        ErrorView::Invalid(
            "凭据缺少或包含无效 profileArn，无法查询余额；请重新登录获取 profileArn，或导入包含 profileArn 的完整凭据"@,
        )
    } else if tells_of_upstream(message) {
        ErrorView::Upstream(message)
    } else {
        ErrorView::Internal(message)
    }
}

/// Whether a message tells of a credential that cannot be added.
pub open spec fn tells_of_bad_credential(message: Seq<char>) -> bool {
    ||| contains(message, "缺少 refreshToken"@)
    ||| contains(message, "refreshToken 为空"@)
    ||| contains(message, "refreshToken 已被截断"@)
    ||| contains(message, "凭据已存在"@)
    ||| contains(message, "refreshToken 重复"@)
    ||| contains(message, "kiroApiKey 重复"@)
    ||| contains(message, "缺少 kiroApiKey"@)
    ||| contains(message, "kiroApiKey 为空"@)
    ||| contains(message, "凭证已过期或无效"@)
    ||| contains(message, "权限不足"@)
    ||| contains(message, "已被限流"@)
}

/// What it means if a credential could not be added.
pub open spec fn add_failure(message: Seq<char>) -> ErrorView {
    if tells_of_bad_credential(message) {
        ErrorView::Invalid(message)
    } else if contains(message, "error trying to connect"@) || contains(message, "connection"@)
        || contains(message, "timeout"@) {
        ErrorView::Upstream(message)
    } else {
        ErrorView::Internal(message)
    }
}

/// What it means if a credential could not be deleted.
pub open spec fn delete_failure(message: Seq<char>, id: u64) -> ErrorView {
    if contains(message, "不存在"@) {
        ErrorView::NotFound(id)
    } else if contains(message, "只能删除已禁用的凭据"@) || contains(message, "请先禁用凭据"@) {
        ErrorView::Invalid(message)
    } else {
        ErrorView::Internal(message)
    }
}

/// What it means if a refresh token could not be replaced.
pub open spec fn token_failure(message: Seq<char>, id: u64) -> ErrorView {
    if contains(message, "不存在"@) {
        ErrorView::NotFound(id)
    } else if contains(message, "只能为已禁用"@) || contains(message, "refreshToken 重复"@)
        || contains(message, "已被截断"@) || contains(message, "refreshToken 为空"@) || contains(
        message,
        "缺少 refreshToken"@,
    ) {
        ErrorView::Invalid(message)
    } else {
        ErrorView::Internal(message)
    }
}

/// What a failed change of a credential means.
pub fn classify_error(e: String, id: u64) -> (r: AdminServiceError)
    ensures
        r@ == change_failure(e@, id),
{
    if mentions(e.as_str(), "不存在") {
        AdminServiceError::NotFound { id }
    } else {
        AdminServiceError::InternalError(e)
    }
}

fn is_upstream_error(msg: &str) -> (r: bool)
    ensures
        r == tells_of_upstream(msg@),
{
    mentions(msg, "获取使用额度失败") || mentions(msg, "凭证已过期或无效") || mentions(
        msg,
        "权限不足",
    ) || mentions(msg, "已被限流") || mentions(msg, "服务器错误") || mentions(
        msg,
        "Token 刷新失败",
    ) || mentions(msg, "暂时不可用") || mentions(msg, "error sending request") || mentions(
        msg,
        "error trying to connect",
    ) || mentions(msg, "connection") || mentions(msg, "timeout") || mentions(msg, "timed out")
        || mentions(msg, "proxy") || mentions(msg, "SOCKS") || mentions(msg, "dns") || mentions(
        msg,
        "DNS",
    )
}

/// What a failed call that involves the upstream means.
pub fn classify_balance_error(e: String, id: u64) -> (r: AdminServiceError)
    ensures
        r@ == balance_failure(e@, id),
{
    if mentions(e.as_str(), "不存在") {
        AdminServiceError::NotFound { id }
    } else if mentions(e.as_str(), "API Key 凭据不支持刷新") {
        AdminServiceError::InvalidCredential(e)
    } else if mentions(e.as_str(), "Invalid profileArn") {
        AdminServiceError::InvalidCredential(
            "凭据缺少或包含无效 profileArn，无法查询余额；请重新登录获取 profileArn，或导入包含 profileArn 的完整凭据".to_string(),
        )
    } else if is_upstream_error(e.as_str()) {
        AdminServiceError::UpstreamError(e)
    } else {
        AdminServiceError::InternalError(e)
    }
}

fn is_invalid_credential(msg: &str) -> (r: bool)
    ensures
        r == tells_of_bad_credential(msg@),
{
    mentions(msg, "缺少 refreshToken") || mentions(msg, "refreshToken 为空") || mentions(
        msg,
        "refreshToken 已被截断",
    ) || mentions(msg, "凭据已存在") || mentions(msg, "refreshToken 重复") || mentions(
        msg,
        "kiroApiKey 重复",
    ) || mentions(msg, "缺少 kiroApiKey") || mentions(msg, "kiroApiKey 为空") || mentions(
        msg,
        "凭证已过期或无效",
    ) || mentions(msg, "权限不足") || mentions(msg, "已被限流")
}

/// What it means if a credential could not be added.
pub fn classify_add_error(e: String) -> (r: AdminServiceError)
    ensures
        r@ == add_failure(e@),
{
    if is_invalid_credential(e.as_str()) {
        AdminServiceError::InvalidCredential(e)
    } else if mentions(e.as_str(), "error trying to connect") || mentions(e.as_str(), "connection")
        || mentions(e.as_str(), "timeout") {
        AdminServiceError::UpstreamError(e)
    } else {
        AdminServiceError::InternalError(e)
    }
}

/// What it means if a credential could not be deleted.
pub fn classify_delete_error(e: String, id: u64) -> (r: AdminServiceError)
    ensures
        r@ == delete_failure(e@, id),
{
    if mentions(e.as_str(), "不存在") {
        AdminServiceError::NotFound { id }
    } else if mentions(e.as_str(), "只能删除已禁用的凭据") || mentions(e.as_str(), "请先禁用凭据") {
        AdminServiceError::InvalidCredential(e)
    } else {
        AdminServiceError::InternalError(e)
    }
}

/// What it means if a refresh token could not be replaced.
pub fn classify_token_error(e: String, id: u64) -> (r: AdminServiceError)
    ensures
        r@ == token_failure(e@, id),
{
    if mentions(e.as_str(), "不存在") {
        AdminServiceError::NotFound { id }
    } else if mentions(e.as_str(), "只能为已禁用") || mentions(e.as_str(), "refreshToken 重复")
        || mentions(e.as_str(), "已被截断") || mentions(e.as_str(), "refreshToken 为空")
        || mentions(e.as_str(), "缺少 refreshToken") {
        AdminServiceError::InvalidCredential(e)
    } else {
        AdminServiceError::InternalError(e)
    }
}

/// A credential that is not there is reported as such by every operation on it,
/// whatever else the message tells.
pub proof fn missing_credential_is_not_found(message: Seq<char>, id: u64)
    requires
        contains(message, "不存在"@),
    ensures
        change_failure(message, id) == ErrorView::NotFound(id),
        balance_failure(message, id) == ErrorView::NotFound(id),
        delete_failure(message, id) == ErrorView::NotFound(id),
        token_failure(message, id) == ErrorView::NotFound(id),
{
}

/// What the upstream said never reaches a client through a failed balance
/// query, whatever it was.
pub proof fn upstream_failures_are_masked(message: Seq<char>, id: u64)
    requires
        balance_failure(message, id) is Upstream,
    ensures
        balance_failure(message, id).message() == "上游服务请求失败"@,
{
}

/// A failure that tells of the upstream, or of the way to it, is the upstream's, unless
/// it tells of the credential: any of these words is enough.
pub proof fn words_of_the_upstream_are_known(e: String, id: u64, r: AdminServiceError)
    requires
        call_ensures(classify_balance_error, (e, id), r),
        !contains(e@, "不存在"@),
        !contains(e@, "API Key 凭据不支持刷新"@),
        !contains(e@, "Invalid profileArn"@),
    ensures
        contains(e@, "获取使用额度失败"@) ==> r@ == ErrorView::Upstream(e@),
        contains(e@, "凭证已过期或无效"@) ==> r@ == ErrorView::Upstream(e@),
        contains(e@, "权限不足"@) ==> r@ == ErrorView::Upstream(e@),
        contains(e@, "已被限流"@) ==> r@ == ErrorView::Upstream(e@),
        contains(e@, "服务器错误"@) ==> r@ == ErrorView::Upstream(e@),
        contains(e@, "Token 刷新失败"@) ==> r@ == ErrorView::Upstream(e@),
        contains(e@, "暂时不可用"@) ==> r@ == ErrorView::Upstream(e@),
        contains(e@, "error sending request"@) ==> r@ == ErrorView::Upstream(e@),
        contains(e@, "error trying to connect"@) ==> r@ == ErrorView::Upstream(e@),
        contains(e@, "connection"@) ==> r@ == ErrorView::Upstream(e@),
        contains(e@, "timeout"@) || contains(e@, "timed out"@) ==> r@ == ErrorView::Upstream(e@),
        contains(e@, "proxy"@) || contains(e@, "SOCKS"@) ==> r@ == ErrorView::Upstream(e@),
        contains(e@, "dns"@) || contains(e@, "DNS"@) ==> r@ == ErrorView::Upstream(e@),
        r@ == ErrorView::Upstream(e@) || r@ == ErrorView::Internal(e@),
        r@ is Upstream ==> contains(e@, "获取使用额度失败"@) || contains(e@, "凭证已过期或无效"@)
            || contains(e@, "权限不足"@) || contains(e@, "已被限流"@) || contains(e@, "服务器错误"@)
            || contains(e@, "Token 刷新失败"@) || contains(e@, "暂时不可用"@) || contains(
            e@,
            "error sending request"@,
        ) || contains(e@, "error trying to connect"@) || contains(e@, "connection"@) || contains(
            e@,
            "timeout"@,
        ) || contains(e@, "timed out"@) || contains(e@, "proxy"@) || contains(e@, "SOCKS"@)
            || contains(e@, "dns"@) || contains(e@, "DNS"@),
{
}

/// A failure that tells of nothing known is the gateway's, with its text.
pub proof fn other_failures_are_internal(e: String, id: u64, errors: Seq<AdminServiceError>)
    requires
        errors.len() == 4,
        call_ensures(classify_error, (e, id), errors[0]),
        call_ensures(classify_delete_error, (e, id), errors[1]),
        call_ensures(classify_token_error, (e, id), errors[2]),
        call_ensures(classify_add_error, (e,), errors[3]),
        !contains(e@, "不存在"@),
    ensures
        errors[0]@ == ErrorView::Internal(e@),
        !contains(e@, "只能删除已禁用的凭据"@) && !contains(e@, "请先禁用凭据"@) ==> errors[1]@
            == ErrorView::Internal(e@),
        contains(e@, "只能删除已禁用的凭据"@) || contains(e@, "请先禁用凭据"@) ==> errors[1]@
            == ErrorView::Invalid(e@),
        contains(e@, "只能为已禁用"@) || contains(e@, "refreshToken 重复"@) || contains(
            e@,
            "已被截断"@,
        ) || contains(e@, "refreshToken 为空"@) || contains(e@, "缺少 refreshToken"@) ==> errors[2]@
            == ErrorView::Invalid(e@),
        errors[2]@ == ErrorView::Invalid(e@) || errors[2]@ == ErrorView::Internal(e@),
        !contains(e@, "只能为已禁用"@) && !contains(e@, "refreshToken 重复"@) && !contains(
            e@,
            "已被截断"@,
        ) && !contains(e@, "refreshToken 为空"@) && !contains(e@, "缺少 refreshToken"@) ==> errors[2]@
            == ErrorView::Internal(e@),
{
}

/// A credential that cannot be added because of itself is a bad request, whatever else
/// the failure tells; one that could not be checked because of the way to the upstream
/// is the upstream's.
pub proof fn a_credential_that_cannot_be_added_is_refused(e: String, r: AdminServiceError)
    requires
        call_ensures(classify_add_error, (e,), r),
    ensures
        contains(e@, "缺少 refreshToken"@) || contains(e@, "refreshToken 为空"@) || contains(
            e@,
            "refreshToken 已被截断"@,
        ) || contains(e@, "refreshToken 重复"@) ==> r@ == ErrorView::Invalid(e@),
        contains(e@, "缺少 kiroApiKey"@) || contains(e@, "kiroApiKey 为空"@) || contains(
            e@,
            "kiroApiKey 重复"@,
        ) ==> r@ == ErrorView::Invalid(e@),
        contains(e@, "凭据已存在"@) ==> r@ == ErrorView::Invalid(e@),
        contains(e@, "凭证已过期或无效"@) || contains(e@, "权限不足"@) || contains(e@, "已被限流"@)
            ==> r@ == ErrorView::Invalid(e@),
        !(r@ is Invalid) && (contains(e@, "error trying to connect"@) || contains(e@, "connection"@)
            || contains(e@, "timeout"@)) ==> r@ == ErrorView::Upstream(e@),
        !contains(e@, "error trying to connect"@) && !contains(e@, "connection"@) && !contains(
            e@,
            "timeout"@,
        ) ==> !(r@ is Upstream),
        r@ == ErrorView::Invalid(e@) || r@ == ErrorView::Upstream(e@) || r@ == ErrorView::Internal(
            e@,
        ),
        r@ is Invalid ==> contains(e@, "缺少 refreshToken"@) || contains(e@, "refreshToken 为空"@)
            || contains(e@, "refreshToken 已被截断"@) || contains(e@, "refreshToken 重复"@)
            || contains(e@, "kiroApiKey 重复"@) || contains(e@, "缺少 kiroApiKey"@) || contains(
            e@,
            "kiroApiKey 为空"@,
        ) || contains(e@, "凭据已存在"@) || contains(e@, "凭证已过期或无效"@) || contains(
            e@,
            "权限不足"@,
        ) || contains(e@, "已被限流"@),
{
}

/// A credential that is not there is not found, whatever was tried with it; one that
/// cannot be refreshed, or has no valid profile, is a bad request.
pub proof fn a_missing_credential_is_not_found(
    e: String,
    id: u64,
    errors: Seq<AdminServiceError>,
)
    requires
        errors.len() == 4,
        call_ensures(classify_error, (e, id), errors[0]),
        call_ensures(classify_balance_error, (e, id), errors[1]),
        call_ensures(classify_delete_error, (e, id), errors[2]),
        call_ensures(classify_token_error, (e, id), errors[3]),
    ensures
        contains(e@, "不存在"@) ==> errors[0]@ == ErrorView::NotFound(id) && errors[1]@
            == ErrorView::NotFound(id) && errors[2]@ == ErrorView::NotFound(id) && errors[3]@
            == ErrorView::NotFound(id),
        !contains(e@, "不存在"@) && contains(e@, "API Key 凭据不支持刷新"@) ==> errors[1]@
            == ErrorView::Invalid(e@),
        !contains(e@, "不存在"@) && !contains(e@, "API Key 凭据不支持刷新"@) && contains(
            e@,
            "Invalid profileArn"@,
        ) ==> errors[1]@ == ErrorView::Invalid(
            "凭据缺少或包含无效 profileArn，无法查询余额；请重新登录获取 profileArn，或导入包含 profileArn 的完整凭据"@,
        ),
{
}

} // verus!
