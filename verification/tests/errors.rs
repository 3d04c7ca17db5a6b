use kiro_rs::admin::error::{AdminServiceError, ErrorKind};
use kiro_rs::admin::failures::{
    classify_add_error, classify_balance_error, classify_delete_error, classify_error,
    classify_token_error,
};

fn shown(e: AdminServiceError) -> (u16, String) {
    (e.status_code(), e.message())
}

#[test]
fn rate_limit_response_has_status_header_and_stable_body() {
    let response =
        AdminServiceError::RateLimited { retry_after: Some("120".to_string()) }.into_http_response();

    assert_eq!(response.status, 429);
    assert_eq!(response.retry_after.unwrap(), "120");
    assert_eq!(response.body.kind.name(), "rate_limit_error");
    assert!(!response.body.message.is_empty());
}

#[test]
fn upstream_error_response_does_not_expose_raw_body() {
    let secret = "aws-account=123456789012 request-id=private-request";
    let response = AdminServiceError::UpstreamError(secret.to_string()).into_http_response();

    assert_eq!(response.status, 502);
    assert!(!response.body.message.contains(secret));
    assert!(!response.body.kind.name().contains(secret));
    assert_eq!(response.retry_after, None);
    assert!(response.body.message.contains("上游服务请求失败"));
}

#[test]
fn every_error_has_its_status_and_text() {
    assert_eq!(shown(AdminServiceError::NotFound { id: 12 }), (404, "凭据不存在: 12".to_string()));
    assert_eq!(
        shown(AdminServiceError::InternalError("x".to_string())),
        (500, "内部错误: x".to_string())
    );
    assert_eq!(
        shown(AdminServiceError::InvalidCredential("y".to_string())),
        (400, "凭据无效: y".to_string())
    );
    assert_eq!(
        shown(AdminServiceError::RateLimited { retry_after: None }),
        (429, "上游请求过于频繁，请稍后重试".to_string())
    );
}

#[test]
fn every_error_has_its_kind() {
    assert_eq!(AdminServiceError::NotFound { id: 1 }.into_response().kind, ErrorKind::NotFound);
    assert_eq!(
        AdminServiceError::UpstreamError(String::new()).into_response().kind,
        ErrorKind::ApiError
    );
    assert_eq!(
        AdminServiceError::InternalError(String::new()).into_response().kind,
        ErrorKind::InternalError
    );
    assert_eq!(
        AdminServiceError::InvalidCredential(String::new()).into_response().kind,
        ErrorKind::InvalidRequest
    );
    assert_eq!(ErrorKind::NotFound.name(), "not_found");
    assert_eq!(ErrorKind::ApiError.name(), "api_error");
    assert_eq!(ErrorKind::InternalError.name(), "internal_error");
    assert_eq!(ErrorKind::InvalidRequest.name(), "invalid_request");
}

#[test]
fn a_delay_that_no_header_can_hold_is_left_out() {
    let e = AdminServiceError::RateLimited { retry_after: Some("1\n2".to_string()) };
    assert_eq!(e.into_http_response().retry_after, None);
    let e = AdminServiceError::RateLimited { retry_after: Some("\u{7f}".to_string()) };
    assert_eq!(e.into_http_response().retry_after, None);
    let e = AdminServiceError::RateLimited { retry_after: Some("a\tb é".to_string()) };
    assert_eq!(e.into_http_response().retry_after, Some("a\tb é".to_string()));
}

#[test]
fn simple_changes_tell_missing_credentials_apart() {
    assert_eq!(shown(classify_error("凭据 #3 不存在".to_string(), 3)).0, 404);
    assert_eq!(
        shown(classify_error("磁盘已满".to_string(), 3)),
        (500, "内部错误: 磁盘已满".to_string())
    );
}

#[test]
fn balance_failures_are_told_apart() {
    let of = |m: &str| shown(classify_balance_error(m.to_string(), 5));
    assert_eq!(of("凭据不存在 timeout"), (404, "凭据不存在: 5".to_string()));
    assert_eq!(of("API Key 凭据不支持刷新").0, 400);
    let arn = of("400: Invalid profileArn timeout");
    assert_eq!(arn.0, 400);
    assert!(arn.1.contains("导入包含 profileArn 的完整凭据"));
    for m in [
        "获取使用额度失败",
        "凭证已过期或无效",
        "权限不足",
        "已被限流",
        "服务器错误",
        "Token 刷新失败",
        "暂时不可用",
        "error sending request",
        "error trying to connect",
        "connection reset",
        "timeout",
        "timed out",
        "bad proxy",
        "SOCKS error",
        "dns failure",
        "DNS failure",
    ] {
        assert_eq!(of(m), (502, "上游服务请求失败".to_string()), "{}", m);
    }
    assert_eq!(of("refreshToken 已被截断").0, 500);
}

#[test]
fn add_failures_are_told_apart() {
    let of = |m: &str| shown(classify_add_error(m.to_string())).0;
    for m in [
        "缺少 refreshToken",
        "refreshToken 为空",
        "refreshToken 已被截断",
        "凭据已存在",
        "refreshToken 重复",
        "kiroApiKey 重复",
        "缺少 kiroApiKey",
        "kiroApiKey 为空",
        "凭证已过期或无效",
        "权限不足",
        "已被限流",
    ] {
        assert_eq!(of(m), 400, "{}", m);
    }
    assert_eq!(of("error trying to connect"), 502);
    assert_eq!(of("connection refused"), 502);
    assert_eq!(of("timeout"), 502);
    assert_eq!(of("dns"), 500);
}

#[test]
fn delete_and_token_failures_are_told_apart() {
    assert_eq!(shown(classify_delete_error("不存在".to_string(), 1)).0, 404);
    assert_eq!(shown(classify_delete_error("只能删除已禁用的凭据".to_string(), 1)).0, 400);
    assert_eq!(shown(classify_delete_error("请先禁用凭据".to_string(), 1)).0, 400);
    assert_eq!(shown(classify_delete_error("其他".to_string(), 1)).0, 500);
    assert_eq!(shown(classify_token_error("不存在".to_string(), 1)).0, 404);
    for m in
        ["只能为已禁用", "refreshToken 重复", "已被截断", "refreshToken 为空", "缺少 refreshToken"]
    {
        assert_eq!(shown(classify_token_error(m.to_string(), 1)).0, 400, "{}", m);
    }
    assert_eq!(shown(classify_token_error("其他".to_string(), 1)).0, 500);
}
