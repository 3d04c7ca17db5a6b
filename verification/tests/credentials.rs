use kiro_rs::admin::credentials::refuse_endpoint;
use kiro_rs::admin::endpoints::{bracket, EndpointSet};
use kiro_rs::admin::proxies::{GetUrlResult, PoolCall, PooledProxy};
use kiro_rs::admin::service::AdminService;
use kiro_rs::admin::types::{
    AddCredentialRequest, AssignProxyRequest, BatchAddProxyRequest, SetLoadBalancingModeRequest,
    SetUpdateConfigRequest, UpdateCredentialRequest, UpdateRefreshTokenRequest,
};
use kiro_rs::http_client::ProxyConfig;
use kiro_rs::kiro::token_manager::{CredentialEntry, ManagerCall};
use kiro_rs::model::config::Config;

fn config() -> Config {
    Config {
        default_endpoint: "q".to_string(),
        proxy_url: None,
        admin_api_key: None,
        api_key: Some("old".to_string()),
        update_image: "a/b".to_string(),
        update_previous_image: Some("a/b:1".to_string()),
        update_auto_apply: false,
        update_auto_apply_time: "03:00".to_string(),
    }
}

fn service() -> AdminService {
    let endpoints = vec!["kiro".to_string(), "cli \"x\"".to_string(), "kiro".to_string()];
    AdminService::new(&config(), vec![], endpoints)
}

fn request(endpoint: Option<&str>) -> AddCredentialRequest {
    AddCredentialRequest {
        access_token: Some("at".to_string()),
        refresh_token: Some("rt".to_string()),
        profile_arn: Some("arn".to_string()),
        expires_at: None,
        auth_method: "social".to_string(),
        provider: None,
        client_id: None,
        client_secret: None,
        priority: 3,
        region: Some("us-east-1".to_string()),
        auth_region: None,
        api_region: None,
        machine_id: None,
        email: Some("a@b".to_string()),
        proxy_url: None,
        proxy_username: None,
        proxy_password: None,
        kiro_api_key: None,
        endpoint: endpoint.map(|s| s.to_string()),
    }
}

fn entry(id: u64, proxy: Option<&str>) -> CredentialEntry {
    CredentialEntry {
        id,
        priority: 0,
        disabled: false,
        failure_count: 0,
        expires_at: None,
        auth_method: None,
        has_profile_arn: false,
        refresh_token_hash: None,
        api_key_hash: None,
        masked_api_key: None,
        email: None,
        success_count: 0,
        last_used_at: None,
        has_proxy: proxy.is_some(),
        proxy_url: proxy.map(|s| s.to_string()),
        refresh_failure_count: 0,
        disabled_reason: None,
        endpoint: None,
    }
}

#[test]
fn a_credential_is_added_with_a_known_endpoint() {
    match service().add_credential(request(Some("kiro"))).unwrap() {
        ManagerCall::AddCredential(c) => {
            assert_eq!(c.refresh_token, Some("rt".to_string()));
            assert_eq!(c.auth_method, Some("social".to_string()));
            assert_eq!(c.endpoint, Some("kiro".to_string()));
            assert_eq!(c.priority, 3);
            assert_eq!((c.id, c.disabled, c.subscription_title), (None, false, None));
        }
        other => panic!("{:?}", other),
    }
    assert!(service().add_credential(request(None)).is_ok());
}

#[test]
fn an_unknown_endpoint_is_refused_with_the_known_ones() {
    let e = service().add_credential(request(Some("q2"))).unwrap_err();
    assert_eq!(
        e.message(),
        "凭据无效: 未知端点 \"q2\"，已注册端点: [\"cli \\\"x\\\"\", \"kiro\"]"
    );
    assert_eq!(refuse_endpoint("a", "[]").message(), "凭据无效: 未知端点 \"a\"，已注册端点: []");
}

#[test]
fn endpoints_are_kept_in_order_and_once() {
    let set = EndpointSet::new(vec![
        "b".to_string(),
        "a".to_string(),
        "ab".to_string(),
        "b".to_string(),
        "é".to_string(),
        "z".to_string(),
    ]);
    assert_eq!(set.listed(), "[\"a\", \"ab\", \"b\", \"z\", \"é\"]");
    assert!(set.has_name("ab") && !set.has_name("abc") && !set.has_name(""));
    assert_eq!(EndpointSet::new(vec![]).listed(), "[]");
    assert_eq!(bracket(&vec!["1".to_string(), "2".to_string()]), "[1, 2]");
}

#[test]
fn an_added_credential_is_answered_with_its_number() {
    let s = service();
    let (answer, call) = s.add_credential_done(Some("a@b".to_string()), Ok(41)).unwrap();
    assert!(answer.success);
    assert_eq!(answer.message, "凭据添加成功，ID: 41");
    assert_eq!((answer.credential_id, answer.email), (41, Some("a@b".to_string())));
    assert!(matches!(call, ManagerCall::UsageLimits { id: 41 }));
    let e = s.add_credential_done(None, Err("凭据已存在".to_string())).unwrap_err();
    assert_eq!(e.status_code(), 400);
}

#[test]
fn disabling_the_credential_in_use_switches() {
    let s = service();
    assert!(matches!(s.set_disabled(1, true), ManagerCall::SetDisabled { id: 1, disabled: true }));
    assert!(matches!(
        s.set_disabled_done(1, 1, true, Ok(())),
        Ok(Some(ManagerCall::SwitchToNext))
    ));
    assert!(matches!(s.set_disabled_done(2, 1, true, Ok(())), Ok(None)));
    assert!(matches!(s.set_disabled_done(1, 1, false, Ok(())), Ok(None)));
    let e = s.set_disabled_done(1, 1, true, Err("凭据不存在".to_string())).unwrap_err();
    assert_eq!(e.status_code(), 404);
}

#[test]
fn simple_changes_are_passed_on() {
    let s = service();
    assert!(matches!(s.set_priority(1, 9), ManagerCall::SetPriority { id: 1, priority: 9 }));
    assert!(matches!(s.reset_and_enable(1), ManagerCall::ResetAndEnable { id: 1 }));
    assert!(matches!(
        s.reset_success_count(None),
        ManagerCall::ResetSuccessCount { which: None }
    ));
    assert!(s.change_done(1, Ok(())).is_ok());
    assert_eq!(s.change_done(1, Err("不存在".to_string())).unwrap_err().status_code(), 404);
    assert_eq!(s.reset_success_count_done(None, Ok(3)).unwrap(), 3);
    let e = s.reset_success_count_done(None, Err("不存在".to_string())).unwrap_err();
    assert_eq!(e.message(), "凭据不存在: 0");
    assert!(matches!(s.force_refresh_token(4), ManagerCall::ForceRefreshToken { id: 4 }));
    assert!(s.force_refresh_token_done(4, Ok(())).is_ok());
    let e = s.force_refresh_token_done(4, Err("API Key 凭据不支持刷新".to_string())).unwrap_err();
    assert_eq!(e.status_code(), 400);
}

#[test]
fn empty_values_are_cleared() {
    let req = UpdateCredentialRequest {
        email: Some(String::new()),
        proxy_url: Some("http://p".to_string()),
        proxy_username: None,
        proxy_password: Some(" ".to_string()),
    };
    match service().update_credential(6, req) {
        ManagerCall::UpdateCredential { id, email, proxy_url, proxy_username, proxy_password } => {
            assert_eq!(id, 6);
            assert_eq!(email, Some(None));
            assert_eq!(proxy_url, Some(Some("http://p".to_string())));
            assert_eq!(proxy_username, None);
            assert_eq!(proxy_password, Some(Some(" ".to_string())));
        }
        other => panic!("{:?}", other),
    }
}

#[test]
fn tokens_are_replaced() {
    let s = service();
    let req = UpdateRefreshTokenRequest {
        refresh_token: "r".to_string(),
        access_token: None,
        expires_at: Some("e".to_string()),
    };
    match s.update_refresh_token(2, req) {
        ManagerCall::UpdateRefreshToken { id, refresh_token, access_token, expires_at } => {
            assert_eq!((id, refresh_token.as_str(), access_token), (2, "r", None));
            assert_eq!(expires_at, Some("e".to_string()));
        }
        other => panic!("{:?}", other),
    }
    assert!(s.update_refresh_token_done(2, Ok(())).is_ok());
    let e = s.update_refresh_token_done(2, Err("只能为已禁用的凭据更新".to_string())).unwrap_err();
    assert_eq!(e.status_code(), 400);
}

#[test]
fn the_global_proxy_has_a_known_scheme() {
    let s = service();
    for url in ["http://p", "https://p", "socks5://p", "socks4://p"] {
        let change = s.set_global_proxy(Some(url.to_string())).unwrap();
        assert_eq!(change.url, Some(url.to_string()));
        match change.call {
            ManagerCall::SetGlobalProxy(Some(p)) => {
                assert_eq!((p.url.as_str(), p.username, p.password), (url, None, None))
            }
            other => panic!("{:?}", other),
        }
    }
    assert_eq!(s.set_global_proxy(Some("ftp://p".to_string())).unwrap_err().status_code(), 400);
    assert_eq!(s.set_global_proxy(Some(String::new())).unwrap_err().status_code(), 400);
    let cleared = s.set_global_proxy(None).unwrap();
    assert!(cleared.url.is_none());
    assert!(matches!(cleared.call, ManagerCall::SetGlobalProxy(None)));
    let proxy = Some(ProxyConfig::new("http://p"));
    assert_eq!(s.get_global_proxy(&proxy), Some("http://p".to_string()));
    assert_eq!(s.get_global_proxy(&None), None);
}

#[test]
fn keys_and_proxies_are_stored() {
    let s = service();
    let mut c = config();
    s.persist_admin_key(&mut c, "admin");
    s.persist_api_key(&mut c, "api");
    c.store_proxy_url(Some("http://p".to_string()));
    assert_eq!(c.admin_api_key, Some("admin".to_string()));
    assert_eq!(c.api_key, Some("api".to_string()));
    assert_eq!(c.proxy_url, Some("http://p".to_string()));
    assert_eq!(c.update_image, "a/b");
}

#[test]
fn credentials_take_turns_in_one_of_two_ways() {
    let s = service();
    for mode in ["priority", "balanced"] {
        let req = SetLoadBalancingModeRequest { mode: mode.to_string() };
        assert!(matches!(
            s.set_load_balancing_mode(&req),
            Ok(ManagerCall::SetLoadBalancingMode(m)) if m == mode
        ));
        assert_eq!(s.set_load_balancing_mode_done(req, Ok(())).unwrap().mode, mode);
    }
    let req = SetLoadBalancingModeRequest { mode: "random".to_string() };
    assert_eq!(
        s.set_load_balancing_mode(&req).unwrap_err().message(),
        "凭据无效: mode 必须是 'priority' 或 'balanced'"
    );
    let e = s.set_load_balancing_mode_done(req, Err("io".to_string())).unwrap_err();
    assert_eq!(e.message(), "内部错误: io");
    assert_eq!(s.get_load_balancing_mode("balanced".to_string()).mode, "balanced");
}

#[test]
fn update_settings_are_changed_together() {
    let mut s = service();
    let (answer, change) = s
        .set_update_config(&SetUpdateConfigRequest {
            image: Some(" c/d:2 ".to_string()),
            auto_apply: Some(true),
            auto_apply_time: Some("4:5".to_string()),
        })
        .unwrap();
    assert_eq!(answer.image, "c/d:2");
    assert!(answer.auto_apply);
    assert_eq!(answer.auto_apply_time, "04:05");
    assert_eq!(answer.previous_image, Some("a/b:1".to_string()));
    let mut c = config();
    c.apply_update_change(change);
    assert_eq!((c.update_image.as_str(), c.update_auto_apply_time.as_str()), ("c/d:2", "04:05"));
    assert!(c.update_auto_apply);
    assert_eq!(s.get_update_config().image, "c/d:2");
}

#[test]
fn update_settings_that_are_not_valid_change_nothing() {
    let mut s = service();
    assert!(s
        .set_update_config(&SetUpdateConfigRequest {
            image: Some("c/d".to_string()),
            auto_apply: Some(true),
            auto_apply_time: Some("25:00".to_string()),
        })
        .is_err());
    assert_eq!(s.get_update_config().image, "a/b");
    assert!(!s.get_update_config().auto_apply);
    let (answer, _) = s
        .set_update_config(&SetUpdateConfigRequest {
            image: Some("  ".to_string()),
            auto_apply: None,
            auto_apply_time: None,
        })
        .unwrap();
    assert_eq!(answer.image, "");
    assert_eq!(answer.auto_apply_time, "03:00");
}

#[test]
fn proxies_are_listed_with_their_users() {
    let s = service();
    let pool = vec![
        PooledProxy { id: 1, url: "http://p".to_string(), label: None, enabled: true },
        PooledProxy {
            id: 2,
            url: "http://q".to_string(),
            label: Some("q".to_string()),
            enabled: false,
        },
    ];
    let users = vec![entry(1, Some("http://p")), entry(2, None), entry(3, Some("http://p"))];
    let r = s.get_proxy_pool(&pool, &users);
    assert_eq!(r.total, 2);
    assert_eq!((r.proxies[0].id, r.proxies[0].credential_count), (1, 2));
    assert_eq!((r.proxies[1].id, r.proxies[1].credential_count), (2, 0));
    assert_eq!(r.proxies[1].label, Some("q".to_string()));
    assert!(!r.proxies[1].enabled);
}

#[test]
fn proxies_are_added_and_deleted() {
    let s = service();
    assert!(matches!(s.add_proxy("u".to_string(), None), PoolCall::Add { url, label: None } if url == "u"));
    let proxy = PooledProxy { id: 7, url: "u".to_string(), label: None, enabled: true };
    let added = s.add_proxy_done(Ok(proxy)).unwrap();
    assert_eq!((added.id, added.credential_count), (7, 0));
    assert_eq!(s.add_proxy_done(Err("重复".to_string())).unwrap_err().message(), "凭据无效: 重复");
    let req = BatchAddProxyRequest { urls: vec!["u".to_string(), "v".to_string()] };
    assert!(matches!(s.batch_add_proxies(req), PoolCall::BatchAdd(urls) if urls.len() == 2));
    let proxy = PooledProxy { id: 8, url: "v".to_string(), label: None, enabled: true };
    let (entries, errors) = s.batch_add_proxies_done(vec![proxy], vec!["bad".to_string()]);
    assert_eq!((entries.len(), entries[0].id, errors.len()), (1, 8, 1));
    assert!(matches!(s.delete_proxy(3), PoolCall::Delete { id: 3 }));
    assert_eq!(s.delete_proxy_done(3, Err("代理不存在".to_string())).unwrap_err().status_code(), 404);
    assert_eq!(s.delete_proxy_done(3, Err("io".to_string())).unwrap_err().status_code(), 500);
    assert!(matches!(s.set_proxy_enabled(3, true), PoolCall::SetEnabled { id: 3, enabled: true }));
    assert_eq!(s.set_proxy_enabled_done(3, Err("io".to_string())).unwrap_err().status_code(), 404);
    assert!(s.set_proxy_enabled_done(3, Ok(())).is_ok());
}

#[test]
fn a_proxy_of_the_pool_is_given_to_a_credential() {
    let s = service();
    let some = AssignProxyRequest { proxy_id: Some(5) };
    let none = AssignProxyRequest { proxy_id: None };
    assert!(matches!(s.assigned_proxy(&some), Some(PoolCall::GetUrl { id: 5 })));
    assert!(s.assigned_proxy(&none).is_none());
    match s.assign_proxy_to_credential(9, &some, GetUrlResult::Found("u".to_string())).unwrap() {
        ManagerCall::UpdateCredential { id, email, proxy_url, proxy_username, proxy_password } => {
            assert_eq!(id, 9);
            assert_eq!(proxy_url, Some(Some("u".to_string())));
            assert_eq!((email, proxy_username, proxy_password), (None, None, None));
        }
        other => panic!("{:?}", other),
    }
    assert!(matches!(
        s.assign_proxy_to_credential(9, &none, GetUrlResult::NotFound),
        Ok(ManagerCall::UpdateCredential { id: 9, proxy_url: Some(None), .. })
    ));
    let e = s.assign_proxy_to_credential(9, &some, GetUrlResult::NotFound).unwrap_err();
    assert_eq!(e.message(), "凭据不存在: 5");
    let e = s.assign_proxy_to_credential(9, &some, GetUrlResult::Disabled).unwrap_err();
    assert_eq!(e.message(), "凭据无效: 代理 #5 已被禁用，请先启用后再分配");
}
