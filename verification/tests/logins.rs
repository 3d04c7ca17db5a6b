use kiro_rs::admin::error::AdminServiceError;
use kiro_rs::admin::idc_login::{
    idc_client_registered, ClientRegistration, DeviceAuthorization, IdcAnswer, IdcAuthorization,
    IdcPoll, IdcQuestion, IdcToken,
};
use kiro_rs::admin::relogin::{do_relogin_update, login_added, LoginStep, ReloginStep};
use kiro_rs::admin::service::AdminService;
use kiro_rs::admin::sessions::SessionTable;
use kiro_rs::admin::social_login::{
    social_token_received, social_token_received_at, CallbackPlan, CallbackState,
    OAuthCallbackData, Pkce,
    SocialExchange, SocialPoll, SocialStep, SocialToken,
};
use kiro_rs::admin::types::{
    PollIdcLoginResponse, StartIdcLoginRequest, StartSocialLoginRequest,
};
use kiro_rs::clock::Timestamp;
use kiro_rs::http_client::ProxyConfig;
use kiro_rs::kiro::token_manager::{CredentialEntry, ManagerCall, ManagerSnapshot};
use kiro_rs::model::config::Config;

fn service() -> AdminService {
    let config = Config {
        default_endpoint: "q".to_string(),
        proxy_url: None,
        admin_api_key: None,
        api_key: None,
        update_image: "a/b".to_string(),
        update_previous_image: None,
        update_auto_apply: false,
        update_auto_apply_time: "03:00".to_string(),
    };
    AdminService::new_at(&config, vec![], vec![], 0)
}

fn at(seconds: i64) -> Timestamp {
    Timestamp { seconds, nanos: 0 }
}

fn pkce() -> Pkce {
    Pkce { code_verifier: "verifier".to_string(), code_challenge: "challenge".to_string() }
}

fn social_request(proxy: Option<&str>) -> StartSocialLoginRequest {
    StartSocialLoginRequest {
        proxy_url: proxy.map(|s| s.to_string()),
        auth_endpoint: None,
        callback_base_url: None,
        priority: 2,
        email: Some("a@b".to_string()),
    }
}

fn snapshot(id: u64) -> ManagerSnapshot {
    let entry = CredentialEntry {
        id,
        priority: 0,
        disabled: false,
        failure_count: 0,
        expires_at: None,
        auth_method: None,
        has_profile_arn: false,
        refresh_token_hash: None,
        api_key_hash: None,
        masked_api_key: None,
        email: None,
        success_count: 0,
        last_used_at: None,
        has_proxy: false,
        proxy_url: None,
        refresh_failure_count: 0,
        disabled_reason: None,
        endpoint: None,
    };
    ManagerSnapshot { entries: vec![entry], current_id: id, total: 1, available: 1 }
}

fn start(s: &mut AdminService, id: &str, now: i64) {
    let login = s
        .start_social_login_with(
            social_request(Some("http://p")),
            None,
            "https://auth",
            pkce(),
            "state".to_string(),
            Ok(4321),
        )
        .unwrap();
    assert_eq!(login.code_challenge, "challenge");
    assert_eq!(login.session.redirect_uri, "http://127.0.0.1:4321");
    assert_eq!(login.session.auth_endpoint, "https://auth");
    let r = s.social_login_started_at(login, "portal".to_string(), id.to_string(), &at(now));
    assert_eq!((r.session_id.as_str(), r.portal_url.as_str()), (id, "portal"));
}

fn callback(state: &str, login_option: &str) -> OAuthCallbackData {
    OAuthCallbackData {
        code: "code".to_string(),
        login_option: login_option.to_string(),
        path: "/oauth/callback".to_string(),
        state: state.to_string(),
    }
}

fn exchange(r: Result<SocialStep, AdminServiceError>) -> SocialExchange {
    match r {
        Ok(SocialStep::Exchange(x)) => x,
        other => panic!("{:?}", other),
    }
}

fn token(refresh: Option<&str>, expires_in: Option<i64>) -> SocialToken {
    SocialToken {
        access_token: "at".to_string(),
        refresh_token: refresh.map(|s| s.to_string()),
        expires_at: None,
        expires_in,
        profile_arn: Some("arn".to_string()),
    }
}

#[test]
fn a_social_login_lasts_ten_minutes() {
    let mut s = service();
    start(&mut s, "one", 1000);
    assert!(matches!(s.poll_social_login_at("one", &at(1599)), Ok(SocialPoll::CheckCallback)));
    assert!(matches!(s.poll_social_login_at("one", &at(1600)), Ok(SocialPoll::Expired)));
    let e = s.poll_social_login_at("one", &at(1600)).unwrap_err();
    assert_eq!(e.message(), "凭据不存在: 0");
}

#[test]
fn a_social_login_is_completed_once() {
    let mut s = service();
    start(&mut s, "one", 0);
    let x = exchange(s.social_callback_checked(
        "one",
        CallbackState::Received(callback("state", "google & co/ä~")),
    ));
    assert_eq!(x.code, "code");
    assert_eq!(x.code_verifier, "verifier");
    assert_eq!(
        x.redirect_uri,
        "http://127.0.0.1:4321/oauth/callback?login_option=google%20%26%20co%2F%C3%A4~"
    );
    assert_eq!(x.proxy.as_ref().unwrap().url, "http://p");
    assert_eq!(x.cred_template.auth_method, Some("social".to_string()));
    assert_eq!(x.cred_template.priority, 2);
    assert!(s.do_complete_social_login("one", callback("state", "")).is_err());
}

#[test]
fn a_wrong_state_is_refused_and_the_session_stays() {
    let mut s = service();
    start(&mut s, "one", 0);
    let e = s.do_complete_social_login("one", callback("other", "")).unwrap_err();
    assert_eq!(e.message(), "内部错误: OAuth state 不匹配，请重新发起登录");
    let x = exchange(s.do_complete_social_login("one", callback("state", "")));
    assert_eq!(x.redirect_uri, "http://127.0.0.1:4321/oauth/callback");
}

#[test]
fn a_social_login_can_be_completed_by_hand_in_time() {
    let mut s = service();
    start(&mut s, "one", 0);
    let by_hand = |s: &mut AdminService, now: i64| {
        s.complete_social_login_at(
            "one",
            "c".to_string(),
            "state".to_string(),
            String::new(),
            "/p".to_string(),
            &at(now),
        )
    };
    assert!(matches!(
        by_hand(&mut s, 600),
        Ok(SocialStep::Answer(PollIdcLoginResponse::Expired))
    ));
    assert_eq!(exchange(by_hand(&mut s, 599)).code, "c");
    assert_eq!(by_hand(&mut s, 599).unwrap_err().status_code(), 404);
    let r = s.complete_social_login(
        "none",
        String::new(),
        String::new(),
        String::new(),
        String::new(),
    );
    assert_eq!(r.unwrap_err().status_code(), 404);
}

#[test]
fn a_closed_callback_ends_the_login() {
    let mut s = service();
    start(&mut s, "one", 0);
    assert!(matches!(
        s.social_callback_checked("one", CallbackState::Pending),
        Ok(SocialStep::Answer(PollIdcLoginResponse::Pending))
    ));
    let e = s.social_callback_checked("one", CallbackState::Closed).unwrap_err();
    assert_eq!(e.message(), "内部错误: Social 登录回调服务器已关闭，请重新发起登录");
    assert!(s.poll_social_login_at("one", &at(1)).is_err());
}

#[test]
fn social_tokens_make_a_credential() {
    let mut s = service();
    start(&mut s, "one", 0);
    let x = exchange(s.do_complete_social_login("one", callback("state", "")));
    match social_token_received_at(x, Ok(token(Some("rt"), Some(3600))), &at(0)) {
        Ok(LoginStep::Add(c)) => {
            assert_eq!(c.access_token, Some("at".to_string()));
            assert_eq!(c.refresh_token, Some("rt".to_string()));
            assert_eq!(c.expires_at, Some("1970-01-01T01:00:00+00:00".to_string()));
            assert_eq!(c.profile_arn, Some("arn".to_string()));
            assert_eq!(c.email, Some("a@b".to_string()));
        }
        other => panic!("{:?}", other),
    }
    assert_eq!(login_added(Ok(8)).unwrap(), PollIdcLoginResponse::Success { credential_id: 8 });
    assert_eq!(login_added(Err("io".to_string())).unwrap_err().message(), "内部错误: io");
}

#[test]
fn a_given_end_comes_before_a_computed_one() {
    let mut s = service();
    start(&mut s, "one", 0);
    let x = exchange(s.do_complete_social_login("one", callback("state", "")));
    let mut t = token(None, Some(i64::MAX));
    t.expires_at = Some("given".to_string());
    match social_token_received(x, Ok(t)) {
        Some(Ok(LoginStep::Add(c))) => assert_eq!(c.expires_at, Some("given".to_string())),
        other => panic!("{:?}", other),
    }
}

#[test]
fn an_end_beyond_the_calendar_is_not_told() {
    let mut s = service();
    start(&mut s, "one", 0);
    let x = exchange(s.do_complete_social_login("one", callback("state", "")));
    assert!(social_token_received(x, Ok(token(None, Some(i64::MAX)))).is_none());
}

#[test]
fn a_social_relogin_replaces_the_token() {
    let mut s = service();
    let e = s
        .start_social_relogin_with(
            &snapshot(3),
            4,
            social_request(None),
            None,
            "https://auth",
            pkce(),
            "state".to_string(),
            Ok(1),
        )
        .unwrap_err();
    assert_eq!(e.message(), "凭据不存在: 4");
    for refresh in [None, Some("rt")] {
        let login = s
            .start_social_relogin_with(
                &snapshot(3),
                3,
                social_request(None),
                Some(ProxyConfig::new("http://global")),
                "https://auth",
                pkce(),
                "state".to_string(),
                Ok(1),
            )
            .unwrap();
        assert_eq!(login.session.proxy.as_ref().unwrap().url, "http://global");
        assert_eq!(login.session.cred_template.auth_method, None);
        s.social_login_started_at(login, String::new(), "r".to_string(), &at(0));
        let x = exchange(s.do_complete_social_login("r", callback("state", "")));
        let r = social_token_received_at(x, Ok(token(refresh, Some(i64::MAX))), &at(0));
        match refresh {
            Some(_) => assert!(matches!(r, Ok(LoginStep::Relogin(u)) if u.target_id == 3)),
            None => assert_eq!(
                r.unwrap_err().message(),
                "内部错误: Social 登录未返回 refreshToken，无法更新凭据"
            ),
        }
    }
}

#[test]
fn a_failed_exchange_is_reported() {
    let mut s = service();
    start(&mut s, "one", 0);
    let x = exchange(s.do_complete_social_login("one", callback("state", "")));
    let e = social_token_received_at(x, Err("bad code".to_string()), &at(0)).unwrap_err();
    assert_eq!(e.message(), "内部错误: bad code");
}

#[test]
fn states_and_sessions_have_random_names() {
    let mut s = service();
    let mut states = Vec::new();
    for _ in 0..2 {
        let login =
            s.start_social_login(social_request(None), None, "e", pkce(), Ok(1)).unwrap();
        let state = login.session.state.clone();
        assert_eq!(state.len(), 36);
        assert_eq!(&state[14..15], "4");
        let r = s.social_login_started(login, "p".to_string()).unwrap();
        assert_eq!(r.session_id.len(), 36);
        assert!(matches!(s.poll_social_login(&r.session_id), Ok(SocialPoll::CheckCallback)));
        states.push(state);
        states.push(r.session_id);
    }
    states.sort();
    states.dedup();
    assert_eq!(states.len(), 4);
    let e = s
        .start_social_login(social_request(None), None, "e", pkce(), Err("port".to_string()))
        .unwrap_err();
    assert_eq!(e.message(), "内部错误: port");
    let relogin = s
        .start_social_relogin(&snapshot(3), 3, social_request(None), None, "e", pkce(), Ok(1))
        .unwrap();
    assert_eq!(relogin.session.relogin_target_id, Some(3));
}

#[test]
fn a_relogin_disables_replaces_and_enables() {
    let mut update = do_relogin_update(5, "rt".to_string());
    assert!(matches!(update.next_call(), ManagerCall::SetDisabled { id: 5, disabled: true }));
    update = match update.resume(Ok(())) {
        ReloginStep::Continue(u) => u,
        other => panic!("{:?}", other),
    };
    match update.next_call() {
        ManagerCall::UpdateRefreshToken { id, refresh_token, access_token, expires_at } => {
            assert_eq!((id, refresh_token.as_str()), (5, "rt"));
            assert_eq!((access_token, expires_at), (None, None));
        }
        other => panic!("{:?}", other),
    }
    update = match update.resume(Ok(())) {
        ReloginStep::Continue(u) => u,
        other => panic!("{:?}", other),
    };
    assert!(matches!(update.next_call(), ManagerCall::ResetAndEnable { id: 5 }));
    assert!(matches!(
        update.resume(Ok(())),
        ReloginStep::Done(PollIdcLoginResponse::Success { credential_id: 5 })
    ));
    let failed = do_relogin_update(5, "rt".to_string()).resume(Err("不存在".to_string()));
    assert!(matches!(failed, ReloginStep::Failed(e) if e.message() == "内部错误: 不存在"));
}

fn idc_request() -> StartIdcLoginRequest {
    StartIdcLoginRequest {
        region: "us-east-1".to_string(),
        start_url: None,
        proxy_url: None,
        priority: 7,
        email: None,
    }
}

fn device(expires_in: i64, interval: i64) -> DeviceAuthorization {
    DeviceAuthorization {
        device_code: "device".to_string(),
        user_code: "USER".to_string(),
        verification_uri: "https://v".to_string(),
        verification_uri_complete: "https://v?c".to_string(),
        expires_in,
        interval,
    }
}

fn client() -> ClientRegistration {
    ClientRegistration { client_id: "cid".to_string(), client_secret: "cs".to_string() }
}

fn authorization(s: &AdminService) -> IdcAuthorization {
    let login = s.start_idc_login(idc_request(), None, "https://start");
    assert_eq!(login.start_url, "https://start");
    idc_client_registered(login, Ok(client())).unwrap()
}

fn start_idc(s: &mut AdminService, id: &str) {
    let a = authorization(s);
    let r = s.idc_device_authorized_at(a, Ok(device(600, 1)), id.to_string(), &at(0)).unwrap();
    assert_eq!(r.session_id, id);
    assert_eq!(r.user_code, "USER");
    assert_eq!(r.verification_uri, "https://v");
    assert_eq!(r.verification_uri_complete, "https://v?c");
    assert_eq!(r.expires_at, "1970-01-01T00:10:00+00:00");
    assert_eq!(r.poll_interval, 5);
}

fn question(s: &AdminService, id: &str) -> IdcQuestion {
    match s.poll_idc_login_at(id, &at(599)) {
        Ok(IdcPoll::Ask(q)) => q,
        other => panic!("{:?}", other),
    }
}

fn granted(refresh: Option<&str>, expires_in: Option<i64>) -> IdcAnswer {
    IdcAnswer::Success(IdcToken {
        access_token: "at".to_string(),
        refresh_token: refresh.map(|s| s.to_string()),
        expires_in,
    })
}

#[test]
fn a_device_login_asks_with_its_code() {
    let mut s = service();
    start_idc(&mut s, "d");
    let q = question(&s, "d");
    assert_eq!((q.region.as_str(), q.device_code.as_str()), ("us-east-1", "device"));
    assert_eq!((q.client_id.as_str(), q.client_secret.as_str()), ("cid", "cs"));
    assert!(q.proxy.is_none());
    assert!(matches!(s.poll_idc_login_at("d", &at(600)), Ok(IdcPoll::Expired)));
    assert_eq!(s.poll_idc_login_at("x", &at(0)).unwrap_err().status_code(), 404);
    assert!(matches!(s.poll_idc_login("d"), Ok(IdcPoll::Expired)));
}

#[test]
fn a_device_login_is_granted() {
    let mut s = service();
    start_idc(&mut s, "d");
    let q = question(&s, "d");
    assert!(matches!(
        s.idc_answered_at("d", q, IdcAnswer::Pending, &at(10)),
        Ok(LoginStep::Answer(PollIdcLoginResponse::Pending))
    ));
    let q = question(&s, "d");
    match s.idc_answered_at("d", q, granted(Some("rt"), Some(60)), &at(10)) {
        Ok(LoginStep::Add(c)) => {
            assert_eq!(c.auth_method, Some("idc".to_string()));
            assert_eq!(c.client_id, Some("cid".to_string()));
            assert_eq!(c.client_secret, Some("cs".to_string()));
            assert_eq!(c.region, Some("us-east-1".to_string()));
            assert_eq!(c.priority, 7);
            assert_eq!(c.access_token, Some("at".to_string()));
            assert_eq!(c.refresh_token, Some("rt".to_string()));
            assert_eq!(c.expires_at, Some("1970-01-01T00:01:10+00:00".to_string()));
        }
        other => panic!("{:?}", other),
    }
    assert_eq!(s.poll_idc_login_at("d", &at(11)).unwrap_err().status_code(), 404);
}

#[test]
fn a_device_login_fails_or_ends() {
    let mut s = service();
    start_idc(&mut s, "d");
    let q = question(&s, "d");
    let e = s.idc_answered("d", q, IdcAnswer::Error("slow".to_string())).unwrap().unwrap_err();
    assert_eq!(e.message(), "内部错误: slow");
    let q = question(&s, "d");
    assert!(s.idc_answered("d", q, granted(None, Some(i64::MAX))).is_none());
    let q = question(&s, "d");
    assert!(matches!(
        s.idc_answered("d", q, IdcAnswer::Expired),
        Some(Ok(LoginStep::Answer(PollIdcLoginResponse::Expired)))
    ));
    assert!(s.poll_idc_login_at("d", &at(0)).is_err());
}

#[test]
fn a_device_relogin_replaces_the_token_if_there_is_one() {
    let mut s = service();
    assert_eq!(
        s.start_idc_relogin(&snapshot(3), 4, idc_request(), None, "u").unwrap_err().message(),
        "凭据不存在: 4"
    );
    for refresh in [None, Some("rt")] {
        let login = s.start_idc_relogin(&snapshot(3), 3, idc_request(), None, "u").unwrap();
        let a = idc_client_registered(login, Ok(client())).unwrap();
        s.idc_device_authorized_at(a, Ok(device(600, 30)), "r".to_string(), &at(0)).unwrap();
        let q = question(&s, "r");
        let r = s.idc_answered_at("r", q, granted(refresh, Some(i64::MAX)), &at(0));
        match refresh {
            Some(_) => assert!(matches!(r, Ok(LoginStep::Relogin(u)) if u.target_id == 3)),
            None => assert!(matches!(
                r,
                Ok(LoginStep::Answer(PollIdcLoginResponse::Success { credential_id: 3 }))
            )),
        }
    }
}

#[test]
fn a_device_login_that_cannot_start_is_reported() {
    let mut s = service();
    let login = s.start_idc_login(idc_request(), None, "u");
    let e = idc_client_registered(login, Err("no client".to_string())).unwrap_err();
    assert_eq!(e.message(), "内部错误: no client");
    let a = authorization(&s);
    let e = s.idc_device_authorized(a, Err("no code".to_string())).unwrap().unwrap_err();
    assert_eq!(e.message(), "内部错误: no code");
    let a = authorization(&s);
    assert!(s.idc_device_authorized(a, Ok(device(i64::MAX, 5))).is_none());
    let a = authorization(&s);
    let r = s.idc_device_authorized(a, Ok(device(600, 9))).unwrap().unwrap();
    assert_eq!((r.session_id.len(), r.poll_interval), (36, 9));
}

#[test]
fn logins_that_have_ended_are_forgotten() {
    let mut s = service();
    start(&mut s, "old", 0);
    start(&mut s, "new", 100);
    start_idc(&mut s, "d");
    s.purge_sessions_at(&at(600));
    assert!(s.poll_social_login_at("old", &at(0)).is_err());
    assert!(s.poll_social_login_at("new", &at(0)).is_ok());
    assert!(s.poll_idc_login_at("d", &at(0)).is_err());
    s.purge_sessions();
    assert!(s.poll_social_login_at("new", &at(0)).is_err());
}

#[test]
fn a_table_holds_one_session_under_a_name() {
    let mut t: SessionTable<u8> = SessionTable::new();
    t.insert("a".to_string(), at(1), 10);
    t.insert("b".to_string(), at(2), 20);
    t.insert("a".to_string(), at(3), 30);
    assert_eq!(t.get("a").unwrap().session, 30);
    assert_eq!(t.get("b").unwrap().expires_at, at(2));
    t.purge(&at(2));
    assert!(t.get("b").is_none());
    assert_eq!(t.remove("a").unwrap().session, 30);
    assert!(t.remove("a").is_none());
}

#[test]
fn a_remote_login_uses_the_public_address() {
    let mut s = service();
    assert!(matches!(s.social_callback(&social_request(None)), CallbackPlan::Local));
    for port in [Ok(4321), Err("no port".to_string())] {
        let mut req = social_request(None);
        req.callback_base_url = Some("https://gw.example".to_string());
        assert!(
            matches!(s.social_callback(&req), CallbackPlan::Remote(u) if u == "https://gw.example")
        );
        let login = s
            .start_social_login_with(req, None, "https://auth", pkce(), "state".to_string(), port)
            .unwrap();
        assert_eq!(login.session.redirect_uri, "https://gw.example");
        assert!(!login.session.local_callback);
        s.social_login_started_at(login, "portal".to_string(), "r".to_string(), &at(0));
        assert!(matches!(
            s.poll_social_login_at("r", &at(1)),
            Ok(SocialPoll::AwaitCompletion)
        ));
        let x = exchange(s.complete_social_login_at(
            "r",
            "c".to_string(),
            "state".to_string(),
            "github".to_string(),
            "/oauth/callback".to_string(),
            &at(2),
        ));
        assert_eq!(x.redirect_uri, "https://gw.example/oauth/callback?login_option=github");
    }
}

#[test]
fn a_remote_login_ends_too() {
    let mut s = service();
    let mut req = social_request(None);
    req.callback_base_url = Some("https://gw.example".to_string());
    let login = s
        .start_social_login(req, None, "https://auth", pkce(), Err("no port".to_string()))
        .unwrap();
    s.social_login_started_at(login, "portal".to_string(), "r".to_string(), &at(0));
    assert!(matches!(s.poll_social_login_at("r", &at(600)), Ok(SocialPoll::Expired)));
    assert!(s.poll_social_login_at("r", &at(600)).is_err());
}

#[test]
fn a_remote_relogin_uses_the_public_address() {
    let s = service();
    let mut req = social_request(None);
    req.callback_base_url = Some("https://gw.example".to_string());
    let login = s
        .start_social_relogin(
            &snapshot(3),
            3,
            req,
            None,
            "https://auth",
            pkce(),
            Err("no port".to_string()),
        )
        .unwrap();
    assert_eq!(login.session.redirect_uri, "https://gw.example");
    assert_eq!(login.session.relogin_target_id, Some(3));
}
