use kiro_rs::admin::balance::{BalanceCache, BalanceResponse, CachedBalance};
use kiro_rs::admin::quota::{fetch_balance, BalanceAnswer};
use kiro_rs::admin::service::AdminService;
use kiro_rs::kiro::token_manager::{
    CredentialEntry, ManagerCall, ManagerSnapshot, UsageLimits,
};
use kiro_rs::model::config::Config;

fn config() -> Config {
    Config {
        default_endpoint: "q".to_string(),
        proxy_url: None,
        admin_api_key: None,
        api_key: None,
        update_image: "a/b".to_string(),
        update_previous_image: None,
        update_auto_apply: false,
        update_auto_apply_time: "03:00".to_string(),
    }
}

fn usage(exceeded: bool) -> UsageLimits {
    UsageLimits {
        subscription_title: Some("KIRO PRO".to_string()),
        current_usage: 40.5f64.to_bits(),
        usage_limit: 50f64.to_bits(),
        remaining: 9.5f64.to_bits(),
        usage_percentage: 81f64.to_bits(),
        exceeded,
        next_date_reset: Some(7f64.to_bits()),
        overage_enabled: None,
        overage_capable: Some(true),
        overage_capability: Some("OVERAGE_CAPABLE".to_string()),
    }
}

fn balance(id: u64, exceeded: bool) -> BalanceResponse {
    fetch_balance(id, Ok(usage(exceeded))).unwrap()
}

fn entry(id: u64, priority: u32, disabled: bool) -> CredentialEntry {
    CredentialEntry {
        id,
        priority,
        disabled,
        failure_count: 1,
        expires_at: None,
        auth_method: Some("social".to_string()),
        has_profile_arn: false,
        refresh_token_hash: None,
        api_key_hash: None,
        masked_api_key: None,
        email: Some(format!("{}@x", id)),
        success_count: 9,
        last_used_at: None,
        has_proxy: false,
        proxy_url: None,
        refresh_failure_count: 0,
        disabled_reason: None,
        endpoint: if id == 1 { Some("own".to_string()) } else { None },
    }
}

fn snapshot(entries: Vec<CredentialEntry>) -> ManagerSnapshot {
    let total = entries.len();
    ManagerSnapshot { entries, current_id: 2, total, available: 1 }
}

fn service(balances: Vec<(String, CachedBalance)>, now: i64) -> AdminService {
    AdminService::new_at(&config(), balances, vec!["q".to_string()], now)
}

fn known(id: u64, at: i64, exceeded: bool) -> (String, CachedBalance) {
    (id.to_string(), CachedBalance { cached_at: at, data: balance(id, exceeded) })
}

#[test]
fn a_balance_says_what_the_limits_say() {
    let b = balance(4, false);
    assert_eq!(b.id, 4);
    assert_eq!(b.subscription_title, Some("KIRO PRO".to_string()));
    assert_eq!(f64::from_bits(b.current_usage), 40.5);
    assert_eq!(f64::from_bits(b.usage_limit), 50.0);
    assert_eq!(f64::from_bits(b.remaining), 9.5);
    assert_eq!(f64::from_bits(b.usage_percentage), 81.0);
    assert_eq!(b.next_reset_at, Some(7f64.to_bits()));
    assert_eq!(b.overage_capable, Some(true));
    assert_eq!(b.overage_capability_raw, Some("OVERAGE_CAPABLE".to_string()));
    let e = fetch_balance(4, Err("凭据 4 不存在".to_string())).unwrap_err();
    assert_eq!(e.message(), "凭据不存在: 4");
}

#[test]
fn a_known_balance_is_used_for_five_minutes() {
    let mut s = service(vec![], 1000);
    assert!(matches!(
        s.get_balance_at(7, 1000),
        BalanceAnswer::Ask(ManagerCall::UsageLimits { id: 7 })
    ));
    let given = s.get_balance_done_at(7, Ok(usage(false)), 1000).unwrap();
    assert_eq!(given.id, 7);
    assert!(matches!(s.get_balance_at(7, 1299), BalanceAnswer::Known(b) if b.id == 7));
    assert!(matches!(s.get_balance_at(7, 1300), BalanceAnswer::Ask(_)));
    assert!(matches!(s.get_balance_at(8, 1000), BalanceAnswer::Ask(_)));
}

#[test]
fn a_failed_question_keeps_the_known_balance() {
    let mut s = service(vec![known(7, 1000, false)], 1000);
    let e = s.get_balance_done_at(7, Err("timeout".to_string()), 1100).unwrap_err();
    assert_eq!(e.status_code(), 502);
    assert!(matches!(s.get_balance_at(7, 1100), BalanceAnswer::Known(_)));
}

#[test]
fn balances_are_learned_now() {
    let mut s = AdminService::new(&config(), vec![], vec![]);
    assert!(s.get_balance_done(3, Ok(usage(false))).is_ok());
    assert!(matches!(s.get_balance(3), BalanceAnswer::Known(b) if b.id == 3));
    assert!(matches!(s.get_balance(4), BalanceAnswer::Ask(_)));
}

#[test]
fn stored_balances_are_loaded_again() {
    let mut cache = BalanceCache::new();
    cache.insert(1, CachedBalance { cached_at: 900, data: balance(1, false) });
    cache.insert(20, CachedBalance { cached_at: 600, data: balance(20, true) });
    let mut list = cache.saved();
    list.sort_by(|a, b| a.0.cmp(&b.0));
    assert_eq!(list.len(), 2);
    assert_eq!(list[0].0, "1");
    assert_eq!(list[1].0, "20");
    let loaded = BalanceCache::load_balance_cache_from(list, 899);
    assert!(loaded.get(1, 899).is_some());
    assert!(loaded.get(20, 899).unwrap().data.exceeded);
    let later = BalanceCache::load_balance_cache_from(loaded.saved(), 900);
    assert!(later.get(20, 0).is_none());
    assert!(later.get(1, 900).is_some());
}

#[test]
fn stored_balances_without_a_number_are_ignored() {
    let mut list = vec![known(5, 1000, false)];
    list[0].0 = "five".to_string();
    let loaded = BalanceCache::load_balance_cache_from(list, 1000);
    assert!(loaded.get(5, 1000).is_none());
}

#[test]
fn credentials_are_listed_by_priority() {
    let s = service(vec![known(3, 1000, false)], 1000);
    let snap = snapshot(vec![
        entry(1, 5, false),
        entry(2, 0, true),
        entry(3, 5, false),
        entry(4, 1, false),
    ]);
    let r = s.get_all_credentials_at(&snap, &config(), 1200);
    let ids: Vec<u64> = r.credentials.iter().map(|c| c.id).collect();
    assert_eq!(ids, vec![2, 4, 1, 3]);
    assert_eq!((r.total, r.available, r.current_id), (4, 1, 2));
    assert!(r.credentials[0].is_current && !r.credentials[1].is_current);
    assert_eq!(r.credentials[2].endpoint, "own");
    assert_eq!(r.credentials[3].endpoint, "q");
    assert_eq!(r.credentials[3].balance_updated_at, Some(1000));
    assert_eq!(r.credentials[3].balance.as_ref().unwrap().id, 3);
    assert!(r.credentials[2].balance.is_none());
    assert_eq!(r.credentials[3].email, Some("3@x".to_string()));
    let later = s.get_all_credentials(&snap, &config());
    assert!(later.credentials[3].balance.is_none());
}

#[test]
fn exceeded_credentials_are_put_out_of_use() {
    let s = service(
        vec![
            known(1, 1000, true),
            known(2, 1000, true),
            known(3, 1000, true),
            known(4, 1000, false),
            known(5, 900, true),
        ],
        1000,
    );
    let snap = snapshot(vec![
        entry(1, 0, false),
        entry(2, 0, false),
        entry(3, 0, true),
        entry(4, 0, false),
        entry(5, 0, false),
        entry(6, 0, false),
    ]);
    let mut run = s.disable_quota_exceeded_at(&snap, 1250);
    assert_eq!(run.targets, vec![1, 2]);
    assert!(matches!(run.next_call(), Some(ManagerCall::DisableQuotaExceeded { id: 1 })));
    run.step(Err("busy".to_string()));
    assert!(matches!(run.next_call(), Some(ManagerCall::DisableQuotaExceeded { id: 2 })));
    run.step(Ok(()));
    assert!(run.next_call().is_none());
    let (result, call) = run.finish();
    assert_eq!(result.disabled_ids, vec![2]);
    assert_eq!(result.skipped_ids, vec![1]);
    assert!(matches!(call, Some(ManagerCall::SwitchToNext)));
    assert_eq!(s.disable_quota_exceeded(&snap).targets, Vec::<u64>::new());
}

#[test]
fn the_credential_in_use_stays_if_others_are_disabled() {
    let s = service(vec![known(1, 1000, true)], 1000);
    let snap = snapshot(vec![entry(1, 0, false), entry(2, 0, false)]);
    let mut run = s.disable_quota_exceeded_at(&snap, 1000);
    run.step(Ok(()));
    assert!(run.finish().1.is_none());
}

#[test]
fn balances_of_credentials_in_use_are_refreshed() {
    let mut s = service(vec![known(2, 1000, true)], 1000);
    let snap = snapshot(vec![entry(1, 0, false), entry(9, 0, true), entry(2, 0, false)]);
    let mut run = s.refresh_all_balances(&snap);
    assert_eq!(run.targets, vec![1, 2]);
    assert!(matches!(run.next_call(), Some(ManagerCall::UsageLimits { id: 1 })));
    s.refresh_step_at(&mut run, Ok(usage(false)), 1010);
    assert!(matches!(run.next_call(), Some(ManagerCall::UsageLimits { id: 2 })));
    s.refresh_step_at(&mut run, Err("timeout".to_string()), 1020);
    assert!(run.next_call().is_none());
    assert_eq!(run.finish(), ((1, 1), true));
    assert!(matches!(s.get_balance_at(1, 1309), BalanceAnswer::Known(_)));
    assert!(matches!(s.get_balance_at(2, 1020), BalanceAnswer::Known(b) if b.exceeded));
}

#[test]
fn nothing_is_stored_if_no_balance_was_refreshed() {
    let mut s = service(vec![], 0);
    let mut run = s.refresh_all_balances(&snapshot(vec![entry(1, 0, false)]));
    s.refresh_step(&mut run, Err("timeout".to_string()));
    assert_eq!(run.finish(), ((0, 1), false));
}

#[test]
fn credentials_are_allowed_more_unless_that_is_known_to_be_pointless() {
    let mut incapable = known(2, 1000, false);
    incapable.1.data.overage_capable = Some(false);
    let mut enabled = known(3, 1000, false);
    enabled.1.data.overage_enabled = Some(true);
    let mut s = service(vec![incapable, enabled, known(4, 1000, false)], 1000);
    let snap = snapshot(vec![
        entry(1, 0, true),
        entry(2, 0, false),
        entry(3, 0, false),
        entry(4, 0, false),
        entry(5, 0, false),
    ]);
    let mut run = s.enable_overage_for_all_capable_at(&snap, 1000);
    assert_eq!(run.targets, vec![4, 5]);
    assert_eq!(run.result.skipped_ids, vec![1, 2, 3]);
    match run.next_call() {
        Some(ManagerCall::SetUserPreference { id, status }) => {
            assert_eq!((id, status.as_str()), (4, "ENABLED"))
        }
        other => panic!("{:?}", other),
    }
    s.overage_step(&mut run, Ok(()));
    s.overage_step(&mut run, Err("403".to_string()));
    assert!(run.next_call().is_none());
    let (result, store) = run.finish();
    assert!(store);
    assert_eq!(result.enabled_ids, vec![4]);
    assert_eq!(result.failed_ids, vec![5]);
    assert_eq!(result.failure_messages, vec!["403".to_string()]);
    assert!(matches!(s.get_balance_at(4, 1000), BalanceAnswer::Ask(_)));
    assert_eq!(s.enable_overage_for_all_capable(&snap).targets, vec![2, 3, 4, 5]);
}

#[test]
fn a_change_of_the_overage_forgets_the_balance() {
    let mut s = service(vec![known(4, 1000, false), known(5, 1000, false)], 1000);
    match s.set_overage(4, false) {
        ManagerCall::SetUserPreference { id, status } => {
            assert_eq!((id, status.as_str()), (4, "DISABLED"))
        }
        other => panic!("{:?}", other),
    }
    assert_eq!(s.set_overage_done(4, Err("权限不足".to_string())).unwrap_err().status_code(), 502);
    assert!(matches!(s.get_balance_at(4, 1000), BalanceAnswer::Known(_)));
    assert!(matches!(s.set_overage_done(4, Ok(())), Ok(ManagerCall::UsageLimits { id: 4 })));
    assert!(matches!(s.get_balance_at(4, 1000), BalanceAnswer::Ask(_)));
    assert!(matches!(s.get_balance_at(5, 1000), BalanceAnswer::Known(_)));
}

#[test]
fn a_deleted_credential_has_no_balance() {
    let mut s = service(vec![known(4, 1000, false)], 1000);
    assert!(matches!(s.delete_credential(4), ManagerCall::DeleteCredential { id: 4 }));
    let e = s.delete_credential_done(4, Err("请先禁用凭据".to_string())).unwrap_err();
    assert_eq!(e.status_code(), 400);
    assert!(matches!(s.get_balance_at(4, 1000), BalanceAnswer::Known(_)));
    assert!(s.delete_credential_done(4, Ok(())).is_ok());
    assert!(matches!(s.get_balance_at(4, 1000), BalanceAnswer::Ask(_)));
}
