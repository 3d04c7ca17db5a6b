use std::sync::Arc;

use kiro_rs::anthropic::middleware::{
    auth_middleware, constant_time_eq, decide, AppState, AuthDecision,
};
use parking_lot::RwLock;

#[test]
fn a_request_is_passed_on_with_the_right_key() {
    assert_eq!(decide(Some("key"), "key"), AuthDecision::Forward);
    assert_eq!(decide(Some("kex"), "key"), AuthDecision::Reject { status: 401 });
    assert_eq!(decide(Some("key "), "key"), AuthDecision::Reject { status: 401 });
    assert_eq!(decide(None, "key"), AuthDecision::Reject { status: 401 });
    assert_eq!(decide(None, ""), AuthDecision::Reject { status: 401 });
}

#[test]
fn keys_are_compared_whole() {
    assert!(constant_time_eq("", ""));
    assert!(constant_time_eq("schlüssel", "schlüssel"));
    assert!(!constant_time_eq("a", "b"));
    assert!(!constant_time_eq("aa", "a"));
}

#[test]
fn a_state_holds_the_key_it_was_made_with() {
    let state: AppState<u8> = AppState::new("key".to_string(), true);
    assert!(state.extract_thinking);
    assert!(state.kiro_provider.is_none());
    assert_eq!(auth_middleware(&state, Some("key")), AuthDecision::Forward);
    assert_eq!(auth_middleware(&state, Some("no")), AuthDecision::Reject { status: 401 });
    assert_eq!(auth_middleware(&state, None), AuthDecision::Reject { status: 401 });
}

#[test]
fn a_shared_key_can_change() {
    let key = Arc::new(RwLock::new("one".to_string()));
    let state = AppState::with_shared_api_key(key.clone(), false).with_kiro_provider(5u8);
    assert_eq!(state.kiro_provider.as_deref(), Some(&5u8));
    let copy = state.clone();
    assert_eq!(auth_middleware(&copy, Some("one")), AuthDecision::Forward);
    *key.write() = "two".to_string();
    assert_eq!(auth_middleware(&copy, Some("one")), AuthDecision::Reject { status: 401 });
    assert_eq!(auth_middleware(&copy, Some("two")), AuthDecision::Forward);
}
