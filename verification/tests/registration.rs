use agent_state::state::{AppState, REGISTRATION_TTL_MILLIS};

#[test]
fn set_then_validate_same_value() {
    let mut state = AppState::new();
    let now: i64 = 1_000_000;
    state.set_registration_at("abc".to_string(), now);
    assert!(state.validate_registration_at("abc", now));
    assert!(!state.validate_registration_at("abd", now));
    assert!(!state.validate_registration_at("ab", now));
    assert!(!state.validate_registration_at("", now));
}

#[test]
fn registration_window_is_five_minutes() {
    let mut state = AppState::new();
    let t0: i64 = 1_000_000;
    state.set_registration_at("abc".to_string(), t0);
    assert_eq!(REGISTRATION_TTL_MILLIS, 300_000);
    assert!(state.validate_registration_at("abc", t0 + 299_000));
    assert!(!state.validate_registration_at("abc", t0 + 300_000));
    assert!(!state.validate_registration_at("abc", t0 + 301_000));
}

#[test]
fn registration_scenario_set_validate_clear() {
    let mut state = AppState::new();
    let t0: i64 = 1_700_000_000_000;
    state.set_registration_at("abc".to_string(), t0);
    assert!(state.validate_registration_at("abc", t0 + 1_000));
    let cleared = state.clear_registration();
    assert_eq!(cleared, Some(("abc".to_string(), t0 + 300_000)));
    assert!(!state.validate_registration_at("abc", t0 + 3_000));
    assert!(state.clear_registration().is_none());
}

#[test]
fn second_set_overwrites_first() {
    let mut state = AppState::new();
    let now: i64 = 1_000_000;
    state.set_registration_at("first".to_string(), now);
    state.set_registration_at("second".to_string(), now + 10);
    assert!(!state.validate_registration_at("first", now + 20));
    assert!(state.validate_registration_at("second", now + 20));
}

#[test]
fn validation_does_not_consume_registration() {
    let mut state = AppState::new();
    let now: i64 = 1_000_000;
    state.set_registration_at("abc".to_string(), now);
    assert!(state.validate_registration_at("abc", now + 1));
    assert!(state.validate_registration_at("abc", now + 2));
    assert!(state.validate_registration_at("abc", now + 3));
}

#[test]
fn list_registrations_shows_current() {
    let mut state = AppState::new();
    let now: i64 = 1_000_000;
    state.set_registration_at("abc".to_string(), now);
    let listed = state.list_registrations();
    assert_eq!(listed, Some(("abc".to_string(), now + 300_000)));
    assert!(state.validate_registration_at("abc", now + 1));
}

#[test]
fn registration_expiry_saturates_near_the_top() {
    let mut state = AppState::new();
    let now: i64 = i64::MAX - 1;
    state.set_registration_at("abc".to_string(), now);
    assert_eq!(state.list_registrations(), Some(("abc".to_string(), i64::MAX)));
    assert!(state.validate_registration_at("abc", now));
}

#[test]
fn set_registration_with_system_clock() {
    let mut state = AppState::new();
    state.set_registration("abc".to_string());
    assert!(state.validate_registration("abc"));
    assert!(!state.validate_registration("abd"));
}
