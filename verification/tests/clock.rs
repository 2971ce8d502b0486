use auth_service::clock::{unix_now, RESET_LIFETIME, SESSION_LIFETIME};

#[test]
fn lifetimes_are_a_day_and_an_hour() {
    assert_eq!(SESSION_LIFETIME, 24 * 60 * 60);
    assert_eq!(RESET_LIFETIME, 60 * 60);
}

#[test]
fn now_is_the_system_time_in_seconds() {
    let before = std::time::SystemTime::now()
        .duration_since(std::time::UNIX_EPOCH)
        .unwrap()
        .as_secs();
    let now = unix_now();
    let after = std::time::SystemTime::now()
        .duration_since(std::time::UNIX_EPOCH)
        .unwrap()
        .as_secs();
    assert!(before <= now && now <= after);
}

#[test]
fn now_leaves_room_for_a_lifetime() {
    let now = unix_now();
    assert!(now <= i64::MAX as u64);
    assert!(now.checked_add(SESSION_LIFETIME).is_some());
    assert!(now.checked_add(RESET_LIFETIME).is_some());
}

#[test]
fn now_does_not_run_backwards() {
    let first = unix_now();
    let second = unix_now();
    assert!(first <= second);
}
