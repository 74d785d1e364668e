use login_registry::engine::{plan_login, plan_register, stats_or_default, TTL_EXTEND_TO, TTL_THRESHOLD};
use login_registry::model::{DataKey, SystemStats, User};
use login_registry::registry::DecentralizedLoginSystem;

fn id(b: u8) -> [u8; 32] {
    [b; 32]
}

fn stats(total_users: u64, active_users: u64, inactive_users: u64, total_logins: u64) -> SystemStats {
    SystemStats { total_users, active_users, inactive_users, total_logins }
}

#[test]
fn example_scenario() {
    let mut r = DecentralizedLoginSystem::new();
    assert!(r.register_user(id(0xA), "alice".to_string(), 100));
    assert!(!r.register_user(id(0xA), "alice".to_string(), 101));
    assert!(r.login(id(0xA), 102));
    assert_eq!(r.get_user(id(0xA)).unwrap().login_count, 1);
    assert!(!r.login(id(0xB), 103));
    assert_eq!(r.get_system_stats(), stats(1, 1, 0, 1));
}

#[test]
fn register_twice_keeps_first_record() {
    let mut r = DecentralizedLoginSystem::new();
    assert!(r.register_user(id(1), "first".to_string(), 5));
    assert!(!r.register_user(id(1), "second".to_string(), 9));
    let u = r.get_user(id(1)).unwrap();
    assert_eq!(u.user_id, id(1));
    assert_eq!(u.username, "first");
    assert_eq!(u.registered_time, 5);
    assert_eq!(u.last_login, 5);
    assert_eq!(u.login_count, 0);
    assert!(u.active);
    assert_eq!(r.get_system_stats(), stats(1, 1, 0, 0));
}

#[test]
fn login_counter_counts_each_login() {
    let mut r = DecentralizedLoginSystem::new();
    assert!(r.register_user(id(2), "bob".to_string(), 10));
    for t in [20u64, 35, 36] {
        assert!(r.login(id(2), t));
    }
    let u = r.get_user(id(2)).unwrap();
    assert_eq!(u.login_count, 3);
    assert_eq!(u.last_login, 36);
    assert_eq!(u.registered_time, 10);
}

#[test]
fn fresh_user_has_registration_time_as_last_login() {
    let mut r = DecentralizedLoginSystem::new();
    assert!(r.register_user(id(3), "carol".to_string(), 77));
    let u = r.get_user(id(3)).unwrap();
    assert_eq!(u.login_count, 0);
    assert_eq!(u.last_login, 77);
}

#[test]
fn stats_track_registrations_and_logins() {
    let mut r = DecentralizedLoginSystem::new();
    assert!(r.register_user(id(1), "a".to_string(), 1));
    assert!(r.register_user(id(2), "b".to_string(), 2));
    assert!(!r.register_user(id(1), "again".to_string(), 3));
    assert!(r.login(id(1), 4));
    assert!(!r.login(id(9), 5));
    assert!(r.register_user(id(3), "c".to_string(), 6));
    assert!(r.login(id(2), 7));
    assert!(r.login(id(3), 8));
    assert!(r.login(id(1), 9));
    assert_eq!(r.get_system_stats(), stats(3, 3, 0, 4));
    assert_eq!(r.get_user(id(1)).unwrap().login_count, 2);
    assert_eq!(r.get_user(id(2)).unwrap().login_count, 1);
    assert_eq!(r.get_user(id(3)).unwrap().login_count, 1);
}

#[test]
fn default_stats_are_zero() {
    let r = DecentralizedLoginSystem::new();
    assert_eq!(r.get_system_stats(), stats(0, 0, 0, 0));
    assert_eq!(SystemStats::default(), stats(0, 0, 0, 0));
    assert_eq!(SystemStats::zero(), stats(0, 0, 0, 0));
}

#[test]
fn failed_logins_keep_default_stats() {
    let mut r = DecentralizedLoginSystem::new();
    assert!(!r.login(id(4), 1));
    assert!(!r.login(id(5), 2));
    assert_eq!(r.get_system_stats(), stats(0, 0, 0, 0));
    assert!(r.get_user(id(4)).is_none());
}

#[test]
fn login_unknown_identity_is_refused() {
    let mut r = DecentralizedLoginSystem::new();
    assert!(r.register_user(id(1), "a".to_string(), 1));
    assert!(r.login(id(1), 2));
    assert!(!r.login(id(2), 3));
    assert_eq!(r.get_system_stats().total_logins, 1);
    assert!(r.get_user(id(2)).is_none());
}

#[test]
fn reads_do_not_change_state() {
    let mut r = DecentralizedLoginSystem::new();
    assert!(r.register_user(id(6), "dave".to_string(), 3));
    assert!(r.login(id(6), 4));
    let s1 = r.get_system_stats();
    let u1 = r.get_user(id(6)).unwrap();
    let _ = r.get_user(id(7));
    let s2 = r.get_system_stats();
    let u2 = r.get_user(id(6)).unwrap();
    assert_eq!(s1, s2);
    assert_eq!(u1.login_count, u2.login_count);
    assert_eq!(u1.last_login, u2.last_login);
    assert_eq!(u1.username, u2.username);
}

#[test]
fn identities_differing_in_last_byte_are_distinct() {
    let a = [0u8; 32];
    let mut b = [0u8; 32];
    b[31] = 1;
    let mut r = DecentralizedLoginSystem::new();
    assert!(r.register_user(a, "a".to_string(), 1));
    assert!(r.register_user(b, "b".to_string(), 1));
    assert!(r.login(b, 2));
    assert_eq!(r.get_user(a).unwrap().login_count, 0);
    assert_eq!(r.get_user(b).unwrap().login_count, 1);
    assert_eq!(r.get_system_stats(), stats(2, 2, 0, 1));
}

#[test]
fn empty_username_and_extreme_times() {
    let mut r = DecentralizedLoginSystem::new();
    assert!(r.register_user(id(0), String::new(), 0));
    assert!(r.login(id(0), u64::MAX));
    let u = r.get_user(id(0)).unwrap();
    assert_eq!(u.username, "");
    assert_eq!(u.last_login, u64::MAX);
}

#[test]
fn stats_or_default_reads_stored_record() {
    assert_eq!(stats_or_default(None), stats(0, 0, 0, 0));
    assert_eq!(stats_or_default(Some(stats(4, 3, 1, 9))), stats(4, 3, 1, 9));
}

#[test]
fn plan_register_refuses_existing_identity() {
    let existing = Some(User::new(id(1), "old".to_string(), 1));
    assert!(plan_register(&existing, None, id(1), "new".to_string(), 2).is_none());
}

#[test]
fn plan_register_builds_both_records() {
    let c = plan_register(&None, Some(stats(4, 3, 1, 9)), id(1), "eve".to_string(), 50).unwrap();
    assert_eq!(c.stats, stats(5, 4, 1, 9));
    assert_eq!(c.user.user_id, id(1));
    assert_eq!(c.user.username, "eve");
    assert_eq!(c.user.registered_time, 50);
    assert_eq!(c.user.last_login, 50);
    assert_eq!(c.user.login_count, 0);
    assert!(c.user.active);
}

#[test]
fn plan_register_starts_from_zero_stats() {
    let c = plan_register(&None, None, id(1), "eve".to_string(), 50).unwrap();
    assert_eq!(c.stats, stats(1, 1, 0, 0));
}

#[test]
fn plan_login_updates_both_records() {
    let mut u = User::new(id(1), "fay".to_string(), 10);
    u.login_count = 6;
    let c = plan_login(Some(u), Some(stats(2, 2, 0, 11)), 40).unwrap();
    assert_eq!(c.user.login_count, 7);
    assert_eq!(c.user.last_login, 40);
    assert_eq!(c.user.registered_time, 10);
    assert_eq!(c.stats, stats(2, 2, 0, 12));
}

#[test]
fn plan_login_refuses_inactive_user() {
    let mut u = User::new(id(1), "gus".to_string(), 10);
    u.active = false;
    assert!(plan_login(Some(u), Some(stats(1, 0, 1, 0)), 20).is_none());
}

#[test]
fn plan_login_refuses_missing_user() {
    assert!(plan_login(None, Some(stats(1, 1, 0, 0)), 20).is_none());
}

#[test]
fn cloned_user_keeps_every_field() {
    let u = User::new(id(8), "hal".to_string(), 3);
    let v = u.clone();
    assert_eq!(v.user_id, u.user_id);
    assert_eq!(v.username, u.username);
    assert_eq!(v.registered_time, 3);
    assert_eq!(v.last_login, 3);
    assert_eq!(v.login_count, 0);
    assert!(v.active);
}

#[test]
fn keys_and_lifetime_window() {
    assert!(matches!(DataKey::User(id(1)), DataKey::User(k) if k == id(1)));
    assert!(matches!(DataKey::SystemStats, DataKey::SystemStats));
    assert_eq!(TTL_THRESHOLD, 5000);
    assert_eq!(TTL_EXTEND_TO, 5000);
}
