use todo_server::auth::{
    check_email_avaiable, check_email_used, check_name_size, check_password_size, email_acceptable,
    password_hash, AuthKey, MAX_SPAN_NANOS,
};

#[test]
fn name_size_limit() {
    assert!(check_name_size(&"a".repeat(32)));
    assert!(!check_name_size(&"a".repeat(33)));
    assert!(check_name_size(""));
}

#[test]
fn password_size_limits() {
    assert!(!check_password_size("1234567"));
    assert!(check_password_size("12345678"));
    assert!(check_password_size(&"p".repeat(64)));
    assert!(!check_password_size(&"p".repeat(65)));
}

#[test]
fn email_pattern_and_length() {
    assert!(check_email_avaiable("someone@example.com"));
    assert!(!check_email_avaiable("not an address"));
    assert!(!check_email_avaiable("a@b"));
    let long = format!("{}@example.com", "a".repeat(120));
    assert!(!check_email_avaiable(&long));
}

#[test]
fn email_acceptable_from_pattern_answer() {
    assert!(email_acceptable(Some(true), "x@y.zz"));
    assert!(!email_acceptable(Some(false), "x@y.zz"));
    assert!(!email_acceptable(None, "x@y.zz"));
}

#[test]
fn email_free_from_count() {
    assert!(check_email_used(Some(0)));
    assert!(!check_email_used(Some(1)));
    assert!(check_email_used(None));
}

#[test]
fn password_hash_is_sha3_256_hex() {
    assert_eq!(
        password_hash(""),
        "a7ffc6f8bf1ed76651c14756a061d662f580ff4de43b49fa82d80a4b80f8434a"
    );
    assert_eq!(
        password_hash("abc"),
        "3a985da74fe225b2045c172d6bd390bd855f086e3e9d525b46bfe24511431532"
    );
    assert_eq!(password_hash("secret password").len(), 64);
}

#[test]
fn fresh_key_is_refreshed_within_lifetime() {
    let k = AuthKey::new_at(7u32, 100, 1_000);
    assert_eq!(k.death_time, 1_100);
    assert!(!k.death);
    let r = k.refresh_at(1_100).unwrap();
    assert_eq!(r.death_time, 1_200);
    assert_eq!(r.life_time, 100);
    assert_eq!(r.data, 7);
}

#[test]
fn expired_key_is_refused() {
    let k = AuthKey::new_at(7u32, 100, 1_000);
    assert!(k.refresh_at(1_101).is_none());
}

#[test]
fn killed_key_is_refused() {
    let mut k = AuthKey::new_at(7u32, 100, 1_000);
    k.kill();
    assert!(k.death);
    assert_eq!(k.death_time, 1_100);
    assert!(k.refresh_at(1_000).is_none());
    let mut k = AuthKey::new_at(7u32, 100, 1_000);
    k.kill();
    assert!(AuthKey::from_cookie(Some(k)).is_none());
}

#[test]
fn cookie_key_checked_against_clock() {
    assert!(AuthKey::<u32>::from_cookie(None).is_none());
    let live = AuthKey { death_time: MAX_SPAN_NANOS as i128, life_time: 3_600_000_000_000, death: false, data: 9u32 };
    let r = AuthKey::from_cookie(Some(live)).unwrap();
    assert_eq!(r.data, 9);
    assert_eq!(r.life_time, 3_600_000_000_000);
    assert!(r.death_time >= 3_600_000_000_000);
    let gone = AuthKey { death_time: 0, life_time: 10, death: false, data: 9u32 };
    assert!(AuthKey::from_cookie(Some(gone)).is_none());
}

#[test]
fn load_death_time_is_after_now() {
    let d = AuthKey::<u32>::load_death_time(5);
    assert!(d >= 5i128);
    let k = AuthKey::new(1u32, 5);
    assert_eq!(k.life_time, 5);
    assert!(!k.death);
}

#[test]
fn key_before_epoch_follows_signed_clock() {
    let k = AuthKey::new_at(3u32, 5, -10);
    assert_eq!(k.death_time, -5);
    let r = k.refresh_at(-10).unwrap();
    assert_eq!(r.death_time, -5);
    let k = AuthKey::new_at(3u32, 5, -10);
    assert!(k.refresh_at(-4).is_none());
    let k = AuthKey::new_at(3u32, 5, -10);
    assert!(k.refresh_at(-5).is_some());
}
