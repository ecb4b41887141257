use camfc::credential::CredentialCache;

#[test]
fn code_is_served_from_cache_before_refresh_threshold() {
    let mut c = CredentialCache::new();
    assert!(c.should_refresh_totp(0));
    assert_eq!(c.fresh_totp(0), None);
    c.update_totp_cache("482913".to_string(), 1000);
    for t in 0..25 {
        assert_eq!(c.fresh_totp(1000 + t), Some("482913".to_string()));
        assert!(!c.should_refresh_totp(1000 + t));
    }
    assert!(c.should_refresh_totp(1025));
    assert_eq!(c.fresh_totp(1025), None);
    assert_eq!(c.fresh_totp(1100), None);
}

#[test]
fn cached_code_expires_after_window() {
    let mut c = CredentialCache::new();
    c.update_totp_cache("111111".to_string(), 500);
    assert_eq!(c.get_cached_totp(529), Some("111111".to_string()));
    assert_eq!(c.get_cached_totp(530), None);
}

#[test]
fn clock_going_backwards_counts_as_fresh() {
    let mut c = CredentialCache::new();
    c.update_totp_cache("222222".to_string(), 500);
    assert_eq!(c.fresh_totp(400), Some("222222".to_string()));
}

#[test]
fn device_id_is_sticky_until_cleared() {
    let mut c = CredentialCache::new();
    assert_eq!(c.get_device_id(), None);
    c.set_device_id("pen-0042".to_string());
    assert_eq!(c.get_device_id(), Some("pen-0042".to_string()));
    c.clear_totp_cache();
    assert_eq!(c.get_device_id(), Some("pen-0042".to_string()));
    c.update_totp_cache("1".to_string(), 1);
    c.clear();
    assert_eq!(c.get_device_id(), None);
    assert_eq!(c.fresh_totp(1), None);
}
