//! The rules of the charge limit.

use xiaomi_pc_manager_lite::app::limits::{
    charge_limit_readback_is_invalid, coherent_charge_limit, DEFAULT_CHARGE_LIMIT,
    FALLBACK_CARE_LIMIT, FULL_CHARGE_LIMIT,
};

#[test]
fn limits_test_coherent_charge_limit_care_on_incoherent() {
    assert_eq!(coherent_charge_limit(true, 100), 80);
    assert_eq!(coherent_charge_limit(true, 200), 80);
    assert_eq!(coherent_charge_limit(true, 0), 80);
}

#[test]
fn test_coherent_charge_limit_care_on_incoherent() {
    assert_eq!(coherent_charge_limit(true, 100), 80);
    assert_eq!(coherent_charge_limit(true, 200), 80);
    assert_eq!(coherent_charge_limit(true, 0), 80);
}

#[test]
fn limits_test_coherent_charge_limit_care_on_valid() {
    assert_eq!(coherent_charge_limit(true, 60), 60);
    assert_eq!(coherent_charge_limit(true, 80), 80);
    assert_eq!(coherent_charge_limit(true, 99), 99);
}

#[test]
fn test_coherent_charge_limit_care_on_valid() {
    assert_eq!(coherent_charge_limit(true, 60), 60);
    assert_eq!(coherent_charge_limit(true, 80), 80);
    assert_eq!(coherent_charge_limit(true, 99), 99);
}

#[test]
fn limits_test_coherent_charge_limit_care_off() {
    assert_eq!(coherent_charge_limit(false, 100), 100);
    assert_eq!(coherent_charge_limit(false, 80), 80);
    assert_eq!(coherent_charge_limit(false, 0), 0);
}

#[test]
fn test_coherent_charge_limit_care_off() {
    assert_eq!(coherent_charge_limit(false, 100), 100);
    assert_eq!(coherent_charge_limit(false, 80), 80);
    assert_eq!(coherent_charge_limit(false, 0), 0);
}

#[test]
fn limits_test_coherent_charge_limit_idempotent() {
    for (enabled, limit) in [
        (true, 100u8),
        (true, 80),
        (false, 100),
        (true, 200),
        (true, 0),
    ] {
        let once = coherent_charge_limit(enabled, limit);
        let twice = coherent_charge_limit(enabled, once);
        assert_eq!(once, twice, "coherent_charge_limit must be idempotent");
    }
}

#[test]
fn test_coherent_charge_limit_idempotent() {
    for (enabled, limit) in [
        (true, 100u8),
        (true, 80),
        (false, 100),
        (true, 200),
        (true, 0),
    ] {
        let once = coherent_charge_limit(enabled, limit);
        let twice = coherent_charge_limit(enabled, once);
        assert_eq!(once, twice, "coherent_charge_limit must be idempotent");
    }
}

#[test]
fn limits_test_fallback_equals_default() {
    assert_eq!(FALLBACK_CARE_LIMIT, DEFAULT_CHARGE_LIMIT);
    assert_eq!(DEFAULT_CHARGE_LIMIT, 80);
}

#[test]
fn test_fallback_equals_default() {
    assert_eq!(FALLBACK_CARE_LIMIT, DEFAULT_CHARGE_LIMIT);
    assert_eq!(DEFAULT_CHARGE_LIMIT, 80);
}

#[test]
fn test_charge_limit_readback_is_invalid() {
    assert!(charge_limit_readback_is_invalid(0), "0 is garbage");
    assert!(charge_limit_readback_is_invalid(101), "101 > 100");
    assert!(charge_limit_readback_is_invalid(u8::MAX), "255 is garbage");
    assert!(!charge_limit_readback_is_invalid(1));
    assert!(!charge_limit_readback_is_invalid(40));
    assert!(!charge_limit_readback_is_invalid(80));
    assert!(!charge_limit_readback_is_invalid(FULL_CHARGE_LIMIT));
}

#[test]
fn battery_test_coherent_charge_limit_care_on_incoherent() {
    assert_eq!(coherent_charge_limit(true, 100), 80);
    assert_eq!(coherent_charge_limit(true, 200), 80);
}

#[test]
fn battery_test_coherent_charge_limit_care_on_valid() {
    assert_eq!(coherent_charge_limit(true, 60), 60);
    assert_eq!(coherent_charge_limit(true, 80), 80);
    assert_eq!(coherent_charge_limit(true, 99), 99);
}

#[test]
fn battery_test_coherent_charge_limit_care_off() {
    assert_eq!(coherent_charge_limit(false, 100), 100);
    assert_eq!(coherent_charge_limit(false, 80), 80);
    assert_eq!(coherent_charge_limit(false, 0), 0);
}

#[test]
fn battery_test_coherent_charge_limit_idempotent() {
    for (enabled, limit) in [(true, 100u8), (true, 80), (false, 100), (true, 200)] {
        let once = coherent_charge_limit(enabled, limit);
        let twice = coherent_charge_limit(enabled, once);
        assert_eq!(once, twice, "coherent_charge_limit must be idempotent");
    }
}
