//! When the user is notified, and of what.

use xiaomi_pc_manager_lite::app::notify::{
    armed_state_for_limit, charge_limit_notification_decision, charge_limit_notification_text,
    should_notify_care_change, should_notify_perf_change,
};

#[test]
fn test_should_notify_perf_change() {
    assert!(
        !should_notify_perf_change(None, 0x09),
        "first sample must not notify"
    );
    assert!(
        !should_notify_perf_change(Some(0x09), 0x09),
        "no change must not notify"
    );
    assert!(
        should_notify_perf_change(Some(0x09), 0x02),
        "perf change must notify"
    );
    assert!(
        should_notify_perf_change(Some(0x02), 0x04),
        "another perf change must notify"
    );
}

#[test]
fn test_should_notify_care_change() {
    assert!(
        !should_notify_care_change(None, false),
        "first sample must not notify"
    );
    assert!(
        !should_notify_care_change(Some(false), false),
        "no change must not notify"
    );
    assert!(
        should_notify_care_change(Some(false), true),
        "care enabled must notify"
    );
    assert!(
        should_notify_care_change(Some(true), false),
        "care disabled must notify"
    );
}

#[test]
fn test_charge_limit_notification_decision() {
    assert_eq!(
        charge_limit_notification_decision(Some(false), Some(80), 80, true, false),
        (false, None)
    );
    assert_eq!(
        charge_limit_notification_decision(Some(false), Some(80), 80, true, true),
        (true, Some(true))
    );
    assert_eq!(
        charge_limit_notification_decision(Some(true), Some(79), 80, true, true),
        (false, Some(true))
    );
    assert_eq!(
        charge_limit_notification_decision(Some(true), Some(80), 80, false, true),
        (false, None)
    );
    assert_eq!(
        charge_limit_notification_decision(Some(true), Some(76), 80, true, true),
        (false, Some(false))
    );
    assert_eq!(
        charge_limit_notification_decision(Some(false), Some(78), 80, true, true),
        (false, Some(false))
    );
    assert_eq!(
        charge_limit_notification_decision(Some(true), Some(78), 80, true, true),
        (false, Some(true))
    );
    assert_eq!(
        charge_limit_notification_decision(Some(false), None, 80, true, true),
        (false, None)
    );
    assert_eq!(
        charge_limit_notification_decision(Some(false), Some(99), 100, true, true),
        (true, Some(true))
    );
    assert_eq!(
        charge_limit_notification_decision(None, Some(80), 80, true, true),
        (false, Some(true))
    );
    assert_eq!(
        charge_limit_notification_decision(Some(false), Some(95), 80, true, true),
        (false, Some(true))
    );
    assert_eq!(
        charge_limit_notification_decision(Some(false), Some(100), 100, true, true),
        (true, Some(true))
    );
}

#[test]
fn test_armed_state_for_limit_keys_by_limit() {
    assert_eq!(armed_state_for_limit(Some((80, true)), 80), Some(true));
    assert_eq!(armed_state_for_limit(Some((80, false)), 80), Some(false));
    assert_eq!(armed_state_for_limit(Some((80, true)), 90), None);
    assert_eq!(armed_state_for_limit(Some((80, true)), 100), None);
    assert_eq!(armed_state_for_limit(None, 80), None);
}

#[test]
fn reached_charge_limit_reaches_new_limit_after_change() {
    let prev = armed_state_for_limit(Some((80, true)), 90);
    assert_eq!(prev, None);
    let (_, base) = charge_limit_notification_decision(prev, Some(60), 90, true, true);
    assert_eq!(base, Some(false));
    assert_eq!(
        charge_limit_notification_decision(base, Some(89), 90, true, true),
        (true, Some(true))
    );
    assert_eq!(
        charge_limit_notification_decision(Some(true), Some(90), 90, true, true),
        (false, Some(true))
    );
}

#[test]
fn test_charge_limit_notification_text() {
    assert_eq!(
        charge_limit_notification_text(80),
        "电池已充至 80% 养护上限"
    );
    assert_eq!(charge_limit_notification_text(100), "电池已充满");
}

#[test]
fn one_notification_until_the_charge_has_dropped() {
    let mut armed = Some(false);
    let mut told = 0;
    for percent in [70, 78, 79, 80, 79, 78, 80, 76, 79] {
        let (tell, next) = charge_limit_notification_decision(armed, Some(percent), 80, true, true);
        if tell {
            told += 1;
        }
        armed = next;
    }
    assert_eq!(told, 2);
}
