//! Function key bindings.

use xiaomi_pc_manager_lite::app::command::UiCommand;
use xiaomi_pc_manager_lite::app::fnkey::{
    binding_label, capture_event_gate, default_bindings, is_press_report, is_release_report,
    key_without_status_byte, known_fn_keys, no_event_classes_backoff_secs, normalize_hex,
    redact_command, release_state_after_prefix, valid_class, valid_prefix, FnAction, FnKeyBinding,
    FN_K_PRESS_PREFIX, FN_K_WMI_CLASS,
};
use xiaomi_pc_manager_lite::app::recent::RecentKeys;

#[test]
fn fnkey_test_default_bindings_has_fn_k() {
    let b = default_bindings();
    assert_eq!(b.len(), 1);
    assert_eq!(b[0].class, "HID_EVENT20");
    assert_eq!(b[0].prefix, "012801");
    assert_eq!(b[0].action, FnAction::CyclePerfMode);
}

#[test]
fn test_default_bindings_has_fn_k() {
    let b = default_bindings();
    assert_eq!(b.len(), 1);
    assert_eq!(b[0].class, "HID_EVENT20");
    assert_eq!(b[0].prefix, "012801");
    assert_eq!(b[0].action, FnAction::CyclePerfMode);
}

#[test]
fn fnkey_test_normalize_hex() {
    assert_eq!(normalize_hex("01-28-01 00 00"), "0128010000");
    assert_eq!(normalize_hex("012801ffff"), "012801FFFF");
    assert_eq!(normalize_hex(""), "");
}

#[test]
fn test_normalize_hex() {
    assert_eq!(normalize_hex("01-28-01 00 00"), "0128010000");
    assert_eq!(normalize_hex("012801ffff"), "012801FFFF");
    assert_eq!(normalize_hex(""), "");
}

#[test]
fn fnkey_test_valid_prefix_and_class() {
    assert!(valid_prefix("012801"));
    assert!(valid_prefix("01-28-01"));
    assert!(valid_prefix("AB"));
    assert!(!valid_prefix(""));
    assert!(!valid_prefix("0"));
    assert!(!valid_prefix("012"));
    assert!(!valid_prefix("XYZ"));

    assert!(valid_class("HID_EVENT20"));
    assert!(valid_class("_MyClass2"));
    assert!(!valid_class(""));
    assert!(!valid_class("HID_EVENT20 WHERE Foo=1"));
    assert!(!valid_class("HID-EVENT20"));
    assert!(!valid_class("1CLASS"));
    assert!(!valid_class("HID EVENT"));
}

#[test]
fn test_valid_prefix_and_class() {
    assert!(valid_prefix("012801"));
    assert!(valid_prefix("01-28-01"));
    assert!(valid_prefix("AB"));
    assert!(!valid_prefix(""));
    assert!(!valid_prefix("0"));
    assert!(!valid_prefix("012"));
    assert!(!valid_prefix("XYZ"));

    assert!(valid_class("HID_EVENT20"));
    assert!(valid_class("_MyClass2"));
    assert!(!valid_class(""));
    assert!(!valid_class("HID_EVENT20 WHERE Foo=1"));
    assert!(!valid_class("HID-EVENT20"));
    assert!(!valid_class("1CLASS"));
    assert!(!valid_class("HID EVENT"));
}

#[test]
fn fnkey_test_capture_event_gate_rate_limits() {
    let mut seen = RecentKeys::new();
    assert!(
        capture_event_gate(&mut seen, 0, "HID_EVENT20", "012801"),
        "first event must pass"
    );
    assert!(
        !capture_event_gate(&mut seen, 0, "HID_EVENT20", "012800"),
        "release of same key within window must be dropped"
    );
    assert!(
        !capture_event_gate(&mut seen, 0, "HID_EVENT20", "012801"),
        "auto-repeat of same key within window must be dropped"
    );
    assert!(
        capture_event_gate(&mut seen, 0, "HID_EVENT20", "010701"),
        "a different key within the window must still pass"
    );
}

#[test]
fn test_capture_event_gate_rate_limits() {
    let mut seen = RecentKeys::new();
    assert!(
        capture_event_gate(&mut seen, 0, "HID_EVENT20", "012801"),
        "first event must pass"
    );
    assert!(
        !capture_event_gate(&mut seen, 0, "HID_EVENT20", "012800"),
        "release of same key within window must be dropped"
    );
    assert!(
        !capture_event_gate(&mut seen, 0, "HID_EVENT20", "012801"),
        "auto-repeat of same key within window must be dropped"
    );
    assert!(
        capture_event_gate(&mut seen, 0, "HID_EVENT20", "010701"),
        "a different key within the window must still pass"
    );
}

#[test]
fn test_key_without_status_byte_handles_long_reports() {
    assert_eq!(key_without_status_byte("012801"), "0128");
    assert_eq!(key_without_status_byte("012800"), "0128");
    assert_eq!(key_without_status_byte("012801FF"), "0128FF");
    assert_eq!(key_without_status_byte("012800FF"), "0128FF");
    assert_eq!(key_without_status_byte("0128"), "0128");
    assert_eq!(key_without_status_byte(""), "");
}

#[test]
fn test_release_state_after_prefix() {
    assert!(release_state_after_prefix("0125", "01250000"));
    assert!(!release_state_after_prefix("0125", "01250100"));
    assert!(!release_state_after_prefix("012501", "01250100"));
    assert!(!release_state_after_prefix("012800", "012800"));
    assert!(!release_state_after_prefix("012801", "012801"));
}

#[test]
fn fnkey_test_display_prefix() {
    assert_eq!(FnKeyBinding::display_prefix("012801"), "01-28-01");
    assert_eq!(FnKeyBinding::display_prefix("0107"), "01-07");
}

#[test]
fn test_display_prefix() {
    assert_eq!(FnKeyBinding::display_prefix("012801"), "01-28-01");
    assert_eq!(FnKeyBinding::display_prefix("0107"), "01-07");
}

#[test]
fn fnkey_test_known_fn_keys_non_empty_and_distinct() {
    assert!(!known_fn_keys().is_empty());
    let mut set = std::collections::HashSet::new();
    for k in known_fn_keys() {
        assert!(!k.prefix.is_empty());
        assert!(set.insert((k.class, k.prefix)));
    }
}

#[test]
fn test_known_fn_keys_non_empty_and_distinct() {
    assert!(!known_fn_keys().is_empty());
    let mut set = std::collections::HashSet::new();
    for k in known_fn_keys() {
        assert!(!k.prefix.is_empty());
        assert!(set.insert((k.class, k.prefix)));
    }
}

#[test]
fn test_known_fn_k_matches_constants() {
    let first = &known_fn_keys()[0];
    assert_eq!(first.class, FN_K_WMI_CLASS);
    assert_eq!(first.prefix, FN_K_PRESS_PREFIX);
    assert_eq!(first.name, "Fn+K 性能模式");
}

#[test]
fn test_no_event_classes_backoff_schedule() {
    assert_eq!(no_event_classes_backoff_secs(1), 5);
    assert_eq!(no_event_classes_backoff_secs(3), 5);
    assert_eq!(no_event_classes_backoff_secs(4), 30);
    assert_eq!(no_event_classes_backoff_secs(20), 30);
    assert_eq!(no_event_classes_backoff_secs(21), 60);
    assert_eq!(no_event_classes_backoff_secs(1000), 60);
}

#[test]
fn a_captured_key_is_shown_again_after_a_while() {
    let mut seen = RecentKeys::new();
    assert!(capture_event_gate(&mut seen, 0, "HID_EVENT20", "012801"));
    assert!(!capture_event_gate(&mut seen, 1, "HID_EVENT20", "012801"));
    assert!(capture_event_gate(&mut seen, 1, "HID_EVENT21", "012801"));
    assert!(capture_event_gate(&mut seen, u64::MAX, "HID_EVENT20", "012801"));
}

#[test]
fn labels_and_actions() {
    assert_eq!(
        binding_label("HID_EVENT20", "012801"),
        "HID_EVENT20 / 01-28-01"
    );
    assert_eq!(FnKeyBinding::fn_k().label(), "HID_EVENT20 / 01-28-01");
    assert_eq!(FnKeyBinding::display_prefix("01280"), "01-28-0");
    assert_eq!(FnAction::all().len(), 5);
    assert_eq!(FnAction::NoAction.name(), "无动作");
    assert!(FnAction::RunCommand.as_ui_command().is_none());
    assert!(matches!(
        FnAction::ReapplyConfig.as_ui_command(),
        Some(UiCommand::ReapplyConfigManual)
    ));
}

#[test]
fn the_end_of_a_long_command_is_not_logged() {
    assert_eq!(redact_command("calc.exe"), "calc.exe");
    let command = "tool.exe --user someone --password hunter2";
    let logged = redact_command(command);
    assert_eq!(logged, "tool.exe --user someone --passwo... (42 chars)");
    assert_eq!(redact_command(&"键".repeat(32)), "键".repeat(32));
}

#[test]
fn presses_and_releases_are_told_apart() {
    assert!(is_press_report("012801FF"));
    assert!(!is_press_report("012800"));
    assert!(!is_press_report("0128"));
    assert!(is_release_report("012800"));
    assert!(!is_release_report("012801"));
    assert!(!is_release_report("01280"));
}

#[test]
fn normalising_goes_part_by_part() {
    let (a, b) = ("0x01-2", "8 ab");
    let whole = format!("{}{}", a, b);
    assert_eq!(
        normalize_hex(&whole),
        format!("{}{}", normalize_hex(a), normalize_hex(b))
    );
    assert_eq!(normalize_hex(&whole), "00128AB");
}

#[test]
fn the_gate_counts_from_the_last_event_it_let_through() {
    let ms = |n: u64| n * 1_000_000;
    let mut recent = RecentKeys::new();
    let mut gate = |at: u64| capture_event_gate(&mut recent, ms(at), "HID_EVENT20", "012801");
    assert!(gate(0));
    assert!(!gate(100));
    assert!(!gate(149));
    assert!(gate(150));
    assert!(!gate(299));
    assert!(gate(300));
}
