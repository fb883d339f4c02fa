//! The function keys that the window answers to by itself.

use xiaomi_pc_manager_lite::fnkey::{builtin_keys, dispatch_action, FnAction, FnKeyDef};
use xiaomi_pc_manager_lite::gui::UiCommand;

fn find(hex_prefix: &str) -> FnKeyDef {
    builtin_keys()
        .into_iter()
        .find(|k| k.hex_prefix == hex_prefix)
        .unwrap()
}

#[test]
fn test_builtin_keys_count() {
    assert_eq!(builtin_keys().len(), 10);
}

#[test]
fn test_fn_k_definition() {
    let key = find("012801");
    assert_eq!(key.name, "Fn+K 性能模式切换");
    assert_eq!(key.wmi_class, "HID_EVENT20");
    assert_eq!(key.hex_prefix, "012801");
    assert!(matches!(key.action, Some(FnAction::CyclePerformanceMode)));
}

#[test]
fn test_fn_lock_definition() {
    let key = find("0107");
    assert_eq!(key.name, "Fn 锁");
    assert_eq!(key.wmi_class, "HID_EVENT20");
    assert_eq!(key.hex_prefix, "0107");
    assert!(matches!(key.action, Some(FnAction::ShowFnLockOsd)));
}

#[test]
fn test_caps_lock_definition() {
    let key = find("0109");
    assert_eq!(key.name, "大写锁定");
    assert_eq!(key.wmi_class, "HID_EVENT20");
    assert!(matches!(key.action, Some(FnAction::ShowCapsLockOsd)));
}

#[test]
fn test_mic_mute_on_definition() {
    let key = find("012101");
    assert_eq!(key.name, "麦克风静音开");
    assert!(matches!(key.action, Some(FnAction::MicrophoneMuteOn)));
}

#[test]
fn test_mic_mute_off_definition() {
    let key = find("012100");
    assert_eq!(key.name, "麦克风静音关");
    assert!(matches!(key.action, Some(FnAction::MicrophoneMuteOff)));
}

#[test]
fn test_keyboard_backlight_definition() {
    let key = find("0105");
    assert_eq!(key.name, "键盘背光循环");
    assert!(matches!(key.action, Some(FnAction::ShowKeyboardBacklightOsd)));
}

#[test]
fn test_projection_definition() {
    let key = find("0101");
    assert_eq!(key.name, "投影切换");
    assert!(matches!(key.action, Some(FnAction::OpenProjection)));
}

#[test]
fn test_settings_definition() {
    let key = find("011B");
    assert_eq!(key.name, "设置");
    assert!(matches!(key.action, Some(FnAction::OpenSettings)));
}

#[test]
fn test_xiaoai_definition() {
    let key = find("012301");
    assert_eq!(key.name, "小爱同学");
    assert!(key.action.is_none());
}

#[test]
fn test_pc_manager_definition() {
    let key = find("012501");
    assert_eq!(key.name, "PC Manager");
    assert!(key.action.is_none());
}

#[test]
fn test_all_keys_have_wmi_class() {
    for key in builtin_keys() {
        assert!(!key.wmi_class.is_empty(), "key {} has empty wmi_class", key.name);
        assert!(!key.hex_prefix.is_empty(), "key {} has empty hex_prefix", key.name);
    }
}

#[test]
fn test_all_keys_in_hid_event20() {
    for key in builtin_keys() {
        assert_eq!(key.wmi_class, "HID_EVENT20", "key {} has unexpected class", key.name);
    }
}

#[test]
fn test_dispatch_action_cycle_perf_mode() {
    let command = dispatch_action(&FnAction::CyclePerformanceMode);
    assert_eq!(command, Some(UiCommand::CyclePerfMode));
}

#[test]
fn test_dispatch_action_non_implemented_does_not_send() {
    let command = dispatch_action(&FnAction::ShowFnLockOsd);
    assert_eq!(command, None);
}

#[test]
fn test_dispatch_action_microphone_mute() {
    let command = dispatch_action(&FnAction::MicrophoneMuteOn);
    assert_eq!(command, None);
}

#[test]
fn test_hex_prefix_matching_012801_matches_fn_k() {
    let clean = "012801FFFF".to_string();
    for key in builtin_keys() {
        if key.hex_prefix == "012801" {
            assert!(clean.starts_with(key.hex_prefix));
        }
    }
}

#[test]
fn test_hex_prefix_matching_0107_matches_fn_lock_press() {
    let clean = "010701".to_string();
    let matched = builtin_keys().iter().any(|k| k.hex_prefix == "0107" && clean.starts_with(k.hex_prefix));
    assert!(matched);
}

#[test]
fn test_hex_prefix_matching_010700_matches_fn_lock_release() {
    let clean = "010700".to_string();
    let matched = builtin_keys().iter().any(|k| k.hex_prefix == "0107" && clean.starts_with(k.hex_prefix));
    assert!(matched);
}

#[test]
fn test_hex_prefix_no_false_positive() {
    let clean = "0120".to_string();
    let matched = builtin_keys().iter().any(|k| clean.starts_with(k.hex_prefix));
    assert!(!matched);
}

#[test]
fn test_builtin_keys_unique_names() {
    let mut names: Vec<&str> = builtin_keys().iter().map(|k| k.name).collect();
    names.sort();
    names.dedup();
    assert_eq!(names.len(), builtin_keys().len());
}

#[test]
fn test_builtin_keys_unique_hex_prefixes() {
    let mut prefixes: Vec<&str> = builtin_keys().iter().map(|k| k.hex_prefix).collect();
    prefixes.sort();
    prefixes.dedup();
    assert_eq!(prefixes.len(), builtin_keys().len());
}
