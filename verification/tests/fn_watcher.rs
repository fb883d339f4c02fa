//! Watching for key events and acting on them.

use std::sync::{Arc, Mutex};
use xiaomi_pc_manager_lite::app::command::UiCommand;
use xiaomi_pc_manager_lite::app::fnkey::{default_bindings, FnAction, FnKeyBinding};
use xiaomi_pc_manager_lite::app::recent::RecentKeys;
use xiaomi_pc_manager_lite::app::sink::{CommandSink, Outbox, SendError};
use xiaomi_pc_manager_lite::ec::fn_watcher::{
    after_watcher_stopped, binding_classes, bytes_to_hex, capture_classes, classes_to_watch,
    debounce_duplicate, decide_event, dispatch_bindings, process_event, run_external_command,
    subscription_query, CommandStep, Decision, Dispatch, RoundStep, Watcher, WatcherError,
};

/// A sink that keeps what is sent to it.
struct RecordingSink(Arc<Mutex<Vec<UiCommand>>>);

impl CommandSink for RecordingSink {
    fn send(&self, command: UiCommand) -> Result<(), SendError> {
        self.0.lock().unwrap().push(command);
        Ok(())
    }

    fn wake(&self) {}
}

fn recording() -> (RecordingSink, Arc<Mutex<Vec<UiCommand>>>) {
    let recorded = Arc::new(Mutex::new(Vec::new()));
    (RecordingSink(recorded.clone()), recorded)
}

#[test]
fn fn_watcher_test_dispatch_binding_match_semantics() {
    let bindings = default_bindings();
    let (sink, _recorded) = recording();

    assert!(dispatch_bindings("HID_EVENT20", "012801FFFF", &bindings, &mut Outbox::new(&sink)).is_consumed());
    assert!(!dispatch_bindings("HID_EVENT20", "012800", &bindings, &mut Outbox::new(&sink)).is_consumed());
    assert!(!dispatch_bindings("HID_EVENT21", "012801", &bindings, &mut Outbox::new(&sink)).is_consumed());
    assert!(!dispatch_bindings("HID_EVENT20", "010701", &bindings, &mut Outbox::new(&sink)).is_consumed());
}

#[test]
fn fn_watcher_test_dispatch_sends_ui_command() {
    let bindings = default_bindings();
    let (sink, recorded) = recording();
    assert!(dispatch_bindings("HID_EVENT20", "012801", &bindings, &mut Outbox::new(&sink)).is_consumed());
    let got = recorded.lock().unwrap();
    assert!(matches!(&got[..], [UiCommand::CyclePerfMode]));
}

#[test]
fn test_dispatch_partial_prefix_skips_release() {
    let bindings = vec![FnKeyBinding {
        class: "HID_EVENT20".into(),
        prefix: "0125".into(),
        action: FnAction::ToggleBatteryCare,
        command: None,
    }];
    let (sink, recorded) = recording();
    assert!(dispatch_bindings("HID_EVENT20", "01250100", &bindings, &mut Outbox::new(&sink)).is_consumed());
    assert!(matches!(
        &recorded.lock().unwrap()[0],
        UiCommand::ToggleBatteryCare
    ));
    assert!(
        !dispatch_bindings("HID_EVENT20", "01250000", &bindings, &mut Outbox::new(&sink)).is_consumed(),
        "release event must not dispatch a partial prefix"
    );
    assert_eq!(recorded.lock().unwrap().len(), 1);
}

#[test]
fn fn_watcher_test_dispatch_none_action_consumes_without_sending() {
    let bindings = vec![FnKeyBinding {
        class: "HID_EVENT20".into(),
        prefix: "0107".into(),
        action: FnAction::NoAction,
        command: None,
    }];
    let (sink, recorded) = recording();
    assert!(dispatch_bindings("HID_EVENT20", "010701", &bindings, &mut Outbox::new(&sink)).is_consumed());
    assert!(recorded.lock().unwrap().is_empty());
}

#[test]
fn fn_watcher_test_dispatch_custom_binding() {
    let bindings = vec![FnKeyBinding {
        class: "HID_EVENT20".into(),
        prefix: "0123".into(),
        action: FnAction::ToggleBatteryCare,
        command: None,
    }];
    let (sink, recorded) = recording();
    assert!(dispatch_bindings("HID_EVENT20", "012301", &bindings, &mut Outbox::new(&sink)).is_consumed());
    assert!(matches!(
        &recorded.lock().unwrap()[0],
        UiCommand::ToggleBatteryCare
    ));
}

#[test]
fn fn_watcher_test_dispatch_run_command_consumes_without_ui_command() {
    let bindings = vec![FnKeyBinding {
        class: "HID_EVENT20".into(),
        prefix: "0128".into(),
        action: FnAction::RunCommand,
        command: None,
    }];
    let (sink, recorded) = recording();
    assert!(dispatch_bindings("HID_EVENT20", "012801", &bindings, &mut Outbox::new(&sink)).is_consumed());
    assert!(
        recorded.lock().unwrap().is_empty(),
        "RunCommand must not send a UiCommand"
    );
}

#[test]
fn fn_watcher_test_debounce_duplicate_same_command() {
    let mut recent = RecentKeys::new();
    assert!(!debounce_duplicate(&mut recent, 0, "echo a"), "first run must pass");
    assert!(
        debounce_duplicate(&mut recent, 0, "echo a"),
        "same command within window must be debounced"
    );
    assert!(
        !debounce_duplicate(&mut recent, 0, "echo b"),
        "different command must not be debounced"
    );
    assert!(
        !debounce_duplicate(&mut recent, 0, "echo ab"),
        "prefix-distinct command must pass"
    );
}

#[test]
fn fn_watcher_test_binding_classes_deduplicated() {
    let bindings = vec![
        FnKeyBinding::fn_k(),
        FnKeyBinding {
            class: "HID_EVENT20".into(),
            prefix: "0107".into(),
            action: FnAction::NoAction,
            command: None,
        },
        FnKeyBinding {
            class: "HID_EVENT21".into(),
            prefix: "FF".into(),
            action: FnAction::ReapplyConfig,
            command: None,
        },
    ];
    assert_eq!(
        binding_classes(&bindings),
        vec!["HID_EVENT20", "HID_EVENT21"]
    );
}

#[test]
fn fn_watcher_test_capture_classes_include_known_when_bindings_empty() {
    let empty: Vec<FnKeyBinding> = Vec::new();
    let cap = capture_classes(&empty);
    assert!(
        cap.contains(&"HID_EVENT20".to_string()),
        "capture with empty bindings must still subscribe to known classes"
    );
    assert_eq!(cap, {
        let mut c = cap.clone();
        c.sort();
        c.dedup();
        c
    });
}

#[test]
fn fn_watcher_test_capture_classes_merge_bindings_and_known() {
    let bindings = vec![FnKeyBinding {
        class: "HID_EVENT21".into(),
        prefix: "FF".into(),
        action: FnAction::ReapplyConfig,
        command: None,
    }];
    let cap = capture_classes(&bindings);
    assert!(cap.contains(&"HID_EVENT21".to_string()));
    assert!(cap.contains(&"HID_EVENT20".to_string()));
}

#[test]
fn fn_watcher_test_non_capture_bindings_only() {
    let bindings = vec![FnKeyBinding::fn_k()];
    assert_eq!(binding_classes(&bindings), vec!["HID_EVENT20"]);
}

#[test]
fn fn_watcher_test_bytes_to_hex_empty_buffer_is_none() {
    assert_eq!(bytes_to_hex(None), None);
    assert_eq!(bytes_to_hex(Some(&[])), None);
}

#[test]
fn fn_watcher_test_bytes_to_hex_non_empty() {
    let data = [0x01u8, 0x28, 0x01, 0x00, 0xFF];
    let hex = bytes_to_hex(Some(&data)).expect("non-empty data");
    assert_eq!(hex, "01280100FF");
}

#[test]
fn fn_watcher_test_bytes_to_hex_null_nonzero_len_is_none() {
    assert_eq!(bytes_to_hex(None), None);
}

#[test]
fn fnkey_test_dispatch_binding_match_semantics() {
    let bindings = default_bindings();
    let (sink, _recorded) = recording();

    assert!(dispatch_bindings("HID_EVENT20", "012801FFFF", &bindings, &mut Outbox::new(&sink)).is_consumed());
    assert!(!dispatch_bindings("HID_EVENT20", "012800", &bindings, &mut Outbox::new(&sink)).is_consumed());
    assert!(!dispatch_bindings("HID_EVENT21", "012801", &bindings, &mut Outbox::new(&sink)).is_consumed());
    assert!(!dispatch_bindings("HID_EVENT20", "010701", &bindings, &mut Outbox::new(&sink)).is_consumed());
}

#[test]
fn fnkey_test_dispatch_sends_ui_command() {
    let bindings = default_bindings();
    let (sink, recorded) = recording();
    assert!(dispatch_bindings("HID_EVENT20", "012801", &bindings, &mut Outbox::new(&sink)).is_consumed());
    assert!(matches!(
        &recorded.lock().unwrap()[..],
        [UiCommand::CyclePerfMode]
    ));
}

#[test]
fn fnkey_test_dispatch_none_action_consumes_without_sending() {
    let bindings = vec![FnKeyBinding {
        class: "HID_EVENT20".into(),
        prefix: "0107".into(),
        action: FnAction::NoAction,
        command: None,
    }];
    let (sink, recorded) = recording();
    assert!(dispatch_bindings("HID_EVENT20", "010701", &bindings, &mut Outbox::new(&sink)).is_consumed());
    assert!(recorded.lock().unwrap().is_empty());
}

#[test]
fn fnkey_test_dispatch_custom_binding() {
    let bindings = vec![FnKeyBinding {
        class: "HID_EVENT20".into(),
        prefix: "0123".into(),
        action: FnAction::ToggleBatteryCare,
        command: None,
    }];
    let (sink, recorded) = recording();
    assert!(dispatch_bindings("HID_EVENT20", "012301", &bindings, &mut Outbox::new(&sink)).is_consumed());
    assert!(matches!(
        &recorded.lock().unwrap()[..],
        [UiCommand::ToggleBatteryCare]
    ));
}

#[test]
fn fnkey_test_dispatch_run_command_consumes_without_ui_command() {
    let bindings = vec![FnKeyBinding {
        class: "HID_EVENT20".into(),
        prefix: "0128".into(),
        action: FnAction::RunCommand,
        command: None,
    }];
    let (sink, recorded) = recording();
    assert!(dispatch_bindings("HID_EVENT20", "012801", &bindings, &mut Outbox::new(&sink)).is_consumed());
    assert!(
        recorded.lock().unwrap().is_empty(),
        "RunCommand must not send a UiCommand"
    );

    let empty = vec![FnKeyBinding {
        class: "HID_EVENT20".into(),
        prefix: "0107".into(),
        action: FnAction::RunCommand,
        command: Some("   ".into()),
    }];
    let (sink2, _recorded2) = recording();
    assert!(dispatch_bindings("HID_EVENT20", "010701", &empty, &mut Outbox::new(&sink2)).is_consumed());
}

#[test]
fn fnkey_test_debounce_duplicate_same_command() {
    let mut recent = RecentKeys::new();
    assert!(!debounce_duplicate(&mut recent, 0, "echo a"), "first run must pass");
    assert!(
        debounce_duplicate(&mut recent, 0, "echo a"),
        "same command within window must be debounced"
    );
    assert!(
        !debounce_duplicate(&mut recent, 0, "echo b"),
        "different command must not be debounced"
    );
    assert!(
        !debounce_duplicate(&mut recent, 0, "echo ab"),
        "prefix-distinct command must pass"
    );
}

#[test]
fn fnkey_test_binding_classes_deduplicated() {
    let bindings = vec![
        FnKeyBinding::fn_k(),
        FnKeyBinding {
            class: "HID_EVENT20".into(),
            prefix: "0107".into(),
            action: FnAction::NoAction,
            command: None,
        },
        FnKeyBinding {
            class: "HID_EVENT21".into(),
            prefix: "FF".into(),
            action: FnAction::ReapplyConfig,
            command: None,
        },
    ];
    assert_eq!(
        binding_classes(&bindings),
        vec!["HID_EVENT20", "HID_EVENT21"]
    );
}

#[test]
fn fnkey_test_capture_classes_include_known_when_bindings_empty() {
    let empty: Vec<FnKeyBinding> = Vec::new();
    let cap = capture_classes(&empty);
    assert!(
        cap.contains(&"HID_EVENT20".to_string()),
        "capture with empty bindings must still subscribe to known classes"
    );
    assert_eq!(cap, {
        let mut c = cap.clone();
        c.sort();
        c.dedup();
        c
    });
}

#[test]
fn fnkey_test_capture_classes_merge_bindings_and_known() {
    let bindings = vec![FnKeyBinding {
        class: "HID_EVENT21".into(),
        prefix: "FF".into(),
        action: FnAction::ReapplyConfig,
        command: None,
    }];
    let cap = capture_classes(&bindings);
    assert!(cap.contains(&"HID_EVENT21".to_string()));
    assert!(cap.contains(&"HID_EVENT20".to_string()));
}

#[test]
fn fnkey_test_non_capture_bindings_only() {
    let bindings = vec![FnKeyBinding::fn_k()];
    assert_eq!(binding_classes(&bindings), vec!["HID_EVENT20"]);
}

#[test]
fn fnkey_test_bytes_to_hex_empty_buffer_is_none() {
    assert_eq!(bytes_to_hex(None), None);
    assert_eq!(bytes_to_hex(Some(&[])), None);
}

#[test]
fn fnkey_test_bytes_to_hex_non_empty() {
    let data = [0x01u8, 0x28, 0x01, 0x00, 0xFF];
    let hex = bytes_to_hex(Some(&data)).expect("non-empty data");
    assert_eq!(hex, "01280100FF");
}

#[test]
fn fnkey_test_bytes_to_hex_null_nonzero_len_is_none() {
    assert_eq!(bytes_to_hex(None), None);
}

const SECOND: u64 = 1_000_000_000;

#[test]
fn a_command_may_run_again_after_a_second() {
    let mut recent = RecentKeys::new();
    assert!(!debounce_duplicate(&mut recent, 5, "echo a"));
    assert!(debounce_duplicate(&mut recent, 5 + SECOND - 1, "echo a"));
    assert!(!debounce_duplicate(&mut recent, 5 + SECOND, "echo a"));
    assert!(debounce_duplicate(&mut recent, 5 + SECOND + 1, "echo a"));
}

#[test]
fn blank_commands_are_skipped_and_others_trimmed() {
    let mut recent = RecentKeys::new();
    let some = |s: &str| Some(s.to_string());
    assert!(matches!(
        run_external_command(&mut recent, 0, &None),
        CommandStep::Skip
    ));
    assert!(matches!(
        run_external_command(&mut recent, 0, &some("  \t")),
        CommandStep::Skip
    ));
    match run_external_command(&mut recent, 0, &some(" calc ")) {
        CommandStep::Start(line) => assert_eq!(line, "calc"),
        _ => panic!("a command is started"),
    }
    assert!(matches!(
        run_external_command(&mut recent, 1, &some("calc")),
        CommandStep::Debounced
    ));
}

#[test]
fn a_binding_hands_its_command_out() {
    let bindings = vec![FnKeyBinding {
        class: "HID_EVENT20".into(),
        prefix: "01-28".into(),
        action: FnAction::RunCommand,
        command: Some("calc".into()),
    }];
    let (sink, recorded) = recording();
    match dispatch_bindings("HID_EVENT20", "012801", &bindings, &mut Outbox::new(&sink)) {
        Dispatch::Run(command) => assert_eq!(command, Some("calc".to_string())),
        _ => panic!("the binding runs a command"),
    }
    assert!(recorded.lock().unwrap().is_empty());
}

#[test]
fn the_first_matching_binding_wins() {
    let binding = |action| FnKeyBinding {
        class: "HID_EVENT20".into(),
        prefix: "0128".into(),
        action,
        command: None,
    };
    let bindings = vec![
        binding(FnAction::ToggleBatteryCare),
        binding(FnAction::CyclePerfMode),
    ];
    let (sink, recorded) = recording();
    dispatch_bindings("HID_EVENT20", "012801", &bindings, &mut Outbox::new(&sink));
    assert!(matches!(
        &recorded.lock().unwrap()[..],
        [UiCommand::ToggleBatteryCare]
    ));
}

#[test]
fn decisions_follow_the_first_binding() {
    let binding = |prefix: &str, action, command: Option<&str>| FnKeyBinding {
        class: "HID_EVENT20".into(),
        prefix: prefix.into(),
        action,
        command: command.map(|c| c.to_string()),
    };
    let bindings = vec![
        binding("0125", FnAction::ToggleBatteryCare, None),
        binding("0107", FnAction::NoAction, None),
        binding("0123", FnAction::RunCommand, Some("calc.exe")),
    ];
    let decide = |report: &str| decide_event("HID_EVENT20", report, &bindings);
    assert!(matches!(
        decide("01250100"),
        Decision::Send(UiCommand::ToggleBatteryCare)
    ));
    assert!(matches!(decide("01250000"), Decision::Unmatched));
    assert!(matches!(decide("010701"), Decision::Consumed));
    assert!(matches!(decide("012\u{4e2d}\u{6587}"), Decision::Unmatched));
    match decide("012301") {
        Decision::Run(Some(command)) => assert_eq!(command, "calc.exe"),
        _ => panic!("the binding runs a command"),
    }
    let (sink, recorded) = recording();
    for report in ["01250000", "010701", "012301"] {
        dispatch_bindings("HID_EVENT20", report, &bindings, &mut Outbox::new(&sink));
        assert!(recorded.lock().unwrap().is_empty());
    }
}

#[test]
fn captured_events_are_shown_and_done() {
    let bindings = default_bindings();
    let (sink, recorded) = recording();
    let mut recent = RecentKeys::new();
    let mut event = |report: &str, now| {
        let mut outbox = Outbox::new(&sink);
        process_event(
            "HID_EVENT20",
            report,
            &bindings,
            true,
            &mut recent,
            now,
            &mut outbox,
        )
    };
    assert!(event("01-28-01 00", 0).is_consumed());
    assert!(!event("01-28-00 00", 1).is_consumed());
    let got = recorded.lock().unwrap();
    assert_eq!(got.len(), 2);
    match &got[0] {
        UiCommand::FnEventSeen { class, hex } => {
            assert_eq!((class.as_str(), hex.as_str()), ("HID_EVENT20", "01280100"))
        }
        _ => panic!("the event is shown first"),
    }
    assert!(matches!(&got[1], UiCommand::CyclePerfMode));
}

#[test]
fn events_are_not_shown_without_capture() {
    let (sink, recorded) = recording();
    let mut recent = RecentKeys::new();
    let none = Vec::new();
    let mut outbox = Outbox::new(&sink);
    let r = process_event(
        "HID_EVENT20",
        "012801",
        &none,
        false,
        &mut recent,
        0,
        &mut outbox,
    );
    assert!(!r.is_consumed());
    assert!(recorded.lock().unwrap().is_empty());
}

#[test]
fn a_watcher_subscribes_when_the_classes_change() {
    let bindings = default_bindings();
    let mut watcher = Watcher::new();
    match watcher.begin_round(&bindings, false) {
        RoundStep::Subscribe(classes) => assert_eq!(classes, ["HID_EVENT20"]),
        _ => panic!("the first round subscribes"),
    }
    assert!(matches!(watcher.subscribed(1, false), RoundStep::Poll));
    assert!(matches!(
        watcher.begin_round(&bindings, false),
        RoundStep::Poll
    ));
    match watcher.begin_round(&Vec::new(), false) {
        RoundStep::Subscribe(classes) => assert!(classes.is_empty()),
        _ => panic!("the classes have changed"),
    }
    assert!(matches!(watcher.subscribed(0, false), RoundStep::Idle));
    assert!(matches!(
        watcher.begin_round(&Vec::new(), false),
        RoundStep::Idle
    ));
    assert_eq!(classes_to_watch(&Vec::new(), false), Vec::<String>::new());
    assert_eq!(classes_to_watch(&Vec::new(), true), ["HID_EVENT20"]);
    assert_eq!(
        subscription_query("HID_EVENT20"),
        "SELECT * FROM HID_EVENT20"
    );
}

#[test]
fn a_watcher_without_classes_starts_over_after_six_rounds() {
    let bindings = default_bindings();
    let mut watcher = Watcher::new();
    watcher.begin_round(&bindings, false);
    assert!(matches!(
        watcher.subscribed(0, false),
        RoundStep::RetryLater
    ));
    for _ in 0..4 {
        assert!(matches!(
            watcher.begin_round(&bindings, false),
            RoundStep::RetryLater
        ));
    }
    assert!(matches!(
        watcher.begin_round(&bindings, false),
        RoundStep::Stop(WatcherError::NoEventClasses)
    ));
}

#[test]
fn a_lost_connection_is_rebuilt() {
    let mut watcher = Watcher::new();
    assert!(watcher.resubscribed(1).is_ok());
    match watcher.resubscribed(0) {
        Err(e @ WatcherError::Reconnect(_)) => assert_eq!(after_watcher_stopped(7, &e), (0, 5)),
        _ => panic!("without a subscription the connection is lost"),
    }
    let missing = WatcherError::NoEventClasses;
    assert_eq!(after_watcher_stopped(0, &missing), (1, 5));
    assert_eq!(after_watcher_stopped(3, &missing), (4, 30));
    assert_eq!(after_watcher_stopped(20, &missing), (21, 60));
    assert_eq!(after_watcher_stopped(u32::MAX, &missing), (u32::MAX, 60));
}
