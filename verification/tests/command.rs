//! Commands to the user interface, as they are logged.

use xiaomi_pc_manager_lite::app::command::{failed_autostart_line, UiCommand};
use xiaomi_pc_manager_lite::app::ec::BoxedBackend;
use xiaomi_pc_manager_lite::ec::backend::NullBackend;

#[test]
fn every_command_has_its_line() {
    assert_eq!(UiCommand::ToggleBatteryCare.fmt(), "ToggleBatteryCare");
    assert_eq!(UiCommand::CyclePerfMode.fmt(), "CyclePerfMode");
    assert_eq!(UiCommand::SetPerfMode(9).fmt(), "SetPerfMode(9)");
    assert_eq!(UiCommand::ReapplyConfig.fmt(), "ReapplyConfig");
    assert_eq!(UiCommand::ReapplyConfigManual.fmt(), "ReapplyConfigManual");
    assert_eq!(
        UiCommand::FnEventSeen {
            class: "HID_EVENT20".to_string(),
            hex: "012801".to_string(),
        }
        .fmt(),
        "FnEventSeen { class: \"HID_EVENT20\", hex: \"012801\" }"
    );
    assert_eq!(UiCommand::SetAutostart(true).fmt(), "SetAutostart(true)");
    assert_eq!(
        UiCommand::SetAutostartResult(false, Ok(())).fmt(),
        "SetAutostartResult(false, Ok(()))"
    );
    assert_eq!(
        UiCommand::WmiAvailable(BoxedBackend::new(Box::new(NullBackend))).fmt(),
        "WmiAvailable(_)"
    );
    assert_eq!(UiCommand::Quit.fmt(), "Quit");
}

#[test]
fn the_reason_of_a_failure_is_quoted() {
    let reason = "拒绝 \"访问\"\n".to_string();
    assert_eq!(
        UiCommand::SetAutostartResult(true, Err(reason)).fmt(),
        "SetAutostartResult(true, Err(\"拒绝 \\\"访问\\\"\\n\"))"
    );
    assert_eq!(
        failed_autostart_line(true, "\"x\""),
        "SetAutostartResult(true, Err(\"x\"))"
    );
}
