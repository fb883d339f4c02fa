//! The window, the requests of a front end, and the tray.

use std::sync::{Arc, Mutex};
use xiaomi_pc_manager_lite::app::config::AppConfig;
use xiaomi_pc_manager_lite::app::ec::{BackendPreference, BoxedBackend, EcBackend, EcError};
use xiaomi_pc_manager_lite::app::performance::PerfMode;
use xiaomi_pc_manager_lite::commands::{
    get_backend_name, get_config, get_status, reapply_config_on_power_change, save_config,
    set_battery_care, set_charge_limit, set_performance_mode, AppState,
};
use xiaomi_pc_manager_lite::gui::{
    ends_row, next_mode_code, Effect, Tab, TrayUpdate, UiCommand, WindowAction, XiaomiApp,
};
use xiaomi_pc_manager_lite::ec::backend::NullBackend;
use xiaomi_pc_manager_lite::fnkey;
use xiaomi_pc_manager_lite::tray::{
    handle_tray_event, hotkey_event, power_message, tray_action, PowerMessage, TrayAction,
    TrayEffect,
};

/// A backend that writes down what it is told, and fails if it is to.
struct Logging {
    log: Arc<Mutex<Vec<String>>>,
    fails: bool,
}

impl Logging {
    fn write(&self, line: String) -> Result<(), EcError> {
        self.log.lock().unwrap().push(line);
        if self.fails {
            Err(EcError::Timeout(0x66))
        } else {
            Ok(())
        }
    }

    fn read<T>(&self, value: T) -> Result<T, EcError> {
        if self.fails {
            Err(EcError::Timeout(0x66))
        } else {
            Ok(value)
        }
    }
}

impl EcBackend for Logging {
    fn name(&self) -> &'static str {
        "logging"
    }

    fn get_battery_care_enabled(&self) -> Result<bool, EcError> {
        self.read(true)
    }

    fn get_charge_limit(&self) -> Result<u8, EcError> {
        self.read(60)
    }

    fn set_battery_care(&self, enabled: bool) -> Result<(), EcError> {
        self.write(format!("care {}", enabled))
    }

    fn set_charge_limit(&self, percent: u8) -> Result<(), EcError> {
        self.write(format!("limit {}", percent))
    }

    fn get_performance_mode(&self) -> Result<u8, EcError> {
        self.read(0x03)
    }

    fn set_performance_mode(&self, mode: u8) -> Result<(), EcError> {
        self.write(format!("mode {}", mode))
    }
}

type Log = Arc<Mutex<Vec<String>>>;

fn logging(fails: bool) -> (BoxedBackend, Log) {
    let log = Arc::new(Mutex::new(Vec::new()));
    let backend = Logging {
        log: log.clone(),
        fails,
    };
    (BoxedBackend::new(Box::new(backend)), log)
}

fn window(fails: bool) -> (XiaomiApp, Log) {
    let (backend, log) = logging(fails);
    (XiaomiApp::new(backend, AppConfig::default()), log)
}

fn state(fails: bool) -> (AppState, Log) {
    let (backend, log) = logging(fails);
    let config = AppConfig::default();
    (AppState { backend, config }, log)
}

fn taken(log: &Log) -> Vec<String> {
    log.lock().unwrap().drain(..).collect()
}

#[test]
fn a_new_window_shows_the_configuration() {
    let (app, log) = window(false);
    assert_eq!(app.backend_name, "logging");
    assert!(!app.battery_care_enabled);
    assert_eq!(app.charge_limit, 80);
    assert_eq!(app.performance_mode, 0x09);
    assert_eq!(app.error_msg, None);
    assert_eq!(app.active_tab, Tab::Power);
    assert_eq!(app.care_line(), "电池养护: 关闭");
    assert_eq!(app.limit_line(), "充电上限: 80%");
    assert!(app.is_selected(PerfMode::Smart));
    assert!(!app.is_selected(PerfMode::Eco));
    assert!(taken(&log).is_empty());
}

#[test]
fn commands_change_settings_display_and_hardware() {
    for fails in [false, true] {
        let (mut app, log) = window(fails);
        let effect = app.process_command(UiCommand::ToggleBatteryCare);
        assert_eq!(
            effect,
            Effect {
                window: WindowAction::Keep,
                tray: TrayUpdate::Care(true),
                save: true,
            }
        );
        assert!(app.battery_care_enabled && app.config.battery_care_enabled);
        assert_eq!(taken(&log), ["care true"]);
        app.process_command(UiCommand::ToggleBatteryCare);
        assert!(!app.battery_care_enabled && !app.config.battery_care_enabled);
        assert_eq!(taken(&log), ["care false"]);

        let effect = app.process_command(UiCommand::SetPerfMode(4));
        assert_eq!(effect.tray, TrayUpdate::Mode(4));
        assert_eq!((app.performance_mode, app.config.performance_mode), (4, 4));
        assert_eq!(taken(&log), ["mode 4"]);

        let effect = app.process_command(UiCommand::CyclePerfMode);
        assert_eq!(effect.tray, TrayUpdate::Mode(0x0A));
        assert_eq!(taken(&log), ["mode 10"]);

        let effect = app.set_limit(70);
        assert!(effect.save);
        assert_eq!((app.charge_limit, app.config.battery_charge_limit), (70, 70));
        assert_eq!(taken(&log), ["limit 70"]);

        app.process_command(UiCommand::ReapplyConfig);
        assert_eq!(taken(&log), ["care false", "limit 70", "mode 10"]);
        app.choose_auto_reapply(false);
        app.process_command(UiCommand::ReapplyConfig);
        assert!(taken(&log).is_empty());
    }
}

#[test]
fn window_commands_only_concern_the_window() {
    let (mut app, log) = window(false);
    let of = |cmd, app: &mut XiaomiApp| app.process_command(cmd);
    assert_eq!(
        of(UiCommand::ToggleWindow, &mut app).window,
        WindowAction::ToggleVisible
    );
    assert_eq!(of(UiCommand::ShowWindow, &mut app).window, WindowAction::Show);
    assert_eq!(of(UiCommand::Quit, &mut app).window, WindowAction::Close);
    let effect = of(UiCommand::RefreshStatus, &mut app);
    assert_eq!(effect.window, WindowAction::Keep);
    assert!(!effect.save);
    assert!(taken(&log).is_empty());
}

#[test]
fn what_cannot_be_read_stays_as_it_is_shown() {
    let (mut app, _log) = window(false);
    app.refresh_from_backend();
    assert_eq!(
        (app.performance_mode, app.battery_care_enabled, app.charge_limit),
        (0x03, true, 60)
    );
    assert_eq!(app.config.performance_mode, 0x09);

    let (mut app, _log) = window(true);
    app.refresh_from_backend();
    assert_eq!(
        (app.performance_mode, app.battery_care_enabled, app.charge_limit),
        (0x09, false, 80)
    );
}

#[test]
fn choices_are_saved() {
    let (mut app, _log) = window(false);
    assert!(app.choose_backend(BackendPreference::Auto).save);
    assert_eq!(app.config.backend, BackendPreference::Auto);
    assert!(app.choose_auto_apply(false).save);
    assert!(!app.config.auto_apply_on_startup);
    app.choose_tab(Tab::Settings);
    assert_eq!(app.active_tab, Tab::Settings);
}

#[test]
fn five_steps_lead_through_all_modes() {
    let mut code = 0x0A;
    let mut seen = Vec::new();
    for _ in 0..5 {
        code = next_mode_code(code);
        seen.push(code);
    }
    assert_eq!(seen, [0x02, 0x09, 0x03, 0x04, 0x0A]);
    assert_eq!(next_mode_code(0xFF), 0x02);
    let rows: Vec<bool> = (0..5).map(ends_row).collect();
    assert_eq!(rows, [false, false, true, false, false]);
}

#[test]
fn status_is_read_from_the_backend() {
    let (mut state, _log) = state(false);
    assert_eq!(get_backend_name(&state), "logging");
    let status = get_status(&mut state).unwrap();
    assert_eq!(status.backend, "logging");
    assert!(status.available);
    assert!(status.battery_care_enabled);
    assert_eq!(status.charge_limit, 60);
    assert_eq!(status.performance_mode, 0x03);
    assert_eq!(get_config(&state), AppConfig::default());
}

#[test]
fn the_first_error_is_the_status() {
    let (mut state, _log) = state(true);
    assert_eq!(
        get_status(&mut state).unwrap_err(),
        "EC 操作超时 (地址: 0x66)"
    );
    let mut missing = AppState {
        backend: BoxedBackend::new(Box::new(NullBackend)),
        config: AppConfig::default(),
    };
    assert_eq!(get_backend_name(&missing), "无后端");
    assert_eq!(
        get_status(&mut missing).unwrap_err(),
        "后端不可用: 无可用后端"
    );
}

#[test]
fn requests_change_the_configuration_if_the_hardware_took_them() {
    let (mut s, log) = state(false);
    assert_eq!(set_battery_care(&mut s, true), Ok(()));
    assert_eq!(set_charge_limit(&mut s, 150), Ok(()));
    assert_eq!(set_performance_mode(&mut s, 4), Ok(()));
    assert_eq!(taken(&log), ["care true", "limit 100", "mode 4"]);
    assert!(s.config.battery_care_enabled);
    assert_eq!(s.config.battery_charge_limit, 100);
    assert_eq!(s.config.performance_mode, 4);

    let (mut s, _log) = state(true);
    let error = Err("EC 操作超时 (地址: 0x66)".to_string());
    assert_eq!(set_battery_care(&mut s, true), error);
    assert_eq!(set_charge_limit(&mut s, 60), error);
    assert_eq!(set_performance_mode(&mut s, 4), error);
    assert_eq!(s.config, AppConfig::default());

    let mut other = AppConfig::default();
    other.performance_mode = 2;
    save_config(&mut s, other);
    assert_eq!(s.config.performance_mode, 2);
}

#[test]
fn a_change_of_power_writes_the_configuration_again() {
    let (mut s, log) = state(false);
    assert!(reapply_config_on_power_change(&mut s));
    assert_eq!(taken(&log), ["care false", "limit 80", "mode 9"]);
    s.config.auto_reapply_on_power_change = false;
    assert!(!reapply_config_on_power_change(&mut s));
    assert!(taken(&log).is_empty());
}

#[test]
fn tray_entries_do_what_they_say() {
    let (mut s, log) = state(true);
    assert_eq!(
        handle_tray_event(&mut s, "battery_care"),
        TrayEffect::SaveAndTick(true)
    );
    assert!(s.config.battery_care_enabled);
    assert_eq!(taken(&log), ["care true"]);
    assert_eq!(handle_tray_event(&mut s, "perf_extreme"), TrayEffect::Save);
    assert_eq!(s.config.performance_mode, 0x04);
    assert_eq!(taken(&log), ["mode 4"]);
    assert_eq!(
        handle_tray_event(&mut s, "show_hide"),
        TrayEffect::ToggleWindow
    );
    assert_eq!(handle_tray_event(&mut s, "perf_turbo"), TrayEffect::Nothing);
    assert!(taken(&log).is_empty());
}

#[test]
fn every_mode_has_its_tray_entry() {
    let ids = ["perf_eco", "perf_quiet", "perf_smart", "perf_fast", "perf_extreme"];
    for (id, mode) in ids.iter().zip(PerfMode::all()) {
        assert_eq!(tray_action(id), TrayAction::SetMode(*mode));
    }
}

#[test]
fn messages_of_the_system() {
    assert_eq!(hotkey_event(1), Some("hotkey-toggle-battery-care"));
    assert_eq!(hotkey_event(2), Some("hotkey-cycle-perf-mode"));
    assert_eq!(hotkey_event(3), None);
    assert_eq!(power_message(0x0218, 0x0018), PowerMessage::Reapply);
    assert_eq!(power_message(0x0218, 4), PowerMessage::Acknowledge);
    assert_eq!(power_message(0x0010, 0x0018), PowerMessage::Default);
}

#[test]
fn key_events_of_the_window() {
    let report = |s: &str| Some(s.to_string());
    let fn_k = report("01-28-01 FF");
    assert_eq!(
        fnkey::process_event("HID_EVENT20", &fn_k, &None),
        Some(UiCommand::CyclePerfMode)
    );
    assert_eq!(
        fnkey::process_event("HID_EVENT20", &None, &fn_k),
        Some(UiCommand::CyclePerfMode)
    );
    assert_eq!(
        fnkey::process_event("HID_EVENT20", &report("0107"), &fn_k),
        None
    );
    assert_eq!(fnkey::process_event("HID_EVENT21", &fn_k, &None), None);
    assert_eq!(fnkey::process_event("HID_EVENT20", &None, &None), None);
    assert_eq!(fnkey::clean_report("01-28 键01"), "012801");
    assert_eq!(fnkey::WMI_CLASSES[4], "WMIEvent");
}
