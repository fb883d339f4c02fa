//! What is asked of the hardware, in which order, and that nothing else is asked.

use std::sync::{Arc, Mutex};
use xiaomi_pc_manager_lite::app::battery::{
    apply_battery_state, apply_config_to_hardware, care_readback_disagrees,
};
use xiaomi_pc_manager_lite::app::config::{degraded_defaults, AppConfig};
use xiaomi_pc_manager_lite::app::ec::{
    BackendPreference, BoxedBackend, EcBackend, EcBackendFactory, EcError,
};
use xiaomi_pc_manager_lite::app::hardware::{HardwareWrite, Opener};
use xiaomi_pc_manager_lite::app::performance::next_cycle_code;
use xiaomi_pc_manager_lite::app::power::{PowerSnapshot, PowerSource, PowerStatus};
use xiaomi_pc_manager_lite::app::startup::{init_backend, sync_startup_config};
use xiaomi_pc_manager_lite::ec::backend::create_backend;
use xiaomi_pc_manager_lite::ec::connect::{Connector, Connectors};
use xiaomi_pc_manager_lite::gui::{UiCommand, XiaomiApp};

type Log = Arc<Mutex<Vec<String>>>;

fn note(log: &Log, line: &str) {
    log.lock().unwrap().push(line.to_string());
}

fn taken(log: &Log) -> Vec<String> {
    log.lock().unwrap().drain(..).collect()
}

/// A backend that writes down every access.
struct Traced {
    log: Log,
    limit_fails: bool,
}

impl EcBackend for Traced {
    fn name(&self) -> &'static str {
        "traced"
    }

    fn preference(&self) -> BackendPreference {
        BackendPreference::Wmi
    }

    fn get_battery_care_enabled(&self) -> Result<bool, EcError> {
        note(&self.log, "care?");
        Ok(true)
    }

    fn get_charge_limit(&self) -> Result<u8, EcError> {
        note(&self.log, "limit?");
        Ok(80)
    }

    fn set_battery_care(&self, enabled: bool) -> Result<(), EcError> {
        note(&self.log, &format!("care {}", enabled));
        Ok(())
    }

    fn set_charge_limit(&self, percent: u8) -> Result<(), EcError> {
        note(&self.log, &format!("limit {}", percent));
        if self.limit_fails {
            Err(EcError::Timeout(0x66))
        } else {
            Ok(())
        }
    }

    fn get_performance_mode(&self) -> Result<u8, EcError> {
        note(&self.log, "mode?");
        Ok(0x02)
    }

    fn set_performance_mode(&self, mode: u8) -> Result<(), EcError> {
        note(&self.log, &format!("mode {}", mode));
        Ok(())
    }
}

fn traced(limit_fails: bool) -> (BoxedBackend, Log) {
    let log = Log::default();
    let backend = Traced {
        log: log.clone(),
        limit_fails,
    };
    (BoxedBackend::new(Box::new(backend)), log)
}

#[test]
fn the_limit_is_written_first_and_read_back_last() {
    let (mut backend, log) = traced(false);
    let outcome = apply_battery_state(&mut backend, true, 85);
    assert!(matches!(outcome.charge_limit, Ok(80)));
    assert_eq!(taken(&log), ["limit 85", "care true", "limit?"]);

    let (mut backend, log) = traced(true);
    let outcome = apply_battery_state(&mut backend, false, 85);
    assert!(matches!(outcome.charge_limit, Err(EcError::Timeout(0x66))));
    assert!(outcome.care.is_ok());
    assert_eq!(taken(&log), ["limit 100", "care false"]);
}

#[test]
fn the_mode_is_written_once_after_the_battery() {
    for limit_fails in [false, true] {
        let (mut backend, log) = traced(limit_fails);
        let mut config = AppConfig::default();
        let outcome = apply_config_to_hardware(&mut backend, &config, PowerStatus::OnAc);
        let made = taken(&log);
        assert_eq!(made.last().unwrap(), "mode 9");
        assert_eq!(made.len(), if limit_fails { 3 } else { 4 });
        let disagrees = sync_startup_config(&mut backend, &mut config, &outcome);
        if limit_fails {
            assert_eq!(taken(&log), ["mode?"]);
        } else {
            assert_eq!(taken(&log), ["mode?", "care?"]);
        }
        assert!(!disagrees);
        assert_eq!(config.performance_mode, 0x02);
    }
}

struct Supply;

impl PowerSource for Supply {
    fn snapshot(&self) -> PowerSnapshot {
        PowerSnapshot {
            status: PowerStatus::OnAc,
            battery_percent: None,
        }
    }
}

/// A factory that writes down what is requested, and has WinRing0 alone or nothing.
struct Shop {
    requests: Log,
    accesses: Log,
    has_winring0: bool,
}

impl EcBackendFactory for Shop {
    fn create(&self, pref: BackendPreference) -> Result<BoxedBackend, EcError> {
        note(&self.requests, &format!("{:?}", pref));
        if pref == BackendPreference::WinRing0 && self.has_winring0 {
            Ok(BoxedBackend::new(Box::new(Traced {
                log: self.accesses.clone(),
                limit_fails: false,
            })))
        } else {
            Err(EcError::WmiInterfaceNotFound)
        }
    }

    fn null_backend(&self) -> BoxedBackend {
        note(&self.requests, "placeholder");
        BoxedBackend::placeholder()
    }
}

fn shop(has_winring0: bool) -> Shop {
    Shop {
        requests: Log::default(),
        accesses: Log::default(),
        has_winring0,
    }
}

fn preferring(pref: BackendPreference) -> AppConfig {
    AppConfig {
        backend: pref,
        ..Default::default()
    }
}

#[test]
fn no_more_backends_are_requested_than_needed() {
    let requests = |pref, has_winring0| {
        let shop = shop(has_winring0);
        init_backend(preferring(pref), &Supply, &mut Opener::new(&shop));
        taken(&shop.requests)
    };
    assert_eq!(requests(BackendPreference::WinRing0, true), ["WinRing0"]);
    assert_eq!(requests(BackendPreference::Wmi, true), ["Wmi", "WinRing0"]);
    assert_eq!(
        requests(BackendPreference::Wmi, false),
        ["Wmi", "WinRing0", "placeholder"]
    );
    assert_eq!(
        requests(BackendPreference::Auto, true),
        ["Auto", "placeholder"]
    );
}

#[test]
fn a_damaged_file_leaves_the_hardware_alone() {
    let shop = shop(true);
    let config = degraded_defaults();
    assert!(!config.auto_apply_on_startup);
    let r = init_backend(config.clone(), &Supply, &mut Opener::new(&shop));
    assert_eq!(r.backend.name(), "traced");
    assert_eq!(r.config, config);
    assert!(taken(&shop.accesses).is_empty());

    let config = AppConfig::default();
    init_backend(config, &Supply, &mut Opener::new(&shop));
    assert_eq!(
        taken(&shop.accesses),
        ["limit 100", "care false", "limit?", "mode 9", "mode?", "care?"]
    );
}

/// A connector that writes down its use.
struct Connects(&'static str, Log, bool);

impl Connector for Connects {
    fn connect(&self) -> Result<BoxedBackend, EcError> {
        note(&self.1, self.0);
        if self.2 {
            Ok(traced(false).0)
        } else {
            Err(EcError::WmiInterfaceNotFound)
        }
    }
}

#[test]
fn the_driver_is_not_opened_where_wmi_is() {
    let log = Log::default();
    let winring0 = Connects("WinRing0", log.clone(), true);
    let wmi = Connects("WMI", log.clone(), true);
    let opened = create_backend(
        BackendPreference::Auto,
        &mut Connectors::new(&wmi, &winring0),
    );
    assert!(opened.is_ok());
    assert_eq!(taken(&log), ["WMI"]);
    let missing = Connects("WMI", log.clone(), false);
    let opened = create_backend(
        BackendPreference::Auto,
        &mut Connectors::new(&missing, &winring0),
    );
    assert!(opened.is_ok());
    assert_eq!(taken(&log), ["WMI", "WinRing0"]);
}

#[test]
fn a_care_bit_that_disagrees_with_the_limit_is_told() {
    assert!(care_readback_disagrees(80, &Ok(false)));
    assert!(care_readback_disagrees(100, &Ok(true)));
    assert!(!care_readback_disagrees(80, &Ok(true)));
    assert!(!care_readback_disagrees(100, &Ok(false)));
    assert!(!care_readback_disagrees(80, &Err(EcError::Timeout(0x66))));
}

#[test]
fn writing_again_by_hand_takes_the_limit_over() {
    let (backend, log) = traced(false);
    let config = AppConfig {
        battery_care_enabled: true,
        battery_charge_limit: 85,
        ..Default::default()
    };
    let mut app = XiaomiApp::new(backend, config);
    app.error_msg = Some("old".to_string());
    assert!(app.reapply_now(PowerStatus::OnAc).save);
    assert_eq!(taken(&log), ["limit 85", "care true", "limit?", "mode 9"]);
    assert_eq!(app.config.battery_charge_limit, 80);
    assert_eq!(app.error_msg, None);

    let (backend, _log) = traced(true);
    let mut app = XiaomiApp::new(backend, AppConfig::default());
    app.reapply_now(PowerStatus::OnAc);
    assert_eq!(app.config, AppConfig::default());
    assert_eq!(
        app.error_msg,
        Some("充电上限: EC 操作超时 (地址: 0x66)".to_string())
    );
}

#[test]
fn a_backend_in_use_can_be_asked_about_itself() {
    let (mut backend, log) = traced(false);
    assert!(backend.supports_continuous_charge_limit());
    assert!(!backend.needs_rebuild());
    assert!(taken(&log).is_empty());
    assert!(matches!(backend.get_battery_state(), Ok((true, 80))));
    assert_eq!(taken(&log), ["care?", "limit?"]);
}

#[test]
fn the_placeholder_refuses_everything() {
    let mut missing = BoxedBackend::placeholder();
    assert_eq!(missing.name(), "无后端");
    assert!(missing.is_null());
    assert_eq!(missing.preference(), BackendPreference::Auto);
    let refused = "后端不可用: 无可用后端";
    assert_eq!(missing.set_charge_limit(80).unwrap_err().to_string(), refused);
    assert_eq!(missing.set_battery_care(true).unwrap_err().to_string(), refused);
    assert_eq!(missing.set_performance_mode(9).unwrap_err().to_string(), refused);
    assert_eq!(missing.get_charge_limit().unwrap_err().to_string(), refused);
    assert_eq!(missing.get_battery_care_enabled().unwrap_err().to_string(), refused);
    assert_eq!(missing.get_performance_mode().unwrap_err().to_string(), refused);
    assert_eq!(missing.get_battery_state().unwrap_err().to_string(), refused);
    assert!(!missing.supports_continuous_charge_limit());
    assert!(!missing.needs_rebuild());
}

#[test]
fn a_write_is_one_access() {
    let (mut backend, log) = traced(true);
    backend.write(HardwareWrite::Limit(60));
    backend.write(HardwareWrite::Care(true));
    backend.write(HardwareWrite::Mode(4));
    assert_eq!(taken(&log), ["limit 60", "care true", "mode 4"]);
}

#[test]
fn commands_that_write_nothing_leave_the_hardware_alone() {
    let (backend, log) = traced(false);
    let mut config = AppConfig::default();
    config.auto_reapply_on_power_change = false;
    let mut app = XiaomiApp::new(backend, config);
    for command in [
        UiCommand::ReapplyConfig,
        UiCommand::RefreshStatus,
        UiCommand::ToggleWindow,
        UiCommand::ShowWindow,
        UiCommand::Quit,
    ] {
        app.process_command(command);
        assert!(taken(&log).is_empty());
    }
    app.refresh_from_backend();
    assert_eq!(taken(&log), ["mode?", "care?", "limit?"]);
}

#[test]
fn a_late_wmi_backend_is_taken_only_if_it_is_still_wanted() {
    let (late, log) = traced(false);
    let mut app = XiaomiApp::new(
        BoxedBackend::placeholder(),
        preferring(BackendPreference::Wmi),
    );
    assert!(app.take_wmi(late));
    assert_eq!(app.backend_name, "traced");
    assert_eq!(app.charge_limit, 80);
    assert_eq!(app.performance_mode, 0x02);
    assert_eq!(taken(&log), ["mode?", "care?", "limit?"]);

    let (late, log) = traced(false);
    let mut app = XiaomiApp::new(
        BoxedBackend::placeholder(),
        preferring(BackendPreference::WinRing0),
    );
    assert!(!app.take_wmi(late));
    assert_eq!(app.backend_name, "无后端");
    assert!(taken(&log).is_empty());
}

#[test]
fn the_hotkey_leads_from_an_unknown_code_to_the_first_mode() {
    assert_eq!(next_cycle_code(0x09), 0x02);
    assert_eq!(next_cycle_code(0x02), 0x04);
    assert_eq!(next_cycle_code(0x04), 0x09);
    assert_eq!(next_cycle_code(0x0A), 0x09);
    assert_eq!(next_cycle_code(0xFF), 0x09);
}
