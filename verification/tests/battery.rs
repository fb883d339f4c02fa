//! Writing battery care, the charge limit and the performance mode.

use std::sync::atomic::{AtomicBool, AtomicU8, Ordering};
use std::sync::Arc;
use xiaomi_pc_manager_lite::app::battery::{
    apply_battery_state, apply_config_to_hardware, care_enabled_from_limit,
    effective_applied_mode, effective_perf_for_power, nearest_wmi_percent, percent_to_wmi_rawcode,
    sync_config_after_apply, validate_charge_limit_write, wmi_rawcode_to_percent,
    WMI_CHARGE_LIMITS, WMI_PRESET_PERCENTS,
};
use xiaomi_pc_manager_lite::app::config::AppConfig;
use xiaomi_pc_manager_lite::app::ec::{BackendPreference, BoxedBackend, EcBackend, EcError};
use xiaomi_pc_manager_lite::app::limits::charge_limit_readback_is_invalid;
use xiaomi_pc_manager_lite::app::performance::PerfMode;
use xiaomi_pc_manager_lite::app::power::PowerStatus;

/// The backend in use, while the test keeps looking at its registers.
fn boxed<B: EcBackend + Clone + 'static>(backend: &B) -> BoxedBackend {
    BoxedBackend::new(Box::new(backend.clone()))
}

/// A backend that keeps its registers in memory, and can be made to fail.
#[derive(Clone)]
struct MockBackend {
    charge_limit: Arc<AtomicU8>,
    /// The care bit as it was last written; what is read follows from the limit.
    battery_care: Arc<AtomicBool>,
    perf_mode: Arc<AtomicU8>,
    name: &'static str,
    preference: BackendPreference,
    /// Rounds limits to the nearest one that the firmware has.
    quantize: bool,
    read_fails: Arc<AtomicBool>,
    set_charge_limit_fails: bool,
    set_battery_care_fails: bool,
    set_perf_fails: bool,
    /// Takes the care bit without keeping it.
    care_write_is_noop: bool,
}

impl Default for MockBackend {
    fn default() -> Self {
        Self {
            charge_limit: Arc::new(AtomicU8::new(100)),
            battery_care: Arc::new(AtomicBool::new(false)),
            perf_mode: Arc::new(AtomicU8::new(0x09)),
            name: "mock",
            preference: BackendPreference::Auto,
            quantize: false,
            read_fails: Arc::new(AtomicBool::new(false)),
            set_charge_limit_fails: false,
            set_battery_care_fails: false,
            set_perf_fails: false,
            care_write_is_noop: false,
        }
    }
}

impl MockBackend {
    fn quantizing() -> Self {
        Self {
            quantize: true,
            ..Default::default()
        }
    }

    fn charge_limit_fails() -> Self {
        Self {
            set_charge_limit_fails: true,
            ..Default::default()
        }
    }

    fn fail(&self) -> EcError {
        EcError::BackendUnavailable(format!("{} 拒绝操作", self.name))
    }

    fn read_limit(&self) -> Result<u8, EcError> {
        if self.read_fails.load(Ordering::Relaxed) {
            return Err(self.fail());
        }
        let raw = self.charge_limit.load(Ordering::Relaxed);
        if charge_limit_readback_is_invalid(raw) {
            return Err(EcError::InvalidData(format!("充电上限 mock 值 {} 非法", raw)));
        }
        Ok(raw)
    }
}

impl EcBackend for MockBackend {
    fn name(&self) -> &'static str {
        self.name
    }

    fn preference(&self) -> BackendPreference {
        self.preference
    }

    fn get_battery_care_enabled(&self) -> Result<bool, EcError> {
        Ok(care_enabled_from_limit(self.read_limit()?))
    }

    fn get_charge_limit(&self) -> Result<u8, EcError> {
        self.read_limit()
    }

    fn set_battery_care(&self, enabled: bool) -> Result<(), EcError> {
        if self.set_battery_care_fails {
            return Err(self.fail());
        }
        if !self.care_write_is_noop {
            self.battery_care.store(enabled, Ordering::Relaxed);
        }
        Ok(())
    }

    fn set_charge_limit(&self, percent: u8) -> Result<(), EcError> {
        if self.set_charge_limit_fails {
            return Err(self.fail());
        }
        let percent = validate_charge_limit_write(percent)?;
        let percent = if self.quantize {
            nearest_wmi_percent(percent)
        } else {
            percent
        };
        self.charge_limit.store(percent, Ordering::Relaxed);
        Ok(())
    }

    fn get_performance_mode(&self) -> Result<u8, EcError> {
        if self.read_fails.load(Ordering::Relaxed) {
            return Err(self.fail());
        }
        Ok(self.perf_mode.load(Ordering::Relaxed))
    }

    fn set_performance_mode(&self, mode: u8) -> Result<(), EcError> {
        if self.set_perf_fails {
            return Err(self.fail());
        }
        self.perf_mode.store(mode, Ordering::Relaxed);
        Ok(())
    }

    fn supports_continuous_charge_limit(&self) -> bool {
        !self.quantize
    }
}

#[test]
fn battery_test_apply_battery_state_care_on_incoherent_limit_uses_80() {
    let backend = MockBackend::default();
    let outcome = apply_battery_state(&mut boxed(&backend), true, 100);
    assert!(matches!(outcome.charge_limit, Ok(80)));
    assert!(outcome.care.is_ok());
    assert_eq!(backend.charge_limit.load(Ordering::Relaxed), 80);
    assert!(backend.battery_care.load(Ordering::Relaxed));
}

#[test]
fn test_apply_battery_state_care_on_incoherent_limit_uses_80() {
    let backend = MockBackend::default();
    let outcome = apply_battery_state(&mut boxed(&backend), true, 100);
    assert!(matches!(outcome.charge_limit, Ok(80)));
    assert!(outcome.care.is_ok());
    assert_eq!(backend.charge_limit.load(Ordering::Relaxed), 80);
    assert!(backend.battery_care.load(Ordering::Relaxed));
}

#[test]
fn battery_test_apply_battery_state_disable_writes_100() {
    let backend = MockBackend::default();
    let outcome = apply_battery_state(&mut boxed(&backend), false, 60);
    assert!(matches!(outcome.charge_limit, Ok(100)));
    assert_eq!(backend.charge_limit.load(Ordering::Relaxed), 100);
    assert!(!backend.battery_care.load(Ordering::Relaxed));
}

#[test]
fn test_apply_battery_state_disable_writes_100() {
    let backend = MockBackend::default();
    let outcome = apply_battery_state(&mut boxed(&backend), false, 60);
    assert!(matches!(outcome.charge_limit, Ok(100)));
    assert_eq!(backend.charge_limit.load(Ordering::Relaxed), 100);
    assert!(!backend.battery_care.load(Ordering::Relaxed));
}

#[test]
fn battery_test_apply_battery_state_reads_back_quantized_value() {
    let backend = MockBackend::quantizing();
    let outcome = apply_battery_state(&mut boxed(&backend), true, 85);
    assert!(matches!(outcome.charge_limit, Ok(80)));
    assert_eq!(backend.charge_limit.load(Ordering::Relaxed), 80);
}

#[test]
fn test_apply_battery_state_reads_back_quantized_value() {
    let backend = MockBackend::quantizing();
    let outcome = apply_battery_state(&mut boxed(&backend), true, 85);
    assert!(matches!(outcome.charge_limit, Ok(80)));
    assert_eq!(backend.charge_limit.load(Ordering::Relaxed), 80);
}

#[test]
fn battery_test_apply_battery_state_limit_failure_returns_err() {
    let backend = MockBackend::charge_limit_fails();
    let outcome = apply_battery_state(&mut boxed(&backend), true, 80);
    assert!(outcome.charge_limit.is_err());
    assert!(outcome.care.is_ok());
}

#[test]
fn test_apply_battery_state_limit_failure_returns_err() {
    let backend = MockBackend::charge_limit_fails();
    let outcome = apply_battery_state(&mut boxed(&backend), true, 80);
    assert!(outcome.charge_limit.is_err());
    assert!(outcome.care.is_ok());
}

#[test]
fn test_apply_battery_state_readback_failure_keeps_written_value() {
    let backend = MockBackend {
        read_fails: Arc::new(AtomicBool::new(true)),
        set_charge_limit_fails: false,
        set_battery_care_fails: false,
        set_perf_fails: false,
        ..Default::default()
    };
    let outcome = apply_battery_state(&mut boxed(&backend), true, 60);
    assert!(
        matches!(outcome.charge_limit, Ok(60)),
        "must keep the written value"
    );
    assert!(outcome.care.is_ok());
}

#[test]
fn test_apply_battery_state_rejects_readback_above_100() {
    #[derive(Clone)]
    struct GarbageReadback;
    impl EcBackend for GarbageReadback {
        fn name(&self) -> &'static str {
            "garbage-readback"
        }
        fn get_battery_care_enabled(&self) -> Result<bool, EcError> {
            Ok(false)
        }
        fn get_charge_limit(&self) -> Result<u8, EcError> {
            Ok(255)
        }
        fn set_battery_care(&self, _enabled: bool) -> Result<(), EcError> {
            Ok(())
        }
        fn set_charge_limit(&self, _percent: u8) -> Result<(), EcError> {
            Ok(())
        }
        fn get_performance_mode(&self) -> Result<u8, EcError> {
            Ok(PerfMode::Smart.ec_value())
        }
        fn set_performance_mode(&self, _mode: u8) -> Result<(), EcError> {
            Ok(())
        }
    }
    let outcome = apply_battery_state(&mut boxed(&GarbageReadback), true, 60);
    assert!(
        matches!(outcome.charge_limit, Ok(60)),
        "garbage readback (>100) must keep the written value, got {:?}",
        outcome.charge_limit
    );
}

#[test]
fn test_apply_battery_state_rejects_readback_zero() {
    #[derive(Clone)]
    struct ZeroReadback;
    impl EcBackend for ZeroReadback {
        fn name(&self) -> &'static str {
            "zero-readback"
        }
        fn get_battery_care_enabled(&self) -> Result<bool, EcError> {
            Ok(false)
        }
        fn get_charge_limit(&self) -> Result<u8, EcError> {
            Ok(0)
        }
        fn set_battery_care(&self, _enabled: bool) -> Result<(), EcError> {
            Ok(())
        }
        fn set_charge_limit(&self, _percent: u8) -> Result<(), EcError> {
            Ok(())
        }
        fn get_performance_mode(&self) -> Result<u8, EcError> {
            Ok(PerfMode::Smart.ec_value())
        }
        fn set_performance_mode(&self, _mode: u8) -> Result<(), EcError> {
            Ok(())
        }
    }
    let outcome = apply_battery_state(&mut boxed(&ZeroReadback), true, 60);
    assert!(
        matches!(outcome.charge_limit, Ok(60)),
        "zero readback must keep the written value, got {:?}",
        outcome.charge_limit
    );
}

#[test]
fn test_validate_charge_limit_write() {
    assert!(validate_charge_limit_write(0).is_err());
    assert_eq!(validate_charge_limit_write(1).unwrap(), 1);
    assert_eq!(validate_charge_limit_write(40).unwrap(), 40);
    assert_eq!(validate_charge_limit_write(100).unwrap(), 100);
    assert_eq!(validate_charge_limit_write(150).unwrap(), 100);
}

#[test]
fn test_apply_battery_state_care_on_zero_limit_uses_80() {
    let backend = MockBackend::default();
    let outcome = apply_battery_state(&mut boxed(&backend), true, 0);
    assert!(matches!(outcome.charge_limit, Ok(80)));
    assert!(outcome.care.is_ok());
    assert_eq!(backend.charge_limit.load(Ordering::Relaxed), 80);
    assert!(backend.battery_care.load(Ordering::Relaxed));
}

#[test]
fn battery_test_wmi_rawcode_to_percent_valid() {
    assert_eq!(wmi_rawcode_to_percent(0), Some(100));
    assert_eq!(wmi_rawcode_to_percent(1), Some(80));
    assert_eq!(wmi_rawcode_to_percent(4), Some(90));
    assert_eq!(wmi_rawcode_to_percent(5), Some(70));
    assert_eq!(wmi_rawcode_to_percent(6), Some(60));
    assert_eq!(wmi_rawcode_to_percent(7), Some(50));
    assert_eq!(wmi_rawcode_to_percent(8), Some(40));
}

#[test]
fn test_wmi_rawcode_to_percent_valid() {
    assert_eq!(wmi_rawcode_to_percent(0), Some(100));
    assert_eq!(wmi_rawcode_to_percent(1), Some(80));
    assert_eq!(wmi_rawcode_to_percent(4), Some(90));
    assert_eq!(wmi_rawcode_to_percent(5), Some(70));
    assert_eq!(wmi_rawcode_to_percent(6), Some(60));
    assert_eq!(wmi_rawcode_to_percent(7), Some(50));
    assert_eq!(wmi_rawcode_to_percent(8), Some(40));
}

#[test]
fn battery_test_wmi_rawcode_to_percent_invalid() {
    assert_eq!(wmi_rawcode_to_percent(2), None);
    assert_eq!(wmi_rawcode_to_percent(3), None);
    assert_eq!(wmi_rawcode_to_percent(9), None);
    assert_eq!(wmi_rawcode_to_percent(10), None);
    assert_eq!(wmi_rawcode_to_percent(0xFF), None);
}

#[test]
fn test_wmi_rawcode_to_percent_invalid() {
    assert_eq!(wmi_rawcode_to_percent(2), None);
    assert_eq!(wmi_rawcode_to_percent(3), None);
    assert_eq!(wmi_rawcode_to_percent(9), None);
    assert_eq!(wmi_rawcode_to_percent(10), None);
    assert_eq!(wmi_rawcode_to_percent(0xFF), None);
}

#[test]
fn battery_test_percent_to_wmi_rawcode_valid() {
    assert_eq!(percent_to_wmi_rawcode(100), Some(0));
    assert_eq!(percent_to_wmi_rawcode(80), Some(1));
    assert_eq!(percent_to_wmi_rawcode(90), Some(4));
    assert_eq!(percent_to_wmi_rawcode(70), Some(5));
    assert_eq!(percent_to_wmi_rawcode(60), Some(6));
    assert_eq!(percent_to_wmi_rawcode(50), Some(7));
    assert_eq!(percent_to_wmi_rawcode(40), Some(8));
}

#[test]
fn test_percent_to_wmi_rawcode_valid() {
    assert_eq!(percent_to_wmi_rawcode(100), Some(0));
    assert_eq!(percent_to_wmi_rawcode(80), Some(1));
    assert_eq!(percent_to_wmi_rawcode(90), Some(4));
    assert_eq!(percent_to_wmi_rawcode(70), Some(5));
    assert_eq!(percent_to_wmi_rawcode(60), Some(6));
    assert_eq!(percent_to_wmi_rawcode(50), Some(7));
    assert_eq!(percent_to_wmi_rawcode(40), Some(8));
}

#[test]
fn battery_test_percent_to_wmi_rawcode_invalid() {
    assert_eq!(percent_to_wmi_rawcode(0), None);
    assert_eq!(percent_to_wmi_rawcode(10), None);
    assert_eq!(percent_to_wmi_rawcode(30), None);
    assert_eq!(percent_to_wmi_rawcode(55), None);
    assert_eq!(percent_to_wmi_rawcode(85), None);
    assert_eq!(percent_to_wmi_rawcode(95), None);
    assert_eq!(percent_to_wmi_rawcode(100), Some(0));
}

#[test]
fn test_percent_to_wmi_rawcode_invalid() {
    assert_eq!(percent_to_wmi_rawcode(0), None);
    assert_eq!(percent_to_wmi_rawcode(10), None);
    assert_eq!(percent_to_wmi_rawcode(30), None);
    assert_eq!(percent_to_wmi_rawcode(55), None);
    assert_eq!(percent_to_wmi_rawcode(85), None);
    assert_eq!(percent_to_wmi_rawcode(95), None);
    assert_eq!(percent_to_wmi_rawcode(100), Some(0));
}

#[test]
fn battery_test_nearest_wmi_percent_exact() {
    assert_eq!(nearest_wmi_percent(40), 40);
    assert_eq!(nearest_wmi_percent(50), 50);
    assert_eq!(nearest_wmi_percent(60), 60);
    assert_eq!(nearest_wmi_percent(70), 70);
    assert_eq!(nearest_wmi_percent(80), 80);
    assert_eq!(nearest_wmi_percent(90), 90);
    assert_eq!(nearest_wmi_percent(100), 100);
}

#[test]
fn test_nearest_wmi_percent_exact() {
    assert_eq!(nearest_wmi_percent(40), 40);
    assert_eq!(nearest_wmi_percent(50), 50);
    assert_eq!(nearest_wmi_percent(60), 60);
    assert_eq!(nearest_wmi_percent(70), 70);
    assert_eq!(nearest_wmi_percent(80), 80);
    assert_eq!(nearest_wmi_percent(90), 90);
    assert_eq!(nearest_wmi_percent(100), 100);
}

#[test]
fn battery_test_nearest_wmi_percent_rounding() {
    assert_eq!(nearest_wmi_percent(85), 80);
    assert_eq!(nearest_wmi_percent(84), 80);
    assert_eq!(nearest_wmi_percent(86), 90);
    assert_eq!(nearest_wmi_percent(45), 50);
    assert_eq!(nearest_wmi_percent(55), 60);
    assert_eq!(nearest_wmi_percent(65), 70);
    assert_eq!(nearest_wmi_percent(75), 80);
    assert_eq!(nearest_wmi_percent(95), 100);
}

#[test]
fn test_nearest_wmi_percent_rounding() {
    assert_eq!(nearest_wmi_percent(85), 80);
    assert_eq!(nearest_wmi_percent(84), 80);
    assert_eq!(nearest_wmi_percent(86), 90);
    assert_eq!(nearest_wmi_percent(45), 50);
    assert_eq!(nearest_wmi_percent(55), 60);
    assert_eq!(nearest_wmi_percent(65), 70);
    assert_eq!(nearest_wmi_percent(75), 80);
    assert_eq!(nearest_wmi_percent(95), 100);
}

#[test]
fn battery_test_nearest_wmi_percent_boundary() {
    assert_eq!(nearest_wmi_percent(0), 40);
    assert_eq!(nearest_wmi_percent(200), 100);
}

#[test]
fn test_nearest_wmi_percent_boundary() {
    assert_eq!(nearest_wmi_percent(0), 40);
    assert_eq!(nearest_wmi_percent(200), 100);
}

#[test]
fn battery_test_wmi_charge_limits_table_completeness() {
    assert_eq!(WMI_CHARGE_LIMITS.len(), 7);
    let codes: std::collections::HashSet<u8> =
        WMI_CHARGE_LIMITS.iter().map(|(r, _)| *r).collect();
    assert_eq!(codes.len(), 7);
    let percents: std::collections::HashSet<u8> =
        WMI_CHARGE_LIMITS.iter().map(|(_, p)| *p).collect();
    assert_eq!(percents.len(), 7);
}

#[test]
fn test_wmi_charge_limits_table_completeness() {
    assert_eq!(WMI_CHARGE_LIMITS.len(), 7);
    let codes: std::collections::HashSet<u8> =
        WMI_CHARGE_LIMITS.iter().map(|(r, _)| *r).collect();
    assert_eq!(codes.len(), 7);
    let percents: std::collections::HashSet<u8> =
        WMI_CHARGE_LIMITS.iter().map(|(_, p)| *p).collect();
    assert_eq!(percents.len(), 7);
}

#[test]
fn battery_test_wmi_rawcode_to_percent_bidirectional() {
    for (rawcode, percent) in WMI_CHARGE_LIMITS.iter() {
        assert_eq!(percent_to_wmi_rawcode(*percent), Some(*rawcode));
        assert_eq!(wmi_rawcode_to_percent(*rawcode), Some(*percent));
    }
}

#[test]
fn test_wmi_rawcode_to_percent_bidirectional() {
    for (rawcode, percent) in WMI_CHARGE_LIMITS.iter() {
        assert_eq!(percent_to_wmi_rawcode(*percent), Some(*rawcode));
        assert_eq!(wmi_rawcode_to_percent(*rawcode), Some(*percent));
    }
}

#[test]
fn battery_test_wmi_preset_percents_match_mapping_table() {
    let table: std::collections::HashSet<u8> =
        WMI_CHARGE_LIMITS.iter().map(|(_, p)| *p).collect();
    let presets: std::collections::HashSet<u8> = WMI_PRESET_PERCENTS.iter().copied().collect();
    assert_eq!(
        presets, table,
        "view presets must equal mapping table percents"
    );
}

#[test]
fn test_apply_config_to_hardware_applies_battery_and_perf() {
    let backend = MockBackend::default();
    let config = AppConfig {
        battery_care_enabled: true,
        battery_charge_limit: 80,
        performance_mode: 0x09,
        ..Default::default()
    };
    let outcome = apply_config_to_hardware(&mut boxed(&backend), &config, PowerStatus::OnAc);
    assert!(outcome.battery.charge_limit.is_ok());
    assert!(outcome.battery.care.is_ok());
    assert!(outcome.perf.is_ok());
    assert_eq!(
        backend.charge_limit.load(Ordering::Relaxed),
        80,
        "charge limit must be written"
    );
    assert!(backend.battery_care.load(Ordering::Relaxed));
    assert_eq!(
        backend.perf_mode.load(Ordering::Relaxed),
        outcome.perf_written
    );
}

#[test]
fn test_apply_config_to_hardware_perf_failure() {
    let backend = MockBackend {
        set_perf_fails: true,
        ..Default::default()
    };
    let outcome = apply_config_to_hardware(&mut boxed(&backend), &AppConfig::default(), PowerStatus::OnAc);
    assert!(outcome.perf.is_err());
    assert!(
        outcome.battery.charge_limit.is_ok(),
        "battery still applied"
    );
}

#[test]
fn test_apply_config_to_hardware_quantizes_limit() {
    let backend = MockBackend::quantizing();
    let config = AppConfig {
        battery_care_enabled: true,
        battery_charge_limit: 85,
        ..Default::default()
    };
    let outcome = apply_config_to_hardware(&mut boxed(&backend), &config, PowerStatus::OnAc);
    assert_eq!(outcome.battery.charge_limit.unwrap(), 80);
}

#[test]
fn test_effective_applied_mode_auto_quiet_on_battery() {
    let smart = PerfMode::Smart.ec_value();
    let (raw, adjusted) = effective_applied_mode(smart, true, PowerStatus::OnBattery);
    assert_eq!(raw, PerfMode::Eco.ec_value());
    assert!(adjusted);
    let (raw, adjusted) = effective_applied_mode(smart, true, PowerStatus::OnAc);
    assert_eq!(raw, smart);
    assert!(!adjusted);
    let (raw, adjusted) = effective_applied_mode(smart, false, PowerStatus::OnBattery);
    assert_eq!(raw, smart);
    assert!(!adjusted);
}

#[test]
fn test_effective_applied_mode_auto_quiet_interacts_with_extreme() {
    let extreme = PerfMode::Extreme.ec_value();
    let (raw, adjusted) = effective_applied_mode(extreme, true, PowerStatus::OnBattery);
    assert_eq!(raw, PerfMode::Eco.ec_value());
    assert!(adjusted);
    let (raw, adjusted) = effective_applied_mode(extreme, false, PowerStatus::OnBattery);
    assert_eq!(raw, PerfMode::Fast.ec_value());
    assert!(adjusted);
}

#[test]
fn test_effective_applied_mode_unknown_keeps_user_mode() {
    let extreme = PerfMode::Extreme.ec_value();
    let (raw, adjusted) = effective_applied_mode(extreme, false, PowerStatus::Unknown);
    assert_eq!(raw, extreme);
    assert!(!adjusted);
}

#[test]
fn test_sync_config_after_apply_preserves_desired_limit_when_off() {
    let mut cfg = AppConfig {
        battery_care_enabled: true,
        battery_charge_limit: 80,
        ..Default::default()
    };
    sync_config_after_apply(&mut cfg, 100);
    assert!(!cfg.battery_care_enabled);
    assert_eq!(cfg.battery_charge_limit, 80, "desired limit preserved");
    sync_config_after_apply(&mut cfg, 90);
    assert!(cfg.battery_care_enabled);
    assert_eq!(cfg.battery_charge_limit, 90);
}

#[test]
fn test_sync_config_after_apply_records_quantized_limit() {
    let mut cfg = AppConfig {
        battery_charge_limit: 80,
        ..Default::default()
    };
    sync_config_after_apply(&mut cfg, 70);
    assert!(cfg.battery_care_enabled);
    assert_eq!(cfg.battery_charge_limit, 70);
}

#[test]
fn test_mock_set_charge_limit_rejects_zero() {
    let backend = MockBackend::default();
    assert!(
        backend.set_charge_limit(0).is_err(),
        "0% must be rejected before reaching the store"
    );
    assert_eq!(backend.charge_limit.load(Ordering::Relaxed), 100);
    backend.set_charge_limit(80).unwrap();
    assert_eq!(backend.charge_limit.load(Ordering::Relaxed), 80);
    assert_eq!(backend.get_charge_limit().unwrap(), 80);
}

#[test]
fn test_mock_read_rejects_invalid_charge_limit() {
    let backend = MockBackend::default();
    assert_eq!(backend.get_charge_limit().unwrap(), 100);
    backend.charge_limit.store(0, Ordering::Relaxed);
    assert!(backend.get_charge_limit().is_err());
    assert!(backend.get_battery_state().is_err());
    backend.set_charge_limit(60).unwrap();
    assert_eq!(backend.get_charge_limit().unwrap(), 60);
    assert_eq!(backend.get_battery_state().unwrap(), (true, 60));
}

#[test]
fn extreme_needs_mains_power() {
    let extreme = PerfMode::Extreme.ec_value();
    let fast = PerfMode::Fast.ec_value();
    assert_eq!(effective_perf_for_power(extreme, PowerStatus::OnAc), extreme);
    assert_eq!(effective_perf_for_power(extreme, PowerStatus::OnBattery), fast);
    assert_eq!(effective_perf_for_power(extreme, PowerStatus::Unknown), extreme);
    assert_eq!(effective_perf_for_power(0x09, PowerStatus::OnBattery), 0x09);
}

#[test]
fn failed_fields_are_named() {
    let backend = MockBackend {
        set_charge_limit_fails: true,
        set_battery_care_fails: true,
        set_perf_fails: true,
        ..Default::default()
    };
    let outcome = apply_config_to_hardware(&mut boxed(&backend), &AppConfig::default(), PowerStatus::OnAc);
    let names: Vec<&str> = outcome.field_errors().iter().map(|f| f.0).collect();
    assert_eq!(names, ["充电上限", "电池养护", "性能模式"]);
}
