//! The start-up sequence.

use std::sync::atomic::{AtomicBool, AtomicU8, Ordering};
use std::sync::Arc;
use xiaomi_pc_manager_lite::app::battery::{
    care_enabled_from_limit, nearest_wmi_percent, validate_charge_limit_write,
};
use xiaomi_pc_manager_lite::app::config::AppConfig;
use xiaomi_pc_manager_lite::app::ec::{
    BackendPreference, BoxedBackend, EcBackend, EcBackendFactory, EcError,
};
use xiaomi_pc_manager_lite::app::hardware::Opener;
use xiaomi_pc_manager_lite::app::limits::charge_limit_readback_is_invalid;
use xiaomi_pc_manager_lite::app::power::{PowerSnapshot, PowerSource, PowerStatus};
use xiaomi_pc_manager_lite::app::startup::{
    apply_errors, apply_startup_config, fallback_preference, init_backend, sync_startup_config,
};

/// The backend in use, while the test keeps looking at its registers.
fn boxed(backend: &MockBackend) -> BoxedBackend {
    BoxedBackend::new(Box::new(backend.clone()))
}

/// A backend that keeps its registers in memory, and can be made to fail.
#[derive(Clone)]
struct MockBackend {
    charge_limit: Arc<AtomicU8>,
    /// The care bit as it was last written; what is read follows from the limit.
    battery_care: Arc<AtomicBool>,
    perf_mode: Arc<AtomicU8>,
    name: &'static str,
    preference: BackendPreference,
    /// Rounds limits to the nearest one that the firmware has.
    quantize: bool,
    read_fails: Arc<AtomicBool>,
    set_charge_limit_fails: bool,
    set_battery_care_fails: bool,
    set_perf_fails: bool,
    /// Takes the care bit without keeping it.
    care_write_is_noop: bool,
}

impl Default for MockBackend {
    fn default() -> Self {
        Self {
            charge_limit: Arc::new(AtomicU8::new(100)),
            battery_care: Arc::new(AtomicBool::new(false)),
            perf_mode: Arc::new(AtomicU8::new(0x09)),
            name: "mock",
            preference: BackendPreference::Auto,
            quantize: false,
            read_fails: Arc::new(AtomicBool::new(false)),
            set_charge_limit_fails: false,
            set_battery_care_fails: false,
            set_perf_fails: false,
            care_write_is_noop: false,
        }
    }
}

impl MockBackend {
    fn quantizing() -> Self {
        Self {
            quantize: true,
            ..Default::default()
        }
    }

    fn charge_limit_fails() -> Self {
        Self {
            set_charge_limit_fails: true,
            ..Default::default()
        }
    }

    fn fail(&self) -> EcError {
        EcError::BackendUnavailable(format!("{} 拒绝操作", self.name))
    }

    fn read_limit(&self) -> Result<u8, EcError> {
        if self.read_fails.load(Ordering::Relaxed) {
            return Err(self.fail());
        }
        let raw = self.charge_limit.load(Ordering::Relaxed);
        if charge_limit_readback_is_invalid(raw) {
            return Err(EcError::InvalidData(format!("充电上限 mock 值 {} 非法", raw)));
        }
        Ok(raw)
    }
}

impl EcBackend for MockBackend {
    fn name(&self) -> &'static str {
        self.name
    }

    fn preference(&self) -> BackendPreference {
        self.preference
    }

    fn get_battery_care_enabled(&self) -> Result<bool, EcError> {
        Ok(care_enabled_from_limit(self.read_limit()?))
    }

    fn get_charge_limit(&self) -> Result<u8, EcError> {
        self.read_limit()
    }

    fn set_battery_care(&self, enabled: bool) -> Result<(), EcError> {
        if self.set_battery_care_fails {
            return Err(self.fail());
        }
        if !self.care_write_is_noop {
            self.battery_care.store(enabled, Ordering::Relaxed);
        }
        Ok(())
    }

    fn set_charge_limit(&self, percent: u8) -> Result<(), EcError> {
        if self.set_charge_limit_fails {
            return Err(self.fail());
        }
        let percent = validate_charge_limit_write(percent)?;
        let percent = if self.quantize {
            nearest_wmi_percent(percent)
        } else {
            percent
        };
        self.charge_limit.store(percent, Ordering::Relaxed);
        Ok(())
    }

    fn get_performance_mode(&self) -> Result<u8, EcError> {
        if self.read_fails.load(Ordering::Relaxed) {
            return Err(self.fail());
        }
        Ok(self.perf_mode.load(Ordering::Relaxed))
    }

    fn set_performance_mode(&self, mode: u8) -> Result<(), EcError> {
        if self.set_perf_fails {
            return Err(self.fail());
        }
        self.perf_mode.store(mode, Ordering::Relaxed);
        Ok(())
    }

    fn supports_continuous_charge_limit(&self) -> bool {
        !self.quantize
    }
}

#[test]
fn test_partial_write_failure_keeps_user_config() {
    let backend = MockBackend::charge_limit_fails();
    let config = AppConfig {
        auto_apply_on_startup: true,
        battery_care_enabled: true,
        battery_charge_limit: 80,
        ..Default::default()
    };
    let outcome = apply_startup_config(&mut boxed(&backend), &config, PowerStatus::OnBattery);

    assert!(outcome.battery.charge_limit.is_err());
    assert!(outcome.battery.care.is_ok());
    assert!(!apply_errors(&outcome).is_empty());

    let mut cfg = config.clone();
    sync_startup_config(&mut boxed(&backend), &mut cfg, &outcome);
    assert!(
        cfg.battery_care_enabled,
        "care must not be overwritten by readback"
    );
    assert_eq!(cfg.battery_charge_limit, 80);
}

#[test]
fn test_care_noop_readback_does_not_clobber_limit_derived_care() {
    let backend = MockBackend {
        care_write_is_noop: true,
        ..MockBackend::default()
    };
    let config = AppConfig {
        auto_apply_on_startup: true,
        battery_care_enabled: true,
        battery_charge_limit: 80,
        ..Default::default()
    };
    let outcome = apply_startup_config(&mut boxed(&backend), &config, PowerStatus::OnBattery);
    assert!(outcome.battery.care.is_ok());
    assert!(outcome.battery.charge_limit.is_ok());
    assert_eq!(outcome.battery.charge_limit.as_ref().unwrap(), &80);

    let mut cfg = config.clone();
    sync_startup_config(&mut boxed(&backend), &mut cfg, &outcome);
    assert!(
        cfg.battery_care_enabled,
        "limit-derived care must survive a lying care read-back"
    );
    assert_eq!(cfg.battery_charge_limit, 80);
}

#[test]
fn test_fallback_preference_auto_is_none() {
    assert_eq!(fallback_preference(BackendPreference::Auto), None);
    assert_eq!(
        fallback_preference(BackendPreference::Wmi),
        Some(BackendPreference::WinRing0)
    );
    assert_eq!(
        fallback_preference(BackendPreference::WinRing0),
        Some(BackendPreference::Wmi)
    );
}

#[test]
fn test_full_apply_syncs_quantized_hardware() {
    let backend = MockBackend {
        quantize: true,
        charge_limit: Arc::new(AtomicU8::new(80)),
        battery_care: Arc::new(AtomicBool::new(true)),
        ..Default::default()
    };
    let config = AppConfig {
        auto_apply_on_startup: true,
        battery_care_enabled: true,
        battery_charge_limit: 85,
        ..Default::default()
    };
    let outcome = apply_startup_config(&mut boxed(&backend), &config, PowerStatus::OnBattery);
    assert!(outcome.battery.charge_limit.is_ok() && outcome.battery.care.is_ok());

    let mut cfg = config;
    sync_startup_config(&mut boxed(&backend), &mut cfg, &outcome);
    assert!(cfg.battery_care_enabled);
    assert_eq!(cfg.battery_charge_limit, 80);
}

/// A power supply in a fixed state.
struct Supply(PowerStatus);

impl PowerSource for Supply {
    fn snapshot(&self) -> PowerSnapshot {
        PowerSnapshot {
            status: self.0,
            battery_percent: None,
        }
    }
}

/// A factory that has the backends it was given, and no others.
struct Shop {
    wmi: Option<MockBackend>,
    winring0: Option<MockBackend>,
}

impl EcBackendFactory for Shop {
    fn create(&self, pref: BackendPreference) -> Result<BoxedBackend, EcError> {
        let found = match pref {
            BackendPreference::WinRing0 => &self.winring0,
            _ => &self.wmi,
        };
        match found {
            Some(backend) => Ok(boxed(backend)),
            None => Err(EcError::WmiInterfaceNotFound),
        }
    }

    fn null_backend(&self) -> BoxedBackend {
        BoxedBackend::placeholder()
    }
}

fn named(name: &'static str, preference: BackendPreference) -> MockBackend {
    MockBackend {
        name,
        preference,
        ..Default::default()
    }
}

#[test]
fn the_configuration_is_applied_and_follows_the_hardware() {
    let wmi = MockBackend {
        quantize: true,
        ..named("WMI", BackendPreference::Wmi)
    };
    let shop = Shop {
        wmi: Some(wmi.clone()),
        winring0: None,
    };
    let config = AppConfig {
        battery_care_enabled: true,
        battery_charge_limit: 85,
        ..Default::default()
    };
    let r = init_backend(config, &Supply(PowerStatus::OnAc), &mut Opener::new(&shop));
    assert_eq!(r.backend.name(), "WMI");
    assert_eq!(r.init_error, None);
    assert_eq!(r.effective_pref, BackendPreference::Wmi);
    assert_eq!(r.config.battery_charge_limit, 80);
    assert!(r.config.battery_care_enabled);
    assert!(r.save_config);
    assert_eq!(wmi.charge_limit.load(Ordering::Relaxed), 80);
}

#[test]
fn the_other_backend_stands_in() {
    let shop = Shop {
        wmi: None,
        winring0: Some(named("WinRing0", BackendPreference::WinRing0)),
    };
    let r = init_backend(AppConfig::default(), &Supply(PowerStatus::OnAc), &mut Opener::new(&shop));
    assert_eq!(r.backend.name(), "WinRing0");
    assert_eq!(r.effective_pref, BackendPreference::WinRing0);
    assert_eq!(
        r.init_error,
        Some("优先后端不可用，已自动切换至 WinRing0".to_string())
    );
    assert_eq!(r.config.backend, BackendPreference::Wmi);
}

#[test]
fn without_a_backend_the_placeholder_stands_in() {
    let shop = Shop {
        wmi: None,
        winring0: None,
    };
    let config = AppConfig::default();
    let r = init_backend(config, &Supply(PowerStatus::OnAc), &mut Opener::new(&shop));
    assert!(r.backend.is_null());
    assert_eq!(r.effective_pref, BackendPreference::Wmi);
    let refused = "后端不可用: 无可用后端";
    assert_eq!(
        r.init_error,
        Some(format!(
            "WMI MICommonInterface 未找到; 启动应用设置失败: \
             充电上限: {}; 电池养护: {}; 性能模式: {}",
            refused, refused, refused
        ))
    );
    assert_eq!(r.config, AppConfig::default());
}

#[test]
fn nothing_is_written_where_the_user_does_not_want_it() {
    let wmi = named("WMI", BackendPreference::Wmi);
    let shop = Shop {
        wmi: Some(wmi.clone()),
        winring0: None,
    };
    let config = AppConfig {
        auto_apply_on_startup: false,
        battery_care_enabled: true,
        battery_charge_limit: 60,
        ..Default::default()
    };
    let r = init_backend(config.clone(), &Supply(PowerStatus::OnAc), &mut Opener::new(&shop));
    assert_eq!(r.config, config);
    assert_eq!(wmi.charge_limit.load(Ordering::Relaxed), 100);
}

#[test]
fn failures_are_told_and_settings_kept() {
    let wmi = MockBackend {
        set_charge_limit_fails: true,
        ..named("WMI", BackendPreference::Wmi)
    };
    let shop = Shop {
        wmi: Some(wmi),
        winring0: None,
    };
    let config = AppConfig {
        battery_care_enabled: true,
        battery_charge_limit: 60,
        ..Default::default()
    };
    let r = init_backend(config.clone(), &Supply(PowerStatus::OnAc), &mut Opener::new(&shop));
    assert_eq!(
        r.init_error,
        Some("启动应用设置失败: 充电上限: 后端不可用: WMI 拒绝操作".to_string())
    );
    assert_eq!(r.config, config);
}
