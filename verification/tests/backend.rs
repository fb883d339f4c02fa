//! Creating backends.

use xiaomi_pc_manager_lite::app::ec::{BackendPreference, BoxedBackend, EcBackend, EcBackendFactory, EcError};
use xiaomi_pc_manager_lite::ec::backend::{create_backend, BackendFactory, NullBackend};
use xiaomi_pc_manager_lite::ec::connect::{Connector, Connectors};

/// A backend of which only the name matters.
struct Named(&'static str);

impl EcBackend for Named {
    fn name(&self) -> &'static str {
        self.0
    }

    fn get_battery_care_enabled(&self) -> Result<bool, EcError> {
        Ok(true)
    }

    fn get_charge_limit(&self) -> Result<u8, EcError> {
        Ok(80)
    }

    fn set_battery_care(&self, _enabled: bool) -> Result<(), EcError> {
        Ok(())
    }

    fn set_charge_limit(&self, _percent: u8) -> Result<(), EcError> {
        Ok(())
    }

    fn get_performance_mode(&self) -> Result<u8, EcError> {
        Ok(0x09)
    }

    fn set_performance_mode(&self, _mode: u8) -> Result<(), EcError> {
        Ok(())
    }
}

/// Opens a backend with this name, or fails.
struct Opens(Option<&'static str>);

impl Connector for Opens {
    fn connect(&self) -> Result<BoxedBackend, EcError> {
        match self.0 {
            Some(name) => Ok(BoxedBackend::new(Box::new(Named(name)))),
            None => Err(EcError::WmiInterfaceNotFound),
        }
    }
}

fn factory() -> BackendFactory<Opens, Opens> {
    BackendFactory {
        wmi: Opens(Some("WMI")),
        winring0: Opens(Some("WinRing0")),
    }
}

fn name_of(opened: Result<BoxedBackend, EcError>) -> Result<&'static str, String> {
    match opened {
        Ok(backend) => Ok(backend.name()),
        Err(e) => Err(e.to_string()),
    }
}

#[test]
fn test_null_backend_name() {
    assert_eq!(NullBackend.name(), "无后端");
}

#[test]
fn test_null_backend_all_methods_return_error() {
    let backend = NullBackend;
    assert!(backend.get_battery_care_enabled().is_err());
    assert!(backend.get_charge_limit().is_err());
    assert!(backend.set_battery_care(true).is_err());
    assert!(backend.set_charge_limit(80).is_err());
    assert!(backend.get_performance_mode().is_err());
    assert!(backend.set_performance_mode(0x09).is_err());
}

#[test]
fn test_null_backend_supports_continuous_charge_limit() {
    assert!(!NullBackend.supports_continuous_charge_limit());
}

#[test]
fn test_null_backend_is_null() {
    assert!(NullBackend.is_null());
}

#[test]
fn test_ec_backend_trait_is_send_sync() {
    fn assert_send_sync<T: Send + Sync>() {}
    assert_send_sync::<NullBackend>();
}

#[test]
fn backend_test_ec_backend_trait_object_is_send() {
    fn assert_send<T: Send>() {}
    assert_send::<Box<dyn EcBackend>>();
}

#[test]
fn test_backend_factory_creates_requested_backend() {
    let factory = factory();
    let _: Result<BoxedBackend, EcError> = factory.create(BackendPreference::Wmi);
}

#[test]
fn test_backend_factory_null_backend_is_null() {
    let factory = factory();
    assert!(factory.null_backend().is_null());
}

#[test]
fn the_preferred_backend_is_opened() {
    let wmi = Opens(Some("a"));
    let winring0 = Opens(Some("b"));
    assert_eq!(
        name_of(create_backend(BackendPreference::Wmi, &mut Connectors::new(&wmi, &winring0))),
        Ok("a")
    );
    assert_eq!(
        name_of(create_backend(BackendPreference::WinRing0, &mut Connectors::new(&wmi, &winring0))),
        Ok("b")
    );
    assert_eq!(
        name_of(create_backend(BackendPreference::Auto, &mut Connectors::new(&wmi, &winring0))),
        Ok("a")
    );
}

#[test]
fn auto_falls_back_and_gives_both_reasons() {
    let missing = Opens(None);
    let winring0 = Opens(Some("b"));
    assert_eq!(
        name_of(create_backend(BackendPreference::Auto, &mut Connectors::new(&missing, &winring0))),
        Ok("b")
    );
    assert_eq!(
        name_of(create_backend(BackendPreference::Auto, &mut Connectors::new(&missing, &missing))),
        Err("后端不可用: WMI: WMI MICommonInterface 未找到; WinRing0: \
             WMI MICommonInterface 未找到"
            .to_string())
    );
    assert_eq!(
        name_of(create_backend(BackendPreference::Wmi, &mut Connectors::new(&missing, &winring0))),
        Err("WMI MICommonInterface 未找到".to_string())
    );
}

#[test]
fn the_placeholder_says_that_there_is_no_backend() {
    let e = NullBackend.get_battery_state().unwrap_err();
    assert_eq!(e.to_string(), "后端不可用: 无可用后端");
    assert_eq!(NullBackend.preference(), BackendPreference::Auto);
    assert!(!NullBackend.needs_rebuild());
}
