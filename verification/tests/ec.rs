//! The errors of a backend, and the ports.

use xiaomi_pc_manager_lite::app::ec::{EcBackend, EcBackendFactory, EcError};

#[test]
fn ec_test_display_dll_load() {
    let err = EcError::DllLoad("无法加载 DLL".into());
    assert_eq!(err.to_string(), "WinRing0 DLL 加载失败: 无法加载 DLL");
}

#[test]
fn ec_test_display_init_failed() {
    let err = EcError::InitFailed("拒绝访问 (0x5)".into());
    assert_eq!(err.to_string(), "WinRing0 初始化失败: 拒绝访问 (0x5)");
}

#[test]
fn ec_test_display_wmi_connect() {
    let err = EcError::WmiConnect("拒绝访问".into());
    assert_eq!(err.to_string(), "WMI 连接失败: 拒绝访问");
}

#[test]
fn ec_test_display_wmi_interface_not_found() {
    let err = EcError::WmiInterfaceNotFound;
    assert_eq!(err.to_string(), "WMI MICommonInterface 未找到");
}

#[test]
fn ec_test_display_wmi_call_failed() {
    let err = EcError::WmiCallFailed(0x0001);
    assert_eq!(err.to_string(), "WMI MiInterface 调用失败 (状态=0x1)");
}

#[test]
fn test_display_wmi_call_hrresult() {
    let err = EcError::WmiCallHResult(0x8004102F);
    assert_eq!(err.to_string(), "WMI 调用返回错误 (hr=0x8004102F)");
}

#[test]
fn ec_test_display_timeout() {
    let err = EcError::Timeout(0x66);
    assert_eq!(err.to_string(), "EC 操作超时 (地址: 0x66)");
}

#[test]
fn test_display_invalid_data() {
    let err = EcError::InvalidData("充电上限寄存器值 0xff 非法".into());
    assert_eq!(
        err.to_string(),
        "硬件返回无效数据: 充电上限寄存器值 0xff 非法"
    );
}

#[test]
fn ec_test_display_backend_unavailable() {
    let err = EcError::BackendUnavailable("两个后端均不可用".into());
    assert_eq!(err.to_string(), "后端不可用: 两个后端均不可用");
}

#[test]
fn ec_test_debug_impl() {
    let err = EcError::WmiCallFailed(0x0001);
    let debug = format!("{:?}", err);
    assert!(debug.contains("WmiCallFailed"));
}

#[test]
fn ec_test_ec_backend_trait_object_is_send() {
    fn assert_send<T: Send>() {}
    assert_send::<Box<dyn EcBackend>>();
}

#[test]
fn test_ec_backend_factory_trait_is_send_sync() {
    fn assert_send_sync<T: Send + Sync>() {}
    assert_send_sync::<&dyn EcBackendFactory>();
}
