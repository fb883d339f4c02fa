//! Errors of single accesses to registers.

use crate::text;
use vstd::prelude::*;

verus! {

/// Why an access to a register of the embedded controller failed.
#[derive(Debug)]
pub enum EcError {
    /// The WinRing0 library could not be loaded.
    DllLoad(String),
    /// The WinRing0 driver could not be initialised.
    InitFailed(String),
    /// WMI could not be reached.
    WmiConnect(String),
    /// The firmware has no `MICommonInterface`.
    WmiInterfaceNotFound,
    /// The firmware answered with this status.
    WmiCallFailed(u16),
    /// The register at this address could not be read.
    ReadFailed(u16),
    /// The register at this address could not be written.
    WriteFailed(u16),
    /// The embedded controller did not answer on this port.
    Timeout(u16),
    /// There is no backend to ask.
    BackendUnavailable(String),
}

/// The message of an error. A status is given in base ten, an address in base sixteen.
pub open spec fn register_error_text(e: EcError) -> Seq<char> {
    match e {
        EcError::DllLoad(s) => "WinRing0 DLL 加载失败: "@ + s@,
        EcError::InitFailed(s) => "WinRing0 初始化失败: "@ + s@,
        EcError::WmiConnect(s) => "WMI 连接失败: "@ + s@,
        EcError::WmiInterfaceNotFound => "WMI MICommonInterface 未找到"@,
        EcError::WmiCallFailed(n) => "WMI MiInterface 调用失败 (状态="@ + text::decimal(n as nat)
            + ")"@,
        EcError::ReadFailed(n) => "EC 读取失败 (地址: 0x"@ + text::hex(n as nat) + ")"@,
        EcError::WriteFailed(n) => "EC 写入失败 (地址: 0x"@ + text::hex(n as nat) + ")"@,
        EcError::Timeout(n) => "EC 操作超时 (地址: 0x"@ + text::hex(n as nat) + ")"@,
        EcError::BackendUnavailable(s) => "后端不可用: "@ + s@,
    }
}

impl Clone for EcError {
    fn clone(&self) -> (r: Self)
        ensures
            r == *self,
    {
        match self {
            EcError::DllLoad(s) => EcError::DllLoad(s.clone()),
            EcError::InitFailed(s) => EcError::InitFailed(s.clone()),
            EcError::WmiConnect(s) => EcError::WmiConnect(s.clone()),
            EcError::WmiInterfaceNotFound => EcError::WmiInterfaceNotFound,
            EcError::WmiCallFailed(n) => EcError::WmiCallFailed(*n),
            EcError::ReadFailed(n) => EcError::ReadFailed(*n),
            EcError::WriteFailed(n) => EcError::WriteFailed(*n),
            EcError::Timeout(n) => EcError::Timeout(*n),
            EcError::BackendUnavailable(s) => EcError::BackendUnavailable(s.clone()),
        }
    }
}

/// A text with a number in base sixteen and a closing bracket behind it.
fn with_address(head: &str, n: u16) -> (r: String)
    ensures
        r@ == head@ + text::hex(n as nat) + ")"@,
{
    let mut out = text::copy_str(head);
    text::push_hex(&mut out, n as u64);
    out.append(")");
    out
}

/// A text with another one behind it.
fn with_text(head: &str, s: &str) -> (r: String)
    ensures
        r@ == head@ + s@,
{
    let mut out = text::copy_str(head);
    out.append(s);
    out
}

impl EcError {
    /// The message of the error, as it is shown to the user.
    pub fn to_string(&self) -> (r: String)
        ensures
            r@ == register_error_text(*self),
    {
        match self {
            EcError::DllLoad(s) => with_text("WinRing0 DLL 加载失败: ", s.as_str()),
            EcError::InitFailed(s) => with_text("WinRing0 初始化失败: ", s.as_str()),
            EcError::WmiConnect(s) => with_text("WMI 连接失败: ", s.as_str()),
            EcError::WmiInterfaceNotFound => text::copy_str("WMI MICommonInterface 未找到"),
            EcError::WmiCallFailed(n) => {
                let mut out = text::copy_str("WMI MiInterface 调用失败 (状态=");
                text::push_decimal(&mut out, *n as u64);
                out.append(")");
                out
            },
            EcError::ReadFailed(n) => with_address("EC 读取失败 (地址: 0x", *n),
            EcError::WriteFailed(n) => with_address("EC 写入失败 (地址: 0x", *n),
            EcError::Timeout(n) => with_address("EC 操作超时 (地址: 0x", *n),
            EcError::BackendUnavailable(s) => with_text("后端不可用: ", s.as_str()),
        }
    }
}

// ── Laws ──

/// The message of an error says what failed and ends with the detail: a text as it is, a
/// status in base ten, an address in base sixteen.
pub proof fn law_messages_of_register_errors(e: EcError, r: String)
    requires
        call_ensures(EcError::to_string, (&e,), r),
    ensures
        e matches EcError::DllLoad(s) ==> r@ == "WinRing0 DLL 加载失败: "@ + s@,
        e matches EcError::InitFailed(s) ==> r@ == "WinRing0 初始化失败: "@ + s@,
        e matches EcError::WmiConnect(s) ==> r@ == "WMI 连接失败: "@ + s@,
        e is WmiInterfaceNotFound ==> r@ == "WMI MICommonInterface 未找到"@,
        e matches EcError::WmiCallFailed(n) ==> r@ == "WMI MiInterface 调用失败 (状态="@
            + text::decimal(n as nat) + ")"@,
        e matches EcError::ReadFailed(n) ==> r@ == "EC 读取失败 (地址: 0x"@ + text::hex(n as nat)
            + ")"@,
        e matches EcError::WriteFailed(n) ==> r@ == "EC 写入失败 (地址: 0x"@ + text::hex(n as nat)
            + ")"@,
        e matches EcError::Timeout(n) ==> r@ == "EC 操作超时 (地址: 0x"@ + text::hex(n as nat)
            + ")"@,
        e matches EcError::BackendUnavailable(s) ==> r@ == "后端不可用: "@ + s@,
{
}

} // verus!
