//! The hardware port: what the core asks of a backend, the errors that a backend
//! reports, and the choice between backends.

pub use crate::app::hardware::BoxedBackend;
use crate::text;
use vstd::prelude::*;

verus! {

/// Which backend the user wants.
#[derive(Debug, Clone, Copy, PartialEq, Eq, Structural)]
pub enum BackendPreference {
    /// Try WMI first, then WinRing0.
    Auto,
    /// Port access through the WinRing0 driver.
    WinRing0,
    /// The WMI interface of the firmware.
    Wmi,
}

impl Default for BackendPreference {
    fn default() -> (r: Self)
        ensures
            r == BackendPreference::Auto,
    {
        BackendPreference::Auto
    }
}

/// Why an access to the hardware failed.
#[derive(Debug)]
pub enum EcError {
    /// The WinRing0 library could not be loaded.
    DllLoad(String),
    /// The WinRing0 driver could not be initialised.
    InitFailed(String),
    /// WMI could not be reached.
    WmiConnect(String),
    /// The firmware has no `MICommonInterface`.
    WmiInterfaceNotFound,
    /// The firmware answered with this status.
    WmiCallFailed(u16),
    /// The WMI call returned this `HRESULT`.
    WmiCallHResult(u32),
    /// The embedded controller did not answer on this port.
    Timeout(u16),
    /// The hardware gave, or was to be given, a value that has no meaning.
    InvalidData(String),
    /// There is no backend to ask.
    BackendUnavailable(String),
}

/// An error with its texts as sequences of characters.
pub enum EcErrorView {
    DllLoad(Seq<char>),
    InitFailed(Seq<char>),
    WmiConnect(Seq<char>),
    WmiInterfaceNotFound,
    WmiCallFailed(u16),
    WmiCallHResult(u32),
    Timeout(u16),
    InvalidData(Seq<char>),
    BackendUnavailable(Seq<char>),
}

impl View for EcError {
    type V = EcErrorView;

    open spec fn view(&self) -> EcErrorView {
        match self {
            EcError::DllLoad(s) => EcErrorView::DllLoad(s@),
            EcError::InitFailed(s) => EcErrorView::InitFailed(s@),
            EcError::WmiConnect(s) => EcErrorView::WmiConnect(s@),
            EcError::WmiInterfaceNotFound => EcErrorView::WmiInterfaceNotFound,
            EcError::WmiCallFailed(n) => EcErrorView::WmiCallFailed(*n),
            EcError::WmiCallHResult(n) => EcErrorView::WmiCallHResult(*n),
            EcError::Timeout(n) => EcErrorView::Timeout(*n),
            EcError::InvalidData(s) => EcErrorView::InvalidData(s@),
            EcError::BackendUnavailable(s) => EcErrorView::BackendUnavailable(s@),
        }
    }
}

/// A result with its error as a view.
pub open spec fn result_view<T>(r: Result<T, EcError>) -> Result<T, EcErrorView> {
    match r {
        Ok(t) => Ok(t),
        Err(e) => Err(e@),
    }
}

/// The message of an error.
pub open spec fn error_text(e: EcErrorView) -> Seq<char> {
    match e {
        EcErrorView::DllLoad(s) => "WinRing0 DLL 加载失败: "@ + s,
        EcErrorView::InitFailed(s) => "WinRing0 初始化失败: "@ + s,
        EcErrorView::WmiConnect(s) => "WMI 连接失败: "@ + s,
        EcErrorView::WmiInterfaceNotFound => "WMI MICommonInterface 未找到"@,
        EcErrorView::WmiCallFailed(n) => "WMI MiInterface 调用失败 (状态=0x"@ + text::hex(n as nat)
            + ")"@,
        EcErrorView::WmiCallHResult(n) => "WMI 调用返回错误 (hr=0x"@ + text::hex_of_u32(n) + ")"@,
        EcErrorView::Timeout(n) => "EC 操作超时 (地址: 0x"@ + text::hex(n as nat) + ")"@,
        EcErrorView::InvalidData(s) => "硬件返回无效数据: "@ + s,
        EcErrorView::BackendUnavailable(s) => "后端不可用: "@ + s,
    }
}

impl Clone for EcError {
    fn clone(&self) -> (r: Self)
        ensures
            r == *self,
    {
        match self {
            EcError::DllLoad(s) => EcError::DllLoad(s.clone()),
            EcError::InitFailed(s) => EcError::InitFailed(s.clone()),
            EcError::WmiConnect(s) => EcError::WmiConnect(s.clone()),
            EcError::WmiInterfaceNotFound => EcError::WmiInterfaceNotFound,
            EcError::WmiCallFailed(n) => EcError::WmiCallFailed(*n),
            EcError::WmiCallHResult(n) => EcError::WmiCallHResult(*n),
            EcError::Timeout(n) => EcError::Timeout(*n),
            EcError::InvalidData(s) => EcError::InvalidData(s.clone()),
            EcError::BackendUnavailable(s) => EcError::BackendUnavailable(s.clone()),
        }
    }
}

impl EcError {
    /// The message of the error, as it is shown to the user.
    pub fn to_string(&self) -> (r: String)
        ensures
            r@ == error_text(self@),
    {
        let mut out = String::new();
        match self {
            EcError::DllLoad(s) => {
                out.append("WinRing0 DLL 加载失败: ");
                out.append(s.as_str());
            },
            EcError::InitFailed(s) => {
                out.append("WinRing0 初始化失败: ");
                out.append(s.as_str());
            },
            EcError::WmiConnect(s) => {
                out.append("WMI 连接失败: ");
                out.append(s.as_str());
            },
            EcError::WmiInterfaceNotFound => {
                out.append("WMI MICommonInterface 未找到");
            },
            EcError::WmiCallFailed(n) => {
                out.append("WMI MiInterface 调用失败 (状态=0x");
                text::push_hex(&mut out, *n as u64);
                out.append(")");
            },
            EcError::WmiCallHResult(n) => {
                out.append("WMI 调用返回错误 (hr=0x");
                text::push_hex_of_u32(&mut out, *n);
                out.append(")");
            },
            EcError::Timeout(n) => {
                out.append("EC 操作超时 (地址: 0x");
                text::push_hex(&mut out, *n as u64);
                out.append(")");
            },
            EcError::InvalidData(s) => {
                out.append("硬件返回无效数据: ");
                out.append(s.as_str());
            },
            EcError::BackendUnavailable(s) => {
                out.append("后端不可用: ");
                out.append(s.as_str());
            },
        }
        assert(out@ =~= error_text(self@));
        out
    }
}

/// The name of the placeholder for a missing backend.
pub open spec fn placeholder_name() -> Seq<char> {
    "无后端"@
}

/// The error of every access to the placeholder for a missing backend.
pub open spec fn null_error() -> EcErrorView {
    EcErrorView::BackendUnavailable("无可用后端"@)
}

/// The hardware port: battery care, charge limit and performance mode of one machine.
///
/// The methods say nothing of what hardware answers: it may be anything. What is asked of a
/// backend is recorded by the [`BoxedBackend`] that holds it.
pub trait EcBackend: Send + Sync {
    /// The name shown for the backend.
    fn name(&self) -> (r: &'static str);

    /// Reads whether battery care is on.
    fn get_battery_care_enabled(&self) -> (r: Result<bool, EcError>);

    /// Reads the charge limit in percent.
    fn get_charge_limit(&self) -> (r: Result<u8, EcError>);

    /// Turns battery care on or off.
    fn set_battery_care(&self, enabled: bool) -> (r: Result<(), EcError>);

    /// Writes the charge limit in percent.
    fn set_charge_limit(&self, percent: u8) -> (r: Result<(), EcError>);

    /// Reads battery care and the charge limit.
    ///
    /// By default these are two readings, and the first error is the answer; a backend
    /// that has both from one answer does it in one.
    fn get_battery_state(&self) -> (r: Result<(bool, u8), EcError>)
        default_ensures
            exists|care: Result<bool, EcError>|
                #![trigger call_ensures(Self::get_battery_care_enabled, (self,), care)]
                call_ensures(Self::get_battery_care_enabled, (self,), care) && match care {
                    Ok(care) => exists|limit: Result<u8, EcError>|
                        #![trigger call_ensures(Self::get_charge_limit, (self,), limit)]
                        call_ensures(Self::get_charge_limit, (self,), limit) && r == match limit {
                            Ok(limit) => Ok::<(bool, u8), EcError>((care, limit)),
                            Err(e) => Err(e),
                        },
                    Err(e) => r == Err::<(bool, u8), EcError>(e),
                },
    {
        match self.get_battery_care_enabled() {
            Ok(care) => match self.get_charge_limit() {
                Ok(limit) => Ok((care, limit)),
                Err(e) => Err(e),
            },
            Err(e) => Err(e),
        }
    }

    /// Reads the code of the performance mode.
    fn get_performance_mode(&self) -> (r: Result<u8, EcError>);

    /// Writes the code of the performance mode.
    fn set_performance_mode(&self, mode: u8) -> (r: Result<(), EcError>);

    /// Whether any limit from 0 to 100 can be set, and not a fixed set of limits only.
    fn supports_continuous_charge_limit(&self) -> (r: bool)
        default_ensures
            r,
    {
        true
    }

    /// The preference that this backend satisfies.
    fn preference(&self) -> (r: BackendPreference)
        default_ensures
            r == BackendPreference::Auto,
    {
        BackendPreference::Auto
    }

    /// Whether this is the placeholder that stands in when there is no backend.
    fn is_null(&self) -> (r: bool)
        default_ensures
            !r,
    {
        false
    }

    /// Whether the backend has to be created anew before it works again.
    fn needs_rebuild(&self) -> (r: bool)
        default_ensures
            !r,
    {
        false
    }
}

/// The port through which backends are created.
pub trait EcBackendFactory: Send + Sync {
    /// Creates a backend for a preference.
    fn create(&self, pref: BackendPreference) -> (r: Result<BoxedBackend, EcError>);

    /// Creates the placeholder for a missing backend.
    fn null_backend(&self) -> (r: BoxedBackend);
}

// ── Laws ──

/// The message of an error says what failed and ends with the detail: a text as it is, a
/// status and a port in base sixteen, a result code with all of its eight digits.
pub proof fn law_messages_of_errors(e: EcError, r: String)
    requires
        call_ensures(EcError::to_string, (&e,), r),
    ensures
        e matches EcError::DllLoad(s) ==> r@ == "WinRing0 DLL 加载失败: "@ + s@,
        e matches EcError::InitFailed(s) ==> r@ == "WinRing0 初始化失败: "@ + s@,
        e matches EcError::WmiConnect(s) ==> r@ == "WMI 连接失败: "@ + s@,
        e is WmiInterfaceNotFound ==> r@ == "WMI MICommonInterface 未找到"@,
        e matches EcError::WmiCallFailed(n) ==> r@ == "WMI MiInterface 调用失败 (状态=0x"@
            + text::hex(n as nat) + ")"@,
        e matches EcError::WmiCallHResult(n) ==> r@ == "WMI 调用返回错误 (hr=0x"@
            + text::hex_of_u32(n) + ")"@,
        e matches EcError::Timeout(n) ==> r@ == "EC 操作超时 (地址: 0x"@ + text::hex(n as nat)
            + ")"@,
        e matches EcError::InvalidData(s) ==> r@ == "硬件返回无效数据: "@ + s@,
        e matches EcError::BackendUnavailable(s) ==> r@ == "后端不可用: "@ + s@,
{
}

/// The view of an error keeps its kind and its detail, so two errors are told apart by their
/// views whenever they differ in one of them.
pub proof fn law_views_of_errors(e: EcError)
    ensures
        e matches EcError::DllLoad(s) ==> e@ == EcErrorView::DllLoad(s@),
        e matches EcError::InitFailed(s) ==> e@ == EcErrorView::InitFailed(s@),
        e matches EcError::WmiConnect(s) ==> e@ == EcErrorView::WmiConnect(s@),
        e is WmiInterfaceNotFound ==> e@ == EcErrorView::WmiInterfaceNotFound,
        e matches EcError::WmiCallFailed(n) ==> e@ == EcErrorView::WmiCallFailed(n),
        e matches EcError::WmiCallHResult(n) ==> e@ == EcErrorView::WmiCallHResult(n),
        e matches EcError::Timeout(n) ==> e@ == EcErrorView::Timeout(n),
        e matches EcError::InvalidData(s) ==> e@ == EcErrorView::InvalidData(s@),
        e matches EcError::BackendUnavailable(s) ==> e@ == EcErrorView::BackendUnavailable(s@),
        result_view(Err::<u8, EcError>(e)) == Err::<u8, EcErrorView>(e@),
{
}

/// Without a wish of the user both backends may be tried.
pub proof fn law_no_wish_means_auto(r: BackendPreference)
    requires
        call_ensures(BackendPreference::default, (), r),
    ensures
        r == BackendPreference::Auto,
{
}

/// A copy of an error is the error.
pub proof fn law_copy_of_an_error(e: EcError, r: EcError)
    requires
        call_ensures(EcError::clone, (&e,), r),
    ensures
        r@ == e@,
{
}

} // verus!
