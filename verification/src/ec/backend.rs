//! Creating backends, and the placeholder for a missing one.

use crate::app::ec::{
    error_text, null_error, placeholder_name, result_view, BackendPreference, BoxedBackend,
    EcBackend, EcBackendFactory, EcError, EcErrorView,
};
use crate::app::hardware::Access;
pub use crate::ec::connect::Connector;
use crate::ec::connect::{connected, connects, lemma_connected_then, Connection, Connectors};
use crate::text;
use vstd::prelude::*;

verus! {

/// The error for two backends of which neither could be opened.
pub open spec fn both_unavailable(wmi: EcErrorView, winring0: EcErrorView) -> EcErrorView {
    EcErrorView::BackendUnavailable(
        "WMI: "@ + error_text(wmi) + "; WinRing0: "@ + error_text(
            winring0,
        ),
    )
}

/// The error for two backends of which neither could be opened, with the reason of each.
pub fn both_unavailable_error(wmi: &EcError, winring0: &EcError) -> (r: EcError)
    ensures
        r@ == both_unavailable(wmi@, winring0@),
{
    let mut message = text::copy_str("WMI: ");
    message.append(wmi.to_string().as_str());
    message.append("; WinRing0: ");
    message.append(winring0.to_string().as_str());
    EcError::BackendUnavailable(message)
}

/// Which connections are tried for a preference, with which outcome, and the result `r` of
/// that: the one that is preferred and no other; or, without a preference, WMI, and
/// WinRing0 only after WMI has failed.
pub open spec fn created(
    pref: BackendPreference,
    tried: Seq<Connection>,
    r: Result<BoxedBackend, EcError>,
) -> bool {
    match pref {
        BackendPreference::Wmi => tried == seq![Connection::Wmi(r)],
        BackendPreference::WinRing0 => tried == seq![Connection::WinRing0(r)],
        BackendPreference::Auto => match r {
            Ok(_) => {
                ||| tried == seq![Connection::Wmi(r)]
                ||| tried.len() == 2 && tried[0] is Wmi && tried[0]->Wmi_0 is Err && tried[1]
                    == Connection::WinRing0(r)
            },
            Err(e) => {
                &&& tried.len() == 2
                &&& tried[0] matches Connection::Wmi(Err(wmi))
                &&& tried[1] matches Connection::WinRing0(Err(winring0))
                &&& e@ == both_unavailable(wmi@, winring0@)
            },
        },
    }
}

/// Opens a backend for a preference.
///
/// `Auto` tries WMI first, which needs no driver, and WinRing0 only where that fails; where
/// both fail, the error gives both reasons.
pub fn create_backend<W: Connector + ?Sized, R: Connector + ?Sized>(
    pref: BackendPreference,
    connectors: &mut Connectors<W, R>,
) -> (r: Result<BoxedBackend, EcError>)
    ensures
        exists|tried: Seq<Connection>| #[trigger]
            connected(*old(connectors), *final(connectors), tried) && created(pref, tried, r),
{
    let ghost a = *connectors;
    match pref {
        BackendPreference::Wmi => {
            let r = connectors.wmi();
            assert(connected(a, *connectors, seq![Connection::Wmi(r)]));
            r
        },
        BackendPreference::WinRing0 => {
            let r = connectors.winring0();
            assert(connected(a, *connectors, seq![Connection::WinRing0(r)]));
            r
        },
        BackendPreference::Auto => {
            let wmi = connectors.wmi();
            let ghost b = *connectors;
            let ghost first = seq![Connection::Wmi(wmi)];
            assert(connected(a, b, first));
            match wmi {
                Ok(backend) => Ok(backend),
                Err(wmi_error) => {
                    let winring0 = connectors.winring0();
                    let ghost second = seq![Connection::WinRing0(winring0)];
                    proof {
                        lemma_connected_then(a, b, *connectors, first, second);
                    }
                    let ghost tried = first + second;
                    assert(connected(a, *connectors, tried));
                    match winring0 {
                        Ok(backend) => Ok(backend),
                        Err(wr0_error) => Err(both_unavailable_error(&wmi_error, &wr0_error)),
                    }
                },
            }
        },
    }
}

/// The factory that opens backends with a pair of connectors.
#[derive(Debug)]
pub struct BackendFactory<W, R> {
    /// Opens the WMI backend.
    pub wmi: W,
    /// Opens the WinRing0 backend.
    pub winring0: R,
}

impl<W: Connector, R: Connector> EcBackendFactory for BackendFactory<W, R> {
    fn create(&self, pref: BackendPreference) -> (r: Result<BoxedBackend, EcError>)
        ensures
            exists|tried: Seq<Connection>| #[trigger]
                created(pref, tried, r) && forall|i: int|
                    0 <= i < tried.len() ==> connects(
                        &self.wmi,
                        &self.winring0,
                        #[trigger] tried[i],
                    ),
    {
        let mut connectors = Connectors::new(&self.wmi, &self.winring0);
        create_backend(pref, &mut connectors)
    }

    fn null_backend(&self) -> (r: BoxedBackend)
        ensures
            r.is_placeholder(),
            r.log() == Seq::<Access>::empty(),
    {
        BoxedBackend::placeholder()
    }
}

/// The placeholder for a missing backend: every access fails, so the application starts
/// and can show why.
pub struct NullBackend;

/// The failure of every access to the placeholder.
fn null_err<T>() -> (r: Result<T, EcError>)
    ensures
        result_view(r) == Err::<T, EcErrorView>(null_error()),
{
    Err(EcError::BackendUnavailable(text::copy_str("无可用后端")))
}

impl EcBackend for NullBackend {
    fn name(&self) -> (r: &'static str)
        ensures
            r@ == placeholder_name(),
    {
        "无后端"
    }

    fn get_battery_care_enabled(&self) -> (r: Result<bool, EcError>)
        ensures
            result_view(r) == Err::<bool, EcErrorView>(null_error()),
    {
        null_err()
    }

    fn get_charge_limit(&self) -> (r: Result<u8, EcError>)
        ensures
            result_view(r) == Err::<u8, EcErrorView>(null_error()),
    {
        null_err()
    }

    fn set_battery_care(&self, _enabled: bool) -> (r: Result<(), EcError>)
        ensures
            result_view(r) == Err::<(), EcErrorView>(null_error()),
    {
        null_err()
    }

    fn set_charge_limit(&self, _percent: u8) -> (r: Result<(), EcError>)
        ensures
            result_view(r) == Err::<(), EcErrorView>(null_error()),
    {
        null_err()
    }

    fn get_performance_mode(&self) -> (r: Result<u8, EcError>)
        ensures
            result_view(r) == Err::<u8, EcErrorView>(null_error()),
    {
        null_err()
    }

    fn set_performance_mode(&self, _mode: u8) -> (r: Result<(), EcError>)
        ensures
            result_view(r) == Err::<(), EcErrorView>(null_error()),
    {
        null_err()
    }

    fn supports_continuous_charge_limit(&self) -> (r: bool)
        ensures
            !r,
    {
        false
    }

    fn is_null(&self) -> (r: bool)
        ensures
            r,
    {
        true
    }
}

// ── Laws ──

/// The error for two backends gives the reason of each, WMI first.
pub proof fn law_both_reasons_are_given(wmi: EcError, winring0: EcError, r: EcError)
    requires
        call_ensures(both_unavailable_error, (&wmi, &winring0), r),
    ensures
        r@ == EcErrorView::BackendUnavailable(
            "WMI: "@ + error_text(wmi@) + "; WinRing0: "@ + error_text(winring0@),
        ),
{
}

/// Which connections are tried for a preference, and what comes of them. A preferred backend
/// is the only one that is tried, and its result is the result. Without a preference WMI is
/// tried; if that succeeds it is the result, and if not WinRing0 is tried, whose success is
/// the result; and where both fail the error gives both reasons.
pub proof fn law_connections_by_preference<W: Connector + ?Sized, R: Connector + ?Sized>(
    pref: BackendPreference,
    connectors: &mut Connectors<W, R>,
    r: Result<BoxedBackend, EcError>,
)
    requires
        call_ensures(create_backend::<W, R>, (pref, connectors), r),
    ensures
        ({
            let n = old(connectors).log().len() as int;
            let log = final(connectors).log();
            &&& log.take(n) == old(connectors).log()
            &&& pref == BackendPreference::Wmi ==> log.len() == n + 1 && log[n] == Connection::Wmi(r)
            &&& pref == BackendPreference::WinRing0 ==> log.len() == n + 1 && log[n]
                == Connection::WinRing0(r)
            &&& pref == BackendPreference::Auto ==> (log[n] matches Connection::Wmi(first)
                && match first {
                Ok(b) => log.len() == n + 1 && r == first,
                Err(e) => log.len() == n + 2 && (log[n + 1] matches Connection::WinRing0(second)
                    && match second {
                    Ok(b) => r == second,
                    Err(f) => r matches Err(both) && both@ == EcErrorView::BackendUnavailable(
                        "WMI: "@ + error_text(e@) + "; WinRing0: "@ + error_text(f@),
                    ),
                }),
            })
        }),
{
    let before = *old(connectors);
    let after = *final(connectors);
    let tried = choose|tried: Seq<Connection>| #[trigger]
        connected(before, after, tried) && created(pref, tried, r);
    assert(after.log().take(before.log().len() as int) =~= before.log());
    if pref == BackendPreference::Auto {
        let n = before.log().len() as int;
        assert(after.log()[n] == tried[0]);
        if tried.len() == 2 {
            assert(after.log()[n + 1] == tried[1]);
        }
    }
}

/// The placeholder refuses everything with one error, has its own name, says that it is one,
/// and does not take any limit.
pub proof fn law_null_backend_refuses(
    null: NullBackend,
    enabled: bool,
    percent: u8,
    mode: u8,
    care_set: Result<(), EcError>,
    limit_set: Result<(), EcError>,
    mode_set: Result<(), EcError>,
    care: Result<bool, EcError>,
    limit: Result<u8, EcError>,
    code: Result<u8, EcError>,
    name: &'static str,
    is_null: bool,
    continuous: bool,
)
    requires
        call_ensures(NullBackend::set_battery_care, (&null, enabled), care_set),
        call_ensures(NullBackend::set_charge_limit, (&null, percent), limit_set),
        call_ensures(NullBackend::set_performance_mode, (&null, mode), mode_set),
        call_ensures(NullBackend::get_battery_care_enabled, (&null,), care),
        call_ensures(NullBackend::get_charge_limit, (&null,), limit),
        call_ensures(NullBackend::get_performance_mode, (&null,), code),
        call_ensures(NullBackend::name, (&null,), name),
        call_ensures(NullBackend::is_null, (&null,), is_null),
        call_ensures(NullBackend::supports_continuous_charge_limit, (&null,), continuous),
    ensures
        care_set matches Err(e) && e@ == EcErrorView::BackendUnavailable("无可用后端"@),
        limit_set matches Err(e) && e@ == EcErrorView::BackendUnavailable("无可用后端"@),
        mode_set matches Err(e) && e@ == EcErrorView::BackendUnavailable("无可用后端"@),
        care matches Err(e) && e@ == EcErrorView::BackendUnavailable("无可用后端"@),
        limit matches Err(e) && e@ == EcErrorView::BackendUnavailable("无可用后端"@),
        code matches Err(e) && e@ == EcErrorView::BackendUnavailable("无可用后端"@),
        name@ == "无后端"@,
        is_null,
        !continuous,
{
}

/// What the placeholder does not say for itself is what any backend does by default: care and
/// limit are read one after the other, it satisfies any preference, and it need not be created
/// anew.
pub proof fn law_null_backend_defaults(
    null: NullBackend,
    state: Result<(bool, u8), EcError>,
    pref: BackendPreference,
    rebuild: bool,
)
    requires
        call_ensures(NullBackend::get_battery_state, (&null,), state),
        call_ensures(NullBackend::preference, (&null,), pref),
        call_ensures(NullBackend::needs_rebuild, (&null,), rebuild),
    ensures
        state matches Err(e) && e@ == EcErrorView::BackendUnavailable("无可用后端"@),
        pref == BackendPreference::Auto,
        !rebuild,
{
}

/// The factory opens a preferred backend with the connector for it and gives what that gives.
/// Without a preference it gives what WMI gives, or else what WinRing0 gives, or else the error
/// with both reasons. The placeholder is the placeholder.
pub proof fn law_factory_uses_its_connectors<W: Connector, R: Connector>(
    factory: BackendFactory<W, R>,
    pref: BackendPreference,
    r: Result<BoxedBackend, EcError>,
    null: BoxedBackend,
)
    requires
        call_ensures(BackendFactory::<W, R>::create, (&factory, pref), r),
        call_ensures(BackendFactory::<W, R>::null_backend, (&factory,), null),
    ensures
        pref == BackendPreference::Wmi ==> call_ensures(W::connect, (&factory.wmi,), r),
        pref == BackendPreference::WinRing0 ==> call_ensures(R::connect, (&factory.winring0,), r),
        pref == BackendPreference::Auto && r is Ok ==> call_ensures(W::connect, (&factory.wmi,), r)
            || call_ensures(R::connect, (&factory.winring0,), r),
        null.is_placeholder(),
        null.log().len() == 0,
{
    let tried = choose|tried: Seq<Connection>| #[trigger]
        created(pref, tried, r) && forall|i: int|
            0 <= i < tried.len() ==> connects(
                &factory.wmi,
                &factory.winring0,
                #[trigger] tried[i],
            );
    assert(connects(&factory.wmi, &factory.winring0, tried[0]));
    if tried.len() == 2 {
        assert(connects(&factory.wmi, &factory.winring0, tried[1]));
    }
}

} // verus!
