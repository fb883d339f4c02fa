//! The requests of a front end: reading the state of the machine, and changing it.
//!
//! A request that writes to the hardware changes the configuration only if the write went
//! well. Saving the configuration is left to the caller.

use crate::app::config::{AppConfig, AppConfigView};
use crate::app::ec::{error_text, BoxedBackend, EcError};
use crate::app::hardware::{
    access_of, law_each_setting_reaches_the_backend, law_nothing_written_nothing_recorded,
    lemma_recorded_then, lemma_wrote_nothing, lemma_wrote_then, recorded, wrote, Access,
    Device, HardwareWrite,
};
use crate::app::limits::FULL_CHARGE_LIMIT;
use crate::text;
use vstd::prelude::*;

verus! {

/// What a front end works with.
pub struct AppState {
    /// The backend.
    pub backend: BoxedBackend,
    /// The settings.
    pub config: AppConfig,
}

/// The state of the machine.
#[derive(Debug)]
pub struct StatusResponse {
    /// The name of the backend.
    pub backend: String,
    /// Whether there is a backend, and not only the placeholder.
    pub available: bool,
    /// Whether battery care is on.
    pub battery_care_enabled: bool,
    /// The charge limit in percent.
    pub charge_limit: u8,
    /// The code of the performance mode.
    pub performance_mode: u8,
}

// ── Asking a backend ──

/// The result of a request after the hardware has answered `w`: its error as a text.
pub open spec fn as_reply<T>(w: Result<T, EcError>) -> Result<T, Seq<char>> {
    match w {
        Ok(t) => Ok(t),
        Err(e) => Err(error_text(e@)),
    }
}

/// A result with its text as characters.
pub open spec fn reply_view<T>(r: Result<T, String>) -> Result<T, Seq<char>> {
    match r {
        Ok(t) => Ok(t),
        Err(s) => Err(s@),
    }
}

/// The error of an answer as a text.
fn reply<T>(w: Result<T, EcError>) -> (r: Result<T, String>)
    ensures
        reply_view(r) == as_reply(w),
{
    match w {
        Ok(t) => Ok(t),
        Err(e) => Err(e.to_string()),
    }
}

/// The backend was asked this one thing and nothing else, and `r` is its answer.
pub open spec fn was_told(
    before: BoxedBackend,
    after: BoxedBackend,
    write: HardwareWrite,
    r: Result<(), Seq<char>>,
) -> bool {
    exists|answer: Result<(), EcError>|
        recorded(before, after, seq![#[trigger] access_of(write, answer)]) && r == as_reply(answer)
}

/// Tells the backend to write a setting.
fn tell(backend: &mut BoxedBackend, write: HardwareWrite) -> (r: Result<(), String>)
    ensures
        was_told(*old(backend), *final(backend), write, reply_view(r)),
{
    let answer = match write {
        HardwareWrite::Limit(percent) => backend.set_charge_limit(percent),
        HardwareWrite::Care(enabled) => backend.set_battery_care(enabled),
        HardwareWrite::Mode(mode) => backend.set_performance_mode(mode),
    };
    assert(recorded(*old(backend), *backend, seq![access_of(write, answer)]));
    reply(answer)
}

/// The accesses of reading the state: care, then the limit, then the mode, up to the first
/// error.
pub open spec fn status_accesses(
    care: Result<bool, EcError>,
    limit: Result<u8, EcError>,
    mode: Result<u8, EcError>,
) -> Seq<Access> {
    if care is Err {
        seq![Access::GetCare(care)]
    } else if limit is Err {
        seq![Access::GetCare(care), Access::GetLimit(limit)]
    } else {
        seq![Access::GetCare(care), Access::GetLimit(limit), Access::GetMode(mode)]
    }
}

/// The answer after these readings: the first error, or else what was read.
pub open spec fn is_status(
    device: Device,
    care: Result<bool, EcError>,
    limit: Result<u8, EcError>,
    mode: Result<u8, EcError>,
    r: Result<StatusResponse, String>,
) -> bool {
    match (care, limit, mode) {
        (Err(e), _, _) => r matches Err(s) && s@ == error_text(e@),
        (_, Err(e), _) => r matches Err(s) && s@ == error_text(e@),
        (_, _, Err(e)) => r matches Err(s) && s@ == error_text(e@),
        (Ok(care), Ok(limit), Ok(mode)) => r matches Ok(status) && {
            &&& device.named(status.backend@)
            &&& device.says_null(!status.available)
            &&& status.battery_care_enabled == care
            &&& status.charge_limit == limit
            &&& status.performance_mode == mode
        },
    }
}

/// The backend was asked for its state and for nothing else, and `r` is the answer.
pub open spec fn status_was_read(
    before: BoxedBackend,
    after: BoxedBackend,
    r: Result<StatusResponse, String>,
) -> bool {
    exists|care: Result<bool, EcError>, limit: Result<u8, EcError>, mode: Result<u8, EcError>|
        recorded(before, after, #[trigger] status_accesses(care, limit, mode)) && is_status(
            before.device(),
            care,
            limit,
            mode,
            r,
        )
}

/// Reads the state of the machine from a backend.
pub fn read_status(backend: &mut BoxedBackend) -> (r: Result<StatusResponse, String>)
    ensures
        status_was_read(*old(backend), *final(backend), r),
{
    let ghost a = *backend;
    let name = backend.name();
    let null = backend.is_null();
    let care_read = backend.get_battery_care_enabled();
    let ghost b = *backend;
    let ghost first = seq![Access::GetCare(care_read)];
    let ghost unread: Result<u8, EcError> = Ok(0);
    let ghost care_seen = care_read;
    assert(first =~= status_accesses(care_read, unread, unread) || care_read is Ok);
    let battery_care_enabled = match care_read {
        Ok(care) => care,
        Err(e) => return Err(e.to_string()),
    };
    let limit_read = backend.get_charge_limit();
    let ghost c = *backend;
    let ghost limit_seen = limit_read;
    let ghost second = seq![Access::GetLimit(limit_read)];
    proof {
        lemma_recorded_then(a, b, c, first, second);
        assert(first + second =~= status_accesses(care_seen, limit_seen, unread)
            || limit_seen is Ok);
    }
    let charge_limit: u8 = match limit_read {
        Ok(limit) => limit,
        Err(e) => return Err(e.to_string()),
    };
    let mode_read = backend.get_performance_mode();
    proof {
        let third = seq![Access::GetMode(mode_read)];
        lemma_recorded_then(a, c, *backend, first + second, third);
        assert(first + second + third =~= status_accesses(care_seen, limit_seen, mode_read));
    }
    let performance_mode: u8 = match mode_read {
        Ok(mode) => mode,
        Err(e) => return Err(e.to_string()),
    };
    Ok(
        StatusResponse {
            backend: text::copy_str(name),
            available: !null,
            battery_care_enabled,
            charge_limit,
            performance_mode,
        },
    )
}

// ── Requests ──

/// The name of the backend.
pub fn get_backend_name(state: &AppState) -> (r: String)
    ensures
        state.backend.device().named(r@),
{
    text::copy_str(state.backend.name())
}

/// The state of the machine, or the first error.
pub fn get_status(state: &mut AppState) -> (r: Result<StatusResponse, String>)
    ensures
        status_was_read(old(state).backend, final(state).backend, r),
        final(state).config == old(state).config,
{
    read_status(&mut state.backend)
}

/// Turns battery care on or off. After an error the configuration is as before.
pub fn set_battery_care(state: &mut AppState, enabled: bool) -> (r: Result<(), String>)
    ensures
        was_told(
            old(state).backend,
            final(state).backend,
            HardwareWrite::Care(enabled),
            reply_view(r),
        ),
        final(state).config@ == if r is Ok {
            AppConfigView { battery_care_enabled: enabled, ..old(state).config@ }
        } else {
            old(state).config@
        },
{
    let r = tell(&mut state.backend, HardwareWrite::Care(enabled));
    if r.is_ok() {
        state.config.battery_care_enabled = enabled;
    }
    r
}

/// A limit, cut to the full charge.
pub open spec fn capped(percent: u8) -> u8 {
    if percent > FULL_CHARGE_LIMIT {
        FULL_CHARGE_LIMIT
    } else {
        percent
    }
}

/// Writes a charge limit; one above 100% is written as 100%. After an error the
/// configuration is as before.
pub fn set_charge_limit(state: &mut AppState, percent: u8) -> (r: Result<(), String>)
    ensures
        was_told(
            old(state).backend,
            final(state).backend,
            HardwareWrite::Limit(capped(percent)),
            reply_view(r),
        ),
        final(state).config@ == if r is Ok {
            AppConfigView { battery_charge_limit: capped(percent), ..old(state).config@ }
        } else {
            old(state).config@
        },
{
    let limit: u8 = if percent > FULL_CHARGE_LIMIT {
        FULL_CHARGE_LIMIT
    } else {
        percent
    };
    let r = tell(&mut state.backend, HardwareWrite::Limit(limit));
    if r.is_ok() {
        state.config.battery_charge_limit = limit;
    }
    r
}

/// Writes the code of a performance mode. After an error the configuration is as before.
pub fn set_performance_mode(state: &mut AppState, mode: u8) -> (r: Result<(), String>)
    ensures
        was_told(
            old(state).backend,
            final(state).backend,
            HardwareWrite::Mode(mode),
            reply_view(r),
        ),
        final(state).config@ == if r is Ok {
            AppConfigView { performance_mode: mode, ..old(state).config@ }
        } else {
            old(state).config@
        },
{
    let r = tell(&mut state.backend, HardwareWrite::Mode(mode));
    if r.is_ok() {
        state.config.performance_mode = mode;
    }
    r
}

/// A copy of the configuration.
pub fn get_config(state: &AppState) -> (r: AppConfig)
    ensures
        r@ == state.config@,
{
    state.config.clone()
}

/// Replaces the configuration.
pub fn save_config(state: &mut AppState, config: AppConfig)
    ensures
        final(state).config == config,
        final(state).backend == old(state).backend,
{
    state.config = config;
}

// ── The power supply and the tray ──

/// The settings that are written when the configuration is written again, in their order.
pub open spec fn reapplied(c: AppConfigView) -> Seq<HardwareWrite> {
    seq![
        HardwareWrite::Care(c.battery_care_enabled),
        HardwareWrite::Limit(c.battery_charge_limit),
        HardwareWrite::Mode(c.performance_mode),
    ]
}

/// Writes the configuration to the hardware again, whatever the hardware answers.
pub(crate) fn reapply(backend: &mut BoxedBackend, config: &AppConfig)
    ensures
        wrote(*old(backend), *final(backend), reapplied(config@)),
{
    let ghost a = *backend;
    backend.write(HardwareWrite::Care(config.battery_care_enabled));
    let ghost b = *backend;
    backend.write(HardwareWrite::Limit(config.battery_charge_limit));
    let ghost c = *backend;
    backend.write(HardwareWrite::Mode(config.performance_mode));
    proof {
        let first = seq![HardwareWrite::Care(config.battery_care_enabled)];
        let second = seq![HardwareWrite::Limit(config.battery_charge_limit)];
        let third = seq![HardwareWrite::Mode(config.performance_mode)];
        lemma_wrote_then(a, b, c, first, second);
        lemma_wrote_then(a, c, *backend, first + second, third);
        assert(first + second + third =~= reapplied(config@));
    }
}

/// Writes the configuration to the hardware again after the power supply has changed, if
/// the user wants that. Says whether it did; then the tray shows the care setting anew.
pub fn reapply_config_on_power_change(state: &mut AppState) -> (r: bool)
    ensures
        r == old(state).config.auto_reapply_on_power_change,
        wrote(
            old(state).backend,
            final(state).backend,
            if r {
                reapplied(old(state).config@)
            } else {
                Seq::empty()
            },
        ),
        final(state).config == old(state).config,
{
    if !state.config.auto_reapply_on_power_change {
        proof {
            lemma_wrote_nothing(state.backend);
        }
        return false;
    }
    reapply(&mut state.backend, &state.config);
    true
}

/// Turns battery care on if it is off, and off if it is on, whatever the hardware answers.
/// Says what it is now.
pub fn toggle_care(state: &mut AppState) -> (r: bool)
    ensures
        r == !old(state).config.battery_care_enabled,
        wrote(old(state).backend, final(state).backend, seq![HardwareWrite::Care(r)]),
        final(state).config@ == (AppConfigView { battery_care_enabled: r, ..old(state).config@ }),
{
    let enabled = !state.config.battery_care_enabled;
    state.config.battery_care_enabled = enabled;
    state.backend.write(HardwareWrite::Care(enabled));
    enabled
}

/// Switches to a performance mode, whatever the hardware answers.
pub fn choose_mode(state: &mut AppState, mode: u8)
    ensures
        wrote(old(state).backend, final(state).backend, seq![HardwareWrite::Mode(mode)]),
        final(state).config@ == (AppConfigView { performance_mode: mode, ..old(state).config@ }),
{
    state.backend.write(HardwareWrite::Mode(mode));
    state.config.performance_mode = mode;
}

// ── Laws ──

/// The record has grown by one entry.
pub open spec fn grew_by_one(before: BoxedBackend, after: BoxedBackend) -> bool {
    after.log().len() == before.log().len() + 1 && after.log().drop_last() == before.log()
}

/// The reply is that to an answer of the hardware: success for success, and for an error its
/// message.
pub open spec fn replies_to(r: Result<(), String>, answer: Result<(), EcError>) -> bool {
    &&& r is Ok <==> answer is Ok
    &&& answer matches Err(e) ==> r->Err_0@ == error_text(e@)
}

/// The one access that a write request makes, and the reply that its answer becomes.
proof fn lemma_told(
    before: BoxedBackend,
    after: BoxedBackend,
    write: HardwareWrite,
    r: Result<(), String>,
)
    requires
        was_told(before, after, write, reply_view(r)),
    ensures
        grew_by_one(before, after),
        exists|answer: Result<(), EcError>|
            after.log().last() == #[trigger] access_of(write, answer) && replies_to(r, answer),
{
    let answer = choose|answer: Result<(), EcError>|
        recorded(before, after, seq![#[trigger] access_of(write, answer)]) && reply_view(r)
            == as_reply(answer);
    assert(after.log() =~= before.log().push(access_of(write, answer)));
    assert(after.log().drop_last() =~= before.log());
}

/// The request to turn care on or off asks one thing of the hardware: to take that setting.
/// If it was taken it is the stored one, and nothing else is changed; if not, nothing is
/// changed and the reply is the message of the error.
pub proof fn law_care_request(state: &mut AppState, enabled: bool, r: Result<(), String>)
    requires
        call_ensures(set_battery_care, (state, enabled), r),
    ensures
        grew_by_one(old(state).backend, final(state).backend),
        final(state).backend.log().last() matches Access::SetCare(written, answer) && written
            == enabled && replies_to(r, answer),
        r is Ok ==> final(state).config@ == (AppConfigView {
            battery_care_enabled: enabled,
            ..old(state).config@
        }),
        r is Err ==> final(state).config@ == old(state).config@,
{
    lemma_told(old(state).backend, final(state).backend, HardwareWrite::Care(enabled), r);
}

/// The request for a charge limit asks one thing of the hardware: to take the limit, or 100%
/// if it is above. If it was taken it is the stored one, and nothing else is changed; if not,
/// nothing is changed and the reply is the message of the error.
pub proof fn law_limit_request(state: &mut AppState, percent: u8, r: Result<(), String>)
    requires
        call_ensures(set_charge_limit, (state, percent), r),
    ensures
        grew_by_one(old(state).backend, final(state).backend),
        final(state).backend.log().last() matches Access::SetLimit(written, answer) && {
            &&& percent <= 100 ==> written == percent
            &&& percent > 100 ==> written == 100
            &&& replies_to(r, answer)
            &&& r is Ok ==> final(state).config@ == (AppConfigView {
                battery_charge_limit: written,
                ..old(state).config@
            })
        },
        r is Err ==> final(state).config@ == old(state).config@,
{
    lemma_told(old(state).backend, final(state).backend, HardwareWrite::Limit(capped(percent)), r);
}

/// The request for a mode asks one thing of the hardware: to take the code. If it was taken it
/// is the stored one, and nothing else is changed; if not, nothing is changed and the reply is
/// the message of the error.
pub proof fn law_mode_request(state: &mut AppState, mode: u8, r: Result<(), String>)
    requires
        call_ensures(set_performance_mode, (state, mode), r),
    ensures
        grew_by_one(old(state).backend, final(state).backend),
        final(state).backend.log().last() matches Access::SetMode(written, answer) && written
            == mode && replies_to(r, answer),
        r is Ok ==> final(state).config@ == (AppConfigView {
            performance_mode: mode,
            ..old(state).config@
        }),
        r is Err ==> final(state).config@ == old(state).config@,
{
    lemma_told(old(state).backend, final(state).backend, HardwareWrite::Mode(mode), r);
}

/// Reading the state asks for care, then for the limit, then for the mode, and stops at the
/// first error, whose message is the reply. Otherwise the reply holds what was read, each
/// value in its place. The settings do not change.
pub proof fn law_status_request(state: &mut AppState, r: Result<StatusResponse, String>)
    requires
        call_ensures(get_status, (state,), r),
    ensures
        final(state).config == old(state).config,
        ({
            let n = old(state).backend.log().len() as int;
            let log = final(state).backend.log();
            &&& n < log.len() <= n + 3
            &&& log.take(n) == old(state).backend.log()
            &&& log[n] matches Access::GetCare(care) && match care {
                Err(e) => log.len() == n + 1 && r is Err && r->Err_0@ == error_text(e@),
                Ok(care) => log[n + 1] matches Access::GetLimit(limit) && match limit {
                    Err(e) => log.len() == n + 2 && r is Err && r->Err_0@ == error_text(e@),
                    Ok(limit) => log.len() == n + 3 && (log[n + 2] matches Access::GetMode(mode)
                        && match mode {
                        Err(e) => r is Err && r->Err_0@ == error_text(e@),
                        Ok(mode) => {
                            &&& r is Ok
                            &&& r->Ok_0.battery_care_enabled == care
                            &&& r->Ok_0.charge_limit == limit
                            &&& r->Ok_0.performance_mode == mode
                            &&& old(state).backend.device().named(r->Ok_0.backend@)
                            &&& old(state).backend.device().says_null(!r->Ok_0.available)
                        },
                    }),
                },
            }
        }),
{
    let before = old(state).backend;
    let after = final(state).backend;
    let (care, limit, mode) = choose|
        care: Result<bool, EcError>,
        limit: Result<u8, EcError>,
        mode: Result<u8, EcError>,
    |
        recorded(before, after, #[trigger] status_accesses(care, limit, mode)) && is_status(
            before.device(),
            care,
            limit,
            mode,
            r,
        );
    assert(after.log().take(before.log().len() as int) =~= before.log());
}

/// A front end gets the settings as they are, and the settings it hands back are the stored
/// ones; neither asks anything of the hardware.
pub proof fn law_settings_are_handed_over(
    state: &mut AppState,
    shown: AppConfig,
    config: AppConfig,
    r: (),
)
    requires
        call_ensures(get_config, (&*old(state),), shown),
        call_ensures(save_config, (state, config), r),
    ensures
        shown@ == old(state).config@,
        final(state).config == config,
        final(state).backend == old(state).backend,
{
}

/// At a change of the power supply the settings are written again exactly if the user wants
/// that: care, limit and mode as they are stored, each once. They are not changed by it.
pub proof fn law_power_change_writes_the_stored_settings(state: &mut AppState, r: bool)
    requires
        call_ensures(reapply_config_on_power_change, (state,), r),
    ensures
        r <==> old(state).config.auto_reapply_on_power_change,
        final(state).config == old(state).config,
        ({
            let n = old(state).backend.log().len() as int;
            let log = final(state).backend.log();
            let stored = final(state).config;
            &&& log.take(n) == old(state).backend.log()
            &&& !r ==> log.len() == n
            &&& r ==> {
                &&& log.len() == n + 3
                &&& log[n] matches Access::SetCare(care, _) && care == stored.battery_care_enabled
                &&& log[n + 1] matches Access::SetLimit(limit, _) && limit
                    == stored.battery_charge_limit
                &&& log[n + 2] matches Access::SetMode(mode, _) && mode == stored.performance_mode
            }
        }),
{
    let before = old(state).backend;
    let after = final(state).backend;
    if r {
        let list = reapplied(old(state).config@);
        law_each_setting_reaches_the_backend(before, after, list, 0);
        law_each_setting_reaches_the_backend(before, after, list, 1);
        law_each_setting_reaches_the_backend(before, after, list, 2);
    } else {
        law_nothing_written_nothing_recorded(before, after);
        assert(after.log().take(after.log().len() as int) =~= after.log());
    }
}

/// Turning care over writes to the hardware what is stored and said afterwards, which is the
/// opposite of what was stored before.
pub proof fn law_toggle_writes_what_it_stores(state: &mut AppState, r: bool)
    requires
        call_ensures(toggle_care, (state,), r),
    ensures
        r == final(state).config.battery_care_enabled,
        r != old(state).config.battery_care_enabled,
        grew_by_one(old(state).backend, final(state).backend),
        final(state).backend.log().last() matches Access::SetCare(written, _) && written == r,
        final(state).config@ == (AppConfigView { battery_care_enabled: r, ..old(state).config@ }),
{
    let before = old(state).backend;
    let after = final(state).backend;
    law_each_setting_reaches_the_backend(before, after, seq![HardwareWrite::Care(r)], 0);
    assert(after.log().drop_last() =~= before.log());
    assert(final(state).config@.battery_care_enabled == r);
}

/// Switching to a mode writes its code to the hardware and stores the same code.
pub proof fn law_mode_is_written_and_stored(state: &mut AppState, mode: u8, r: ())
    requires
        call_ensures(choose_mode, (state, mode), r),
    ensures
        final(state).config@ == (AppConfigView { performance_mode: mode, ..old(state).config@ }),
        grew_by_one(old(state).backend, final(state).backend),
        final(state).backend.log().last() matches Access::SetMode(written, _) && written == mode,
{
    let before = old(state).backend;
    let after = final(state).backend;
    law_each_setting_reaches_the_backend(before, after, seq![HardwareWrite::Mode(mode)], 0);
    assert(after.log().drop_last() =~= before.log());
}

/// The name that a front end gets is that of the backend.
pub proof fn law_name_request(state: AppState, r: String)
    requires
        call_ensures(get_backend_name, (&state,), r),
    ensures
        state.backend.device().named(r@),
        state.backend.is_placeholder() ==> r@ == "无后端"@,
{
}

} // verus!
