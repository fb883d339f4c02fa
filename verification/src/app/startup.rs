//! The start-up sequence: opening a backend, falling back to the other one, writing the
//! configuration to the hardware, and updating it with what the hardware took.

use crate::app::battery::{
    apply_config_to_hardware, care_of_limit, care_readback_disagrees, config_accesses,
    config_was_applied, config_writes, disagrees_with, failed_fields,
    law_config_is_written_once_in_order, sync_config_after_apply, synced_after_apply,
    ApplyOutcome,
};
use crate::app::config::{degraded_config, AppConfig, AppConfigView};
use crate::app::ec::{
    error_text, null_error, BackendPreference, BoxedBackend, EcBackendFactory, EcError, EcErrorView,
};
use crate::app::hardware::{
    law_placeholder_refuses, lemma_reads_write_nothing, lemma_recorded_then, lemma_requested_then, lemma_wrote_nothing,
    recorded, requested, writes, Access, HardwareWrite, Opener, Opening,
};
use crate::app::power::{PowerSnapshot, PowerSource, PowerStatus};
use crate::text;
use vstd::prelude::*;

verus! {

// ── Opening a backend ──

/// The backend to try after the preferred one has failed.
pub open spec fn other_backend(pref: BackendPreference) -> Option<BackendPreference> {
    match pref {
        BackendPreference::Wmi => Some(BackendPreference::WinRing0),
        BackendPreference::WinRing0 => Some(BackendPreference::Wmi),
        BackendPreference::Auto => None,
    }
}

/// The backend to try after the preferred one has failed: the other one. `Auto` has tried
/// both already, so there is none.
pub fn fallback_preference(pref: BackendPreference) -> (r: Option<BackendPreference>)
    ensures
        r == other_backend(pref),
{
    match pref {
        BackendPreference::Wmi => Some(BackendPreference::WinRing0),
        BackendPreference::WinRing0 => Some(BackendPreference::Wmi),
        BackendPreference::Auto => None,
    }
}

/// A text that may be missing.
pub open spec fn text_view(s: Option<String>) -> Option<Seq<char>> {
    match s {
        Some(s) => Some(s@),
        None => None,
    }
}

/// The message after the other backend had to be taken.
pub open spec fn fallback_text(name: Seq<char>) -> Seq<char> {
    "优先后端不可用，已自动切换至 "@ + name
}

/// The message after the other backend had to be taken.
pub fn fallback_message(name: &str) -> (r: String)
    ensures
        r@ == fallback_text(name@),
{
    let mut out = text::copy_str("优先后端不可用，已自动切换至 ");
    out.append(name);
    out
}

/// The message names the backend that was taken instead.
pub open spec fn has_fallback_message(backend: BoxedBackend, message: Option<Seq<char>>) -> bool {
    exists|name: Seq<char>| #[trigger]
        backend.device().named(name) && message == Some(fallback_text(name))
}

/// How `backend` was opened by the requests `openings`, which are all that were made: one
/// for the preferred backend; after its failure one for the other, if there is another; and
/// after that fails too, one for the placeholder. The message says what went wrong.
pub open spec fn was_opened(
    pref: BackendPreference,
    openings: Seq<Opening>,
    backend: BoxedBackend,
    message: Option<Seq<char>>,
) -> bool {
    ||| openings == seq![Opening::Create(pref, Ok(backend))] && message is None
    ||| exists|primary: EcError| #[trigger]
        after_failure(pref, primary, openings, backend, message)
}

/// How `backend` was opened after the preferred one has failed with the error `primary`.
pub open spec fn after_failure(
    pref: BackendPreference,
    primary: EcError,
    openings: Seq<Opening>,
    backend: BoxedBackend,
    message: Option<Seq<char>>,
) -> bool {
    let first = Opening::Create(pref, Err(primary));
    match other_backend(pref) {
        Some(other) => {
            ||| openings == seq![first, Opening::Create(other, Ok(backend))]
                && has_fallback_message(backend, message)
            ||| exists|e: EcError|
                openings == seq![
                    first,
                    Opening::Create(other, Err(e)),
                    Opening::Placeholder(backend),
                ] && message == Some(#[trigger] error_text(e@))
        },
        None => openings == seq![first, Opening::Placeholder(backend)] && message == Some(
            error_text(primary@),
        ),
    }
}

/// Opens the preferred backend, or the other one, or the placeholder.
pub fn open_backend<F: EcBackendFactory + ?Sized>(
    opener: &mut Opener<F>,
    pref: BackendPreference,
) -> (r: (BoxedBackend, Option<String>))
    ensures
        exists|openings: Seq<Opening>| #[trigger]
            requested(*old(opener), *final(opener), openings) && was_opened(
                pref,
                openings,
                r.0,
                text_view(r.1),
            ),
{
    let ghost a = *opener;
    let created = opener.create(pref);
    let ghost b = *opener;
    let ghost first = seq![Opening::Create(pref, created)];
    assert(requested(a, b, first));
    match created {
        Ok(backend) => {
            assert(first =~= seq![Opening::Create(pref, Ok(backend))]);
            (backend, None)
        },
        Err(primary) => match fallback_preference(pref) {
            Some(other) => {
                let replaced = opener.create(other);
                let ghost c = *opener;
                let ghost second = seq![Opening::Create(other, replaced)];
                proof {
                    lemma_requested_then(a, b, c, first, second);
                }
                match replaced {
                    Ok(backend) => {
                        let message = fallback_message(backend.name());
                        let ghost told = Some(message@);
                        proof {
                            let openings = first + second;
                            assert(openings =~= seq![
                                Opening::Create(pref, Err(primary)),
                                Opening::Create(other, Ok(backend)),
                            ]);
                            assert(has_fallback_message(backend, told));
                            assert(after_failure(pref, primary, openings, backend, told));
                            assert(requested(a, *opener, openings));
                        }
                        (backend, Some(message))
                    },
                    Err(e) => {
                        let backend = opener.null_backend();
                        let message = e.to_string();
                        proof {
                            let third = seq![Opening::Placeholder(backend)];
                            lemma_requested_then(a, c, *opener, first + second, third);
                            let openings = first + second + third;
                            assert(openings =~= seq![
                                Opening::Create(pref, Err(primary)),
                                Opening::Create(other, Err(e)),
                                Opening::Placeholder(backend),
                            ]);
                            assert(after_failure(pref, primary, openings, backend, Some(message@)));
                        }
                        (backend, Some(message))
                    },
                }
            },
            None => {
                let backend = opener.null_backend();
                let message = primary.to_string();
                proof {
                    let second = seq![Opening::Placeholder(backend)];
                    lemma_requested_then(a, b, *opener, first, second);
                    let openings = first + second;
                    assert(openings =~= seq![
                        Opening::Create(pref, Err(primary)),
                        Opening::Placeholder(backend),
                    ]);
                    assert(after_failure(pref, primary, openings, backend, Some(message@)));
                }
                (backend, Some(message))
            },
        },
    }
}

// ── Applying the configuration ──

/// The errors of the fields, each as `name: error`, with `; ` between them.
pub open spec fn joined_errors(errors: Seq<(Seq<char>, EcErrorView)>) -> Seq<char>
    decreases errors.len(),
{
    if errors.len() == 0 {
        Seq::empty()
    } else {
        let last = errors.last().0 + ": "@ + error_text(errors.last().1);
        if errors.len() == 1 {
            last
        } else {
            joined_errors(errors.drop_last()) + "; "@ + last
        }
    }
}

/// The fields that could not be written, in words; empty if there are none.
pub fn apply_errors(outcome: &ApplyOutcome) -> (r: String)
    ensures
        r@ == joined_errors(failed_fields(*outcome)),
{
    let errors = outcome.field_errors();
    let ghost all = failed_fields(*outcome);
    let mut out = String::new();
    let mut i: usize = 0;
    assert(all.take(0) =~= Seq::<(Seq<char>, EcErrorView)>::empty());
    while i < errors.len()
        invariant
            i <= errors@.len(),
            all == errors@.map_values(|f: (&'static str, &EcError)| (f.0@, f.1@)),
            out@ == joined_errors(all.take(i as int)),
        decreases errors@.len() - i,
    {
        let ghost before = out@;
        assert(all.take(i + 1).drop_last() =~= all.take(i as int));
        assert(all.take(i + 1).last() == (errors@[i as int].0@, errors@[i as int].1@));
        if i > 0 {
            out.append("; ");
        }
        out.append(errors[i].0);
        out.append(": ");
        out.append(errors[i].1.to_string().as_str());
        assert(out@ =~= joined_errors(all.take(i + 1)));
        i = i + 1;
    }
    assert(all.take(all.len() as int) =~= all);
    out
}

/// Writes the configuration to the backend at start-up.
pub fn apply_startup_config(
    backend: &mut BoxedBackend,
    config: &AppConfig,
    status: PowerStatus,
) -> (r: ApplyOutcome)
    ensures
        config_was_applied(*old(backend), *final(backend), config@, status, r),
{
    apply_config_to_hardware(backend, config, status)
}

/// The performance mode to store: what the hardware reports, if the mode of the user was
/// written as it is and the hardware can be read; else the mode of the user.
pub open spec fn mode_to_store(
    user_mode: u8,
    written: u8,
    write: Result<(), EcError>,
    readback: Result<u8, EcError>,
) -> u8 {
    match readback {
        Ok(mode) if write is Ok && written == user_mode => mode,
        _ => user_mode,
    }
}

/// The configuration after start-up: the mode, if it was written as the user wants it,
/// and care and limit, if both were written.
pub open spec fn synced_at_startup(
    c: AppConfigView,
    out: ApplyOutcome,
    mode_readback: Result<u8, EcError>,
) -> AppConfigView {
    let with_mode = AppConfigView {
        performance_mode: mode_to_store(
            c.performance_mode,
            out.perf_written,
            out.perf,
            mode_readback,
        ),
        ..c
    };
    match out.battery.charge_limit {
        Ok(applied) if out.battery.care is Ok => synced_after_apply(with_mode, applied),
        _ => with_mode,
    }
}

/// Updates the configuration with what the hardware took.
///
/// Only what was written is updated: after a failed write the hardware still has its old
/// setting, and taking that over would lose the choice of the user. A mode that was
/// degraded for the power supply is not the choice of the user either. Care follows the
/// limit and not the care bit that the hardware reports, since some firmware ignores
/// that bit.
pub fn sync_config(config: &mut AppConfig, outcome: &ApplyOutcome, mode_readback: Result<u8, EcError>)
    ensures
        final(config)@ == synced_at_startup(old(config)@, *outcome, mode_readback),
{
    if outcome.perf.is_ok() && outcome.perf_written == config.performance_mode {
        if let Ok(mode) = mode_readback {
            config.performance_mode = mode;
        }
    }
    if outcome.battery.care.is_ok() {
        if let Ok(applied) = &outcome.battery.charge_limit {
            sync_config_after_apply(config, *applied);
        }
    }
}

/// Whether the mode is read back: it was written, and as the user wants it.
pub open spec fn reads_mode_back(c: AppConfigView, out: ApplyOutcome) -> bool {
    out.perf is Ok && out.perf_written == c.performance_mode
}

/// Whether care is read back: it and the limit were written.
pub open spec fn reads_care_back(out: ApplyOutcome) -> bool {
    out.battery.care is Ok && out.battery.charge_limit is Ok
}

/// The accesses of updating a configuration: the mode is read, and then care, each where
/// that is asked for; and nothing is written.
pub open spec fn sync_accesses(
    c: AppConfigView,
    out: ApplyOutcome,
    mode_readback: Result<u8, EcError>,
    care_readback: Result<bool, EcError>,
) -> Seq<Access> {
    (if reads_mode_back(c, out) {
        seq![Access::GetMode(mode_readback)]
    } else {
        Seq::empty()
    }) + (if reads_care_back(out) {
        seq![Access::GetCare(care_readback)]
    } else {
        Seq::empty()
    })
}

/// Care was read back, and disagrees with the limit in force.
pub open spec fn sync_disagrees(out: ApplyOutcome, care_readback: Result<bool, EcError>) -> bool {
    reads_care_back(out) && disagrees_with(out.battery.charge_limit->Ok_0, care_readback)
}

/// The configuration `updated` is `c`, updated with the mode that the backend reports, where
/// that is asked for; `disagrees` says whether the care setting that it reports disagrees
/// with the limit; and nothing else was asked of the backend.
pub open spec fn was_synced(
    before: BoxedBackend,
    after: BoxedBackend,
    c: AppConfigView,
    out: ApplyOutcome,
    updated: AppConfigView,
    disagrees: bool,
) -> bool {
    exists|mode_readback: Result<u8, EcError>, care_readback: Result<bool, EcError>|
        recorded(before, after, #[trigger] sync_accesses(c, out, mode_readback, care_readback))
            && updated == synced_at_startup(c, out, mode_readback) && disagrees == sync_disagrees(
            out,
            care_readback,
        )
}

/// Updates the configuration with what the hardware took, reading the mode back where it
/// was written as the user wants it. Nothing is written to the hardware.
///
/// Where care and limit were written, the care setting is read back too, and the result
/// says whether it disagrees with the limit. That is worth a warning and no more: the limit
/// counts.
pub fn sync_startup_config(
    backend: &mut BoxedBackend,
    config: &mut AppConfig,
    outcome: &ApplyOutcome,
) -> (r: bool)
    ensures
        was_synced(*old(backend), *final(backend), old(config)@, *outcome, final(config)@, r),
{
    let ghost c = config@;
    let ghost start = *backend;
    proof {
        lemma_wrote_nothing(start);
    }
    let mode_readback = if outcome.perf.is_ok() && outcome.perf_written == config.performance_mode {
        backend.get_performance_mode()
    } else {
        Ok(config.performance_mode)
    };
    let ghost mode_read = mode_readback;
    let ghost first = if reads_mode_back(c, *outcome) {
        seq![Access::GetMode(mode_read)]
    } else {
        Seq::empty()
    };
    let ghost middle = *backend;
    assert(recorded(start, middle, first));
    sync_config(config, outcome, mode_readback);
    if outcome.battery.care.is_ok() {
        if let Ok(applied) = &outcome.battery.charge_limit {
            let care_readback = backend.get_battery_care_enabled();
            proof {
                let second = seq![Access::GetCare(care_readback)];
                lemma_recorded_then(start, middle, *backend, first, second);
                assert(recorded(
                    start,
                    *backend,
                    sync_accesses(c, *outcome, mode_read, care_readback),
                ));
            }
            return care_readback_disagrees(*applied, &care_readback);
        }
    }
    proof {
        let unread: Result<bool, EcError> = Ok(true);
        assert(sync_accesses(c, *outcome, mode_read, unread) =~= first);
    }
    false
}

// ── The whole sequence ──

/// What the application starts with.
pub struct StartupResult {
    /// The backend.
    pub backend: BoxedBackend,
    /// The configuration, updated with what the hardware took.
    pub config: AppConfig,
    /// What went wrong, in words.
    pub init_error: Option<String>,
    /// The backend preference to show.
    pub effective_pref: BackendPreference,
    /// Whether the configuration is to be saved.
    pub save_config: bool,
    /// Whether the hardware reports another care setting than the limit in force means.
    pub care_disagrees: bool,
}

/// The messages of opening the backend and of applying the configuration, as one.
pub open spec fn combined_message(opening: Option<Seq<char>>, apply: Seq<char>) -> Option<
    Seq<char>,
> {
    if apply.len() == 0 {
        opening
    } else {
        let failed = "启动应用设置失败: "@ + apply;
        match opening {
            Some(m) => Some(m + "; "@ + failed),
            None => Some(failed),
        }
    }
}

/// Adds the errors of applying the configuration to the message of opening the backend.
pub fn combine_messages(opening: Option<String>, apply: String) -> (r: Option<String>)
    ensures
        text_view(r) == combined_message(text_view(opening), apply@),
{
    if apply.as_str().is_empty() {
        return opening;
    }
    let mut failed = text::copy_str("启动应用设置失败: ");
    failed.append(apply.as_str());
    match opening {
        Some(m) => {
            let mut out = m;
            out.append("; ");
            out.append(failed.as_str());
            Some(out)
        },
        None => Some(failed),
    }
}

/// The configuration was applied at start-up and updated, as `c`, `updated`, `disagrees` and
/// the two messages say, and nothing else was asked of the backend.
pub open spec fn was_applied_at_startup<P: PowerSource + ?Sized>(
    before: BoxedBackend,
    after: BoxedBackend,
    power: &P,
    c: AppConfigView,
    updated: AppConfigView,
    disagrees: bool,
    opening: Option<Seq<char>>,
    message: Option<Seq<char>>,
) -> bool {
    exists|snapshot: PowerSnapshot, out: ApplyOutcome, middle: BoxedBackend|
        #![trigger call_ensures(P::snapshot, (power,), snapshot), was_synced(middle, after, c, out, updated, disagrees)]
        call_ensures(P::snapshot, (power,), snapshot) && config_was_applied(
            before,
            middle,
            c,
            snapshot.status,
            out,
        ) && was_synced(middle, after, c, out, updated, disagrees) && message == combined_message(
            opening,
            joined_errors(failed_fields(out)),
        )
}

/// The preference to show: for the placeholder that of the user, which is tried again
/// next time; else that of the backend in use.
pub open spec fn shows_preference(
    backend: BoxedBackend,
    wanted: BackendPreference,
    shown: BackendPreference,
) -> bool {
    exists|null: bool| #[trigger]
        backend.device().says_null(null) && if null {
            shown == wanted
        } else {
            backend.device().says_preference(shown)
        }
}

/// The preference to show for a backend.
pub fn preference_to_show(backend: &BoxedBackend, wanted: BackendPreference) -> (r:
    BackendPreference)
    ensures
        shows_preference(*backend, wanted, r),
        backend.is_placeholder() ==> r == wanted,
{
    let null = backend.is_null();
    assert(backend.device().says_null(null));
    if null {
        wanted
    } else {
        backend.preference()
    }
}

/// The settings that start-up writes to the hardware: those of the configuration, if the
/// user wants them applied, and otherwise none.
pub open spec fn startup_writes(c: AppConfigView, status: PowerStatus) -> Seq<HardwareWrite> {
    if c.auto_apply_on_startup {
        config_writes(c, status)
    } else {
        Seq::empty()
    }
}

/// What `init_backend` does and returns for a configuration `before`: the backend `opened`
/// was opened by the requests `openings`; and it was used to apply the configuration, if
/// the user wants that, and otherwise not at all.
pub open spec fn was_started<P: PowerSource + ?Sized>(
    power: &P,
    openings: Seq<Opening>,
    opened: BoxedBackend,
    before: AppConfigView,
    r: StartupResult,
) -> bool {
    &&& exists|opening: Option<Seq<char>>| #[trigger]
        was_opened(before.backend, openings, opened, opening) && if before.auto_apply_on_startup {
            was_applied_at_startup(
                opened,
                r.backend,
                power,
                before,
                r.config@,
                r.care_disagrees,
                opening,
                text_view(r.init_error),
            )
        } else {
            r.backend == opened && r.config@ == before && !r.care_disagrees && text_view(
                r.init_error,
            ) == opening
        }
    &&& shows_preference(r.backend, before.backend, r.effective_pref)
    &&& r.backend.is_placeholder() ==> r.effective_pref == before.backend
    &&& r.save_config == before.auto_apply_on_startup
}

/// Starts up: opens a backend, writes the configuration to the hardware if it is to be
/// applied at start-up, and updates it with what the hardware took.
///
/// Where the preferred backend cannot be opened the other one is taken, and where that
/// fails too the placeholder, so that the application can show the reason. Without the
/// setting the hardware is left alone and so is the configuration. `save_config` says
/// that the configuration was updated and is to be saved.
pub fn init_backend<P: PowerSource + ?Sized, F: EcBackendFactory + ?Sized>(
    config: AppConfig,
    power: &P,
    opener: &mut Opener<F>,
) -> (r: StartupResult)
    ensures
        exists|openings: Seq<Opening>, opened: BoxedBackend|
            #![trigger requested(*old(opener), *final(opener), openings), was_started(power, openings, opened, config@, r)]
            requested(*old(opener), *final(opener), openings) && was_started(
                power,
                openings,
                opened,
                config@,
                r,
            ),
{
    let mut config = config;
    let ghost before = config@;
    let wanted = config.backend;
    let (backend, opening) = open_backend(opener, wanted);
    let mut backend = backend;
    let ghost opened = backend;
    let ghost opening_text = text_view(opening);
    let ghost openings = choose|openings: Seq<Opening>| #[trigger]
        requested(*old(opener), *opener, openings) && was_opened(
            wanted,
            openings,
            opened,
            opening_text,
        );
    let save_config = config.auto_apply_on_startup;
    let mut care_disagrees = false;
    let init_error = if save_config {
        let snapshot = power.snapshot();
        let outcome = apply_startup_config(&mut backend, &config, snapshot.status);
        let ghost middle = backend;
        let apply = apply_errors(&outcome);
        care_disagrees = sync_startup_config(&mut backend, &mut config, &outcome);
        let message = combine_messages(opening, apply);
        assert(call_ensures(P::snapshot, (power,), snapshot) && was_synced(
            middle,
            backend,
            before,
            outcome,
            config@,
            care_disagrees,
        ));
        assert(was_applied_at_startup(
            opened,
            backend,
            power,
            before,
            config@,
            care_disagrees,
            opening_text,
            text_view(message),
        ));
        message
    } else {
        opening
    };
    let effective_pref = preference_to_show(&backend, wanted);
    let r = StartupResult {
        backend,
        config,
        init_error,
        effective_pref,
        save_config,
        care_disagrees,
    };
    assert(was_opened(before.backend, openings, opened, opening_text));
    assert(was_started(power, openings, opened, before, r));
    r
}

// ── Laws ──

/// A failed write never changes the settings of the battery: unless both the limit and
/// the care bit were written, care and limit stay what the user wants.
pub proof fn law_failed_write_keeps_battery_settings(
    c: AppConfigView,
    out: ApplyOutcome,
    mode_readback: Result<u8, EcError>,
)
    requires
        out.battery.charge_limit is Err || out.battery.care is Err,
    ensures
        synced_at_startup(c, out, mode_readback).battery_care_enabled == c.battery_care_enabled,
        synced_at_startup(c, out, mode_readback).battery_charge_limit == c.battery_charge_limit,
{
}

/// A mode that was not written, or not as the user wants it, is not stored: the choice of
/// the user survives battery power.
pub proof fn law_degraded_mode_is_not_stored(
    c: AppConfigView,
    out: ApplyOutcome,
    mode_readback: Result<u8, EcError>,
)
    requires
        out.perf is Err || out.perf_written != c.performance_mode,
    ensures
        synced_at_startup(c, out, mode_readback).performance_mode == c.performance_mode,
{
}

/// After care and limit were written, care in the configuration is what the limit says:
/// a care bit that the firmware ignored does not turn care off.
pub proof fn law_care_follows_the_limit(
    c: AppConfigView,
    out: ApplyOutcome,
    mode_readback: Result<u8, EcError>,
)
    requires
        out.battery.care is Ok,
    ensures
        out.battery.charge_limit matches Ok(applied) ==> synced_at_startup(
            c,
            out,
            mode_readback,
        ).battery_care_enabled == care_of_limit(applied),
{
}

/// Start-up changes the mode, care and the limit, and no other setting.
pub proof fn law_startup_keeps_other_settings(
    c: AppConfigView,
    out: ApplyOutcome,
    mode_readback: Result<u8, EcError>,
)
    ensures
        synced_at_startup(c, out, mode_readback) == (AppConfigView {
            performance_mode: synced_at_startup(c, out, mode_readback).performance_mode,
            battery_care_enabled: synced_at_startup(c, out, mode_readback).battery_care_enabled,
            battery_charge_limit: synced_at_startup(c, out, mode_readback).battery_charge_limit,
            ..c
        }),
{
}

/// The two backends stand in for each other, and a backend never for itself.
pub proof fn law_fallback_is_mutual(pref: BackendPreference)
    ensures
        other_backend(pref) matches Some(other) ==> other != pref && other_backend(other) == Some(
            pref,
        ),
        other_backend(pref) is None <==> pref == BackendPreference::Auto,
{
}

/// Start-up writes to the hardware exactly the settings of the configuration, each once and
/// in their order, if the user wants them applied; and otherwise nothing.
pub proof fn law_startup_writes_what_the_user_wants<P: PowerSource + ?Sized>(
    power: &P,
    openings: Seq<Opening>,
    opened: BoxedBackend,
    before: AppConfigView,
    r: StartupResult,
)
    requires
        was_started(power, openings, opened, before, r),
    ensures
        !before.auto_apply_on_startup ==> r.backend == opened && r.config@ == before,
        exists|accesses: Seq<Access>, status: PowerStatus|
            #![trigger recorded(opened, r.backend, accesses), startup_writes(before, status)]
            recorded(opened, r.backend, accesses) && writes(accesses) == startup_writes(
                before,
                status,
            ),
{
    let opening = choose|opening: Option<Seq<char>>| #[trigger]
        was_opened(before.backend, openings, opened, opening) && if before.auto_apply_on_startup {
            was_applied_at_startup(
                opened,
                r.backend,
                power,
                before,
                r.config@,
                r.care_disagrees,
                opening,
                text_view(r.init_error),
            )
        } else {
            r.backend == opened && r.config@ == before && !r.care_disagrees && text_view(
                r.init_error,
            ) == opening
        };
    if before.auto_apply_on_startup {
        let (snapshot, out, middle) =
            choose|snapshot: PowerSnapshot, out: ApplyOutcome, middle: BoxedBackend|
            #![trigger call_ensures(P::snapshot, (power,), snapshot), was_synced(middle, r.backend, before, out, r.config@, r.care_disagrees)]
            call_ensures(P::snapshot, (power,), snapshot) && config_was_applied(
                opened,
                middle,
                before,
                snapshot.status,
                out,
            ) && was_synced(middle, r.backend, before, out, r.config@, r.care_disagrees);
        let readback = choose|readback: Result<u8, EcError>|
            recorded(opened, middle, #[trigger] config_accesses(before, out, readback));
        let (mode_readback, care_readback) =
            choose|mode_readback: Result<u8, EcError>, care_readback: Result<bool, EcError>|
            recorded(
                middle,
                r.backend,
                #[trigger] sync_accesses(before, out, mode_readback, care_readback),
            );
        let first = config_accesses(before, out, readback);
        let second = sync_accesses(before, out, mode_readback, care_readback);
        lemma_recorded_then(opened, middle, r.backend, first, second);
        law_config_is_written_once_in_order(before, snapshot.status, out, readback);
        lemma_reads_write_nothing(first, second);
        assert(writes(first + second) == startup_writes(before, snapshot.status));
    } else {
        lemma_wrote_nothing(opened);
        let none = Seq::<Access>::empty();
        assert(recorded(opened, r.backend, none));
        assert(writes(none) =~= startup_writes(before, PowerStatus::Unknown));
    }
}

/// A configuration that stands in for a damaged file writes nothing to the hardware.
pub proof fn law_degraded_start_writes_nothing(status: PowerStatus)
    ensures
        startup_writes(degraded_config(), status) == Seq::<HardwareWrite>::empty(),
{
}

/// Where no backend could be opened, applying the configuration at start-up loses nothing:
/// the settings stay as they are, and the message names every field that was not written.
pub proof fn law_placeholder_keeps_the_configuration<P: PowerSource + ?Sized>(
    before: BoxedBackend,
    after: BoxedBackend,
    power: &P,
    c: AppConfigView,
    updated: AppConfigView,
    disagrees: bool,
    opening: Option<Seq<char>>,
    message: Option<Seq<char>>,
)
    requires
        before.is_placeholder(),
        was_applied_at_startup(before, after, power, c, updated, disagrees, opening, message),
    ensures
        updated == c,
        !disagrees,
        message == combined_message(
            opening,
            joined_errors(
                seq![
                    ("充电上限"@, null_error()),
                    ("电池养护"@, null_error()),
                    ("性能模式"@, null_error()),
                ],
            ),
        ),
{
    let (snapshot, out, middle) =
        choose|snapshot: PowerSnapshot, out: ApplyOutcome, middle: BoxedBackend|
        #![trigger call_ensures(P::snapshot, (power,), snapshot), was_synced(middle, after, c, out, updated, disagrees)]
        call_ensures(P::snapshot, (power,), snapshot) && config_was_applied(
            before,
            middle,
            c,
            snapshot.status,
            out,
        ) && was_synced(middle, after, c, out, updated, disagrees) && message == combined_message(
            opening,
            joined_errors(failed_fields(out)),
        );
    let readback = choose|readback: Result<u8, EcError>|
        recorded(before, middle, #[trigger] config_accesses(c, out, readback));
    let all = config_accesses(c, out, readback);
    law_placeholder_refuses(before, middle, all, 0);
    law_placeholder_refuses(before, middle, all, 1);
    law_placeholder_refuses(before, middle, all, all.len() - 1);
    assert(out.battery.charge_limit is Err);
    assert(failed_fields(out) =~= seq![
        ("充电上限"@, null_error()),
        ("电池养护"@, null_error()),
        ("性能模式"@, null_error()),
    ]);
}

/// There are words for the errors exactly if there are errors.
pub proof fn law_errors_have_words(errors: Seq<(Seq<char>, EcErrorView)>)
    ensures
        joined_errors(errors).len() == 0 <==> errors.len() == 0,
{
    reveal_strlit(": ");
    reveal_strlit("; ");
}

/// After the failure of a preferred backend the other one is tried, and after both there is
/// no other.
pub proof fn law_who_stands_in(pref: BackendPreference, r: Option<BackendPreference>)
    requires
        call_ensures(fallback_preference, (pref,), r),
    ensures
        pref == BackendPreference::Wmi ==> r == Some(BackendPreference::WinRing0),
        pref == BackendPreference::WinRing0 ==> r == Some(BackendPreference::Wmi),
        pref == BackendPreference::Auto ==> r is None,
{
}

/// How a backend is opened, by what was asked and what was given. The preferred one is asked
/// for first, and if it is given it is taken without a message. Otherwise the other one is
/// asked for, where there is another; if it is given it is taken, and the message names it.
/// Only after every failure the placeholder is asked for and taken, and the message is that of
/// the last error.
pub proof fn law_opening_goes_in_order(
    pref: BackendPreference,
    openings: Seq<Opening>,
    backend: BoxedBackend,
    message: Option<Seq<char>>,
)
    requires
        was_opened(pref, openings, backend, message),
    ensures
        openings.len() >= 1,
        openings[0] matches Opening::Create(p, first) && p == pref && match first {
            Ok(b) => openings.len() == 1 && b == backend && message is None,
            Err(e) => if pref == BackendPreference::Auto {
                &&& openings.len() == 2
                &&& openings[1] == Opening::Placeholder(backend)
                &&& message == Some(error_text(e@))
            } else {
                &&& openings.len() >= 2
                &&& openings[1] matches Opening::Create(q, second) && {
                    &&& q == if pref == BackendPreference::Wmi {
                        BackendPreference::WinRing0
                    } else {
                        BackendPreference::Wmi
                    }
                    &&& match second {
                        Ok(b) => {
                            &&& openings.len() == 2
                            &&& b == backend
                            &&& exists|name: Seq<char>| #[trigger]
                                backend.device().named(name) && message == Some(
                                    "优先后端不可用，已自动切换至 "@ + name,
                                )
                        },
                        Err(f) => {
                            &&& openings.len() == 3
                            &&& openings[2] == Opening::Placeholder(backend)
                            &&& message == Some(error_text(f@))
                        },
                    }
                }
            },
        },
{
    if !(openings == seq![Opening::Create(pref, Ok(backend))] && message is None) {
        let primary = choose|primary: EcError| #[trigger]
            after_failure(pref, primary, openings, backend, message);
        assert(openings[0] == Opening::Create(pref, Err(primary)));
    }
}

/// One error is written as `name: error`, and the words of two lists are joined with `; `.
pub proof fn law_errors_are_joined(
    name: Seq<char>,
    e: EcErrorView,
    a: Seq<(Seq<char>, EcErrorView)>,
    b: Seq<(Seq<char>, EcErrorView)>,
)
    ensures
        joined_errors(seq![(name, e)]) == name + ": "@ + error_text(e),
        a.len() > 0 && b.len() > 0 ==> joined_errors(a + b) == joined_errors(a) + "; "@
            + joined_errors(b),
        joined_errors(Seq::empty()).len() == 0,
    decreases b.len(),
{
    let one = seq![(name, e)];
    assert(one.last() == (name, e));
    if a.len() > 0 && b.len() > 0 {
        let all = a + b;
        assert(all.last() == b.last());
        if b.len() == 1 {
            assert(all.drop_last() =~= a);
        } else {
            law_errors_are_joined(name, e, a, b.drop_last());
            assert(all.drop_last() =~= a + b.drop_last());
        }
        assert(joined_errors(a + b) =~= joined_errors(a) + "; "@ + joined_errors(b));
    }
}

/// What is stored after the settings were written. The mode that was read back is stored
/// exactly if the mode of the user was written as it is and could be read; else the mode of
/// the user stays. The limit in force counts exactly if limit and care were both written:
/// below 100% it is stored and care is on, from 100% on care is off and the stored limit
/// stays.
pub proof fn law_stored_after_start(
    c: AppConfigView,
    out: ApplyOutcome,
    mode_readback: Result<u8, EcError>,
)
    ensures
        ({
            let after = synced_at_startup(c, out, mode_readback);
            let taken = out.perf is Ok && out.perf_written == c.performance_mode;
            let both = out.battery.charge_limit is Ok && out.battery.care is Ok;
            let limit = out.battery.charge_limit->Ok_0;
            &&& taken && mode_readback is Ok ==> after.performance_mode == mode_readback->Ok_0
            &&& !(taken && mode_readback is Ok) ==> after.performance_mode == c.performance_mode
            &&& both ==> after.battery_care_enabled == (limit < 100)
            &&& both && limit < 100 ==> after.battery_charge_limit == limit
            &&& !both || limit >= 100 ==> after.battery_charge_limit == c.battery_charge_limit
            &&& !both ==> after.battery_care_enabled == c.battery_care_enabled
        }),
{
}

/// What is read back after the settings were written, and nothing else is asked: the mode,
/// exactly if it was written as the user wants it; and then the care setting, exactly if care
/// and limit were written. Care disagrees exactly if it was read and is on at 100% or off
/// below.
pub proof fn law_read_back_after_start(
    c: AppConfigView,
    out: ApplyOutcome,
    mode_readback: Result<u8, EcError>,
    care_readback: Result<bool, EcError>,
)
    ensures
        ({
            let asked = sync_accesses(c, out, mode_readback, care_readback);
            let mode = out.perf is Ok && out.perf_written == c.performance_mode;
            let care = out.battery.charge_limit is Ok && out.battery.care is Ok;
            let limit = out.battery.charge_limit->Ok_0;
            &&& asked.len() == (if mode { 1int } else { 0 }) + (if care { 1int } else { 0 })
            &&& mode ==> asked[0] == Access::GetMode(mode_readback)
            &&& care ==> asked.last() == Access::GetCare(care_readback)
            &&& sync_disagrees(out, care_readback) <==> care && (care_readback matches Ok(on)
                && on != (limit < 100))
        }),
{
}

/// The message of the start: without errors of applying it is that of opening. Otherwise it
/// names those errors, after the message of opening if there is one.
pub proof fn law_message_of_the_start(opening: Option<String>, apply: String, r: Option<String>)
    requires
        call_ensures(combine_messages, (opening, apply), r),
    ensures
        apply@.len() == 0 ==> text_view(r) == text_view(opening),
        apply@.len() > 0 && opening is None ==> (r matches Some(m) && m@ == "启动应用设置失败: "@
            + apply@),
        apply@.len() > 0 && opening is Some ==> (r matches Some(m) && m@ == opening->0@ + "; "@ + (
        "启动应用设置失败: "@ + apply@)),
{
}

/// Start-up writes three settings or none: if the user wants them applied, the limit, the
/// care setting as it is stored, and the mode.
pub proof fn law_three_settings_or_none(c: AppConfigView, status: PowerStatus)
    ensures
        !c.auto_apply_on_startup ==> startup_writes(c, status).len() == 0,
        c.auto_apply_on_startup ==> {
            let list = startup_writes(c, status);
            &&& list.len() == 3
            &&& list[0] is Limit
            &&& list[1] == HardwareWrite::Care(c.battery_care_enabled)
            &&& list[2] is Mode
            &&& c.battery_care_enabled && 1 <= c.battery_charge_limit <= 99 ==> list[0]
                == HardwareWrite::Limit(c.battery_charge_limit)
            &&& !c.battery_care_enabled ==> list[0] == HardwareWrite::Limit(100)
            &&& status != PowerStatus::OnBattery ==> list[2] == HardwareWrite::Mode(
                c.performance_mode,
            )
        },
{
}

/// The configuration is saved exactly if it was to be applied; otherwise it and the backend
/// are as they were. A backend that is no placeholder is shown by its own preference.
pub proof fn law_start_saves_what_it_applied<P: PowerSource + ?Sized>(
    power: &P,
    openings: Seq<Opening>,
    opened: BoxedBackend,
    before: AppConfigView,
    r: StartupResult,
)
    requires
        was_started(power, openings, opened, before, r),
    ensures
        r.save_config <==> before.auto_apply_on_startup,
        !before.auto_apply_on_startup ==> r.config@ == before && r.backend == opened
            && !r.care_disagrees,
        r.backend.is_placeholder() ==> r.effective_pref == before.backend,
        !r.backend.device().says_null(true) ==> r.backend.device().says_preference(
            r.effective_pref,
        ),
{
}

/// The update after the settings were written at start-up, by the stored settings.
pub proof fn law_update_at_start(
    config: &mut AppConfig,
    outcome: ApplyOutcome,
    mode_readback: Result<u8, EcError>,
    r: (),
)
    requires
        call_ensures(sync_config, (config, &outcome, mode_readback), r),
    ensures
        ({
            let before = old(config)@;
            let after = final(config)@;
            let taken = outcome.perf is Ok && outcome.perf_written == before.performance_mode;
            let both = outcome.battery.charge_limit is Ok && outcome.battery.care is Ok;
            let limit = outcome.battery.charge_limit->Ok_0;
            &&& after.performance_mode == if taken && mode_readback is Ok {
                mode_readback->Ok_0
            } else {
                before.performance_mode
            }
            &&& after.battery_care_enabled == if both {
                limit < 100
            } else {
                before.battery_care_enabled
            }
            &&& after.battery_charge_limit == if both && limit < 100 {
                limit
            } else {
                before.battery_charge_limit
            }
            &&& after == (AppConfigView {
                performance_mode: after.performance_mode,
                battery_care_enabled: after.battery_care_enabled,
                battery_charge_limit: after.battery_charge_limit,
                ..before
            })
        }),
{
    law_stored_after_start(old(config)@, outcome, mode_readback);
}

/// The words for what could not be written name limit, care and mode in this order, each with
/// its error.
pub proof fn law_words_for_what_failed(outcome: ApplyOutcome, r: String)
    requires
        call_ensures(apply_errors, (&outcome,), r),
    ensures
        r@ == joined_errors(failed_fields(outcome)),
        outcome.battery.charge_limit is Ok && outcome.battery.care is Ok && outcome.perf is Ok
            ==> r@.len() == 0,
        outcome.battery.charge_limit is Err && outcome.battery.care is Ok && outcome.perf is Ok
            ==> r@ == "充电上限"@ + ": "@ + error_text(outcome.battery.charge_limit->Err_0@),
        outcome.battery.charge_limit is Ok && outcome.battery.care is Err && outcome.perf is Ok
            ==> r@ == "电池养护"@ + ": "@ + error_text(outcome.battery.care->Err_0@),
        outcome.battery.charge_limit is Ok && outcome.battery.care is Ok && outcome.perf is Err
            ==> r@ == "性能模式"@ + ": "@ + error_text(outcome.perf->Err_0@),
        outcome.battery.charge_limit is Err && outcome.battery.care is Err && outcome.perf is Err
            ==> r@ == "充电上限"@ + ": "@ + error_text(outcome.battery.charge_limit->Err_0@)
            + "; "@ + ("电池养护"@ + ": "@ + error_text(outcome.battery.care->Err_0@)) + "; "@ + (
        "性能模式"@ + ": "@ + error_text(outcome.perf->Err_0@)),
{
    reveal_with_fuel(joined_errors, 4);
    let all = failed_fields(outcome);
    if all.len() >= 1 {
        assert(all.take(1) =~= seq![all[0]]);
    }
    if outcome.battery.charge_limit is Err && outcome.battery.care is Err && outcome.perf is Err {
        assert(all.drop_last().drop_last() =~= seq![all[0]]);
    }
}

/// The message after the other backend had to be taken ends with its name.
pub proof fn law_fallback_is_named(name: &str, r: String)
    requires
        call_ensures(fallback_message, (name,), r),
    ensures
        r@ == "优先后端不可用，已自动切换至 "@ + name@,
{
}

/// For the placeholder the preference of the user is shown, which is tried again next time.
pub proof fn law_placeholder_shows_the_wish(
    backend: BoxedBackend,
    wanted: BackendPreference,
    r: BackendPreference,
)
    requires
        call_ensures(preference_to_show, (&backend, wanted), r),
    ensures
        backend.is_placeholder() ==> r == wanted,
        !backend.device().says_null(true) ==> backend.device().says_preference(r),
        !backend.device().says_null(false) ==> r == wanted,
{
}

/// Opening asks the factory for the preferred backend first, and takes what
/// [`law_opening_goes_in_order`] says; the requests are recorded behind those before.
pub proof fn law_opening_is_recorded<F: EcBackendFactory + ?Sized>(
    opener: &mut Opener<F>,
    pref: BackendPreference,
    r: (BoxedBackend, Option<String>),
)
    requires
        call_ensures(open_backend::<F>, (opener, pref), r),
    ensures
        ({
            let n = old(opener).log().len() as int;
            let log = final(opener).log();
            &&& log.take(n) == old(opener).log()
            &&& log[n] matches Opening::Create(p, first) && p == pref && match first {
                Ok(b) => log.len() == n + 1 && r.0 == b && r.1 is None,
                Err(e) => r.1 is Some && log.len() > n + 1 && if pref == BackendPreference::Auto {
                    &&& log.len() == n + 2
                    &&& log[n + 1] == Opening::Placeholder(r.0)
                    &&& r.1->0@ == error_text(e@)
                } else {
                    log[n + 1] matches Opening::Create(q, second) && {
                        &&& pref == BackendPreference::Wmi ==> q == BackendPreference::WinRing0
                        &&& pref == BackendPreference::WinRing0 ==> q == BackendPreference::Wmi
                        &&& match second {
                            Ok(b) => log.len() == n + 2 && r.0 == b,
                            Err(f) => log.len() == n + 3 && log[n + 2] == Opening::Placeholder(r.0)
                                && r.1->0@ == error_text(f@),
                        }
                    }
                },
            }
        }),
{
    let before = *old(opener);
    let after = *final(opener);
    let openings = choose|openings: Seq<Opening>| #[trigger]
        requested(before, after, openings) && was_opened(pref, openings, r.0, text_view(r.1));
    law_opening_goes_in_order(pref, openings, r.0, text_view(r.1));
    let n = before.log().len() as int;
    assert(after.log().take(n) =~= before.log());
    assert(after.log()[n] == openings[0]);
    if openings.len() >= 2 {
        assert(after.log()[n + 1] == openings[1]);
    }
    if openings.len() >= 3 {
        assert(after.log()[n + 2] == openings[2]);
    }
}

/// Updating the configuration after a write asks for the mode exactly if it was written as the
/// user wants it, and takes it over if it could be read; then for care exactly if care and
/// limit were written. Nothing is written.
pub proof fn law_update_reads_only(
    backend: &mut BoxedBackend,
    config: &mut AppConfig,
    outcome: ApplyOutcome,
    r: bool,
)
    requires
        call_ensures(sync_startup_config, (backend, config, &outcome), r),
    ensures
        ({
            let n = old(backend).log().len() as int;
            let log = final(backend).log();
            let before = old(config)@;
            let after = final(config)@;
            let mode = outcome.perf is Ok && outcome.perf_written == before.performance_mode;
            let care = outcome.battery.charge_limit is Ok && outcome.battery.care is Ok;
            let limit = outcome.battery.charge_limit->Ok_0;
            &&& log.take(n) == old(backend).log()
            &&& log.len() == n + (if mode { 1int } else { 0 }) + (if care { 1int } else { 0 })
            &&& mode ==> (log[n] matches Access::GetMode(read) && after.performance_mode
                == match read {
                Ok(m) => m,
                Err(_) => before.performance_mode,
            })
            &&& !mode ==> after.performance_mode == before.performance_mode
            &&& care ==> (log.last() matches Access::GetCare(read) && (r <==> (read matches Ok(on)
                && on != (limit < 100))))
            &&& care ==> after.battery_care_enabled == (limit < 100)
            &&& care && limit < 100 ==> after.battery_charge_limit == limit
            &&& !(care && limit < 100) ==> after.battery_charge_limit == before.battery_charge_limit
            &&& !care ==> !r && after.battery_care_enabled == before.battery_care_enabled
        }),
{
    let start = *old(backend);
    let end = *final(backend);
    let c = old(config)@;
    let updated = final(config)@;
    let (mode_readback, care_readback) =
        choose|mode_readback: Result<u8, EcError>, care_readback: Result<bool, EcError>|
        recorded(start, end, #[trigger] sync_accesses(c, outcome, mode_readback, care_readback))
            && updated == synced_at_startup(c, outcome, mode_readback) && r == sync_disagrees(
            outcome,
            care_readback,
        );
    law_stored_after_start(c, outcome, mode_readback);
    law_read_back_after_start(c, outcome, mode_readback, care_readback);
    let asked = sync_accesses(c, outcome, mode_readback, care_readback);
    let n = start.log().len() as int;
    assert(end.log().take(n) =~= start.log());
    if asked.len() > 0 {
        assert(end.log()[n] == asked[0]);
        assert(end.log().last() == asked.last());
    }
}

/// Starting up asks for the backend that the configuration names first. The configuration is
/// saved exactly if it was to be applied, and otherwise it stays as it is. Of the settings only
/// mode, care and limit may have changed.
pub proof fn law_start_up<P: PowerSource + ?Sized, F: EcBackendFactory + ?Sized>(
    config: AppConfig,
    power: &P,
    opener: &mut Opener<F>,
    r: StartupResult,
)
    requires
        call_ensures(init_backend::<P, F>, (config, power, opener), r),
    ensures
        ({
            let n = old(opener).log().len() as int;
            let log = final(opener).log();
            &&& log.take(n) == old(opener).log()
            &&& n < log.len() <= n + 3
            &&& log[n] matches Opening::Create(p, _) && p == config.backend
        }),
        r.save_config <==> config.auto_apply_on_startup,
        !config.auto_apply_on_startup ==> r.config@ == config@ && !r.care_disagrees,
        r.config@ == (AppConfigView {
            performance_mode: r.config@.performance_mode,
            battery_care_enabled: r.config@.battery_care_enabled,
            battery_charge_limit: r.config@.battery_charge_limit,
            ..config@
        }),
        r.backend.is_placeholder() ==> r.effective_pref == config.backend,
{
    let before = *old(opener);
    let after = *final(opener);
    let c = config@;
    let (openings, opened) = choose|openings: Seq<Opening>, opened: BoxedBackend|
        #![trigger requested(before, after, openings), was_started(power, openings, opened, c, r)]
        requested(before, after, openings) && was_started(power, openings, opened, c, r);
    let opening = choose|opening: Option<Seq<char>>| #[trigger]
        was_opened(c.backend, openings, opened, opening) && if c.auto_apply_on_startup {
            was_applied_at_startup(
                opened,
                r.backend,
                power,
                c,
                r.config@,
                r.care_disagrees,
                opening,
                text_view(r.init_error),
            )
        } else {
            r.backend == opened && r.config@ == c && !r.care_disagrees && text_view(r.init_error)
                == opening
        };
    law_opening_goes_in_order(c.backend, openings, opened, opening);
    let n = before.log().len() as int;
    assert(after.log().take(n) =~= before.log());
    assert(after.log()[n] == openings[0]);
    if c.auto_apply_on_startup {
        let (snapshot, out, middle) =
            choose|snapshot: PowerSnapshot, out: ApplyOutcome, middle: BoxedBackend|
            #![trigger call_ensures(P::snapshot, (power,), snapshot), was_synced(middle, r.backend, c, out, r.config@, r.care_disagrees)]
            call_ensures(P::snapshot, (power,), snapshot) && config_was_applied(
                opened,
                middle,
                c,
                snapshot.status,
                out,
            ) && was_synced(middle, r.backend, c, out, r.config@, r.care_disagrees);
        let mode_readback = choose|mode_readback: Result<u8, EcError>|
            r.config@ == #[trigger] synced_at_startup(c, out, mode_readback);
        law_startup_keeps_other_settings(c, out, mode_readback);
    }
}

/// Applying the configuration at start-up is writing it: the limit for its care setting first
/// and its mode last, as far as the power supply allows.
pub proof fn law_start_writes_the_configuration(
    backend: &mut BoxedBackend,
    config: AppConfig,
    status: PowerStatus,
    r: ApplyOutcome,
)
    requires
        call_ensures(apply_startup_config, (backend, &config, status), r),
    ensures
        ({
            let n = old(backend).log().len() as int;
            let log = final(backend).log();
            &&& log.len() == n + if r.battery.charge_limit is Ok { 4int } else { 3int }
            &&& log.take(n) == old(backend).log()
            &&& log[n] is SetLimit
            &&& log[n + 1] == Access::SetCare(config.battery_care_enabled, r.battery.care)
            &&& log.last() == Access::SetMode(r.perf_written, r.perf)
            &&& status != PowerStatus::OnBattery ==> r.perf_written == config.performance_mode
        }),
{
    let before = *old(backend);
    let after = *final(backend);
    let c = config@;
    let readback = choose|readback: Result<u8, EcError>|
        recorded(before, after, #[trigger] config_accesses(c, r, readback));
    let n = before.log().len() as int;
    assert(after.log().take(n) =~= before.log());
    assert(after.log().last() == config_accesses(c, r, readback).last());
}

/// Applying the configuration at start-up goes by one reading of the power supply, and the
/// message tells what could not be written: without a failure it is that of opening, and else
/// the failures come behind it.
pub proof fn law_start_goes_by_the_power_supply<P: PowerSource + ?Sized>(
    before: BoxedBackend,
    after: BoxedBackend,
    power: &P,
    c: AppConfigView,
    updated: AppConfigView,
    disagrees: bool,
    opening: Option<Seq<char>>,
    message: Option<Seq<char>>,
)
    requires
        was_applied_at_startup(before, after, power, c, updated, disagrees, opening, message),
    ensures
        exists|snapshot: PowerSnapshot, out: ApplyOutcome, middle: BoxedBackend|
            #![trigger call_ensures(P::snapshot, (power,), snapshot), config_was_applied(before, middle, c, snapshot.status, out)]
            call_ensures(P::snapshot, (power,), snapshot) && config_was_applied(
                before,
                middle,
                c,
                snapshot.status,
                out,
            ) && {
                let failed = "启动应用设置失败: "@ + joined_errors(failed_fields(out));
                &&& failed_fields(out).len() == 0 ==> message == opening
                &&& failed_fields(out).len() > 0 && opening is None ==> message == Some(failed)
                &&& failed_fields(out).len() > 0 && opening is Some ==> message == Some(
                    opening->0 + "; "@ + failed,
                )
            },
{
    let (snapshot, out, middle) =
        choose|snapshot: PowerSnapshot, out: ApplyOutcome, middle: BoxedBackend|
        #![trigger call_ensures(P::snapshot, (power,), snapshot), was_synced(middle, after, c, out, updated, disagrees)]
        call_ensures(P::snapshot, (power,), snapshot) && config_was_applied(
            before,
            middle,
            c,
            snapshot.status,
            out,
        ) && was_synced(middle, after, c, out, updated, disagrees) && message == combined_message(
            opening,
            joined_errors(failed_fields(out)),
        );
    law_errors_have_words(failed_fields(out));
    assert(config_was_applied(before, middle, c, snapshot.status, out));
}

} // verus!
