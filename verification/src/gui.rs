//! The main window: what it shows, and what a command or a click changes.
//!
//! The window itself is drawn elsewhere. The methods of [`XiaomiApp`] write to the
//! hardware through the backend and say in an [`Effect`] what else is to be done.

use crate::app::battery::{
    apply_config_to_hardware, care_label, care_word, config_accesses, config_was_applied,
    failed_fields,
    law_no_errors_means_all_written, sync_config_after_apply, synced_after_apply, ApplyOutcome,
};
use crate::app::config::{AppConfig, AppConfigView};
use crate::app::ec::{BackendPreference, BoxedBackend, EcError};
use crate::app::hardware::{
    law_each_setting_reaches_the_backend, law_nothing_written_nothing_recorded,
    lemma_recorded_then, lemma_wrote_nothing, recorded, wrote, Access, HardwareWrite,
};
use crate::app::performance::{all_modes, mode_code, PerfMode};
use crate::app::power::PowerStatus;
use crate::app::startup::{apply_errors, joined_errors, law_errors_have_words, text_view};
use crate::commands::{grew_by_one, reapplied, reapply};
use crate::text;
use vstd::prelude::*;

verus! {

/// A command to the window.
#[derive(Debug, Clone, Copy, PartialEq, Eq, Structural)]
pub enum UiCommand {
    /// Show the window if it is hidden, and hide it if it is shown.
    ToggleWindow,
    /// Show the window.
    ShowWindow,
    /// Close it.
    Quit,
    /// Turn battery care on or off.
    ToggleBatteryCare,
    /// Step to the next performance mode.
    CyclePerfMode,
    /// Switch to the performance mode with this code.
    SetPerfMode(u8),
    /// Show the current state.
    RefreshStatus,
    /// Write the configuration to the hardware again.
    ReapplyConfig,
}

/// The pages of the window.
#[derive(Debug, Clone, Copy, PartialEq, Eq, Structural)]
pub enum Tab {
    /// Battery and performance.
    Power,
    /// Settings.
    Settings,
}

/// What happens to the window.
#[derive(Debug, Clone, Copy, PartialEq, Eq, Structural)]
pub enum WindowAction {
    /// Nothing.
    Keep,
    /// It is shown if it was hidden, and hidden if it was shown.
    ToggleVisible,
    /// It is shown.
    Show,
    /// It is closed.
    Close,
}

/// What happens to the menu of the tray.
#[derive(Debug, Clone, Copy, PartialEq, Eq, Structural)]
pub enum TrayUpdate {
    /// Nothing.
    Keep,
    /// It shows this care setting.
    Care(bool),
    /// It shows the performance mode with this code.
    Mode(u8),
}

/// What is to be done after a command.
#[derive(Debug, Clone, Copy, PartialEq, Eq, Structural)]
pub struct Effect {
    /// About the window.
    pub window: WindowAction,
    /// About the tray.
    pub tray: TrayUpdate,
    /// Whether the configuration is to be saved.
    pub save: bool,
}

/// Nothing but something about the window.
pub open spec fn about_window(window: WindowAction) -> Effect {
    Effect { window, tray: TrayUpdate::Keep, save: false }
}

/// The configuration is saved, and the tray is updated.
pub open spec fn saved(tray: TrayUpdate) -> Effect {
    Effect { window: WindowAction::Keep, tray, save: true }
}

fn window_effect(window: WindowAction) -> (r: Effect)
    ensures
        r == about_window(window),
{
    Effect { window, tray: TrayUpdate::Keep, save: false }
}

fn save_effect(tray: TrayUpdate) -> (r: Effect)
    ensures
        r == saved(tray),
{
    Effect { window: WindowAction::Keep, tray, save: true }
}

// ── Reading a backend ──

/// What is shown after a reading: what was read, or what was shown before.
pub open spec fn shown_after<T>(before: T, read: Result<T, EcError>) -> T {
    match read {
        Ok(value) => value,
        Err(_) => before,
    }
}

/// The accesses of a refresh: the mode, care and the limit are read, each once.
pub open spec fn refresh_accesses(
    mode: Result<u8, EcError>,
    care: Result<bool, EcError>,
    limit: Result<u8, EcError>,
) -> Seq<Access> {
    seq![Access::GetMode(mode), Access::GetCare(care), Access::GetLimit(limit)]
}

/// The backend was read once for the mode, once for care and once for the limit, and
/// nothing else was asked of it; what could not be read stays as it was shown.
pub open spec fn was_refreshed(
    before: BoxedBackend,
    after: BoxedBackend,
    shown: (u8, bool, u8),
    r: (u8, bool, u8),
) -> bool {
    exists|mode: Result<u8, EcError>, care: Result<bool, EcError>, limit: Result<u8, EcError>|
        recorded(before, after, #[trigger] refresh_accesses(mode, care, limit)) && r == (
            shown_after(shown.0, mode),
            shown_after(shown.1, care),
            shown_after(shown.2, limit),
        )
}

fn refresh(backend: &mut BoxedBackend, shown: (u8, bool, u8)) -> (r: (u8, bool, u8))
    ensures
        was_refreshed(*old(backend), *final(backend), shown, r),
{
    let ghost a = *backend;
    let mode_read = backend.get_performance_mode();
    let ghost b = *backend;
    let care_read = backend.get_battery_care_enabled();
    let ghost c = *backend;
    let limit_read = backend.get_charge_limit();
    proof {
        let first = seq![Access::GetMode(mode_read)];
        let second = seq![Access::GetCare(care_read)];
        let third = seq![Access::GetLimit(limit_read)];
        lemma_recorded_then(a, b, c, first, second);
        lemma_recorded_then(a, c, *backend, first + second, third);
        assert(first + second + third =~= refresh_accesses(mode_read, care_read, limit_read));
    }
    let mode: u8 = match mode_read {
        Ok(mode) => mode,
        Err(_) => shown.0,
    };
    let care = match care_read {
        Ok(care) => care,
        Err(_) => shown.1,
    };
    let limit: u8 = match limit_read {
        Ok(limit) => limit,
        Err(_) => shown.2,
    };
    (mode, care, limit)
}

// ── The next mode ──

/// The position of a code among all modes; the first one for a code that is not there.
pub open spec fn position_of(code: u8, from: int) -> int
    decreases all_modes().len() - from,
{
    if from < 0 || from >= all_modes().len() {
        0
    } else if mode_code(all_modes()[from]) == code {
        from
    } else {
        position_of(code, from + 1)
    }
}

/// The code after `code` among all modes, the first one following the last.
pub open spec fn next_code(code: u8) -> u8 {
    mode_code(all_modes()[(position_of(code, 0) + 1) % (all_modes().len() as int)])
}

/// The code of the mode after the one with the code `code`: the window steps through all
/// modes. An unknown code counts as the first one.
pub fn next_mode_code(code: u8) -> (r: u8)
    ensures
        r == next_code(code),
{
    let modes = PerfMode::all();
    let n: usize = modes.len();
    let mut at: usize = 0;
    let mut i: usize = 0;
    let mut found = false;
    while i < n && !found
        invariant
            modes@ == all_modes(),
            n == modes@.len(),
            i <= n,
            at < n,
            !found ==> at == 0 && position_of(code, 0) == position_of(code, i as int),
            found ==> at == position_of(code, 0),
        decreases n - i,
    {
        if modes[i].ec_value() == code {
            at = i;
            found = true;
        }
        i = i + 1;
    }
    let next: usize = (at + 1) % n;
    modes[next].ec_value()
}

// ── The window ──

/// The state behind the main window.
pub struct XiaomiApp {
    /// The backend.
    pub backend: BoxedBackend,
    /// The settings.
    pub config: AppConfig,
    /// The name of the backend, as it is shown.
    pub backend_name: String,
    /// Battery care, as it is shown.
    pub battery_care_enabled: bool,
    /// The charge limit, as it is shown.
    pub charge_limit: u8,
    /// The code of the performance mode, as it is shown.
    pub performance_mode: u8,
    /// The error that is shown.
    pub error_msg: Option<String>,
    /// The page that is shown.
    pub active_tab: Tab,
}

/// What the window shows, and the settings.
#[verifier::ext_equal]
pub struct XiaomiAppView {
    pub config: AppConfigView,
    pub backend_name: Seq<char>,
    pub battery_care_enabled: bool,
    pub charge_limit: u8,
    pub performance_mode: u8,
    pub error_msg: Option<Seq<char>>,
    pub active_tab: Tab,
}

impl View for XiaomiApp {
    type V = XiaomiAppView;

    open spec fn view(&self) -> XiaomiAppView {
        XiaomiAppView {
            config: self.config@,
            backend_name: self.backend_name@,
            battery_care_enabled: self.battery_care_enabled,
            charge_limit: self.charge_limit,
            performance_mode: self.performance_mode,
            error_msg: text_view(self.error_msg),
            active_tab: self.active_tab,
        }
    }
}

impl XiaomiAppView {
    /// Care is set to `enabled`, in the settings and as it is shown.
    pub open spec fn with_care(self, enabled: bool) -> XiaomiAppView {
        XiaomiAppView {
            config: AppConfigView { battery_care_enabled: enabled, ..self.config },
            battery_care_enabled: enabled,
            ..self
        }
    }

    /// The limit is set, in the settings and as it is shown.
    pub open spec fn with_limit(self, limit: u8) -> XiaomiAppView {
        XiaomiAppView {
            config: AppConfigView { battery_charge_limit: limit, ..self.config },
            charge_limit: limit,
            ..self
        }
    }

    /// The mode is set, in the settings and as it is shown.
    pub open spec fn with_mode(self, mode: u8) -> XiaomiAppView {
        XiaomiAppView {
            config: AppConfigView { performance_mode: mode, ..self.config },
            performance_mode: mode,
            ..self
        }
    }
}

/// The values that a refresh reads, as they are shown.
pub open spec fn shown_values(w: XiaomiAppView) -> (u8, bool, u8) {
    (w.performance_mode, w.battery_care_enabled, w.charge_limit)
}

/// The settings that a command writes to the hardware, in their order.
pub open spec fn writes_for(before: XiaomiAppView, cmd: UiCommand) -> Seq<HardwareWrite> {
    match cmd {
        UiCommand::ToggleBatteryCare => seq![HardwareWrite::Care(!before.battery_care_enabled)],
        UiCommand::CyclePerfMode => seq![HardwareWrite::Mode(next_code(before.performance_mode))],
        UiCommand::SetPerfMode(mode) => seq![HardwareWrite::Mode(mode)],
        UiCommand::ReapplyConfig => if before.config.auto_reapply_on_power_change {
            reapplied(before.config)
        } else {
            Seq::empty()
        },
        _ => Seq::empty(),
    }
}

/// What the window shows after a command, and the settings.
pub open spec fn window_after(before: XiaomiAppView, cmd: UiCommand) -> XiaomiAppView {
    match cmd {
        UiCommand::ToggleBatteryCare => before.with_care(!before.battery_care_enabled),
        UiCommand::CyclePerfMode => before.with_mode(next_code(before.performance_mode)),
        UiCommand::SetPerfMode(mode) => before.with_mode(mode),
        _ => before,
    }
}

/// What is to be done after a command.
pub open spec fn effect_of(before: XiaomiAppView, cmd: UiCommand) -> Effect {
    match cmd {
        UiCommand::ToggleWindow => about_window(WindowAction::ToggleVisible),
        UiCommand::ShowWindow => about_window(WindowAction::Show),
        UiCommand::Quit => about_window(WindowAction::Close),
        UiCommand::RefreshStatus => about_window(WindowAction::Keep),
        UiCommand::ReapplyConfig => about_window(WindowAction::Keep),
        UiCommand::ToggleBatteryCare => saved(TrayUpdate::Care(!before.battery_care_enabled)),
        UiCommand::CyclePerfMode => saved(TrayUpdate::Mode(next_code(before.performance_mode))),
        UiCommand::SetPerfMode(mode) => saved(TrayUpdate::Mode(mode)),
    }
}

/// The window after the configuration was written because the user asked for it: the limit
/// in force is stored if it and care were written, and the errors are shown.
pub open spec fn window_after_reapply(w: XiaomiAppView, out: ApplyOutcome) -> XiaomiAppView {
    let errors = joined_errors(failed_fields(out));
    XiaomiAppView {
        config: match out.battery.charge_limit {
            Ok(applied) if out.battery.care is Ok => synced_after_apply(w.config, applied),
            _ => w.config,
        },
        error_msg: if errors.len() == 0 {
            None
        } else {
            Some(errors)
        },
        ..w
    }
}

impl XiaomiApp {
    /// The window for a backend and a configuration; it shows what the configuration says.
    pub fn new(backend: BoxedBackend, config: AppConfig) -> (r: Self)
        ensures
            r.backend == backend,
            backend.device().named(r@.backend_name),
            r@ == (XiaomiAppView {
                config: config@,
                backend_name: r@.backend_name,
                battery_care_enabled: config.battery_care_enabled,
                charge_limit: config.battery_charge_limit,
                performance_mode: config.performance_mode,
                error_msg: None,
                active_tab: Tab::Power,
            }),
    {
        let backend_name = text::copy_str(backend.name());
        let battery_care_enabled = config.battery_care_enabled;
        let charge_limit = config.battery_charge_limit;
        let performance_mode = config.performance_mode;
        XiaomiApp {
            backend,
            config,
            backend_name,
            battery_care_enabled,
            charge_limit,
            performance_mode,
            error_msg: None,
            active_tab: Tab::Power,
        }
    }

    /// Sets care, in the settings and as it is shown.
    fn store_care(&mut self, enabled: bool)
        ensures
            final(self)@ == old(self)@.with_care(enabled),
            final(self).backend == old(self).backend,
    {
        self.config.battery_care_enabled = enabled;
        self.battery_care_enabled = enabled;
    }

    /// Sets the mode, in the settings and as it is shown.
    fn store_mode(&mut self, mode: u8)
        ensures
            final(self)@ == old(self)@.with_mode(mode),
            final(self).backend == old(self).backend,
    {
        self.config.performance_mode = mode;
        self.performance_mode = mode;
    }

    /// Carries out a command. What the hardware answers to a write is not looked at: the
    /// setting of the user stands.
    pub fn process_command(&mut self, cmd: UiCommand) -> (r: Effect)
        ensures
            wrote(old(self).backend, final(self).backend, writes_for(old(self)@, cmd)),
            final(self)@ == window_after(old(self)@, cmd),
            r == effect_of(old(self)@, cmd),
    {
        proof {
            lemma_wrote_nothing(self.backend);
        }
        match cmd {
            UiCommand::ToggleWindow => window_effect(WindowAction::ToggleVisible),
            UiCommand::ShowWindow => window_effect(WindowAction::Show),
            UiCommand::Quit => window_effect(WindowAction::Close),
            UiCommand::RefreshStatus => window_effect(WindowAction::Keep),
            UiCommand::ToggleBatteryCare => {
                let enabled = !self.battery_care_enabled;
                self.set_care(enabled)
            },
            UiCommand::CyclePerfMode => {
                let mode: u8 = next_mode_code(self.performance_mode);
                self.set_mode(mode)
            },
            UiCommand::SetPerfMode(mode) => self.set_mode(mode),
            UiCommand::ReapplyConfig => {
                if self.config.auto_reapply_on_power_change {
                    reapply(&mut self.backend, &self.config);
                }
                window_effect(WindowAction::Keep)
            },
        }
    }

    /// Turns care on or off: the box for it was ticked, or a command says so.
    pub fn set_care(&mut self, enabled: bool) -> (r: Effect)
        ensures
            wrote(
                old(self).backend,
                final(self).backend,
                seq![HardwareWrite::Care(enabled)],
            ),
            final(self)@ == old(self)@.with_care(enabled),
            r == saved(TrayUpdate::Care(enabled)),
    {
        self.backend.write(HardwareWrite::Care(enabled));
        self.store_care(enabled);
        save_effect(TrayUpdate::Care(enabled))
    }

    /// Sets the charge limit: its slider was moved.
    pub fn set_limit(&mut self, limit: u8) -> (r: Effect)
        ensures
            wrote(old(self).backend, final(self).backend, seq![HardwareWrite::Limit(limit)]),
            final(self)@ == old(self)@.with_limit(limit),
            r == saved(TrayUpdate::Keep),
    {
        self.backend.write(HardwareWrite::Limit(limit));
        self.charge_limit = limit;
        self.config.battery_charge_limit = limit;
        save_effect(TrayUpdate::Keep)
    }

    /// Sets the performance mode: its button was pressed, or a command says so.
    pub fn set_mode(&mut self, mode: u8) -> (r: Effect)
        ensures
            wrote(old(self).backend, final(self).backend, seq![HardwareWrite::Mode(mode)]),
            final(self)@ == old(self)@.with_mode(mode),
            r == saved(TrayUpdate::Mode(mode)),
    {
        self.backend.write(HardwareWrite::Mode(mode));
        self.store_mode(mode);
        save_effect(TrayUpdate::Mode(mode))
    }

    /// Writes the configuration to the hardware because the user asked for it, and takes
    /// over the limit that the hardware has made of it.
    pub fn reapply_now(&mut self, status: PowerStatus) -> (r: Effect)
        ensures
            exists|out: ApplyOutcome| #[trigger]
                config_was_applied(
                    old(self).backend,
                    final(self).backend,
                    old(self)@.config,
                    status,
                    out,
                ) && final(self)@ == window_after_reapply(old(self)@, out),
            r == saved(TrayUpdate::Keep),
    {
        let ghost before = self@;
        let outcome = apply_config_to_hardware(&mut self.backend, &self.config, status);
        if outcome.battery.care.is_ok() {
            if let Ok(applied) = &outcome.battery.charge_limit {
                sync_config_after_apply(&mut self.config, *applied);
            }
        }
        let errors = apply_errors(&outcome);
        self.error_msg = if errors.as_str().is_empty() {
            None
        } else {
            Some(errors)
        };
        assert(self@ == window_after_reapply(before, outcome));
        assert(config_was_applied(
            old(self).backend,
            self.backend,
            before.config,
            status,
            outcome,
        ));
        save_effect(TrayUpdate::Keep)
    }

    /// Reads mode, care and limit from the hardware. What cannot be read stays as it is
    /// shown, and the settings do not change.
    pub fn refresh_from_backend(&mut self)
        ensures
            was_refreshed(
                old(self).backend,
                final(self).backend,
                shown_values(old(self)@),
                shown_values(final(self)@),
            ),
            final(self)@ == (XiaomiAppView {
                performance_mode: final(self)@.performance_mode,
                battery_care_enabled: final(self)@.battery_care_enabled,
                charge_limit: final(self)@.charge_limit,
                ..old(self)@
            }),
    {
        let shown = (self.performance_mode, self.battery_care_enabled, self.charge_limit);
        let (mode, care, limit) = refresh(&mut self.backend, shown);
        self.performance_mode = mode;
        self.battery_care_enabled = care;
        self.charge_limit = limit;
    }

    /// Takes a WMI backend that has become available after all, and shows what it reads.
    /// Says whether it did: if the user has meanwhile chosen another kind of backend, it is
    /// dropped unused.
    pub fn take_wmi(&mut self, backend: BoxedBackend) -> (r: bool)
        ensures
            r == (old(self)@.config.backend == BackendPreference::Wmi),
            !r ==> final(self)@ == old(self)@ && final(self).backend == old(self).backend,
            r ==> {
                &&& backend.device().named(final(self)@.backend_name)
                &&& was_refreshed(
                    backend,
                    final(self).backend,
                    shown_values(old(self)@),
                    shown_values(final(self)@),
                )
                &&& final(self)@ == (XiaomiAppView {
                    backend_name: final(self)@.backend_name,
                    performance_mode: final(self)@.performance_mode,
                    battery_care_enabled: final(self)@.battery_care_enabled,
                    charge_limit: final(self)@.charge_limit,
                    ..old(self)@
                })
            },
    {
        if self.config.backend != BackendPreference::Wmi {
            return false;
        }
        self.backend_name = text::copy_str(backend.name());
        self.backend = backend;
        self.refresh_from_backend();
        true
    }

    /// Chooses a backend: the choice holds from the next start on.
    pub fn choose_backend(&mut self, pref: BackendPreference) -> (r: Effect)
        ensures
            final(self)@ == (XiaomiAppView {
                config: AppConfigView { backend: pref, ..old(self)@.config },
                ..old(self)@
            }),
            final(self).backend == old(self).backend,
            r == saved(TrayUpdate::Keep),
    {
        self.config.backend = pref;
        save_effect(TrayUpdate::Keep)
    }

    /// Chooses whether the settings are written to the hardware at start-up.
    pub fn choose_auto_apply(&mut self, enabled: bool) -> (r: Effect)
        ensures
            final(self)@ == (XiaomiAppView {
                config: AppConfigView { auto_apply_on_startup: enabled, ..old(self)@.config },
                ..old(self)@
            }),
            final(self).backend == old(self).backend,
            r == saved(TrayUpdate::Keep),
    {
        self.config.auto_apply_on_startup = enabled;
        save_effect(TrayUpdate::Keep)
    }

    /// Chooses whether they are written again when the power supply changes.
    pub fn choose_auto_reapply(&mut self, enabled: bool) -> (r: Effect)
        ensures
            final(self)@ == (XiaomiAppView {
                config: AppConfigView { auto_reapply_on_power_change: enabled, ..old(self)@.config },
                ..old(self)@
            }),
            final(self).backend == old(self).backend,
            r == saved(TrayUpdate::Keep),
    {
        self.config.auto_reapply_on_power_change = enabled;
        save_effect(TrayUpdate::Keep)
    }

    /// Turns to a page.
    pub fn choose_tab(&mut self, tab: Tab)
        ensures
            final(self)@ == (XiaomiAppView { active_tab: tab, ..old(self)@ }),
            final(self).backend == old(self).backend,
    {
        self.active_tab = tab;
    }

    /// The line that says whether battery care is on.
    pub fn care_line(&self) -> (r: String)
        ensures
            r@ == "电池养护: "@ + care_word(self@.battery_care_enabled),
    {
        let mut out = text::copy_str("电池养护: ");
        out.append(care_label(self.battery_care_enabled));
        out
    }

    /// The line that says what the charge limit is.
    pub fn limit_line(&self) -> (r: String)
        ensures
            r@ == "充电上限: "@ + text::decimal(self@.charge_limit as nat) + "%"@,
    {
        let mut out = text::copy_str("充电上限: ");
        text::push_decimal(&mut out, self.charge_limit as u64);
        out.append("%");
        out
    }

    /// Whether the button of a mode is shown as pressed.
    pub fn is_selected(&self, mode: PerfMode) -> (r: bool)
        ensures
            r == (mode_code(mode) == self@.performance_mode),
    {
        mode.ec_value() == self.performance_mode
    }
}

/// How many buttons stand in a row.
pub const MODE_COLUMNS: usize = 3;

/// Whether a row of buttons ends after the button with the number `i`, counted from zero.
pub fn ends_row(i: usize) -> (r: bool)
    requires
        i < usize::MAX,
    ensures
        r == ((i + 1) % (MODE_COLUMNS as int) == 0),
{
    (i + 1) % MODE_COLUMNS == 0
}

// ── Laws ──

/// Toggling battery care twice leaves the window as it was, if settings and display agree
/// on it.
pub proof fn law_toggling_twice_restores(w: XiaomiAppView)
    requires
        w.config.battery_care_enabled == w.battery_care_enabled,
    ensures
        w.with_care(!w.battery_care_enabled).with_care(
            !w.with_care(!w.battery_care_enabled).battery_care_enabled,
        ) == w,
{
}

proof fn lemma_position_of(code: u8)
    ensures
        position_of(code, 0) == if code == 0x02 {
            1int
        } else if code == 0x09 {
            2
        } else if code == 0x03 {
            3
        } else if code == 0x04 {
            4
        } else {
            0
        },
{
    assert(position_of(code, 5) == 0);
    assert(position_of(code, 4) == if code == 0x04 {
        4int
    } else {
        0
    });
    assert(position_of(code, 3) == if code == 0x03 {
        3int
    } else {
        position_of(code, 4)
    });
    assert(position_of(code, 2) == if code == 0x09 {
        2int
    } else {
        position_of(code, 3)
    });
    assert(position_of(code, 1) == if code == 0x02 {
        1int
    } else {
        position_of(code, 2)
    });
}

proof fn lemma_next_code(code: u8)
    ensures
        next_code(code) == if code == 0x02 {
            0x09u8
        } else if code == 0x09 {
            0x03
        } else if code == 0x03 {
            0x04
        } else if code == 0x04 {
            0x0A
        } else {
            0x02
        },
{
    lemma_position_of(code);
    assert(all_modes().len() == 5);
    let at = position_of(code, 0);
    assert(at == 4 ==> (at + 1) % 5 == 0);
    assert(at < 4 ==> (at + 1) % 5 == at + 1);
}

/// Five steps lead through all modes and back, from every mode.
pub proof fn law_five_steps_close(mode: PerfMode)
    ensures
        next_code(next_code(next_code(next_code(next_code(mode_code(mode)))))) == mode_code(mode),
{
    lemma_next_code(0x0A);
    lemma_next_code(0x02);
    lemma_next_code(0x09);
    lemma_next_code(0x03);
    lemma_next_code(0x04);
}

/// A step always leads to a mode that there is, also from an unknown code.
pub proof fn law_step_leads_to_a_mode(code: u8)
    ensures
        crate::app::performance::mode_of_code(next_code(code)) is Some,
        crate::app::performance::mode_of_code(code) is None ==> next_code(code) == mode_code(
            PerfMode::Quiet,
        ),
{
    lemma_next_code(code);
}

/// A command leaves settings and display in agreement.
pub proof fn law_settings_and_display_agree(before: XiaomiAppView, cmd: UiCommand)
    requires
        before.config.battery_care_enabled == before.battery_care_enabled,
        before.config.performance_mode == before.performance_mode,
    ensures
        window_after(before, cmd).config.battery_care_enabled == window_after(
            before,
            cmd,
        ).battery_care_enabled,
        window_after(before, cmd).config.performance_mode == window_after(
            before,
            cmd,
        ).performance_mode,
{
}

/// The configuration is saved exactly by the commands that change it.
pub proof fn law_saved_if_changed(before: XiaomiAppView, cmd: UiCommand)
    ensures
        window_after(before, cmd).config != before.config ==> effect_of(before, cmd).save,
        effect_of(before, cmd).save <==> cmd is ToggleBatteryCare || cmd is CyclePerfMode
            || cmd is SetPerfMode,
{
}

/// A change of the power supply writes nothing to the hardware unless the user wants that,
/// and then every setting once.
pub proof fn law_reapplied_only_if_wanted(before: XiaomiAppView)
    ensures
        !before.config.auto_reapply_on_power_change ==> writes_for(
            before,
            UiCommand::ReapplyConfig,
        ).len() == 0,
        before.config.auto_reapply_on_power_change ==> writes_for(before, UiCommand::ReapplyConfig)
            == reapplied(before.config),
{
}

/// A step of the window leads from each mode to the next one of Eco, Quiet, Smart, Fast and
/// Extreme, and from the last to the first; an unknown code counts as Eco.
pub proof fn law_steps_of_the_window(code: u8, r: u8)
    requires
        call_ensures(next_mode_code, (code,), r),
    ensures
        code == 0x0A ==> r == 0x02,
        code == 0x02 ==> r == 0x09,
        code == 0x09 ==> r == 0x03,
        code == 0x03 ==> r == 0x04,
        code == 0x04 ==> r == 0x0A,
        !(code == 0x0A || code == 0x02 || code == 0x09 || code == 0x03 || code == 0x04) ==> r
            == 0x02,
{
    lemma_next_code(code);
}

/// Turning care over writes to the hardware what is stored, shown and sent to the tray
/// afterwards, which is the opposite of what was shown before.
pub proof fn law_window_toggles_care(app: &mut XiaomiApp, r: Effect)
    requires
        call_ensures(XiaomiApp::process_command, (app, UiCommand::ToggleBatteryCare), r),
    ensures
        final(app).battery_care_enabled != old(app).battery_care_enabled,
        final(app).config.battery_care_enabled == final(app).battery_care_enabled,
        grew_by_one(old(app).backend, final(app).backend),
        final(app).backend.log().last() matches Access::SetCare(written, _) && written
            == final(app).battery_care_enabled,
        r == (Effect {
            window: WindowAction::Keep,
            tray: TrayUpdate::Care(final(app).battery_care_enabled),
            save: true,
        }),
        final(app)@ == (XiaomiAppView {
            config: AppConfigView {
                battery_care_enabled: final(app).battery_care_enabled,
                ..old(app)@.config
            },
            battery_care_enabled: final(app).battery_care_enabled,
            ..old(app)@
        }),
{
    let before = old(app).backend;
    let after = final(app).backend;
    let list = writes_for(old(app)@, UiCommand::ToggleBatteryCare);
    law_each_setting_reaches_the_backend(before, after, list, 0);
    assert(after.log().drop_last() =~= before.log());
    assert(final(app)@.config.battery_care_enabled == final(app).config.battery_care_enabled);
    assert(final(app)@.battery_care_enabled == final(app).battery_care_enabled);
}

/// Switching the mode writes to the hardware what is stored, shown and sent to the tray
/// afterwards: the mode that was asked for, or the one after the mode that was shown.
pub proof fn law_window_switches_the_mode(app: &mut XiaomiApp, cmd: UiCommand, r: Effect)
    requires
        call_ensures(XiaomiApp::process_command, (app, cmd), r),
        cmd is SetPerfMode || cmd is CyclePerfMode,
    ensures
        cmd matches UiCommand::SetPerfMode(mode) ==> final(app).performance_mode == mode,
        cmd is CyclePerfMode && old(app).performance_mode == 0x0A ==> final(app).performance_mode
            == 0x02,
        cmd is CyclePerfMode && old(app).performance_mode == 0x02 ==> final(app).performance_mode
            == 0x09,
        cmd is CyclePerfMode && old(app).performance_mode == 0x09 ==> final(app).performance_mode
            == 0x03,
        cmd is CyclePerfMode && old(app).performance_mode == 0x03 ==> final(app).performance_mode
            == 0x04,
        cmd is CyclePerfMode && old(app).performance_mode == 0x04 ==> final(app).performance_mode
            == 0x0A,
        final(app).config.performance_mode == final(app).performance_mode,
        grew_by_one(old(app).backend, final(app).backend),
        final(app).backend.log().last() matches Access::SetMode(written, _) && written
            == final(app).performance_mode,
        r == (Effect {
            window: WindowAction::Keep,
            tray: TrayUpdate::Mode(final(app).performance_mode),
            save: true,
        }),
        final(app)@ == (XiaomiAppView {
            config: AppConfigView {
                performance_mode: final(app).performance_mode,
                ..old(app)@.config
            },
            performance_mode: final(app).performance_mode,
            ..old(app)@
        }),
{
    let before = old(app).backend;
    let after = final(app).backend;
    lemma_next_code(old(app).performance_mode);
    law_each_setting_reaches_the_backend(before, after, writes_for(old(app)@, cmd), 0);
    assert(after.log().drop_last() =~= before.log());
    assert(final(app)@.config.performance_mode == final(app).config.performance_mode);
    assert(final(app)@.performance_mode == final(app).performance_mode);
}

/// After a change of the power supply care, limit and mode are written as they are stored, if
/// the user wants that, and otherwise nothing is. Settings and display stay as they are.
pub proof fn law_window_reapplies_the_stored_settings(app: &mut XiaomiApp, r: Effect)
    requires
        call_ensures(XiaomiApp::process_command, (app, UiCommand::ReapplyConfig), r),
    ensures
        final(app)@ == old(app)@,
        r == (Effect { window: WindowAction::Keep, tray: TrayUpdate::Keep, save: false }),
        ({
            let n = old(app).backend.log().len() as int;
            let log = final(app).backend.log();
            let stored = old(app).config;
            &&& log.take(n) == old(app).backend.log()
            &&& !stored.auto_reapply_on_power_change ==> log.len() == n
            &&& stored.auto_reapply_on_power_change ==> {
                &&& log.len() == n + 3
                &&& log[n] matches Access::SetCare(care, _) && care == stored.battery_care_enabled
                &&& log[n + 1] matches Access::SetLimit(limit, _) && limit
                    == stored.battery_charge_limit
                &&& log[n + 2] matches Access::SetMode(mode, _) && mode == stored.performance_mode
            }
        }),
{
    let before = old(app).backend;
    let after = final(app).backend;
    let list = writes_for(old(app)@, UiCommand::ReapplyConfig);
    if old(app).config.auto_reapply_on_power_change {
        law_each_setting_reaches_the_backend(before, after, list, 0);
        law_each_setting_reaches_the_backend(before, after, list, 1);
        law_each_setting_reaches_the_backend(before, after, list, 2);
    } else {
        law_nothing_written_nothing_recorded(before, after);
        assert(after.log().take(after.log().len() as int) =~= after.log());
    }
}

/// The commands about the window touch nothing but the window, each in its own way.
pub proof fn law_window_commands(app: &mut XiaomiApp, cmd: UiCommand, r: Effect)
    requires
        call_ensures(XiaomiApp::process_command, (app, cmd), r),
        cmd is ToggleWindow || cmd is ShowWindow || cmd is Quit || cmd is RefreshStatus,
    ensures
        final(app)@ == old(app)@,
        final(app).backend.log() == old(app).backend.log(),
        !r.save,
        r.tray == TrayUpdate::Keep,
        cmd is ToggleWindow ==> r.window == WindowAction::ToggleVisible,
        cmd is ShowWindow ==> r.window == WindowAction::Show,
        cmd is Quit ==> r.window == WindowAction::Close,
        cmd is RefreshStatus ==> r.window == WindowAction::Keep,
{
    law_nothing_written_nothing_recorded(old(app).backend, final(app).backend);
}

/// A box that is ticked, a slider that is moved and a button that is pressed hand their value
/// to the hardware, as it is, and the same value is stored and shown. It is saved.
pub proof fn law_controls_write_what_they_show(
    a: &mut XiaomiApp,
    enabled: bool,
    x: Effect,
    b: &mut XiaomiApp,
    limit: u8,
    y: Effect,
    c: &mut XiaomiApp,
    mode: u8,
    z: Effect,
)
    requires
        call_ensures(XiaomiApp::set_care, (a, enabled), x),
        call_ensures(XiaomiApp::set_limit, (b, limit), y),
        call_ensures(XiaomiApp::set_mode, (c, mode), z),
    ensures
        grew_by_one(old(a).backend, final(a).backend),
        grew_by_one(old(b).backend, final(b).backend),
        grew_by_one(old(c).backend, final(c).backend),
        final(a).backend.log().last() matches Access::SetCare(written, _) && written == enabled,
        final(b).backend.log().last() matches Access::SetLimit(written, _) && written == limit,
        final(c).backend.log().last() matches Access::SetMode(written, _) && written == mode,
        final(a)@ == (XiaomiAppView {
            config: AppConfigView { battery_care_enabled: enabled, ..old(a)@.config },
            battery_care_enabled: enabled,
            ..old(a)@
        }),
        final(b)@ == (XiaomiAppView {
            config: AppConfigView { battery_charge_limit: limit, ..old(b)@.config },
            charge_limit: limit,
            ..old(b)@
        }),
        final(c)@ == (XiaomiAppView {
            config: AppConfigView { performance_mode: mode, ..old(c)@.config },
            performance_mode: mode,
            ..old(c)@
        }),
        x.save && y.save && z.save,
        x.tray == TrayUpdate::Care(enabled),
        y.tray == TrayUpdate::Keep,
        z.tray == TrayUpdate::Mode(mode),
{
    law_each_setting_reaches_the_backend(
        old(a).backend,
        final(a).backend,
        seq![HardwareWrite::Care(enabled)],
        0,
    );
    law_each_setting_reaches_the_backend(
        old(b).backend,
        final(b).backend,
        seq![HardwareWrite::Limit(limit)],
        0,
    );
    law_each_setting_reaches_the_backend(
        old(c).backend,
        final(c).backend,
        seq![HardwareWrite::Mode(mode)],
        0,
    );
    assert(final(a).backend.log().drop_last() =~= old(a).backend.log());
    assert(final(b).backend.log().drop_last() =~= old(b).backend.log());
    assert(final(c).backend.log().drop_last() =~= old(c).backend.log());
}

/// A refresh asks for the mode, for care and for the limit, in this order and nothing else.
/// Each value that was read is the one shown, in its place, and one that could not be read
/// is shown as before. The settings stay.
pub proof fn law_refresh_shows_what_was_read(app: &mut XiaomiApp, r: ())
    requires
        call_ensures(XiaomiApp::refresh_from_backend, (app,), r),
    ensures
        final(app)@.config == old(app)@.config,
        final(app)@.backend_name == old(app)@.backend_name,
        final(app)@.error_msg == old(app)@.error_msg,
        final(app)@.active_tab == old(app)@.active_tab,
        ({
            let n = old(app).backend.log().len() as int;
            let log = final(app).backend.log();
            &&& log.len() == n + 3
            &&& log.take(n) == old(app).backend.log()
            &&& log[n] matches Access::GetMode(mode) && final(app).performance_mode == match mode {
                Ok(mode) => mode,
                Err(_) => old(app).performance_mode,
            }
            &&& log[n + 1] matches Access::GetCare(care) && final(app).battery_care_enabled
                == match care {
                Ok(care) => care,
                Err(_) => old(app).battery_care_enabled,
            }
            &&& log[n + 2] matches Access::GetLimit(limit) && final(app).charge_limit
                == match limit {
                Ok(limit) => limit,
                Err(_) => old(app).charge_limit,
            }
        }),
{
    let before = old(app).backend;
    let after = final(app).backend;
    let shown = shown_values(old(app)@);
    let now = shown_values(final(app)@);
    let (mode, care, limit) = choose|
        mode: Result<u8, EcError>,
        care: Result<bool, EcError>,
        limit: Result<u8, EcError>,
    |
        recorded(before, after, #[trigger] refresh_accesses(mode, care, limit)) && now == (
            shown_after(shown.0, mode),
            shown_after(shown.1, care),
            shown_after(shown.2, limit),
        );
    assert(after.log().take(before.log().len() as int) =~= before.log());
    assert(now.0 == final(app).performance_mode && now.1 == final(app).battery_care_enabled
        && now.2 == final(app).charge_limit);
}

/// A backend that has become available is taken exactly if the user wants WMI. Then it is the
/// one in use and it was read; otherwise everything stays.
pub proof fn law_wmi_is_taken_if_wanted(app: &mut XiaomiApp, backend: BoxedBackend, r: bool)
    requires
        call_ensures(XiaomiApp::take_wmi, (app, backend), r),
    ensures
        r <==> old(app).config.backend == BackendPreference::Wmi,
        r ==> final(app).backend.device() == backend.device() && backend.device().named(
            final(app).backend_name@,
        ),
        r ==> final(app).backend.log().len() == backend.log().len() + 3,
        !r ==> final(app)@ == old(app)@ && final(app).backend == old(app).backend,
        final(app)@.config == old(app)@.config,
{
    if r {
        let shown = shown_values(old(app)@);
        let now = shown_values(final(app)@);
        assert(was_refreshed(backend, final(app).backend, shown, now));
        assert(final(app)@.backend_name == final(app).backend_name@);
    }
}

/// Writing the settings because the user asked for it: the limit in force, if limit and care
/// were both written, is taken over as care (below 100%) and as the limit; the mode and the
/// rest stay. The errors are shown, and no error clears what was shown.
pub proof fn law_manual_reapply(w: XiaomiAppView, out: ApplyOutcome)
    ensures
        ({
            let after = window_after_reapply(w, out);
            let both = out.battery.charge_limit is Ok && out.battery.care is Ok;
            let limit = out.battery.charge_limit->Ok_0;
            let failed = out.battery.charge_limit is Err || out.battery.care is Err || out.perf
                is Err;
            &&& both ==> after.config.battery_care_enabled == (limit < 100)
            &&& both && limit < 100 ==> after.config.battery_charge_limit == limit
            &&& both && limit >= 100 ==> after.config.battery_charge_limit
                == w.config.battery_charge_limit
            &&& !both ==> after.config == w.config
            &&& after.config.performance_mode == w.config.performance_mode
            &&& failed ==> after.error_msg == Some(joined_errors(failed_fields(out)))
            &&& !failed ==> after.error_msg is None
            &&& after == (XiaomiAppView {
                config: after.config,
                error_msg: after.error_msg,
                ..w
            })
        }),
{
    law_errors_have_words(failed_fields(out));
    law_no_errors_means_all_written(out);
}

/// A choice among the settings is stored and saved; it changes nothing else and asks nothing
/// of the hardware.
pub proof fn law_choices_are_stored(
    a: &mut XiaomiApp,
    pref: BackendPreference,
    x: Effect,
    b: &mut XiaomiApp,
    apply: bool,
    y: Effect,
    c: &mut XiaomiApp,
    reapply: bool,
    z: Effect,
)
    requires
        call_ensures(XiaomiApp::choose_backend, (a, pref), x),
        call_ensures(XiaomiApp::choose_auto_apply, (b, apply), y),
        call_ensures(XiaomiApp::choose_auto_reapply, (c, reapply), z),
    ensures
        final(a)@ == (XiaomiAppView {
            config: AppConfigView { backend: pref, ..old(a)@.config },
            ..old(a)@
        }),
        final(b)@ == (XiaomiAppView {
            config: AppConfigView { auto_apply_on_startup: apply, ..old(b)@.config },
            ..old(b)@
        }),
        final(c)@ == (XiaomiAppView {
            config: AppConfigView { auto_reapply_on_power_change: reapply, ..old(c)@.config },
            ..old(c)@
        }),
        final(a).backend == old(a).backend,
        final(b).backend == old(b).backend,
        final(c).backend == old(c).backend,
        x.save && y.save && z.save,
{
}

/// What the window shows of its state: the word for care, the limit in base ten, and one
/// pressed button, that of the shown mode.
pub proof fn law_lines_show_the_state(
    app: XiaomiApp,
    care: String,
    limit: String,
    mode: PerfMode,
    selected: bool,
)
    requires
        call_ensures(XiaomiApp::care_line, (&app,), care),
        call_ensures(XiaomiApp::limit_line, (&app,), limit),
        call_ensures(XiaomiApp::is_selected, (&app, mode), selected),
    ensures
        app.battery_care_enabled ==> care@ == "电池养护: "@ + "开启"@,
        !app.battery_care_enabled ==> care@ == "电池养护: "@ + "关闭"@,
        limit@ == "充电上限: "@ + text::decimal(app.charge_limit as nat) + "%"@,
        mode == PerfMode::Eco ==> (selected <==> app.performance_mode == 0x0A),
        mode == PerfMode::Quiet ==> (selected <==> app.performance_mode == 0x02),
        mode == PerfMode::Smart ==> (selected <==> app.performance_mode == 0x09),
        mode == PerfMode::Fast ==> (selected <==> app.performance_mode == 0x03),
        mode == PerfMode::Extreme ==> (selected <==> app.performance_mode == 0x04),
{
}

/// A new window shows what the settings say.
pub proof fn law_new_window_shows_the_settings(backend: BoxedBackend, config: AppConfig, r: XiaomiApp)
    requires
        call_ensures(XiaomiApp::new, (backend, config), r),
    ensures
        r.backend == backend,
        r@.config == config@,
        r.battery_care_enabled == config.battery_care_enabled,
        r.charge_limit == config.battery_charge_limit,
        r.performance_mode == config.performance_mode,
        r.error_msg is None,
        r.active_tab == Tab::Power,
{
    assert(r@.battery_care_enabled == r.battery_care_enabled);
}

/// A row of buttons has three.
pub proof fn law_three_buttons_in_a_row(i: usize, r: bool)
    requires
        call_ensures(ends_row, (i,), r),
    ensures
        r <==> i % 3 == 2,
{
}

/// Writing the settings because the user asked for it: the record of the hardware holds the
/// stored care setting and, at last, the mode. It is saved, and the tray stays.
pub proof fn law_manual_reapply_is_recorded(app: &mut XiaomiApp, status: PowerStatus, r: Effect)
    requires
        call_ensures(XiaomiApp::reapply_now, (app, status), r),
    ensures
        ({
            let n = old(app).backend.log().len() as int;
            let log = final(app).backend.log();
            &&& log.take(n) == old(app).backend.log()
            &&& log.len() == n + 3 || log.len() == n + 4
            &&& log[n] is SetLimit
            &&& log[n + 1] matches Access::SetCare(care, _) && care
                == old(app).config.battery_care_enabled
            &&& log.last() matches Access::SetMode(mode, _) && (status != PowerStatus::OnBattery
                ==> mode == old(app).config.performance_mode)
        }),
        r == (Effect { window: WindowAction::Keep, tray: TrayUpdate::Keep, save: true }),
        final(app)@.config.performance_mode == old(app)@.config.performance_mode,
        final(app)@.config.backend == old(app)@.config.backend,
        final(app)@.active_tab == old(app)@.active_tab,
{
    let before = old(app).backend;
    let after = final(app).backend;
    let w = old(app)@;
    let out = choose|out: ApplyOutcome| #[trigger]
        config_was_applied(before, after, w.config, status, out) && final(app)@
            == window_after_reapply(w, out);
    law_manual_reapply(w, out);
    let readback = choose|readback: Result<u8, EcError>|
        recorded(before, after, #[trigger] config_accesses(w.config, out, readback));
    let n = before.log().len() as int;
    assert(after.log().take(n) =~= before.log());
    assert(after.log().last() == config_accesses(w.config, out, readback).last());
}

/// Turning to a page shows that page and changes nothing else.
pub proof fn law_pages(app: &mut XiaomiApp, tab: Tab, r: ())
    requires
        call_ensures(XiaomiApp::choose_tab, (app, tab), r),
    ensures
        final(app).active_tab == tab,
        final(app).backend == old(app).backend,
        final(app)@ == (XiaomiAppView { active_tab: tab, ..old(app)@ }),
{
    assert(final(app)@.active_tab == final(app).active_tab);
}

/// The view of a window shows all of its state but the backend.
pub proof fn law_view_of_the_window(app: XiaomiApp)
    ensures
        app@.config == app.config@,
        app@.backend_name == app.backend_name@,
        app@.battery_care_enabled == app.battery_care_enabled,
        app@.charge_limit == app.charge_limit,
        app@.performance_mode == app.performance_mode,
        app.error_msg is Some <==> app@.error_msg is Some,
        app.error_msg is Some ==> app@.error_msg->0 == app.error_msg->0@,
        app@.active_tab == app.active_tab,
{
}

} // verus!
