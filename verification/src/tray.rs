//! The tray: what its menu entries do, and what the messages of the system mean.

use crate::app::config::AppConfigView;
use crate::app::hardware::{
    law_each_setting_reaches_the_backend, law_nothing_written_nothing_recorded,
    lemma_wrote_nothing, wrote, Access, HardwareWrite,
};
use crate::app::performance::{mode_code, PerfMode};
use crate::commands::{choose_mode, grew_by_one, toggle_care, AppState};
use crate::text;
use vstd::prelude::*;

verus! {

/// What a menu entry does.
#[derive(Debug, Clone, Copy, PartialEq, Eq, Structural)]
pub enum TrayAction {
    /// Turn battery care on or off.
    ToggleCare,
    /// Show or hide the window.
    ToggleWindow,
    /// Switch to a performance mode.
    SetMode(PerfMode),
    /// Nothing.
    Ignore,
}

/// The entries of the menu and what they do.
pub open spec fn action_of(id: Seq<char>) -> TrayAction {
    if id == "battery_care"@ {
        TrayAction::ToggleCare
    } else if id == "show_hide"@ {
        TrayAction::ToggleWindow
    } else if id == "perf_eco"@ {
        TrayAction::SetMode(PerfMode::Eco)
    } else if id == "perf_quiet"@ {
        TrayAction::SetMode(PerfMode::Quiet)
    } else if id == "perf_smart"@ {
        TrayAction::SetMode(PerfMode::Smart)
    } else if id == "perf_fast"@ {
        TrayAction::SetMode(PerfMode::Fast)
    } else if id == "perf_extreme"@ {
        TrayAction::SetMode(PerfMode::Extreme)
    } else {
        TrayAction::Ignore
    }
}

/// What the menu entry with an identifier does.
pub fn tray_action(id: &str) -> (r: TrayAction)
    ensures
        r == action_of(id@),
{
    if text::str_eq(id, "battery_care") {
        TrayAction::ToggleCare
    } else if text::str_eq(id, "show_hide") {
        TrayAction::ToggleWindow
    } else if text::str_eq(id, "perf_eco") {
        TrayAction::SetMode(PerfMode::Eco)
    } else if text::str_eq(id, "perf_quiet") {
        TrayAction::SetMode(PerfMode::Quiet)
    } else if text::str_eq(id, "perf_smart") {
        TrayAction::SetMode(PerfMode::Smart)
    } else if text::str_eq(id, "perf_fast") {
        TrayAction::SetMode(PerfMode::Fast)
    } else if text::str_eq(id, "perf_extreme") {
        TrayAction::SetMode(PerfMode::Extreme)
    } else {
        TrayAction::Ignore
    }
}

/// What is to be done after a menu entry was chosen.
#[derive(Debug, Clone, Copy, PartialEq, Eq, Structural)]
pub enum TrayEffect {
    /// Save the configuration, and tick the entry for battery care accordingly.
    SaveAndTick(bool),
    /// Save the configuration.
    Save,
    /// Show or hide the window.
    ToggleWindow,
    /// Nothing.
    Nothing,
}

/// The settings that a menu entry writes to the hardware.
pub open spec fn tray_writes(config: AppConfigView, action: TrayAction) -> Seq<HardwareWrite> {
    match action {
        TrayAction::ToggleCare => seq![HardwareWrite::Care(!config.battery_care_enabled)],
        TrayAction::SetMode(mode) => seq![HardwareWrite::Mode(mode_code(mode))],
        TrayAction::ToggleWindow => Seq::empty(),
        TrayAction::Ignore => Seq::empty(),
    }
}

/// The settings after a menu entry.
pub open spec fn config_after(config: AppConfigView, action: TrayAction) -> AppConfigView {
    match action {
        TrayAction::ToggleCare => AppConfigView {
            battery_care_enabled: !config.battery_care_enabled,
            ..config
        },
        TrayAction::SetMode(mode) => AppConfigView { performance_mode: mode_code(mode), ..config },
        TrayAction::ToggleWindow => config,
        TrayAction::Ignore => config,
    }
}

/// Does what a menu entry says.
pub fn handle_tray_event(state: &mut AppState, id: &str) -> (r: TrayEffect)
    ensures
        wrote(
            old(state).backend,
            final(state).backend,
            tray_writes(old(state).config@, action_of(id@)),
        ),
        final(state).config@ == config_after(old(state).config@, action_of(id@)),
        r == match action_of(id@) {
            TrayAction::ToggleCare => TrayEffect::SaveAndTick(
                !old(state).config.battery_care_enabled,
            ),
            TrayAction::SetMode(_) => TrayEffect::Save,
            TrayAction::ToggleWindow => TrayEffect::ToggleWindow,
            TrayAction::Ignore => TrayEffect::Nothing,
        },
        id@ == "battery_care"@ ==> {
            &&& final(state).config.battery_care_enabled != old(state).config.battery_care_enabled
            &&& wrote(
                old(state).backend,
                final(state).backend,
                seq![HardwareWrite::Care(final(state).config.battery_care_enabled)],
            )
            &&& r == TrayEffect::SaveAndTick(final(state).config.battery_care_enabled)
        },
        action_of(id@) is SetMode ==> wrote(
            old(state).backend,
            final(state).backend,
            seq![HardwareWrite::Mode(final(state).config.performance_mode)],
        ),
{
    proof {
        lemma_wrote_nothing(state.backend);
    }
    match tray_action(id) {
        TrayAction::ToggleCare => TrayEffect::SaveAndTick(toggle_care(state)),
        TrayAction::SetMode(mode) => {
            choose_mode(state, mode.ec_value());
            TrayEffect::Save
        },
        TrayAction::ToggleWindow => TrayEffect::ToggleWindow,
        TrayAction::Ignore => TrayEffect::Nothing,
    }
}

// ── Messages of the system ──

/// The message that a hotkey was pressed.
pub const WM_HOTKEY: u32 = 0x0312;

/// The message that something about the power supply has happened.
pub const WM_POWERBROADCAST: u32 = 0x0218;

/// What has happened: its state has changed.
pub const PBT_APMPOWERSTATUSCHANGE: usize = 0x0018;

/// The number of the hotkey for battery care.
pub const HOTKEY_TOGGLE_BATTERY: i32 = 1;

/// The number of the hotkey for the performance mode.
pub const HOTKEY_CYCLE_PERF: i32 = 2;

/// The event that a hotkey raises.
pub open spec fn event_of_hotkey(id: i32) -> Option<Seq<char>> {
    if id == HOTKEY_TOGGLE_BATTERY {
        Some("hotkey-toggle-battery-care"@)
    } else if id == HOTKEY_CYCLE_PERF {
        Some("hotkey-cycle-perf-mode"@)
    } else {
        None
    }
}

/// The name of the event that a hotkey raises, if it is one of ours.
pub fn hotkey_event(id: i32) -> (r: Option<&'static str>)
    ensures
        match r {
            Some(s) => event_of_hotkey(id) == Some(s@),
            None => event_of_hotkey(id) is None,
        },
{
    if id == HOTKEY_TOGGLE_BATTERY {
        Some("hotkey-toggle-battery-care")
    } else if id == HOTKEY_CYCLE_PERF {
        Some("hotkey-cycle-perf-mode")
    } else {
        None
    }
}

/// What a message about the power supply asks for.
#[derive(Debug, Clone, Copy, PartialEq, Eq, Structural)]
pub enum PowerMessage {
    /// Write the configuration to the hardware again, and answer one.
    Reapply,
    /// Answer one.
    Acknowledge,
    /// It is not about the power supply: leave it to the system.
    Default,
}

/// What a message to the window for the power supply asks for.
pub fn power_message(msg: u32, wparam: usize) -> (r: PowerMessage)
    ensures
        r == if msg != WM_POWERBROADCAST {
            PowerMessage::Default
        } else if wparam == PBT_APMPOWERSTATUSCHANGE {
            PowerMessage::Reapply
        } else {
            PowerMessage::Acknowledge
        },
{
    if msg != WM_POWERBROADCAST {
        PowerMessage::Default
    } else if wparam == PBT_APMPOWERSTATUSCHANGE {
        PowerMessage::Reapply
    } else {
        PowerMessage::Acknowledge
    }
}

/// The identifier of the menu entry for a mode.
pub open spec fn id_of_mode(mode: PerfMode) -> Seq<char> {
    match mode {
        PerfMode::Eco => "perf_eco"@,
        PerfMode::Quiet => "perf_quiet"@,
        PerfMode::Smart => "perf_smart"@,
        PerfMode::Fast => "perf_fast"@,
        PerfMode::Extreme => "perf_extreme"@,
    }
}

/// Every performance mode has its menu entry, and choosing it switches to that mode.
pub proof fn law_every_mode_has_an_entry(mode: PerfMode)
    ensures
        action_of(id_of_mode(mode)) == TrayAction::SetMode(mode),
{
    reveal_strlit("battery_care");
    reveal_strlit("show_hide");
    reveal_strlit("perf_eco");
    reveal_strlit("perf_quiet");
    reveal_strlit("perf_smart");
    reveal_strlit("perf_fast");
    reveal_strlit("perf_extreme");
    let id = id_of_mode(mode);
    assert(id[0] == 'p' && "battery_care"@[0] == 'b' && "show_hide"@[0] == 's');
    assert("perf_eco"@[5] == 'e' && "perf_eco"@.len() == 8);
    assert("perf_quiet"@[5] == 'q');
    assert("perf_smart"@[5] == 's');
    assert("perf_fast"@[5] == 'f');
    assert("perf_extreme"@.len() == 12);
}

/// After the entry for battery care, the care setting that was written to the hardware is
/// the one that is stored, and it is the opposite of the one before. After an entry for a
/// mode, the code that was written is the one that is stored, and it is the code of that
/// mode. Nothing else is written or stored, and the other entries write and store nothing.
pub proof fn law_tray_writes_what_it_stores(config: AppConfigView, action: TrayAction)
    ensures
        ({
            let written = tray_writes(config, action);
            let stored = config_after(config, action);
            &&& action == TrayAction::ToggleCare ==> {
                &&& written.len() == 1
                &&& written[0] == HardwareWrite::Care(stored.battery_care_enabled)
                &&& stored.battery_care_enabled != config.battery_care_enabled
                &&& stored == (AppConfigView {
                    battery_care_enabled: stored.battery_care_enabled,
                    ..config
                })
            }
            &&& action matches TrayAction::SetMode(mode) ==> {
                &&& written.len() == 1
                &&& written[0] == HardwareWrite::Mode(stored.performance_mode)
                &&& mode == PerfMode::Eco ==> stored.performance_mode == 0x0A
                &&& mode == PerfMode::Quiet ==> stored.performance_mode == 0x02
                &&& mode == PerfMode::Smart ==> stored.performance_mode == 0x09
                &&& mode == PerfMode::Fast ==> stored.performance_mode == 0x03
                &&& mode == PerfMode::Extreme ==> stored.performance_mode == 0x04
                &&& stored == (AppConfigView {
                    performance_mode: stored.performance_mode,
                    ..config
                })
            }
            &&& action == TrayAction::ToggleWindow || action == TrayAction::Ignore ==> {
                &&& written.len() == 0
                &&& stored == config
            }
        }),
{
}

/// Choosing the entry for battery care twice leaves the settings as they were, and writes
/// one care setting and then the other.
pub proof fn law_care_entry_twice_restores(config: AppConfigView)
    ensures
        ({
            let once = config_after(config, TrayAction::ToggleCare);
            &&& config_after(once, TrayAction::ToggleCare) == config
            &&& tray_writes(once, TrayAction::ToggleCare)[0] == HardwareWrite::Care(
                config.battery_care_enabled,
            )
            &&& tray_writes(config, TrayAction::ToggleCare) != tray_writes(
                once,
                TrayAction::ToggleCare,
            )
        }),
{
    let once = config_after(config, TrayAction::ToggleCare);
    assert(tray_writes(config, TrayAction::ToggleCare)[0] != tray_writes(
        once,
        TrayAction::ToggleCare,
    )[0]);
}

/// An entry acts exactly under its own identifier, and any other identifier does nothing.
pub proof fn law_entries_by_identifier(id: &str, r: TrayAction)
    requires
        call_ensures(tray_action, (id,), r),
    ensures
        r == TrayAction::ToggleCare <==> id@ == "battery_care"@,
        r == TrayAction::ToggleWindow <==> id@ == "show_hide"@,
        r == TrayAction::SetMode(PerfMode::Eco) <==> id@ == "perf_eco"@,
        r == TrayAction::SetMode(PerfMode::Quiet) <==> id@ == "perf_quiet"@,
        r == TrayAction::SetMode(PerfMode::Smart) <==> id@ == "perf_smart"@,
        r == TrayAction::SetMode(PerfMode::Fast) <==> id@ == "perf_fast"@,
        r == TrayAction::SetMode(PerfMode::Extreme) <==> id@ == "perf_extreme"@,
{
    law_every_mode_has_an_entry(PerfMode::Eco);
    law_every_mode_has_an_entry(PerfMode::Quiet);
    law_every_mode_has_an_entry(PerfMode::Smart);
    law_every_mode_has_an_entry(PerfMode::Fast);
    law_every_mode_has_an_entry(PerfMode::Extreme);
    reveal_strlit("battery_care");
    reveal_strlit("show_hide");
    assert("battery_care"@[0] == 'b' && "show_hide"@[0] == 's');
}

/// The first hotkey is for battery care, the second for the mode, and no other number
/// raises an event.
pub proof fn law_two_hotkeys(id: i32, r: Option<&'static str>)
    requires
        call_ensures(hotkey_event, (id,), r),
    ensures
        id == 1 ==> (r matches Some(s) && s@ == "hotkey-toggle-battery-care"@),
        id == 2 ==> (r matches Some(s) && s@ == "hotkey-cycle-perf-mode"@),
        id != 1 && id != 2 ==> r is None,
{
}

/// The configuration is written again exactly at a change of the power supply; every other
/// message about it is acknowledged, and any other message is left to the system.
pub proof fn law_power_messages(msg: u32, wparam: usize, r: PowerMessage)
    requires
        call_ensures(power_message, (msg, wparam), r),
    ensures
        msg == 0x0218 && wparam == 0x0018 ==> r == PowerMessage::Reapply,
        msg == 0x0218 && wparam != 0x0018 ==> r == PowerMessage::Acknowledge,
        msg != 0x0218 ==> r == PowerMessage::Default,
{
}

/// The entry for battery care turns care over: the record of the hardware has one new entry,
/// which hands it the care setting that is stored afterwards. That is the opposite of the one
/// before, the menu shows it, and no other setting is changed.
pub proof fn law_care_entry(state: &mut AppState, id: &str, r: TrayEffect)
    requires
        call_ensures(handle_tray_event, (state, id), r),
        id@ == "battery_care"@,
    ensures
        grew_by_one(old(state).backend, final(state).backend),
        final(state).backend.log().last() matches Access::SetCare(written, _) && written
            == final(state).config.battery_care_enabled,
        final(state).config.battery_care_enabled != old(state).config.battery_care_enabled,
        final(state).config@ == (AppConfigView {
            battery_care_enabled: final(state).config.battery_care_enabled,
            ..old(state).config@
        }),
        r == TrayEffect::SaveAndTick(final(state).config.battery_care_enabled),
{
    let before = old(state).backend;
    let after = final(state).backend;
    law_each_setting_reaches_the_backend(
        before,
        after,
        seq![HardwareWrite::Care(final(state).config.battery_care_enabled)],
        0,
    );
    assert(after.log().drop_last() =~= before.log());
}

/// The entry for a mode switches to it: the record of the hardware has one new entry, which
/// hands it the code that is stored afterwards, the code of that mode. No other setting is
/// changed.
pub proof fn law_mode_entry(state: &mut AppState, id: &str, mode: PerfMode, r: TrayEffect)
    requires
        call_ensures(handle_tray_event, (state, id), r),
        id@ == id_of_mode(mode),
    ensures
        grew_by_one(old(state).backend, final(state).backend),
        final(state).backend.log().last() matches Access::SetMode(written, _) && written
            == final(state).config.performance_mode,
        mode == PerfMode::Eco ==> final(state).config.performance_mode == 0x0A,
        mode == PerfMode::Quiet ==> final(state).config.performance_mode == 0x02,
        mode == PerfMode::Smart ==> final(state).config.performance_mode == 0x09,
        mode == PerfMode::Fast ==> final(state).config.performance_mode == 0x03,
        mode == PerfMode::Extreme ==> final(state).config.performance_mode == 0x04,
        final(state).config@ == (AppConfigView {
            performance_mode: final(state).config.performance_mode,
            ..old(state).config@
        }),
        r == TrayEffect::Save,
{
    let before = old(state).backend;
    let after = final(state).backend;
    law_every_mode_has_an_entry(mode);
    law_each_setting_reaches_the_backend(
        before,
        after,
        seq![HardwareWrite::Mode(final(state).config.performance_mode)],
        0,
    );
    assert(after.log().drop_last() =~= before.log());
    assert(final(state).config@.performance_mode == final(state).config.performance_mode);
}

/// Every other identifier leaves hardware and settings alone; only the entry for the window
/// does something, and that to the window.
pub proof fn law_other_entries(state: &mut AppState, id: &str, r: TrayEffect)
    requires
        call_ensures(handle_tray_event, (state, id), r),
        id@ != "battery_care"@,
        forall|mode: PerfMode| id@ != #[trigger] id_of_mode(mode),
    ensures
        final(state).backend.log() == old(state).backend.log(),
        final(state).backend.device() == old(state).backend.device(),
        final(state).config@ == old(state).config@,
        id@ == "show_hide"@ ==> r == TrayEffect::ToggleWindow,
        id@ != "show_hide"@ ==> r == TrayEffect::Nothing,
{
    assert(id@ != id_of_mode(PerfMode::Eco));
    assert(id@ != id_of_mode(PerfMode::Quiet));
    assert(id@ != id_of_mode(PerfMode::Smart));
    assert(id@ != id_of_mode(PerfMode::Fast));
    assert(id@ != id_of_mode(PerfMode::Extreme));
    law_nothing_written_nothing_recorded(old(state).backend, final(state).backend);
}

} // verus!
