//! The commands that background threads send to the user interface.

use crate::app::ec::BoxedBackend;
use crate::text;
use vstd::prelude::*;

verus! {

/// A command to the user interface, sent by the tray, the hotkeys, the function key
/// watcher and the workers.
pub enum UiCommand {
    /// Turn battery care on if it is off, and off if it is on.
    ToggleBatteryCare,
    /// Step to the next performance mode.
    CyclePerfMode,
    /// Switch to the performance mode with this code.
    SetPerfMode(u8),
    /// Write the configuration to the hardware again, because the power supply changed.
    ReapplyConfig,
    /// Write the configuration to the hardware again, because the user asked for it.
    ReapplyConfigManual,
    /// A key event seen while keys are being captured.
    FnEventSeen {
        /// The event class.
        class: String,
        /// The normalised report.
        hex: String,
    },
    /// Register or remove the start at boot.
    SetAutostart(bool),
    /// How that went: the wanted setting and the outcome.
    SetAutostartResult(bool, Result<(), String>),
    /// WMI has become available after all, with this backend.
    WmiAvailable(BoxedBackend),
    /// Leave the application.
    Quit,
}

/// A command with its texts as sequences of characters.
pub enum UiCommandView {
    ToggleBatteryCare,
    CyclePerfMode,
    SetPerfMode(u8),
    ReapplyConfig,
    ReapplyConfigManual,
    FnEventSeen { class: Seq<char>, hex: Seq<char> },
    SetAutostart(bool),
    SetAutostartResult(bool, Result<(), Seq<char>>),
    WmiAvailable(BoxedBackend),
    Quit,
}

impl View for UiCommand {
    type V = UiCommandView;

    open spec fn view(&self) -> UiCommandView {
        match self {
            UiCommand::ToggleBatteryCare => UiCommandView::ToggleBatteryCare,
            UiCommand::CyclePerfMode => UiCommandView::CyclePerfMode,
            UiCommand::SetPerfMode(mode) => UiCommandView::SetPerfMode(*mode),
            UiCommand::ReapplyConfig => UiCommandView::ReapplyConfig,
            UiCommand::ReapplyConfigManual => UiCommandView::ReapplyConfigManual,
            UiCommand::FnEventSeen { class, hex } => UiCommandView::FnEventSeen {
                class: class@,
                hex: hex@,
            },
            UiCommand::SetAutostart(enabled) => UiCommandView::SetAutostart(*enabled),
            UiCommand::SetAutostartResult(enabled, outcome) => UiCommandView::SetAutostartResult(
                *enabled,
                match outcome {
                    Ok(_) => Ok(()),
                    Err(s) => Err(s@),
                },
            ),
            UiCommand::WmiAvailable(backend) => UiCommandView::WmiAvailable(*backend),
            UiCommand::Quit => UiCommandView::Quit,
        }
    }
}

/// What the `Debug` format of the standard library makes of a string: the string in
/// quotes, with some of its characters escaped.
pub uninterp spec fn quoted(s: Seq<char>) -> Seq<char>;

/// The `Debug` format of a string.
///
/// Stated without proof: the result of `format!` with `{:?}` is the one that [`quoted`]
/// names. Which characters it escapes, and how, is not said.
#[verifier::external_body]
fn quote(s: &str) -> (r: String)
    ensures
        r@ == quoted(s@),
{
    format!("{:?}", s)
}

/// A truth value in words.
pub open spec fn bool_text(b: bool) -> Seq<char> {
    if b {
        "true"@
    } else {
        "false"@
    }
}

fn bool_word(b: bool) -> (r: &'static str)
    ensures
        r@ == bool_text(b),
{
    if b {
        "true"
    } else {
        "false"
    }
}

/// The line that a command is logged as.
pub open spec fn command_text(c: UiCommandView) -> Seq<char> {
    match c {
        UiCommandView::ToggleBatteryCare => "ToggleBatteryCare"@,
        UiCommandView::CyclePerfMode => "CyclePerfMode"@,
        UiCommandView::SetPerfMode(mode) => "SetPerfMode("@ + text::decimal(mode as nat) + ")"@,
        UiCommandView::ReapplyConfig => "ReapplyConfig"@,
        UiCommandView::ReapplyConfigManual => "ReapplyConfigManual"@,
        UiCommandView::FnEventSeen { class, hex } => "FnEventSeen { class: \""@ + class
            + "\", hex: \""@ + hex + "\" }"@,
        UiCommandView::SetAutostart(enabled) => "SetAutostart("@ + bool_text(enabled) + ")"@,
        UiCommandView::SetAutostartResult(enabled, Ok(_)) => "SetAutostartResult("@ + bool_text(
            enabled,
        ) + ", Ok(()))"@,
        UiCommandView::SetAutostartResult(enabled, Err(s)) => failed_autostart_text(
            enabled,
            quoted(s),
        ),
        UiCommandView::WmiAvailable(_) => "WmiAvailable(_)"@,
        UiCommandView::Quit => "Quit"@,
    }
}

/// The line for a failed registration of the start at boot.
pub open spec fn failed_autostart_text(enabled: bool, reason: Seq<char>) -> Seq<char> {
    "SetAutostartResult("@ + bool_text(enabled) + ", Err("@ + reason + "))"@
}

/// The line for a failed registration of the start at boot, with the reason as it is to
/// stand there, in its quotes.
pub fn failed_autostart_line(enabled: bool, reason: &str) -> (r: String)
    ensures
        r@ == failed_autostart_text(enabled, reason@),
{
    let mut out = text::copy_str("SetAutostartResult(");
    out.append(bool_word(enabled));
    out.append(", Err(");
    out.append(reason);
    out.append("))");
    out
}

impl UiCommand {
    /// The line that the command is logged as. A backend that it carries is not shown.
    pub fn fmt(&self) -> (r: String)
        ensures
            r@ == command_text(self@),
    {
        let mut out = String::new();
        match self {
            UiCommand::ToggleBatteryCare => {
                out.append("ToggleBatteryCare");
            },
            UiCommand::CyclePerfMode => {
                out.append("CyclePerfMode");
            },
            UiCommand::SetPerfMode(mode) => {
                out.append("SetPerfMode(");
                text::push_decimal(&mut out, *mode as u64);
                out.append(")");
            },
            UiCommand::ReapplyConfig => {
                out.append("ReapplyConfig");
            },
            UiCommand::ReapplyConfigManual => {
                out.append("ReapplyConfigManual");
            },
            UiCommand::FnEventSeen { class, hex } => {
                out.append("FnEventSeen { class: \"");
                out.append(class.as_str());
                out.append("\", hex: \"");
                out.append(hex.as_str());
                out.append("\" }");
            },
            UiCommand::SetAutostart(enabled) => {
                out.append("SetAutostart(");
                out.append(bool_word(*enabled));
                out.append(")");
            },
            UiCommand::SetAutostartResult(enabled, outcome) => {
                match outcome {
                    Ok(_) => {
                        out.append("SetAutostartResult(");
                        out.append(bool_word(*enabled));
                        out.append(", Ok(()))");
                    },
                    Err(s) => {
                        let reason = quote(s.as_str());
                        out.append(failed_autostart_line(*enabled, reason.as_str()).as_str());
                    },
                }
            },
            UiCommand::WmiAvailable(_) => {
                out.append("WmiAvailable(_)");
            },
            UiCommand::Quit => {
                out.append("Quit");
            },
        }
        assert(out@ =~= command_text(self@));
        out
    }
}

// ── Laws ──

/// The line of a command is its name, with what it carries behind it: a number in base ten, a
/// truth value in words, the class and the report of an event. A backend is not shown.
pub proof fn law_lines_of_commands(c: UiCommand, r: String)
    requires
        call_ensures(UiCommand::fmt, (&c,), r),
    ensures
        c is ToggleBatteryCare ==> r@ == "ToggleBatteryCare"@,
        c is CyclePerfMode ==> r@ == "CyclePerfMode"@,
        c is ReapplyConfig ==> r@ == "ReapplyConfig"@,
        c is ReapplyConfigManual ==> r@ == "ReapplyConfigManual"@,
        c is WmiAvailable ==> r@ == "WmiAvailable(_)"@,
        c is Quit ==> r@ == "Quit"@,
        c matches UiCommand::SetPerfMode(mode) ==> r@ == "SetPerfMode("@ + text::decimal(
            mode as nat,
        ) + ")"@,
        c matches UiCommand::SetAutostart(on) ==> r@ == "SetAutostart("@ + (if on {
            "true"@
        } else {
            "false"@
        }) + ")"@,
        c matches UiCommand::FnEventSeen { class, hex } ==> r@ == "FnEventSeen { class: \""@
            + class@ + "\", hex: \""@ + hex@ + "\" }"@,
        c matches UiCommand::SetAutostartResult(on, outcome) ==> (outcome is Ok ==> r@
            == "SetAutostartResult("@ + (if on {
            "true"@
        } else {
            "false"@
        }) + ", Ok(()))"@),
        c matches UiCommand::SetAutostartResult(on, outcome) ==> (outcome matches Err(s) ==> r@
            == "SetAutostartResult("@ + (if on {
            "true"@
        } else {
            "false"@
        }) + ", Err("@ + quoted(s@) + "))"@),
{
}

/// The line for a failed registration holds the wanted setting and the reason as it is given.
pub proof fn law_line_of_a_failure(enabled: bool, reason: &str, r: String)
    requires
        call_ensures(failed_autostart_line, (enabled, reason), r),
    ensures
        r@ == "SetAutostartResult("@ + (if enabled {
            "true"@
        } else {
            "false"@
        }) + ", Err("@ + reason@ + "))"@,
{
}

/// The view of a command keeps its kind and what it carries.
pub proof fn law_views_of_commands(c: UiCommand)
    ensures
        c is ToggleBatteryCare <==> c@ is ToggleBatteryCare,
        c is CyclePerfMode <==> c@ is CyclePerfMode,
        c is ReapplyConfig <==> c@ is ReapplyConfig,
        c is ReapplyConfigManual <==> c@ is ReapplyConfigManual,
        c is Quit <==> c@ is Quit,
        c matches UiCommand::SetPerfMode(mode) ==> c@ == UiCommandView::SetPerfMode(mode),
        c matches UiCommand::SetAutostart(on) ==> c@ == UiCommandView::SetAutostart(on),
        c matches UiCommand::FnEventSeen { class, hex } ==> c@ == (UiCommandView::FnEventSeen {
            class: class@,
            hex: hex@,
        }),
        c matches UiCommand::WmiAvailable(backend) ==> c@ == UiCommandView::WmiAvailable(backend),
        c matches UiCommand::SetAutostartResult(on, outcome) ==> (c@
            matches UiCommandView::SetAutostartResult(shown, told) && shown == on && (told is Ok
            <==> outcome is Ok) && (outcome matches Err(s) ==> told->Err_0 == s@)),
{
}

} // verus!
