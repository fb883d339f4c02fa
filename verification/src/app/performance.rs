//! Performance modes: their codes in the embedded controller, their names, and the
//! sequence that a hotkey walks through.

use vstd::prelude::*;

verus! {

/// A performance mode of the embedded controller.
#[derive(Debug, Clone, Copy, PartialEq, Eq, Hash, Structural)]
pub enum PerfMode {
    Eco,
    Quiet,
    Smart,
    Fast,
    Extreme,
}

/// The code of a mode in the embedded controller.
pub open spec fn mode_code(mode: PerfMode) -> u8 {
    match mode {
        PerfMode::Eco => 0x0A,
        PerfMode::Quiet => 0x02,
        PerfMode::Smart => 0x09,
        PerfMode::Fast => 0x03,
        PerfMode::Extreme => 0x04,
    }
}

/// The mode that a code stands for, if it stands for one.
pub open spec fn mode_of_code(val: u8) -> Option<PerfMode> {
    if val == 0x0A {
        Some(PerfMode::Eco)
    } else if val == 0x02 {
        Some(PerfMode::Quiet)
    } else if val == 0x09 {
        Some(PerfMode::Smart)
    } else if val == 0x03 {
        Some(PerfMode::Fast)
    } else if val == 0x04 {
        Some(PerfMode::Extreme)
    } else {
        None
    }
}

/// The name shown for a mode.
pub open spec fn mode_name(mode: PerfMode) -> Seq<char> {
    match mode {
        PerfMode::Eco => "节能"@,
        PerfMode::Quiet => "静音"@,
        PerfMode::Smart => "智能"@,
        PerfMode::Fast => "极速"@,
        PerfMode::Extreme => "狂暴"@,
    }
}

/// The name shown for a code, known or not.
pub open spec fn code_name(raw: u8) -> Seq<char> {
    match mode_of_code(raw) {
        Some(mode) => mode_name(mode),
        None => "未知"@,
    }
}

/// The sentence shown for a mode.
pub open spec fn mode_description(mode: PerfMode) -> Seq<char> {
    match mode {
        PerfMode::Eco => "最低功耗，最大限度延长电池续航"@,
        PerfMode::Quiet => "风扇静音优先，适合轻度办公"@,
        PerfMode::Smart => "根据负载自动调节性能与散热（推荐）"@,
        PerfMode::Fast => "高性能优先，风扇响应更积极"@,
        PerfMode::Extreme => "最大性能释放，需要交流电源"@,
    }
}

/// All modes, in the order in which they are shown.
pub open spec fn all_modes() -> Seq<PerfMode> {
    seq![PerfMode::Eco, PerfMode::Quiet, PerfMode::Smart, PerfMode::Fast, PerfMode::Extreme]
}

/// What is written for a code: Extreme needs mains power and becomes Fast without it.
pub open spec fn effective_code(mode: u8, on_ac: bool) -> u8 {
    if mode == mode_code(PerfMode::Extreme) && !on_ac {
        mode_code(PerfMode::Fast)
    } else {
        mode
    }
}

/// The mode after `current` in the hotkey sequence; a mode outside of it goes to the
/// first one.
pub open spec fn next_in_cycle(current: PerfMode) -> PerfMode {
    match current {
        PerfMode::Smart => PerfMode::Quiet,
        PerfMode::Quiet => PerfMode::Extreme,
        PerfMode::Extreme => PerfMode::Smart,
        PerfMode::Eco | PerfMode::Fast => PerfMode::Smart,
    }
}

impl PerfMode {
    /// The mode that `val` is the code of.
    pub fn from_ec_value(val: u8) -> (r: Option<Self>)
        ensures
            r == mode_of_code(val),
    {
        match val {
            0x0A => Some(Self::Eco),
            0x02 => Some(Self::Quiet),
            0x09 => Some(Self::Smart),
            0x03 => Some(Self::Fast),
            0x04 => Some(Self::Extreme),
            _ => None,
        }
    }

    /// The code of the mode.
    pub fn ec_value(&self) -> (r: u8)
        ensures
            r == mode_code(*self),
    {
        match self {
            Self::Eco => 0x0A,
            Self::Quiet => 0x02,
            Self::Smart => 0x09,
            Self::Fast => 0x03,
            Self::Extreme => 0x04,
        }
    }

    /// The name of the mode.
    pub fn name(&self) -> (r: &'static str)
        ensures
            r@ == mode_name(*self),
    {
        match self {
            Self::Eco => "节能",
            Self::Quiet => "静音",
            Self::Smart => "智能",
            Self::Fast => "极速",
            Self::Extreme => "狂暴",
        }
    }

    /// The name of the mode that `raw` is the code of, or the name of an unknown one.
    pub fn name_or_unknown(raw: u8) -> (r: &'static str)
        ensures
            r@ == code_name(raw),
    {
        match Self::from_ec_value(raw) {
            Some(mode) => mode.name(),
            None => "未知",
        }
    }

    /// What the mode does, in one sentence.
    pub fn description(&self) -> (r: &'static str)
        ensures
            r@ == mode_description(*self),
    {
        match self {
            Self::Eco => "最低功耗，最大限度延长电池续航",
            Self::Quiet => "风扇静音优先，适合轻度办公",
            Self::Smart => "根据负载自动调节性能与散热（推荐）",
            Self::Fast => "高性能优先，风扇响应更积极",
            Self::Extreme => "最大性能释放，需要交流电源",
        }
    }

    /// All modes.
    pub fn all() -> (r: &'static [PerfMode])
        ensures
            r@ == all_modes(),
    {
        &[Self::Eco, Self::Quiet, Self::Smart, Self::Fast, Self::Extreme]
    }
}

/// The code to write for `mode`: Extreme is written as it is on mains power only, and as
/// Fast otherwise; every other code stays.
pub fn effective_ec_value(mode: u8, on_ac: bool) -> (r: u8)
    ensures
        r == effective_code(mode, on_ac),
{
    if mode == PerfMode::Extreme.ec_value() && !on_ac {
        PerfMode::Fast.ec_value()
    } else {
        mode
    }
}

/// The modes that the hotkey walks through.
pub const CYCLE: [PerfMode; 3] = [PerfMode::Smart, PerfMode::Quiet, PerfMode::Extreme];

/// The mode after `current` in [`CYCLE`], the first one following the last; a mode that
/// is not in the sequence goes to its first one.
pub fn next_cycle_mode(current: PerfMode) -> (r: PerfMode)
    ensures
        r == next_in_cycle(current),
{
    let mut i: usize = 0;
    while i < CYCLE.len()
        invariant
            i <= 3,
            forall|k: int| 0 <= k < i ==> CYCLE[k] != current,
        decreases 3 - i,
    {
        if CYCLE[i] == current {
            return CYCLE[(i + 1) % CYCLE.len()];
        }
        i = i + 1;
    }
    assert(CYCLE[0] != current && CYCLE[1] != current && CYCLE[2] != current);
    CYCLE[0]
}

/// The code of the mode that the hotkey leads to from the code `code`.
pub open spec fn next_cycle_code_of(code: u8) -> u8 {
    mode_code(
        match mode_of_code(code) {
            Some(mode) => next_in_cycle(mode),
            None => CYCLE[0],
        },
    )
}

/// The code of the mode that the hotkey leads to from the code `code`; an unknown code goes
/// to the first mode of [`CYCLE`].
pub fn next_cycle_code(code: u8) -> (r: u8)
    ensures
        r == next_cycle_code_of(code),
{
    match PerfMode::from_ec_value(code) {
        Some(mode) => next_cycle_mode(mode).ec_value(),
        None => CYCLE[0].ec_value(),
    }
}

/// Code and mode are inverse to each other.
pub proof fn law_code_round_trip(mode: PerfMode, val: u8)
    ensures
        mode_of_code(mode_code(mode)) == Some(mode),
        mode_of_code(val) matches Some(m) ==> mode_code(m) == val,
{
}

/// Every mode is listed, and once only.
pub proof fn law_all_modes_complete(mode: PerfMode)
    ensures
        all_modes().contains(mode),
        all_modes().no_duplicates(),
{
    let i: int = match mode {
        PerfMode::Eco => 0,
        PerfMode::Quiet => 1,
        PerfMode::Smart => 2,
        PerfMode::Fast => 3,
        PerfMode::Extreme => 4,
    };
    assert(all_modes()[i] == mode);
}

/// Different modes have different names and different descriptions, and none is empty.
pub proof fn law_modes_are_told_apart(a: PerfMode, b: PerfMode)
    ensures
        mode_name(a).len() > 0,
        mode_description(a).len() > 0,
        a != b ==> mode_name(a) != mode_name(b),
        a != b ==> mode_description(a) != mode_description(b),
{
    reveal_strlit("节能");
    reveal_strlit("静音");
    reveal_strlit("智能");
    reveal_strlit("极速");
    reveal_strlit("狂暴");
    reveal_strlit("最低功耗，最大限度延长电池续航");
    reveal_strlit("风扇静音优先，适合轻度办公");
    reveal_strlit("根据负载自动调节性能与散热（推荐）");
    reveal_strlit("高性能优先，风扇响应更积极");
    reveal_strlit("最大性能释放，需要交流电源");
    assert(a != b ==> mode_name(a)[0] != mode_name(b)[0]);
    assert(a != b ==> mode_description(a)[0] != mode_description(b)[0] || mode_description(a)[1]
        != mode_description(b)[1]);
}

/// The hotkey sequence has three modes, follows [`CYCLE`], and closes: three steps lead
/// from a mode of the sequence back to it.
pub proof fn law_cycle_closes(i: int)
    requires
        0 <= i < CYCLE@.len(),
    ensures
        next_in_cycle(CYCLE@[i]) == CYCLE@[(i + 1) % 3],
        next_in_cycle(next_in_cycle(next_in_cycle(CYCLE@[i]))) == CYCLE@[i],
{
    assert(i == 0 || i == 1 || i == 2);
}

/// From any mode, one step of the hotkey leads into the sequence.
pub proof fn law_cycle_is_entered(mode: PerfMode)
    ensures
        CYCLE@.contains(next_in_cycle(mode)),
{
    assert(CYCLE@[0] == PerfMode::Smart && CYCLE@[1] == PerfMode::Quiet && CYCLE@[2]
        == PerfMode::Extreme);
}

/// Without mains power Extreme is never written, and nothing else is changed.
pub proof fn law_extreme_needs_ac(mode: u8, on_ac: bool)
    ensures
        effective_code(mode, false) != mode_code(PerfMode::Extreme),
        mode != mode_code(PerfMode::Extreme) ==> effective_code(mode, on_ac) == mode,
        effective_code(mode, true) == mode,
        effective_code(effective_code(mode, on_ac), on_ac) == effective_code(mode, on_ac),
{
}

/// The five codes, and the modes that they stand for; no other code stands for a mode.
pub proof fn law_five_codes(mode: PerfMode, code: u8, val: u8, r: Option<PerfMode>)
    requires
        call_ensures(PerfMode::ec_value, (&mode,), code),
        call_ensures(PerfMode::from_ec_value, (val,), r),
    ensures
        mode == PerfMode::Eco <==> code == 0x0A,
        mode == PerfMode::Quiet <==> code == 0x02,
        mode == PerfMode::Smart <==> code == 0x09,
        mode == PerfMode::Fast <==> code == 0x03,
        mode == PerfMode::Extreme <==> code == 0x04,
        r == Some(mode) <==> val == code,
        r is Some <==> val == 0x0A || val == 0x02 || val == 0x09 || val == 0x03 || val == 0x04,
{
}

/// A code is shown under the name of its mode, and any other code as unknown.
pub proof fn law_names_of_codes(mode: PerfMode, name: &'static str, raw: u8, r: &'static str)
    requires
        call_ensures(PerfMode::name, (&mode,), name),
        call_ensures(PerfMode::name_or_unknown, (raw,), r),
    ensures
        mode == PerfMode::Eco ==> name@ == "节能"@,
        mode == PerfMode::Quiet ==> name@ == "静音"@,
        mode == PerfMode::Smart ==> name@ == "智能"@,
        mode == PerfMode::Fast ==> name@ == "极速"@,
        mode == PerfMode::Extreme ==> name@ == "狂暴"@,
        raw == mode_code(mode) ==> r@ == name@,
        !(raw == 0x0A || raw == 0x02 || raw == 0x09 || raw == 0x03 || raw == 0x04) ==> r@
            == "未知"@,
{
}

/// The sentence of each mode.
pub proof fn law_descriptions(mode: PerfMode, r: &'static str)
    requires
        call_ensures(PerfMode::description, (&mode,), r),
    ensures
        mode == PerfMode::Eco ==> r@ == "最低功耗，最大限度延长电池续航"@,
        mode == PerfMode::Quiet ==> r@ == "风扇静音优先，适合轻度办公"@,
        mode == PerfMode::Smart ==> r@ == "根据负载自动调节性能与散热（推荐）"@,
        mode == PerfMode::Fast ==> r@ == "高性能优先，风扇响应更积极"@,
        mode == PerfMode::Extreme ==> r@ == "最大性能释放，需要交流电源"@,
{
}

/// Only Extreme without mains power is written otherwise than it is, and that as Fast.
pub proof fn law_extreme_becomes_fast(mode: u8, on_ac: bool, r: u8)
    requires
        call_ensures(effective_ec_value, (mode, on_ac), r),
    ensures
        mode == 0x04 && !on_ac ==> r == 0x03,
        mode != 0x04 || on_ac ==> r == mode,
{
}

/// The hotkey leads from Smart to Quiet, from Quiet to Extreme, and from everything else,
/// known or not, to Smart.
pub proof fn law_hotkey_steps(current: PerfMode, next: PerfMode, code: u8, r: u8)
    requires
        call_ensures(next_cycle_mode, (current,), next),
        call_ensures(next_cycle_code, (code,), r),
    ensures
        current == PerfMode::Smart ==> next == PerfMode::Quiet,
        current == PerfMode::Quiet ==> next == PerfMode::Extreme,
        current != PerfMode::Smart && current != PerfMode::Quiet ==> next == PerfMode::Smart,
        code == 0x09 ==> r == 0x02,
        code == 0x02 ==> r == 0x04,
        code != 0x09 && code != 0x02 ==> r == 0x09,
{
}

/// The modes in the order in which they are shown, by their codes: from the most economic to
/// the most powerful.
pub proof fn law_order_of_modes(r: &'static [PerfMode])
    requires
        call_ensures(PerfMode::all, (), r),
    ensures
        r@.len() == 5,
        r@[0] == PerfMode::Eco,
        r@[1] == PerfMode::Quiet,
        r@[2] == PerfMode::Smart,
        r@[3] == PerfMode::Fast,
        r@[4] == PerfMode::Extreme,
{
}

} // verus!
