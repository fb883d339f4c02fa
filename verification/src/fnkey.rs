//! The function keys that the window answers to by itself.
//!
//! A key event has a class and a report. The first key of the table that has this class
//! and whose prefix the report begins with is the one that was pressed.

use crate::gui::UiCommand;
use crate::text;
use vstd::prelude::*;

verus! {

/// The event classes that may report a key.
pub const WMI_CLASSES: [&'static str; 5] = [
    "HID_EVENT20",
    "HID_EVENT21",
    "HID_EVENT22",
    "HID_EVENT23",
    "WMIEvent",
];

/// What a function key stands for.
#[derive(Debug, Clone, Copy, PartialEq, Eq, Structural)]
pub enum FnAction {
    /// Step to the next performance mode.
    CyclePerformanceMode,
    /// Show that the Fn lock has changed.
    ShowFnLockOsd,
    /// Show that caps lock has changed.
    ShowCapsLockOsd,
    /// Show that the keyboard backlight has changed.
    ShowKeyboardBacklightOsd,
    /// Mute the microphone.
    MicrophoneMuteOn,
    /// Unmute the microphone.
    MicrophoneMuteOff,
    /// Turn the touchpad on or off.
    ToggleTouchpad,
    /// Turn the volume up.
    VolumeUp,
    /// Turn the volume down.
    VolumeDown,
    /// Mute the sound.
    VolumeMute,
    /// Make the screen brighter.
    BrightnessUp,
    /// Make the screen darker.
    BrightnessDown,
    /// Play the previous track.
    MediaPrevious,
    /// Play the next track.
    MediaNext,
    /// Play or pause.
    MediaPlayPause,
    /// Turn airplane mode on or off.
    ToggleAirplaneMode,
    /// Lock the workstation.
    LockWindows,
    /// Take a screenshot.
    Screenshot,
    /// Open the calculator.
    OpenCalculator,
    /// Open the settings.
    OpenSettings,
    /// Open the choice of projection.
    OpenProjection,
    /// Open an application.
    OpenApplication,
    /// Send a key of a standard keyboard.
    SendStandardKey,
}

/// A function key.
pub struct FnKeyDef {
    /// Its name.
    pub name: &'static str,
    /// The class of its events.
    pub wmi_class: &'static str,
    /// How its reports begin.
    pub hex_prefix: &'static str,
    /// What it stands for, if anything.
    pub action: Option<FnAction>,
}

/// A function key with its texts as characters.
pub struct FnKeyDefView {
    /// Its name.
    pub name: Seq<char>,
    /// The class of its events.
    pub wmi_class: Seq<char>,
    /// How its reports begin.
    pub hex_prefix: Seq<char>,
    /// What it stands for, if anything.
    pub action: Option<FnAction>,
}

impl View for FnKeyDef {
    type V = FnKeyDefView;

    open spec fn view(&self) -> FnKeyDefView {
        FnKeyDefView {
            name: self.name@,
            wmi_class: self.wmi_class@,
            hex_prefix: self.hex_prefix@,
            action: self.action,
        }
    }
}

/// A key of the class that all the known ones have.
pub open spec fn key(name: Seq<char>, hex_prefix: Seq<char>, action: Option<FnAction>) -> FnKeyDefView {
    FnKeyDefView { name, wmi_class: "HID_EVENT20"@, hex_prefix, action }
}

/// The table of keys.
pub open spec fn key_table() -> Seq<FnKeyDefView> {
    seq![
        key("Fn+K 性能模式切换"@, "012801"@, Some(FnAction::CyclePerformanceMode)),
        key("Fn 锁"@, "0107"@, Some(FnAction::ShowFnLockOsd)),
        key("大写锁定"@, "0109"@, Some(FnAction::ShowCapsLockOsd)),
        key("麦克风静音开"@, "012101"@, Some(FnAction::MicrophoneMuteOn)),
        key("麦克风静音关"@, "012100"@, Some(FnAction::MicrophoneMuteOff)),
        key("键盘背光循环"@, "0105"@, Some(FnAction::ShowKeyboardBacklightOsd)),
        key("投影切换"@, "0101"@, Some(FnAction::OpenProjection)),
        key("设置"@, "011B"@, Some(FnAction::OpenSettings)),
        key("小爱同学"@, "012301"@, None),
        key("PC Manager"@, "012501"@, None),
    ]
}

/// A key of the common class.
fn hid_key(name: &'static str, hex_prefix: &'static str, action: Option<FnAction>) -> (r: FnKeyDef)
    ensures
        r@ == key(name@, hex_prefix@, action),
{
    FnKeyDef { name, wmi_class: "HID_EVENT20", hex_prefix, action }
}

/// The function keys that are known.
pub fn builtin_keys() -> (r: Vec<FnKeyDef>)
    ensures
        r@.map_values(|k: FnKeyDef| k@) == key_table(),
{
    let keys = vec![
        hid_key("Fn+K 性能模式切换", "012801", Some(FnAction::CyclePerformanceMode)),
        hid_key("Fn 锁", "0107", Some(FnAction::ShowFnLockOsd)),
        hid_key("大写锁定", "0109", Some(FnAction::ShowCapsLockOsd)),
        hid_key("麦克风静音开", "012101", Some(FnAction::MicrophoneMuteOn)),
        hid_key("麦克风静音关", "012100", Some(FnAction::MicrophoneMuteOff)),
        hid_key("键盘背光循环", "0105", Some(FnAction::ShowKeyboardBacklightOsd)),
        hid_key("投影切换", "0101", Some(FnAction::OpenProjection)),
        hid_key("设置", "011B", Some(FnAction::OpenSettings)),
        hid_key("小爱同学", "012301", None),
        hid_key("PC Manager", "012501", None),
    ];
    assert(keys@.map_values(|k: FnKeyDef| k@) =~= key_table());
    keys
}

/// The command that an action sends to the window: only the performance mode has one.
pub open spec fn command_of(action: FnAction) -> Option<UiCommand> {
    if action == FnAction::CyclePerformanceMode {
        Some(UiCommand::CyclePerfMode)
    } else {
        None
    }
}

/// The command that an action sends to the window, if it sends one.
pub fn dispatch_action(action: &FnAction) -> (r: Option<UiCommand>)
    ensures
        r == command_of(*action),
{
    match action {
        FnAction::CyclePerformanceMode => Some(UiCommand::CyclePerfMode),
        _ => None,
    }
}

/// A letter or a digit.
pub open spec fn is_alphanumeric_char(c: char) -> bool {
    text::is_letter_char(c) || text::is_digit_char(c)
}

/// The letters and digits of a report.
pub open spec fn cleaned(report: Seq<char>) -> Seq<char> {
    report.filter(|c: char| is_alphanumeric_char(c))
}

proof fn lemma_cleaned_push(s: Seq<char>, c: char)
    ensures
        cleaned(s.push(c)) == if is_alphanumeric_char(c) {
            cleaned(s).push(c)
        } else {
            cleaned(s)
        },
{
    reveal(Seq::filter);
    let t = s.push(c);
    assert(t.drop_last() =~= s);
    assert(t.last() == c);
}

/// Leaves everything but letters and digits out of a report.
pub fn clean_report(report: &str) -> (r: String)
    ensures
        r@ == cleaned(report@),
{
    let v = text::chars_of(report);
    let mut out = String::new();
    let mut i: usize = 0;
    proof {
        reveal(Seq::filter);
        assert(v@.take(0) =~= Seq::<char>::empty());
        assert(out@ =~= cleaned(v@.take(0)));
    }
    while i < v.len()
        invariant
            i <= v@.len(),
            out@ == cleaned(v@.take(i as int)),
        decreases v@.len() - i,
    {
        proof {
            lemma_cleaned_push(v@.take(i as int), v@[i as int]);
            assert(v@.take(i as int).push(v@[i as int]) =~= v@.take(i + 1));
        }
        let c = v[i];
        if text::is_ascii_letter(c) || text::is_ascii_digit(c) {
            out.push(c);
        }
        i = i + 1;
    }
    assert(v@.take(v@.len() as int) =~= v@);
    out
}

/// Whether an event of this class with this cleaned report comes from a key.
pub open spec fn comes_from(class: Seq<char>, clean: Seq<char>, k: FnKeyDefView) -> bool {
    k.wmi_class == class && k.hex_prefix.is_prefix_of(clean)
}

/// The first key of the table from `from` on that an event comes from.
pub open spec fn first_key(class: Seq<char>, clean: Seq<char>, from: nat) -> Option<FnKeyDefView>
    decreases key_table().len() - from,
{
    if from >= key_table().len() {
        None
    } else if comes_from(class, clean, key_table()[from as int]) {
        Some(key_table()[from as int])
    } else {
        first_key(class, clean, from + 1)
    }
}

/// What an event asks the window for.
pub open spec fn command_of_event(class: Seq<char>, report: Seq<char>) -> Option<UiCommand> {
    match first_key(class, cleaned(report), 0) {
        Some(k) => match k.action {
            Some(action) => command_of(action),
            None => None,
        },
        None => None,
    }
}

/// What an event asks the window for, if anything. `detail` is the report of the event;
/// where it has none, `report_hex` is.
pub fn process_event(
    class_name: &str,
    detail: &Option<String>,
    report_hex: &Option<String>,
) -> (r: Option<UiCommand>)
    ensures
        r == match (*detail, *report_hex) {
            (Some(report), _) => command_of_event(class_name@, report@),
            (None, Some(report)) => command_of_event(class_name@, report@),
            (None, None) => None,
        },
{
    match detail {
        Some(report) => command_for_report(class_name, report.as_str()),
        None => match report_hex {
            Some(report) => command_for_report(class_name, report.as_str()),
            None => None,
        },
    }
}

fn command_for_report(class_name: &str, report: &str) -> (r: Option<UiCommand>)
    ensures
        r == command_of_event(class_name@, report@),
{
    let clean = clean_report(report);
    let keys = builtin_keys();
    let ghost views = keys@.map_values(|k: FnKeyDef| k@);
    let mut i: usize = 0;
    while i < keys.len()
        invariant
            i <= keys@.len(),
            views == keys@.map_values(|k: FnKeyDef| k@),
            views == key_table(),
            clean@ == cleaned(report@),
            first_key(class_name@, clean@, 0) == first_key(class_name@, clean@, i as nat),
        decreases keys@.len() - i,
    {
        let k = &keys[i];
        assert(views[i as int] == k@);
        if text::str_eq(k.wmi_class, class_name) && text::starts_with(clean.as_str(), k.hex_prefix) {
            return match &k.action {
                Some(action) => dispatch_action(action),
                None => None,
            };
        }
        i = i + 1;
    }
    None
}

/// No event comes from two keys, so the order of the table does not matter.
pub proof fn law_keys_do_not_overlap(class: Seq<char>, clean: Seq<char>, i: int, j: int)
    requires
        0 <= i < key_table().len(),
        0 <= j < key_table().len(),
        comes_from(class, clean, key_table()[i]),
        comes_from(class, clean, key_table()[j]),
    ensures
        i == j,
{
    reveal_strlit("012801");
    reveal_strlit("0107");
    reveal_strlit("0109");
    reveal_strlit("012101");
    reveal_strlit("012100");
    reveal_strlit("0105");
    reveal_strlit("0101");
    reveal_strlit("011B");
    reveal_strlit("012301");
    reveal_strlit("012501");
    let a = key_table()[i].hex_prefix;
    let b = key_table()[j].hex_prefix;
    assert(clean[2] == a[2] && clean[3] == a[3]);
    assert(clean[2] == b[2] && clean[3] == b[3]);
    if a.len() == 6 {
        assert(clean[5] == a[5]);
    }
    if b.len() == 6 {
        assert(clean[5] == b[5]);
    }
}

/// No two keys share a name.
pub proof fn law_key_names_are_unique(i: int, j: int)
    requires
        0 <= i < key_table().len(),
        0 <= j < key_table().len(),
        i != j,
    ensures
        key_table()[i].name != key_table()[j].name,
{
    reveal_strlit("Fn+K 性能模式切换");
    reveal_strlit("Fn 锁");
    reveal_strlit("大写锁定");
    reveal_strlit("麦克风静音开");
    reveal_strlit("麦克风静音关");
    reveal_strlit("键盘背光循环");
    reveal_strlit("投影切换");
    reveal_strlit("设置");
    reveal_strlit("小爱同学");
    reveal_strlit("PC Manager");
    let a = key_table()[i].name;
    let b = key_table()[j].name;
    assert(a.len() != b.len() || a[0] != b[0] || a[5] != b[5]);
}

/// A press of Fn+K, whatever separators its report is written with, steps to the next
/// performance mode.
pub proof fn law_fn_k_cycles_the_mode(report: Seq<char>)
    requires
        "012801"@.is_prefix_of(cleaned(report)),
    ensures
        command_of_event("HID_EVENT20"@, report) == Some(UiCommand::CyclePerfMode),
{
    assert(comes_from("HID_EVENT20"@, cleaned(report), key_table()[0]));
}

/// Cleaning goes character by character: letters and digits of ASCII stay as they are, and
/// everything else is left out.
pub proof fn law_cleaning_by_character(a: Seq<char>, b: Seq<char>, c: char)
    ensures
        cleaned(a + b) == cleaned(a) + cleaned(b),
        'a' <= c <= 'z' || 'A' <= c <= 'Z' || '0' <= c <= '9' ==> cleaned(seq![c]) == seq![c],
        !('a' <= c <= 'z' || 'A' <= c <= 'Z' || '0' <= c <= '9') ==> cleaned(seq![c]).len() == 0,
    decreases b.len(),
{
    let none = Seq::<char>::empty();
    assert(cleaned(none) =~= none) by {
        reveal(Seq::filter);
    }
    lemma_cleaned_push(none, c);
    assert(none.push(c) =~= seq![c]);
    if b.len() == 0 {
        assert(b =~= none);
        assert(a + b =~= a);
        assert(cleaned(a) + cleaned(b) =~= cleaned(a));
    } else {
        let front = b.drop_last();
        law_cleaning_by_character(a, front, c);
        lemma_cleaned_push(a + front, b.last());
        lemma_cleaned_push(front, b.last());
        assert((a + front).push(b.last()) =~= a + b);
        assert(front.push(b.last()) =~= b);
        assert(cleaned(a + b) =~= cleaned(a) + cleaned(b));
    }
}

proof fn lemma_other_keys_do_not_cycle(class: Seq<char>, clean: Seq<char>, from: nat)
    requires
        from >= 1,
    ensures
        first_key(class, clean, from) matches Some(k) ==> k.action != Some(
            FnAction::CyclePerformanceMode,
        ),
    decreases key_table().len() - from,
{
    if from < key_table().len() {
        lemma_other_keys_do_not_cycle(class, clean, from + 1);
    }
}

/// An event asks for something exactly if it is of the class of the keys and its report,
/// cleaned, begins with that of a press of Fn+K; what it asks for is the next mode. The detail
/// of an event is its report, and only without a detail the other text is.
pub proof fn law_only_fn_k_asks_for_something(
    class_name: &str,
    detail: Option<String>,
    report_hex: Option<String>,
    r: Option<UiCommand>,
)
    requires
        call_ensures(process_event, (class_name, &detail, &report_hex), r),
    ensures
        detail is None && report_hex is None ==> r is None,
        r is Some ==> r == Some(UiCommand::CyclePerfMode),
        detail is Some ==> (r is Some <==> class_name@ == "HID_EVENT20"@ && "012801"@.is_prefix_of(
            cleaned(detail->0@),
        )),
        detail is None && report_hex is Some ==> (r is Some <==> class_name@ == "HID_EVENT20"@
            && "012801"@.is_prefix_of(cleaned(report_hex->0@))),
{
    if detail is Some {
        lemma_other_keys_do_not_cycle(class_name@, cleaned(detail->0@), 1);
    }
    if report_hex is Some {
        lemma_other_keys_do_not_cycle(class_name@, cleaned(report_hex->0@), 1);
    }
    assert(key_table()[0].action == Some(FnAction::CyclePerformanceMode));
    assert(key_table()[0].wmi_class == "HID_EVENT20"@ && key_table()[0].hex_prefix == "012801"@);
}

/// Only the action for the performance mode sends a command to the window.
pub proof fn law_one_action_sends(action: FnAction, r: Option<UiCommand>)
    requires
        call_ensures(dispatch_action, (&action,), r),
    ensures
        action == FnAction::CyclePerformanceMode ==> r == Some(UiCommand::CyclePerfMode),
        action != FnAction::CyclePerformanceMode ==> r is None,
{
}

/// Every row of the table: how the reports of a key begin, and what it stands for.
pub proof fn law_rows_of_the_table(i: int)
    requires
        0 <= i < key_table().len(),
    ensures
        key_table().len() == 10,
        key_table()[i].wmi_class == "HID_EVENT20"@,
        i == 0 ==> key_table()[i].hex_prefix == "012801"@ && key_table()[i].action == Some(
            FnAction::CyclePerformanceMode,
        ),
        i == 1 ==> key_table()[i].hex_prefix == "0107"@ && key_table()[i].action == Some(
            FnAction::ShowFnLockOsd,
        ),
        i == 2 ==> key_table()[i].hex_prefix == "0109"@ && key_table()[i].action == Some(
            FnAction::ShowCapsLockOsd,
        ),
        i == 3 ==> key_table()[i].hex_prefix == "012101"@ && key_table()[i].action == Some(
            FnAction::MicrophoneMuteOn,
        ),
        i == 4 ==> key_table()[i].hex_prefix == "012100"@ && key_table()[i].action == Some(
            FnAction::MicrophoneMuteOff,
        ),
        i == 5 ==> key_table()[i].hex_prefix == "0105"@ && key_table()[i].action == Some(
            FnAction::ShowKeyboardBacklightOsd,
        ),
        i == 6 ==> key_table()[i].hex_prefix == "0101"@ && key_table()[i].action == Some(
            FnAction::OpenProjection,
        ),
        i == 7 ==> key_table()[i].hex_prefix == "011B"@ && key_table()[i].action == Some(
            FnAction::OpenSettings,
        ),
        i == 8 ==> key_table()[i].hex_prefix == "012301"@ && key_table()[i].action is None,
        i == 9 ==> key_table()[i].hex_prefix == "012501"@ && key_table()[i].action is None,
{
}

/// The keys as they are returned: those of the table, in its order.
pub proof fn law_keys_are_returned(r: Vec<FnKeyDef>, i: int)
    requires
        call_ensures(builtin_keys, (), r),
        0 <= i < 10,
    ensures
        r@.len() == 10,
        r@[i].name@ == key_table()[i].name,
        r@[i].wmi_class@ == "HID_EVENT20"@,
        r@[i].hex_prefix@ == key_table()[i].hex_prefix,
        r@[i].action == key_table()[i].action,
{
    let views = r@.map_values(|k: FnKeyDef| k@);
    assert(views.len() == r@.len());
    assert(views[i] == r@[i]@);
    law_rows_of_the_table(i);
}

/// The names of the keys.
pub proof fn law_names_of_the_keys()
    ensures
        key_table()[0].name == "Fn+K 性能模式切换"@,
        key_table()[1].name == "Fn 锁"@,
        key_table()[2].name == "大写锁定"@,
        key_table()[3].name == "麦克风静音开"@,
        key_table()[4].name == "麦克风静音关"@,
        key_table()[5].name == "键盘背光循环"@,
        key_table()[6].name == "投影切换"@,
        key_table()[7].name == "设置"@,
        key_table()[8].name == "小爱同学"@,
        key_table()[9].name == "PC Manager"@,
{
}

/// A cleaned report holds letters and digits of ASCII only, and a report of those is clean.
pub proof fn law_clean_reports(report: &str, r: String)
    requires
        call_ensures(clean_report, (report,), r),
    ensures
        r@ == cleaned(report@),
        (forall|i: int|
            0 <= i < report@.len() ==> 'a' <= #[trigger] report@[i] <= 'z' || 'A' <= report@[i]
                <= 'Z' || '0' <= report@[i] <= '9') ==> r@ == report@,
{
    if forall|i: int|
        0 <= i < report@.len() ==> 'a' <= #[trigger] report@[i] <= 'z' || 'A' <= report@[i] <= 'Z'
            || '0' <= report@[i] <= '9' {
        lemma_clean_is_kept(report@);
    }
}

proof fn lemma_clean_is_kept(s: Seq<char>)
    requires
        forall|i: int|
            0 <= i < s.len() ==> 'a' <= #[trigger] s[i] <= 'z' || 'A' <= s[i] <= 'Z' || '0' <= s[i]
                <= '9',
    ensures
        cleaned(s) == s,
    decreases s.len(),
{
    reveal(Seq::filter);
    if s.len() > 0 {
        let front = s.drop_last();
        assert forall|i: int| 0 <= i < front.len() implies 'a' <= #[trigger] front[i] <= 'z' || 'A'
            <= front[i] <= 'Z' || '0' <= front[i] <= '9' by {
            assert(front[i] == s[i]);
        }
        lemma_clean_is_kept(front);
        lemma_cleaned_push(front, s.last());
        assert(front.push(s.last()) =~= s);
        assert(s[s.len() - 1] == s.last());
    } else {
        assert(cleaned(s) =~= s);
    }
}

/// The event classes that may report a key, by name.
pub proof fn law_event_classes()
    ensures
        WMI_CLASSES@.len() == 5,
        WMI_CLASSES@[0]@ == "HID_EVENT20"@,
        WMI_CLASSES@[1]@ == "HID_EVENT21"@,
        WMI_CLASSES@[2]@ == "HID_EVENT22"@,
        WMI_CLASSES@[3]@ == "HID_EVENT23"@,
        WMI_CLASSES@[4]@ == "WMIEvent"@,
{
}

} // verus!
