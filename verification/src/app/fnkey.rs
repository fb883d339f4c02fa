//! Function key bindings: which key report triggers which action.
//!
//! A report is a string of hexadecimal digits, two to a byte. Its bytes are a fixed
//! first one, the key code, and a status: `01` for a press, `00` for a release; more may
//! follow.

use crate::app::command::{UiCommand, UiCommandView};
use crate::app::recent::{younger, RecentKeys};
use crate::text;
use vstd::prelude::*;
use vstd::utf8::{decode_utf8, encode_utf8, is_char_boundary};

verus! {

/// The event class that reports Fn+K.
pub const FN_K_WMI_CLASS: &'static str = "HID_EVENT20";

/// How the report of a pressed Fn+K begins.
pub const FN_K_PRESS_PREFIX: &'static str = "012801";

// ── Actions ──

/// What a function key can be bound to.
#[derive(Debug, Clone, Copy, PartialEq, Eq, Structural)]
pub enum FnAction {
    /// Step to the next performance mode.
    CyclePerfMode,
    /// Turn battery care on or off.
    ToggleBatteryCare,
    /// Write the configuration to the hardware again.
    ReapplyConfig,
    /// Run the command of the binding in a process of its own.
    RunCommand,
    /// Do nothing; the event counts as handled.
    NoAction,
}

/// The name shown for an action.
pub open spec fn action_name(action: FnAction) -> Seq<char> {
    match action {
        FnAction::CyclePerfMode => "循环切换性能模式"@,
        FnAction::ToggleBatteryCare => "切换电池养护"@,
        FnAction::ReapplyConfig => "重新应用设置"@,
        FnAction::RunCommand => "运行自定义命令"@,
        FnAction::NoAction => "无动作"@,
    }
}

/// The command that an action sends, if it sends one.
pub open spec fn action_command(action: FnAction) -> Option<UiCommandView> {
    match action {
        FnAction::CyclePerfMode => Some(UiCommandView::CyclePerfMode),
        FnAction::ToggleBatteryCare => Some(UiCommandView::ToggleBatteryCare),
        FnAction::ReapplyConfig => Some(UiCommandView::ReapplyConfigManual),
        FnAction::RunCommand => None,
        FnAction::NoAction => None,
    }
}

impl FnAction {
    /// The name of the action.
    pub fn name(&self) -> (r: &'static str)
        ensures
            r@ == action_name(*self),
    {
        match self {
            Self::CyclePerfMode => "循环切换性能模式",
            Self::ToggleBatteryCare => "切换电池养护",
            Self::ReapplyConfig => "重新应用设置",
            Self::RunCommand => "运行自定义命令",
            Self::NoAction => "无动作",
        }
    }

    /// All actions.
    pub fn all() -> (r: &'static [FnAction])
        ensures
            r@ == seq![
                FnAction::CyclePerfMode,
                FnAction::ToggleBatteryCare,
                FnAction::ReapplyConfig,
                FnAction::RunCommand,
                FnAction::NoAction,
            ],
    {
        &[
            Self::CyclePerfMode,
            Self::ToggleBatteryCare,
            Self::ReapplyConfig,
            Self::RunCommand,
            Self::NoAction,
        ]
    }

    /// The command that the action sends. `RunCommand` and `NoAction` send none: the one runs
    /// a process, the other does nothing.
    ///
    /// A key bound to [`FnAction::ReapplyConfig`] is pressed by the user, so it asks for
    /// the manual form, which no setting switches off.
    pub fn as_ui_command(&self) -> (r: Option<UiCommand>)
        ensures
            match r {
                Some(c) => action_command(*self) == Some(c@),
                None => action_command(*self) is None,
            },
    {
        match self {
            Self::CyclePerfMode => Some(UiCommand::CyclePerfMode),
            Self::ToggleBatteryCare => Some(UiCommand::ToggleBatteryCare),
            Self::ReapplyConfig => Some(UiCommand::ReapplyConfigManual),
            Self::RunCommand | Self::NoAction => None,
        }
    }
}

// ── Bindings ──

/// A binding: reports of a class that begin with a prefix trigger an action.
#[derive(Debug)]
pub struct FnKeyBinding {
    /// The event class, such as `HID_EVENT20`.
    pub class: String,
    /// The beginning of the report, such as `012801`.
    pub prefix: String,
    /// What to do.
    pub action: FnAction,
    /// The command line for [`FnAction::RunCommand`].
    pub command: Option<String>,
}

/// A binding with its texts as sequences of characters.
pub struct FnKeyBindingView {
    pub class: Seq<char>,
    pub prefix: Seq<char>,
    pub action: FnAction,
    pub command: Option<Seq<char>>,
}

impl View for FnKeyBinding {
    type V = FnKeyBindingView;

    open spec fn view(&self) -> FnKeyBindingView {
        FnKeyBindingView {
            class: self.class@,
            prefix: self.prefix@,
            action: self.action,
            command: match self.command {
                Some(s) => Some(s@),
                None => None,
            },
        }
    }
}

/// A list of bindings, each by its view.
pub open spec fn bindings_view(bindings: Seq<FnKeyBinding>) -> Seq<FnKeyBindingView> {
    bindings.map_values(|b: FnKeyBinding| b@)
}

impl Clone for FnKeyBinding {
    fn clone(&self) -> (r: Self)
        ensures
            r == *self,
    {
        FnKeyBinding {
            class: self.class.clone(),
            prefix: self.prefix.clone(),
            action: self.action,
            command: match &self.command {
                Some(s) => Some(s.clone()),
                None => None,
            },
        }
    }
}

impl PartialEq for FnKeyBinding {
    fn eq(&self, other: &Self) -> (r: bool) {
        let same_command = match (&self.command, &other.command) {
            (Some(a), Some(b)) => text::str_eq(a.as_str(), b.as_str()),
            (None, None) => true,
            _ => false,
        };
        text::str_eq(self.class.as_str(), other.class.as_str()) && text::str_eq(
            self.prefix.as_str(),
            other.prefix.as_str(),
        ) && self.action == other.action && same_command
    }
}

impl vstd::std_specs::cmp::PartialEqSpecImpl for FnKeyBinding {
    open spec fn obeys_eq_spec() -> bool {
        true
    }

    open spec fn eq_spec(&self, other: &Self) -> bool {
        self@ == other@
    }
}

/// The binding of Fn+K to the next performance mode.
pub open spec fn fn_k_binding() -> FnKeyBindingView {
    FnKeyBindingView {
        class: FN_K_WMI_CLASS@,
        prefix: FN_K_PRESS_PREFIX@,
        action: FnAction::CyclePerfMode,
        command: None,
    }
}

/// A string of digits with a dash after every second one.
pub open spec fn dashed(p: Seq<char>) -> Seq<char>
    decreases p.len(),
{
    if p.len() <= 2 {
        p
    } else {
        seq![p[0], p[1], '-'] + dashed(p.skip(2))
    }
}

/// The label of a binding: its class, and its prefix byte by byte.
pub open spec fn label_text(class: Seq<char>, prefix: Seq<char>) -> Seq<char> {
    class + " / "@ + dashed(normalized_hex(prefix))
}

impl FnKeyBinding {
    /// The default binding of Fn+K.
    pub fn fn_k() -> (r: Self)
        ensures
            r@ == fn_k_binding(),
    {
        FnKeyBinding {
            class: text::copy_str(FN_K_WMI_CLASS),
            prefix: text::copy_str(FN_K_PRESS_PREFIX),
            action: FnAction::CyclePerfMode,
            command: None,
        }
    }

    /// The label shown for the binding, such as `HID_EVENT20 / 01-28-01`.
    pub fn label(&self) -> (r: String)
        ensures
            r@ == label_text(self.class@, self.prefix@),
    {
        binding_label(self.class.as_str(), self.prefix.as_str())
    }

    /// A prefix with its bytes apart: `012801` becomes `01-28-01`.
    pub fn display_prefix(prefix: &str) -> (r: String)
        ensures
            r@ == dashed(normalized_hex(prefix@)),
    {
        let digits = normalize_hex(prefix);
        let p = text::chars_of(digits.as_str());
        let mut out = String::new();
        let mut i: usize = 0;
        let n: usize = p.len();
        assert(p@.skip(0) =~= p@);
        assert(out@ + dashed(p@.skip(0)) =~= dashed(p@));
        while n - i > 2
            invariant
                n == p@.len(),
                i <= n,
                out@ + dashed(p@.skip(i as int)) == dashed(p@),
            decreases n - i,
        {
            let ghost before = out@;
            out.push(p[i]);
            out.push(p[i + 1]);
            out.push('-');
            proof {
                let rest = p@.skip(i as int);
                assert(rest.skip(2) =~= p@.skip(i + 2));
                assert(out@ + dashed(p@.skip(i + 2)) =~= before + dashed(rest));
            }
            i = i + 2;
        }
        let tail = text::string_of(&p, i, n);
        assert(tail@ =~= p@.skip(i as int));
        out.append(tail.as_str());
        out
    }
}

/// The label of a class and a prefix, such as `HID_EVENT20 / 01-28-01`.
pub fn binding_label(class: &str, prefix: &str) -> (r: String)
    ensures
        r@ == label_text(class@, prefix@),
{
    let mut out = text::copy_str(class);
    out.append(" / ");
    out.append(FnKeyBinding::display_prefix(prefix).as_str());
    out
}

/// The default bindings: Fn+K steps through the performance modes.
pub fn default_bindings() -> (r: Vec<FnKeyBinding>)
    ensures
        bindings_view(r@) == seq![fn_k_binding()],
{
    let mut out: Vec<FnKeyBinding> = Vec::new();
    out.push(FnKeyBinding::fn_k());
    assert(bindings_view(out@) =~= seq![fn_k_binding()]);
    out
}

// ── Known keys ──

/// A function key whose report is known.
#[derive(Debug, Clone, Copy)]
pub struct KnownFnKey {
    /// The event class.
    pub class: &'static str,
    /// The beginning of the report of a press.
    pub prefix: &'static str,
    /// The name of the key.
    pub name: &'static str,
}

/// The function keys whose reports are known: class, prefix and name of each.
pub open spec fn known_keys() -> Seq<(Seq<char>, Seq<char>, Seq<char>)> {
    seq![
        (FN_K_WMI_CLASS@, FN_K_PRESS_PREFIX@, "Fn+K 性能模式"@),
        ("HID_EVENT20"@, "012501"@, "PC Manager 键"@),
        ("HID_EVENT20"@, "012301"@, "小爱同学 (F7)"@),
        ("HID_EVENT20"@, "011B01"@, "设置 (F9)"@),
        ("HID_EVENT20"@, "010101"@, "投影 (F8)"@),
        ("HID_EVENT20"@, "012101"@, "麦克风静音 (F4)"@),
        ("HID_EVENT20"@, "010701"@, "Fn 锁 (Fn+Esc)"@),
        ("HID_EVENT20"@, "010901"@, "大写锁定"@),
    ]
}

/// A known key by its texts.
pub open spec fn known_key_view(k: KnownFnKey) -> (Seq<char>, Seq<char>, Seq<char>) {
    (k.class@, k.prefix@, k.name@)
}

/// The function keys whose reports are known.
///
/// The prefixes reach the status byte, so that only a press matches.
pub fn known_fn_keys() -> (r: &'static [KnownFnKey])
    ensures
        r@.map_values(|k: KnownFnKey| known_key_view(k)) == known_keys(),
{
    &[
        KnownFnKey { class: FN_K_WMI_CLASS, prefix: FN_K_PRESS_PREFIX, name: "Fn+K 性能模式" },
        KnownFnKey { class: "HID_EVENT20", prefix: "012501", name: "PC Manager 键" },
        KnownFnKey { class: "HID_EVENT20", prefix: "012301", name: "小爱同学 (F7)" },
        KnownFnKey { class: "HID_EVENT20", prefix: "011B01", name: "设置 (F9)" },
        KnownFnKey { class: "HID_EVENT20", prefix: "010101", name: "投影 (F8)" },
        KnownFnKey { class: "HID_EVENT20", prefix: "012101", name: "麦克风静音 (F4)" },
        KnownFnKey { class: "HID_EVENT20", prefix: "010701", name: "Fn 锁 (Fn+Esc)" },
        KnownFnKey { class: "HID_EVENT20", prefix: "010901", name: "大写锁定" },
    ]
}

// ── Reports ──

/// The hexadecimal digits of `s`, in upper case; everything else is left out.
pub open spec fn normalized_hex(s: Seq<char>) -> Seq<char> {
    s.filter(|c: char| text::is_hex_char(c)).map_values(|c: char| text::upper_char(c))
}

proof fn lemma_normalized_hex_push(s: Seq<char>, c: char)
    ensures
        normalized_hex(s.push(c)) == if text::is_hex_char(c) {
            normalized_hex(s).push(text::upper_char(c))
        } else {
            normalized_hex(s)
        },
{
    reveal(Seq::filter);
    let t = s.push(c);
    assert(t.drop_last() =~= s);
    assert(t.last() == c);
    assert(normalized_hex(t) =~= if text::is_hex_char(c) {
        normalized_hex(s).push(text::upper_char(c))
    } else {
        normalized_hex(s)
    });
}

/// A normalised report holds digits and the letters `A` to `F` only.
pub proof fn lemma_normalized_hex_digits(s: Seq<char>)
    ensures
        forall|i: int|
            0 <= i < normalized_hex(s).len() ==> text::is_upper_hex_char(
                #[trigger] normalized_hex(s)[i],
            ),
    decreases s.len(),
{
    reveal(Seq::filter);
    if s.len() > 0 {
        let front = s.drop_last();
        lemma_normalized_hex_digits(front);
        lemma_normalized_hex_push(front, s.last());
        assert(front.push(s.last()) =~= s);
    }
}

/// A text of upper-case digits is its own normal form.
pub proof fn lemma_normalized_hex_fixed(s: Seq<char>)
    requires
        forall|i: int| 0 <= i < s.len() ==> text::is_upper_hex_char(#[trigger] s[i]),
    ensures
        normalized_hex(s) == s,
    decreases s.len(),
{
    reveal(Seq::filter);
    if s.len() > 0 {
        let front = s.drop_last();
        assert forall|i: int| 0 <= i < front.len() implies text::is_upper_hex_char(
            #[trigger] front[i],
        ) by {
            assert(front[i] == s[i]);
        }
        lemma_normalized_hex_fixed(front);
        lemma_normalized_hex_push(front, s.last());
        assert(front.push(s.last()) =~= s);
        assert(text::is_upper_hex_char(s[s.len() - 1]));
    } else {
        assert(normalized_hex(s) =~= s);
    }
}

/// Normalising a concatenation is the concatenation of the normalised parts.
pub proof fn law_normalize_hex_concatenates(s: Seq<char>, t: Seq<char>)
    ensures
        normalized_hex(s + t) == normalized_hex(s) + normalized_hex(t),
    decreases t.len(),
{
    if t.len() == 0 {
        lemma_normalized_hex_fixed(t);
        assert(s + t =~= s);
        assert(normalized_hex(s) + normalized_hex(t) =~= normalized_hex(s));
    } else {
        let front = t.drop_last();
        law_normalize_hex_concatenates(s, front);
        lemma_normalized_hex_push(s + front, t.last());
        lemma_normalized_hex_push(front, t.last());
        assert((s + front).push(t.last()) =~= s + t);
        assert(front.push(t.last()) =~= t);
        assert(normalized_hex(s + t) =~= normalized_hex(s) + normalized_hex(t));
    }
}

/// Normalising is idempotent.
pub proof fn law_normalize_hex_idempotent(s: Seq<char>)
    ensures
        normalized_hex(normalized_hex(s)) == normalized_hex(s),
{
    lemma_normalized_hex_digits(s);
    lemma_normalized_hex_fixed(normalized_hex(s));
}

/// Brings a report or a prefix into its normal form: the hexadecimal digits alone, in
/// upper case.
///
/// Firmware may write its reports with separators and in lower case. Where there is no
/// digit at all the result is empty.
pub fn normalize_hex(report_hex: &str) -> (r: String)
    ensures
        r@ == normalized_hex(report_hex@),
{
    let v = text::chars_of(report_hex);
    let mut out = String::new();
    let mut i: usize = 0;
    proof {
        lemma_normalized_hex_fixed(v@.take(0));
        assert(v@.take(0) =~= Seq::<char>::empty());
    }
    while i < v.len()
        invariant
            i <= v@.len(),
            out@ == normalized_hex(v@.take(i as int)),
        decreases v@.len() - i,
    {
        proof {
            lemma_normalized_hex_push(v@.take(i as int), v@[i as int]);
            assert(v@.take(i as int).push(v@[i as int]) =~= v@.take(i + 1));
        }
        if text::is_hex_digit(v[i]) {
            out.push(text::to_upper(v[i]));
        }
        i = i + 1;
    }
    assert(v@.take(v@.len() as int) =~= v@);
    out
}

/// A prefix that is safe to bind: it has at least one whole byte, and whole bytes only.
pub open spec fn is_valid_prefix(prefix: Seq<char>) -> bool {
    normalized_hex(prefix).len() >= 2 && normalized_hex(prefix).len() % 2 == 0
}

/// Whether a prefix is safe to bind.
///
/// An empty prefix matches every report, and half a byte matches nearly every one.
pub fn valid_prefix(prefix: &str) -> (r: bool)
    ensures
        r == is_valid_prefix(prefix@),
{
    let p = normalize_hex(prefix);
    let n: usize = text::chars_of(p.as_str()).len();
    n >= 2 && n % 2 == 0
}

/// An identifier: a letter or `_`, and then letters, digits and `_`.
pub open spec fn is_identifier(s: Seq<char>) -> bool {
    &&& s.len() > 0
    &&& text::is_letter_char(s[0]) || s[0] == '_'
    &&& forall|i: int|
        1 <= i < s.len() ==> text::is_letter_char(#[trigger] s[i]) || text::is_digit_char(s[i])
            || s[i] == '_'
}

/// An event class that may stand in a query: an identifier, but for white space around it.
pub open spec fn is_valid_class(class: Seq<char>) -> bool {
    is_identifier(text::trimmed(class))
}

/// Whether a name may stand in a query as an event class.
///
/// White space around it does not count, so a class is to be trimmed before it is stored.
pub fn valid_class(class: &str) -> (r: bool)
    ensures
        r == is_valid_class(class@),
{
    let trimmed = text::trim(class);
    let v = text::chars_of(trimmed.as_str());
    if v.len() == 0 {
        return false;
    }
    if !(text::is_ascii_letter(v[0]) || v[0] == '_') {
        return false;
    }
    let mut i: usize = 1;
    while i < v.len()
        invariant
            1 <= i <= v@.len(),
            v@ == text::trimmed(class@),
            forall|k: int|
                1 <= k < i ==> text::is_letter_char(#[trigger] v@[k]) || text::is_digit_char(v@[k])
                    || v@[k] == '_',
        decreases v@.len() - i,
    {
        if !(text::is_ascii_letter(v[i]) || text::is_ascii_digit(v[i]) || v[i] == '_') {
            return false;
        }
        i = i + 1;
    }
    true
}

/// The bytes of a text.
pub open spec fn bytes_of(s: Seq<char>) -> Seq<u8> {
    encode_utf8(s)
}

/// The two digits of the status byte can be cut out of the text: it is too short to have
/// them, or no character straddles them.
pub open spec fn status_is_apart(s: Seq<char>) -> bool {
    bytes_of(s).len() < 6 || (is_char_boundary(bytes_of(s), 4) && is_char_boundary(bytes_of(s), 6))
}

/// The report of a press: its status byte is `01`.
pub open spec fn is_press(s: Seq<char>) -> bool {
    bytes_of(s).len() >= 6 && bytes_of(s)[4] == 0x30 && bytes_of(s)[5] == 0x31
}

/// The report of a release: its status byte is `00`.
pub open spec fn is_release(s: Seq<char>) -> bool {
    bytes_of(s).len() >= 6 && bytes_of(s)[4] == 0x30 && bytes_of(s)[5] == 0x30
}

/// A report without its status byte; a text without one is itself.
pub open spec fn without_status(s: Seq<char>) -> Seq<char> {
    let b = bytes_of(s);
    if b.len() >= 6 {
        decode_utf8(b.subrange(0, 4)) + decode_utf8(b.subrange(6, b.len() as int))
    } else {
        s
    }
}

/// In a text of hexadecimal digits every character is one byte.
pub proof fn lemma_hex_bytes(s: Seq<char>)
    requires
        forall|i: int| 0 <= i < s.len() ==> text::is_upper_hex_char(#[trigger] s[i]),
    ensures
        bytes_of(s).len() == s.len(),
        forall|i: int| 0 <= i < s.len() ==> #[trigger] bytes_of(s)[i] == s[i] as u8,
        status_is_apart(s),
        s.len() >= 6 ==> without_status(s) == s.take(4) + s.skip(6),
{
    assert(vstd::utf8::is_ascii_chars(s)) by {
        assert forall|i: int| 0 <= i < s.len() implies '\0' <= #[trigger] s[i] <= '\u{7f}' by {
            assert(text::is_upper_hex_char(s[i]));
        }
    }
    vstd::utf8::is_ascii_chars_encode_utf8(s);
    vstd::utf8::encode_utf8_valid_utf8(s);
    if s.len() >= 6 {
        let b = bytes_of(s);
        lemma_ascii_cut(s, 4);
        lemma_ascii_cut(s, 6);
    }
}

proof fn lemma_ascii_cut(s: Seq<char>, i: int)
    requires
        vstd::utf8::is_ascii_chars(s),
        0 <= i <= s.len(),
    ensures
        is_char_boundary(bytes_of(s), i),
        decode_utf8(bytes_of(s).subrange(0, i)) == s.take(i),
        decode_utf8(bytes_of(s).subrange(i, bytes_of(s).len() as int)) == s.skip(i),
{
    vstd::utf8::is_ascii_chars_encode_utf8(s);
    vstd::utf8::encode_utf8_valid_utf8(s);
    let b = bytes_of(s);
    if i < s.len() {
        vstd::utf8::is_char_boundary_iff_not_is_continuation_byte(b, i);
        let x = b[i];
        assert(x < 0x80 ==> !(x & 0xC0 == 0x80)) by (bit_vector);
        assert(s[i] <= '\u{7f}');
    } else {
        vstd::utf8::is_char_boundary_start_end_of_seq(b);
    }
    assert(vstd::utf8::is_ascii_chars(s.take(i)));
    assert(vstd::utf8::is_ascii_chars(s.skip(i)));
    vstd::utf8::is_ascii_chars_encode_utf8(s.take(i));
    vstd::utf8::is_ascii_chars_encode_utf8(s.skip(i));
    assert(b.subrange(0, i) =~= encode_utf8(s.take(i)));
    assert(b.subrange(i, b.len() as int) =~= encode_utf8(s.skip(i)));
    vstd::utf8::encode_utf8_decode_utf8(s.take(i));
    vstd::utf8::encode_utf8_decode_utf8(s.skip(i));
}

/// Whether a report is that of a press.
pub fn is_press_report(normalized: &str) -> (r: bool)
    requires
        status_is_apart(normalized@),
    ensures
        r == is_press(normalized@),
{
    let b = normalized.as_bytes();
    b.len() >= 6 && b[4] == 0x30 && b[5] == 0x31
}

/// Whether the status byte of a text is that of a release.
fn has_release_status(normalized: &str) -> (r: bool)
    ensures
        r == is_release(normalized@),
{
    let b = normalized.as_bytes();
    b.len() >= 6 && b[4] == 0x30 && b[5] == 0x30
}

/// Whether a report is that of a release.
pub fn is_release_report(normalized: &str) -> (r: bool)
    requires
        status_is_apart(normalized@),
    ensures
        r == is_release(normalized@),
{
    has_release_status(normalized)
}

/// The identity of a key: its report without the status byte, so that the press and the
/// release of a key are the same. A text that is too short for a status byte is returned
/// as it is.
pub fn key_without_status_byte(normalized: &str) -> (r: String)
    requires
        status_is_apart(normalized@),
    ensures
        r@ == without_status(normalized@),
{
    if normalized.as_bytes().len() >= 6 {
        let head = normalized.split_at(4).0;
        let tail = normalized.split_at(6).1;
        proof {
            vstd::utf8::encode_utf8_decode_utf8(head@);
            vstd::utf8::encode_utf8_decode_utf8(tail@);
        }
        let mut out = text::copy_str(head);
        out.append(tail);
        out
    } else {
        text::copy_str(normalized)
    }
}

/// A prefix that ends before the status byte, and the report of a release.
pub open spec fn is_release_after_prefix(prefix: Seq<char>, normalized: Seq<char>) -> bool {
    bytes_of(prefix).len() <= 4 && is_release(normalized)
}

/// Whether a report is a release that the prefix cannot tell from a press.
///
/// A prefix of at most two bytes does not reach the status byte, so it matches the press
/// and the release of a key alike; the release must not trigger the action a second time.
/// A longer prefix holds the status byte, and what it matches is what was bound.
pub fn release_state_after_prefix(prefix: &str, normalized: &str) -> (r: bool)
    requires
        bytes_of(prefix@).len() <= 4 ==> status_is_apart(normalized@),
    ensures
        r == is_release_after_prefix(prefix@, normalized@),
{
    is_ambiguous_release(prefix, normalized)
}

/// Whether the prefix ends before the status byte, and that is one of a release.
fn is_ambiguous_release(prefix: &str, normalized: &str) -> (r: bool)
    ensures
        r == is_release_after_prefix(prefix@, normalized@),
{
    prefix.as_bytes().len() <= 4 && has_release_status(normalized)
}

// ── Matching ──

/// The report triggers the binding: the classes are the same, the report begins with the
/// prefix, which is not empty, and it is not a release that the prefix cannot tell from a
/// press.
pub open spec fn triggers(b: FnKeyBindingView, class: Seq<char>, normalized: Seq<char>) -> bool {
    let prefix = normalized_hex(b.prefix);
    &&& b.class == class
    &&& prefix.len() > 0
    &&& prefix.is_prefix_of(normalized)
    &&& !is_release_after_prefix(prefix, normalized)
}

/// The first binding that the report triggers.
pub open spec fn first_triggered(
    bindings: Seq<FnKeyBindingView>,
    class: Seq<char>,
    normalized: Seq<char>,
) -> Option<FnKeyBindingView>
    decreases bindings.len(),
{
    if bindings.len() == 0 {
        None
    } else if triggers(bindings[0], class, normalized) {
        Some(bindings[0])
    } else {
        first_triggered(bindings.drop_first(), class, normalized)
    }
}

/// Whether a report triggers a binding.
pub fn binding_triggers(binding: &FnKeyBinding, class: &str, normalized: &str) -> (r: bool)
    ensures
        r == triggers(binding@, class@, normalized@),
{
    if !text::str_eq(binding.class.as_str(), class) {
        return false;
    }
    let prefix = normalize_hex(binding.prefix.as_str());
    !prefix.as_str().is_empty() && text::starts_with(normalized, prefix.as_str())
        && !is_ambiguous_release(prefix.as_str(), normalized)
}

/// The index of the first binding that a report triggers.
pub fn find_binding(bindings: &Vec<FnKeyBinding>, class: &str, normalized: &str) -> (r: Option<
    usize,
>)
    ensures
        match r {
            Some(i) => i < bindings@.len() && first_triggered(
                bindings_view(bindings@),
                class@,
                normalized@,
            ) == Some(bindings@[i as int]@),
            None => first_triggered(bindings_view(bindings@), class@, normalized@) is None,
        },
        match r {
            Some(i) => {
                &&& i < bindings@.len()
                &&& triggers(bindings@[i as int]@, class@, normalized@)
                &&& forall|k: int|
                    0 <= k < i ==> !triggers((#[trigger] bindings@[k])@, class@, normalized@)
            },
            None => forall|k: int|
                0 <= k < bindings@.len() ==> !triggers(
                    (#[trigger] bindings@[k])@,
                    class@,
                    normalized@,
                ),
        },
{
    let ghost all = bindings_view(bindings@);
    let mut i: usize = 0;
    assert(all.skip(0) =~= all);
    while i < bindings.len()
        invariant
            i <= bindings@.len(),
            all == bindings_view(bindings@),
            first_triggered(all.skip(i as int), class@, normalized@) == first_triggered(
                all,
                class@,
                normalized@,
            ),
            forall|k: int|
                0 <= k < i ==> !triggers((#[trigger] bindings@[k])@, class@, normalized@),
        decreases bindings@.len() - i,
    {
        assert(all.skip(i as int)[0] == bindings@[i as int]@);
        assert(all.skip(i as int).drop_first() =~= all.skip(i + 1));
        if binding_triggers(&bindings[i], class, normalized) {
            return Some(i);
        }
        i = i + 1;
    }
    None
}

// ── Capturing ──

/// For how long the events of a key are held back after one was forwarded, in
/// nanoseconds.
pub const CAPTURE_FORWARD_MIN_NS: u64 = 150_000_000;

/// The identity of a key within its class.
pub open spec fn key_identity(class: Seq<char>, normalized: Seq<char>) -> Seq<char> {
    class + "/"@ + without_status(normalized)
}

/// Whether a key event that is seen while keys are captured is to be forwarded, given
/// the keys that were forwarded lately.
///
/// The press, the release and the repetitions of one key count as one event: after one
/// was forwarded, the others are held back for [`CAPTURE_FORWARD_MIN_NS`]. Other keys are
/// not held back by it. A forwarded key is noted, and keys of long ago are forgotten.
pub fn capture_event_gate(
    recent: &mut RecentKeys,
    now_ns: u64,
    class: &str,
    normalized: &str,
) -> (r: bool)
    requires
        old(recent).wf(),
        status_is_apart(normalized@),
    ensures
        final(recent).wf(),
        ({
            let held = younger(old(recent)@, now_ns, CAPTURE_FORWARD_MIN_NS);
            let key = key_identity(class@, normalized@);
            &&& r == !held.contains_key(key)
            &&& final(recent)@ == if r {
                held.insert(key, now_ns)
            } else {
                held
            }
        }),
{
    let mut identity = text::copy_str(class);
    identity.append("/");
    identity.append(key_without_status_byte(normalized).as_str());
    recent.forget_older(now_ns, CAPTURE_FORWARD_MIN_NS);
    match recent.get(identity.as_str()) {
        Some(_) => false,
        None => {
            recent.note(identity.as_str(), now_ns);
            true
        },
    }
}

// ── Waiting and logging ──

/// How many seconds to wait before looking for the event classes again, after so many
/// attempts that found none.
pub open spec fn backoff_secs(stale_cycles: u32) -> u64 {
    if stale_cycles <= 3 {
        5
    } else if stale_cycles <= 20 {
        30
    } else {
        60
    }
}

/// How many seconds to wait before looking for the event classes again: a short while at
/// first, for a driver that is still loading, and longer and longer after that.
pub fn no_event_classes_backoff_secs(stale_cycles: u32) -> (r: u64)
    ensures
        r == backoff_secs(stale_cycles),
{
    if stale_cycles <= 3 {
        5
    } else if stale_cycles <= 20 {
        30
    } else {
        60
    }
}

/// How many characters of a command may be logged.
pub const REDACT_LEN: usize = 32;

/// A command as it may be logged: in full if it is short, else its beginning and its
/// length.
pub open spec fn redacted(command: Seq<char>) -> Seq<char> {
    if command.len() <= REDACT_LEN {
        command
    } else {
        command.take(REDACT_LEN as int) + "... ("@ + text::decimal(command.len()) + " chars)"@
    }
}

/// A command as it may be logged. It may hold credentials, so of a long one only the
/// first characters and the length are kept.
pub fn redact_command(command: &str) -> (r: String)
    ensures
        r@ == redacted(command@),
{
    let v = text::chars_of(command);
    if v.len() <= REDACT_LEN {
        return text::copy_str(command);
    }
    let mut out = text::string_of(&v, 0, REDACT_LEN);
    assert(out@ =~= command@.take(REDACT_LEN as int));
    out.append("... (");
    text::push_decimal(&mut out, v.len() as u64);
    out.append(" chars)");
    out
}

// ── Laws ──

/// The press and the release of a key have the same identity: two reports that differ in
/// their status byte only are the same key.
pub proof fn law_press_and_release_are_one_key(press: Seq<char>, release: Seq<char>)
    requires
        press.len() == release.len(),
        press.len() >= 6,
        forall|i: int| 0 <= i < press.len() ==> text::is_upper_hex_char(#[trigger] press[i]),
        forall|i: int| 0 <= i < release.len() ==> text::is_upper_hex_char(#[trigger] release[i]),
        forall|i: int| 0 <= i < press.len() && i != 4 && i != 5 ==> press[i] == release[i],
    ensures
        without_status(press) == without_status(release),
{
    lemma_hex_bytes(press);
    lemma_hex_bytes(release);
    assert(press.take(4) + press.skip(6) =~= release.take(4) + release.skip(6));
}

/// No report is both a press and a release.
pub proof fn law_press_excludes_release(s: Seq<char>)
    ensures
        !(is_press(s) && is_release(s)),
{
}

/// A release never triggers a binding whose prefix has at most two bytes.
pub proof fn law_release_never_triggers_short_prefix(
    b: FnKeyBindingView,
    class: Seq<char>,
    normalized: Seq<char>,
)
    requires
        normalized_hex(b.prefix).len() <= 4,
        is_release(normalized),
    ensures
        !triggers(b, class, normalized),
{
    lemma_normalized_hex_digits(b.prefix);
    lemma_hex_bytes(normalized_hex(b.prefix));
}

/// Of the press and the release of a key at most one triggers a binding with a safe
/// prefix: a key stroke acts once.
pub proof fn law_key_stroke_triggers_once(
    b: FnKeyBindingView,
    class: Seq<char>,
    press: Seq<char>,
    release: Seq<char>,
)
    requires
        is_valid_prefix(b.prefix),
        forall|i: int| 0 <= i < press.len() ==> text::is_upper_hex_char(#[trigger] press[i]),
        forall|i: int| 0 <= i < release.len() ==> text::is_upper_hex_char(#[trigger] release[i]),
        is_press(press),
        is_release(release),
    ensures
        !(triggers(b, class, press) && triggers(b, class, release)),
{
    let p = normalized_hex(b.prefix);
    lemma_normalized_hex_digits(b.prefix);
    lemma_hex_bytes(p);
    lemma_hex_bytes(press);
    lemma_hex_bytes(release);
    if triggers(b, class, press) && triggers(b, class, release) {
        assert(p.len() >= 6);
        assert(p[5] == press.take(p.len() as int)[5]);
        assert(p[5] == release.take(p.len() as int)[5]);
        assert(bytes_of(press)[5] == press[5] as u8);
        assert(bytes_of(release)[5] == release[5] as u8);
    }
}

/// The default binding is a safe one.
pub proof fn law_default_binding_is_valid()
    ensures
        is_valid_class(fn_k_binding().class),
        is_valid_prefix(fn_k_binding().prefix),
{
    reveal_strlit("HID_EVENT20");
    reveal_strlit("012801");
    let p = FN_K_PRESS_PREFIX@;
    lemma_normalized_hex_fixed(p);
    let c = FN_K_WMI_CLASS@;
    assert(text::trim_start(c) == c);
    assert(c.last() == '0');
    assert(text::trim_end(c) == c);
}

/// The known keys are told apart by class and prefix, every prefix is safe to bind, and
/// it is that of a press.
pub proof fn law_known_keys_are_distinct(i: int, j: int)
    requires
        0 <= i < known_keys().len(),
        0 <= j < known_keys().len(),
        i != j,
    ensures
        (known_keys()[i].0, known_keys()[i].1) != (known_keys()[j].0, known_keys()[j].1),
        is_valid_prefix(known_keys()[i].1),
        is_press(known_keys()[i].1),
{
    reveal_strlit("012801");
    reveal_strlit("012501");
    reveal_strlit("012301");
    reveal_strlit("011B01");
    reveal_strlit("010101");
    reveal_strlit("012101");
    reveal_strlit("010701");
    reveal_strlit("010901");
    let a = known_keys()[i].1;
    let b = known_keys()[j].1;
    assert(a[2] != b[2] || a[3] != b[3]);
    lemma_normalized_hex_fixed(a);
    lemma_hex_bytes(a);
}

/// A key that was just forwarded is held back, and a key that was never seen is not.
pub proof fn law_capture_gate_window(
    before: Map<Seq<char>, u64>,
    key: Seq<char>,
    then: u64,
    now: u64,
)
    requires
        then <= now,
    ensures
        younger(before.insert(key, then), now, CAPTURE_FORWARD_MIN_NS).contains_key(key) <==> now
            - then < CAPTURE_FORWARD_MIN_NS,
        !before.contains_key(key) ==> !younger(before, now, CAPTURE_FORWARD_MIN_NS).contains_key(
            key,
        ),
{
}

/// The table of the capture gate after a history of calls, each with its key and its time.
pub open spec fn gate_after(calls: Seq<(Seq<char>, u64)>) -> Map<Seq<char>, u64>
    decreases calls.len(),
{
    if calls.len() == 0 {
        Map::empty()
    } else {
        let (key, now) = calls.last();
        let held = younger(gate_after(calls.drop_last()), now, CAPTURE_FORWARD_MIN_NS);
        if held.contains_key(key) {
            held
        } else {
            held.insert(key, now)
        }
    }
}

/// The call with the number `i` lets its key through.
pub open spec fn lets_through(calls: Seq<(Seq<char>, u64)>, i: int) -> bool {
    !younger(gate_after(calls.take(i)), calls[i].1, CAPTURE_FORWARD_MIN_NS).contains_key(calls[i].0)
}

/// The calls come in the order of their times.
pub open spec fn in_order(calls: Seq<(Seq<char>, u64)>) -> bool {
    forall|i: int, j: int|
        0 <= i <= j < calls.len() ==> (#[trigger] calls[i]).1 <= (#[trigger] calls[j]).1
}

/// What is in the table after `n` calls: a key with a time at which it was let through; and
/// every key that was let through less than the given time before the last call.
proof fn lemma_gate_after(calls: Seq<(Seq<char>, u64)>, n: int)
    requires
        in_order(calls),
        0 <= n <= calls.len(),
    ensures
        forall|k: Seq<char>| #[trigger]
            gate_after(calls.take(n)).contains_key(k) ==> exists|j: int|
                0 <= j < n && #[trigger] lets_through(calls, j) && calls[j].0 == k && calls[j].1
                    == gate_after(calls.take(n))[k],
        forall|j: int|
            0 <= j < n && #[trigger] lets_through(calls, j) && calls[n - 1].1 - calls[j].1
                < CAPTURE_FORWARD_MIN_NS ==> gate_after(calls.take(n)).contains_key(calls[j].0)
                && gate_after(calls.take(n))[calls[j].0] >= calls[j].1,
    decreases n,
{
    if n > 0 {
        lemma_gate_after(calls, n - 1);
        let before = gate_after(calls.take(n - 1));
        let after = gate_after(calls.take(n));
        let (key, now) = calls[n - 1];
        assert(calls.take(n).drop_last() =~= calls.take(n - 1));
        assert(calls.take(n).last() == calls[n - 1]);
        let held = younger(before, now, CAPTURE_FORWARD_MIN_NS);
        assert(lets_through(calls, n - 1) == !held.contains_key(key));
        assert forall|k: Seq<char>| #[trigger] after.contains_key(k) implies exists|j: int|
            0 <= j < n && #[trigger] lets_through(calls, j) && calls[j].0 == k && calls[j].1
                == after[k] by {
            if !held.contains_key(k) {
                assert(k == key && lets_through(calls, n - 1));
            } else {
                assert(before.contains_key(k));
            }
        }
        assert forall|j: int|
            0 <= j < n && #[trigger] lets_through(calls, j) && calls[n - 1].1 - calls[j].1
                < CAPTURE_FORWARD_MIN_NS implies after.contains_key(calls[j].0)
            && after[calls[j].0] >= calls[j].1 by {
            if j < n - 1 {
                assert(calls[n - 2].1 <= calls[n - 1].1);
                assert(before.contains_key(calls[j].0));
                assert(held.contains_key(calls[j].0));
            }
        }
    }
}

/// Over any history of calls, the capture gate lets a key through exactly if it has not let
/// it through less than the given time before.
pub proof fn law_capture_gate_history(calls: Seq<(Seq<char>, u64)>, i: int)
    requires
        in_order(calls),
        0 <= i < calls.len(),
    ensures
        lets_through(calls, i) <==> !exists|j: int|
            0 <= j < i && #[trigger] lets_through(calls, j) && calls[j].0 == calls[i].0
                && calls[i].1 - calls[j].1 < CAPTURE_FORWARD_MIN_NS,
{
    lemma_gate_after(calls, i);
    let table = gate_after(calls.take(i));
    let (key, now) = calls[i];
    if !lets_through(calls, i) {
        assert(table.contains_key(key));
        let j = choose|j: int|
            0 <= j < i && #[trigger] lets_through(calls, j) && calls[j].0 == key && calls[j].1
                == table[key];
        assert(calls[j].1 <= calls[i].1);
    }
    if exists|j: int|
        0 <= j < i && #[trigger] lets_through(calls, j) && calls[j].0 == calls[i].0 && calls[i].1
            - calls[j].1 < CAPTURE_FORWARD_MIN_NS {
        let j = choose|j: int|
            0 <= j < i && #[trigger] lets_through(calls, j) && calls[j].0 == calls[i].0
                && calls[i].1 - calls[j].1 < CAPTURE_FORWARD_MIN_NS;
        assert(calls[i - 1].1 <= calls[i].1);
        assert(table.contains_key(key) && table[key] >= calls[j].1);
    }
}

/// The text is a report in its normal form: digits and the letters `A` to `F`.
pub open spec fn is_report(s: Seq<char>) -> bool {
    forall|i: int| 0 <= i < s.len() ==> '0' <= #[trigger] s[i] <= '9' || 'A' <= s[i] <= 'F'
}

proof fn lemma_report_bytes(s: Seq<char>)
    requires
        is_report(s),
    ensures
        bytes_of(s).len() == s.len(),
        forall|i: int| 0 <= i < s.len() ==> #[trigger] bytes_of(s)[i] == s[i] as u8,
        status_is_apart(s),
        s.len() >= 6 ==> without_status(s) == s.take(4) + s.skip(6),
        s.len() < 6 ==> without_status(s) == s,
{
    assert forall|i: int| 0 <= i < s.len() implies text::is_upper_hex_char(#[trigger] s[i]) by {}
    lemma_hex_bytes(s);
}

/// Normalising goes character by character: a digit or a capital `A` to `F` stays, a small
/// `a` to `f` becomes the capital, and everything else is left out. Together with the law of
/// concatenation this says what the normal form of any text is.
pub proof fn law_normalize_hex_by_character(c: char, s: &str, r: String)
    requires
        call_ensures(normalize_hex, (s,), r),
    ensures
        r@ == normalized_hex(s@),
        is_report(r@),
        '0' <= c <= '9' || 'A' <= c <= 'F' ==> normalized_hex(seq![c]) == seq![c],
        'a' <= c <= 'f' ==> normalized_hex(seq![c]) == seq![(c as int - 32) as char],
        !('0' <= c <= '9' || 'A' <= c <= 'F' || 'a' <= c <= 'f') ==> normalized_hex(seq![c]).len()
            == 0,
{
    lemma_normalized_hex_digits(s@);
    assert forall|i: int| 0 <= i < r@.len() implies '0' <= #[trigger] r@[i] <= '9' || 'A' <= r@[i]
        <= 'F' by {
        assert(text::is_upper_hex_char(normalized_hex(s@)[i]));
    }
    let none = Seq::<char>::empty();
    lemma_normalized_hex_fixed(none);
    lemma_normalized_hex_push(none, c);
    assert(none.push(c) =~= seq![c]);
    assert(none.push(text::upper_char(c)) =~= seq![text::upper_char(c)]);
}

/// A prefix is safe to bind exactly if it has digits, and an even number of them.
pub proof fn law_safe_prefixes(prefix: &str, r: bool)
    requires
        call_ensures(valid_prefix, (prefix,), r),
    ensures
        r <==> normalized_hex(prefix@).len() > 0 && exists|n: int|
            normalized_hex(prefix@).len() == #[trigger] (2 * n),
{
    let n = normalized_hex(prefix@).len() as int;
    if r {
        assert(n == 2 * (n / 2));
    }
}

/// A class may stand in a query exactly if, trimmed, it is not empty, every character is a
/// letter of ASCII, a digit or `_`, and the first is no digit.
pub proof fn law_safe_classes(class: &str, r: bool)
    requires
        call_ensures(valid_class, (class,), r),
    ensures
        r <==> {
            let s = text::trimmed(class@);
            &&& s.len() > 0
            &&& !('0' <= s[0] <= '9')
            &&& forall|i: int|
                0 <= i < s.len() ==> 'a' <= #[trigger] s[i] <= 'z' || 'A' <= s[i] <= 'Z' || '0'
                    <= s[i] <= '9' || s[i] == '_'
        },
{
    let s = text::trimmed(class@);
    if r {
        assert forall|i: int| 0 <= i < s.len() implies 'a' <= #[trigger] s[i] <= 'z' || 'A' <= s[i]
            <= 'Z' || '0' <= s[i] <= '9' || s[i] == '_' by {
            if i > 0 {
                assert(text::is_letter_char(s[i]) || text::is_digit_char(s[i]) || s[i] == '_');
            }
        }
    }
    if s.len() > 0 && !('0' <= s[0] <= '9') && (forall|i: int|
        0 <= i < s.len() ==> 'a' <= #[trigger] s[i] <= 'z' || 'A' <= s[i] <= 'Z' || '0' <= s[i]
            <= '9' || s[i] == '_') {
        assert('a' <= s[0] <= 'z' || 'A' <= s[0] <= 'Z' || '0' <= s[0] <= '9' || s[0] == '_');
    }
}

/// A report is a press exactly if its fifth and sixth digit are `01`, and a release exactly
/// if they are `00`. Its key is the rest.
pub proof fn law_status_is_the_third_byte(
    normalized: &str,
    press: bool,
    release: bool,
    key: String,
)
    requires
        is_report(normalized@),
        call_ensures(is_press_report, (normalized,), press),
        call_ensures(is_release_report, (normalized,), release),
        call_ensures(key_without_status_byte, (normalized,), key),
    ensures
        press <==> normalized@.len() >= 6 && normalized@[4] == '0' && normalized@[5] == '1',
        release <==> normalized@.len() >= 6 && normalized@[4] == '0' && normalized@[5] == '0',
        normalized@.len() >= 6 ==> key@ == normalized@.take(4) + normalized@.skip(6),
        normalized@.len() < 6 ==> key@ == normalized@,
{
    lemma_report_bytes(normalized@);
    if normalized@.len() >= 6 {
        let a = normalized@[4];
        let b = normalized@[5];
        assert(bytes_of(normalized@)[4] == a as u8 && bytes_of(normalized@)[5] == b as u8);
        assert(a as u8 == a as int && b as u8 == b as int);
    }
}

/// A press triggers: whatever the class and the binding, a report of the class of the
/// binding that begins with its prefix, which is safe to bind, and whose status byte is `01`
/// triggers it.
pub proof fn law_press_triggers(
    binding: FnKeyBinding,
    class: &str,
    normalized: &str,
    r: bool,
)
    requires
        call_ensures(binding_triggers, (&binding, class, normalized), r),
        class@ == binding.class@,
        is_valid_prefix(binding.prefix@),
        normalized_hex(binding.prefix@).is_prefix_of(normalized@),
        is_report(normalized@),
        normalized@.len() >= 6,
        normalized@[4] == '0',
        normalized@[5] == '1',
    ensures
        r,
        triggers(binding@, class@, normalized@),
{
    lemma_report_bytes(normalized@);
    assert(bytes_of(normalized@)[5] == '1' as u8);
}

/// What triggers a binding, exactly: a report of its class that begins with its prefix,
/// which has at least one digit. The one exception is a release, where the prefix has at
/// most four digits and so does not reach the status byte.
pub proof fn law_what_triggers(
    binding: FnKeyBinding,
    class: &str,
    normalized: &str,
    r: bool,
)
    requires
        call_ensures(binding_triggers, (&binding, class, normalized), r),
        is_report(normalized@),
    ensures
        r <==> {
            let prefix = normalized_hex(binding.prefix@);
            let release = normalized@.len() >= 6 && normalized@[4] == '0' && normalized@[5] == '0';
            &&& class@ == binding.class@
            &&& 0 < prefix.len() <= normalized@.len()
            &&& forall|i: int| 0 <= i < prefix.len() ==> #[trigger] prefix[i] == normalized@[i]
            &&& release ==> prefix.len() > 4
        },
{
    let prefix = normalized_hex(binding.prefix@);
    lemma_normalized_hex_digits(binding.prefix@);
    lemma_hex_bytes(prefix);
    lemma_report_bytes(normalized@);
    if normalized@.len() >= 6 {
        let a = normalized@[4];
        let b = normalized@[5];
        assert(bytes_of(normalized@)[4] == a as u8 && bytes_of(normalized@)[5] == b as u8);
        assert(a as u8 == a as int && b as u8 == b as int);
    }
    if prefix.is_prefix_of(normalized@) {
        assert forall|i: int| 0 <= i < prefix.len() implies #[trigger] prefix[i]
            == normalized@[i] by {
            assert(normalized@.take(prefix.len() as int)[i] == prefix[i]);
        }
    }
    if prefix.len() <= normalized@.len() && (forall|i: int|
        0 <= i < prefix.len() ==> #[trigger] prefix[i] == normalized@[i]) {
        assert(normalized@.take(prefix.len() as int) =~= prefix);
    }
}

/// A report with the status byte is told from a press by a prefix that ends before it: with
/// such a prefix the press triggers and the release of the same key does not.
pub proof fn law_short_prefix_takes_the_press_only(
    b: FnKeyBindingView,
    head: Seq<char>,
    tail: Seq<char>,
)
    requires
        is_report(head),
        is_report(tail),
        head.len() == 4,
        0 < normalized_hex(b.prefix).len() <= 4,
        normalized_hex(b.prefix).is_prefix_of(head),
    ensures
        triggers(b, b.class, head + seq!['0', '1'] + tail),
        !triggers(b, b.class, head + seq!['0', '0'] + tail),
{
    let p = normalized_hex(b.prefix);
    let press = head + seq!['0', '1'] + tail;
    let release = head + seq!['0', '0'] + tail;
    lemma_normalized_hex_digits(b.prefix);
    lemma_hex_bytes(p);
    assert(is_report(press));
    assert(is_report(release));
    lemma_report_bytes(press);
    lemma_report_bytes(release);
    assert(press[4] == '0' && press[5] == '1' && release[4] == '0' && release[5] == '0');
    assert(bytes_of(press)[5] == '1' as u8);
    assert(bytes_of(release)[4] == '0' as u8 && bytes_of(release)[5] == '0' as u8);
    assert(press.take(p.len() as int) =~= head.take(p.len() as int));
    assert(p.is_prefix_of(press));
}

/// The first binding that triggers is the one that counts: those before it do not, and those
/// after it do not matter.
pub proof fn law_first_binding_wins(
    before: Seq<FnKeyBindingView>,
    b: FnKeyBindingView,
    after: Seq<FnKeyBindingView>,
    class: Seq<char>,
    normalized: Seq<char>,
)
    requires
        forall|i: int| 0 <= i < before.len() ==> !triggers(#[trigger] before[i], class, normalized),
    ensures
        first_triggered(before, class, normalized) is None,
        triggers(b, class, normalized) ==> first_triggered(
            before + seq![b] + after,
            class,
            normalized,
        ) == Some(b),
    decreases before.len(),
{
    let all = before + seq![b] + after;
    if before.len() == 0 {
        assert(all[0] == b);
    } else {
        assert(!triggers(before[0], class, normalized));
        assert(all[0] == before[0]);
        assert(all.drop_first() =~= before.drop_first() + seq![b] + after);
        law_first_binding_wins(before.drop_first(), b, after, class, normalized);
    }
}

/// The action of a key sends one command, if any: the next mode, the care setting turned
/// over, or the settings once more, by the wish of the user. Running a command and doing
/// nothing send none.
pub proof fn law_commands_of_actions(action: FnAction, r: Option<UiCommand>)
    requires
        call_ensures(FnAction::as_ui_command, (&action,), r),
    ensures
        action == FnAction::CyclePerfMode ==> (r matches Some(c) && c is CyclePerfMode),
        action == FnAction::ToggleBatteryCare ==> (r matches Some(c) && c is ToggleBatteryCare),
        action == FnAction::ReapplyConfig ==> (r matches Some(c) && c is ReapplyConfigManual),
        action == FnAction::RunCommand || action == FnAction::NoAction ==> r is None,
{
}

/// The names of the actions.
pub proof fn law_names_of_actions(action: FnAction, r: &'static str)
    requires
        call_ensures(FnAction::name, (&action,), r),
    ensures
        action == FnAction::CyclePerfMode ==> r@ == "循环切换性能模式"@,
        action == FnAction::ToggleBatteryCare ==> r@ == "切换电池养护"@,
        action == FnAction::ReapplyConfig ==> r@ == "重新应用设置"@,
        action == FnAction::RunCommand ==> r@ == "运行自定义命令"@,
        action == FnAction::NoAction ==> r@ == "无动作"@,
{
}

/// Two bindings are equal exactly if class, prefix, action and command are.
pub proof fn law_equal_bindings(a: FnKeyBinding, b: FnKeyBinding, r: bool)
    requires
        call_ensures(FnKeyBinding::eq, (&a, &b), r),
    ensures
        r <==> {
            &&& a.class@ == b.class@
            &&& a.prefix@ == b.prefix@
            &&& a.action == b.action
            &&& a.command is Some <==> b.command is Some
            &&& a.command is Some ==> a.command->0@ == b.command->0@
        },
{
}

/// In the form with dashes every pair of digits is at its place, a dash stands between two
/// pairs and nowhere else, and no dash is at the end.
pub proof fn law_dashes_between_bytes(p: Seq<char>, i: int)
    requires
        0 <= i < p.len(),
    ensures
        dashed(Seq::empty()).len() == 0,
        dashed(p).len() == p.len() + (p.len() - 1) / 2,
        dashed(p)[i + i / 2] == p[i],
        i % 2 == 1 && i + 1 < p.len() ==> dashed(p)[i + i / 2 + 1] == '-',
    decreases p.len(),
{
    if p.len() > 2 {
        let rest = p.skip(2);
        law_dashes_between_bytes(rest, if i >= 2 { i - 2 } else { 0 });
        if i >= 2 {
            assert(rest[i - 2] == p[i]);
            assert(i + i / 2 - 3 == (i - 2) + (i - 2) / 2);
        }
    }
}

/// A label is the class, a slash, and the digits of the prefix in pairs.
pub proof fn law_label_is_class_and_prefix(class: &str, prefix: &str, shown: String, r: String)
    requires
        call_ensures(FnKeyBinding::display_prefix, (prefix,), shown),
        call_ensures(binding_label, (class, prefix), r),
    ensures
        shown@ == dashed(normalized_hex(prefix@)),
        r@ == class@ + " / "@ + shown@,
{
}

/// The identity of a key is made of its class and of its report without the status byte. So
/// two reports of a class are the same key exactly if they differ there only.
pub proof fn law_identity_ignores_the_status_only(class: Seq<char>, a: Seq<char>, b: Seq<char>)
    requires
        is_report(a),
        is_report(b),
        a.len() >= 6,
        b.len() >= 6,
    ensures
        key_identity(class, a) == class + "/"@ + (a.take(4) + a.skip(6)),
        key_identity(class, a) == key_identity(class, b) <==> a.len() == b.len() && forall|i: int|
            0 <= i < a.len() && i != 4 && i != 5 ==> #[trigger] a[i] == b[i],
{
    lemma_report_bytes(a);
    lemma_report_bytes(b);
    let head = class + "/"@;
    let x = a.take(4) + a.skip(6);
    let y = b.take(4) + b.skip(6);
    if head + x == head + y {
        assert((head + x).skip(head.len() as int) =~= x);
        assert((head + y).skip(head.len() as int) =~= y);
        assert(x.len() == a.len() - 2 && y.len() == b.len() - 2);
        assert forall|i: int| 0 <= i < a.len() && i != 4 && i != 5 implies #[trigger] a[i]
            == b[i] by {
            if i < 4 {
                assert(x[i] == a[i] && y[i] == b[i]);
            } else {
                assert(x[i - 2] == a[i] && y[i - 2] == b[i]);
            }
        }
    }
    if a.len() == b.len() && forall|i: int|
        0 <= i < a.len() && i != 4 && i != 5 ==> #[trigger] a[i] == b[i] {
        assert(x =~= y);
    }
}

/// The wait before the next attempt: five seconds for the first attempts up to the third,
/// half a minute up to the twentieth, and then a minute.
pub proof fn law_waits_grow(stale_cycles: u32, r: u64)
    requires
        call_ensures(no_event_classes_backoff_secs, (stale_cycles,), r),
    ensures
        stale_cycles <= 3 ==> r == 5,
        4 <= stale_cycles <= 20 ==> r == 30,
        stale_cycles >= 21 ==> r == 60,
{
}

/// Of a long command the log shows the first 32 characters and how many there are, and
/// nothing of the rest: two commands that begin alike and are equally long are shown alike.
/// A command of up to 32 characters is shown as it is.
pub proof fn law_log_hides_the_rest(a: &str, b: &str, x: String, y: String)
    requires
        call_ensures(redact_command, (a,), x),
        call_ensures(redact_command, (b,), y),
    ensures
        a@.len() <= 32 ==> x@ == a@,
        a@.len() > 32 ==> x@ == a@.take(32) + "... ("@ + text::decimal(a@.len()) + " chars)"@,
        a@.len() > 32 && b@.len() == a@.len() && a@.take(32) == b@.take(32) ==> x@ == y@,
{
}

/// The window of the capture gate is 150 milliseconds: a key that was let through is held
/// back before that and no longer.
pub proof fn law_capture_window(table: Map<Seq<char>, u64>, key: Seq<char>, now: u64)
    ensures
        younger(table, now, CAPTURE_FORWARD_MIN_NS).contains_key(key) <==> table.contains_key(key)
            && now - table[key] < 150_000_000,
        younger(table, now, CAPTURE_FORWARD_MIN_NS).contains_key(key) ==> younger(
            table,
            now,
            CAPTURE_FORWARD_MIN_NS,
        )[key] == table[key],
{
}

/// The known keys: all are of one class, and their reports differ in the second byte.
pub proof fn law_known_keys()
    ensures
        known_keys().len() == 8,
        known_keys()[0] == ("HID_EVENT20"@, "012801"@, "Fn+K 性能模式"@),
        known_keys()[1] == ("HID_EVENT20"@, "012501"@, "PC Manager 键"@),
        known_keys()[2] == ("HID_EVENT20"@, "012301"@, "小爱同学 (F7)"@),
        known_keys()[3] == ("HID_EVENT20"@, "011B01"@, "设置 (F9)"@),
        known_keys()[4] == ("HID_EVENT20"@, "010101"@, "投影 (F8)"@),
        known_keys()[5] == ("HID_EVENT20"@, "012101"@, "麦克风静音 (F4)"@),
        known_keys()[6] == ("HID_EVENT20"@, "010701"@, "Fn 锁 (Fn+Esc)"@),
        known_keys()[7] == ("HID_EVENT20"@, "010901"@, "大写锁定"@),
        fn_k_binding().class == known_keys()[0].0,
        fn_k_binding().prefix == known_keys()[0].1,
        fn_k_binding().action == FnAction::CyclePerfMode,
        fn_k_binding().command is None,
{
}

/// The capture gate lets a report through exactly if its key is not in the table with a time
/// less than 150 milliseconds ago. Then the key is noted with the time of the call. Either way
/// no other key is noted, and no other time is changed.
pub proof fn law_capture_gate_by_call(
    recent: &mut RecentKeys,
    now_ns: u64,
    class: &str,
    normalized: &str,
    r: bool,
)
    requires
        call_ensures(capture_event_gate, (recent, now_ns, class, normalized), r),
    ensures
        ({
            let key = key_identity(class@, normalized@);
            let before = old(recent)@;
            let after = final(recent)@;
            &&& r <==> !(before.contains_key(key) && now_ns - before[key] < 150_000_000)
            &&& r ==> after.contains_key(key) && after[key] == now_ns
            &&& !r ==> after.contains_key(key) && after[key] == before[key]
            &&& forall|other: Seq<char>|
                other != key ==> (#[trigger] after.contains_key(other) <==> before.contains_key(
                    other,
                ) && now_ns - before[other] < 150_000_000)
            &&& forall|other: Seq<char>|
                other != key && #[trigger] after.contains_key(other) ==> after[other]
                    == before[other]
        }),
{
}

/// The binding that a report triggers is found by its place: the first one that triggers.
pub proof fn law_found_binding_is_the_first(
    bindings: Vec<FnKeyBinding>,
    class: &str,
    normalized: &str,
    r: Option<usize>,
)
    requires
        call_ensures(find_binding, (&bindings, class, normalized), r),
    ensures
        r matches Some(i) ==> i < bindings@.len() && triggers(
            bindings@[i as int]@,
            class@,
            normalized@,
        ),
        forall|k: int|
            0 <= k < bindings@.len() && triggers((#[trigger] bindings@[k])@, class@, normalized@)
                ==> r is Some && r->0 <= k,
{
}

/// All actions, each once.
pub proof fn law_all_actions(r: &'static [FnAction], action: FnAction)
    requires
        call_ensures(FnAction::all, (), r),
    ensures
        r@.len() == 5,
        r@[0] == FnAction::CyclePerfMode,
        r@[1] == FnAction::ToggleBatteryCare,
        r@[2] == FnAction::ReapplyConfig,
        r@[3] == FnAction::RunCommand,
        r@[4] == FnAction::NoAction,
{
}

/// The default bindings are one, for Fn+K, with no command line.
pub proof fn law_default_bindings(b: FnKeyBinding, r: Vec<FnKeyBinding>)
    requires
        call_ensures(FnKeyBinding::fn_k, (), b),
        call_ensures(default_bindings, (), r),
    ensures
        b.class@ == "HID_EVENT20"@,
        b.prefix@ == "012801"@,
        b.action == FnAction::CyclePerfMode,
        b.command is None,
        r@.len() == 1,
        r@[0]@ == b@,
{
    assert(b@.class == b.class@ && b@.prefix == b.prefix@ && b@.action == b.action);
    assert(bindings_view(r@).len() == r@.len());
    assert(bindings_view(r@)[0] == r@[0]@);
}

/// The known keys as they are returned: those of the table, in its order.
pub proof fn law_known_keys_are_returned(r: &'static [KnownFnKey], i: int)
    requires
        call_ensures(known_fn_keys, (), r),
        0 <= i < 8,
    ensures
        r@.len() == 8,
        r@[i].class@ == "HID_EVENT20"@,
        r@[i].prefix@ == known_keys()[i].1,
        r@[i].name@ == known_keys()[i].2,
{
    law_known_keys();
    let views = r@.map_values(|k: KnownFnKey| known_key_view(k));
    assert(views.len() == r@.len());
    assert(views[i] == known_key_view(r@[i]));
}

/// A release cannot be told from a press exactly if its prefix has at most four digits.
pub proof fn law_release_after_a_short_prefix(prefix: &str, normalized: &str, r: bool)
    requires
        call_ensures(release_state_after_prefix, (prefix, normalized), r),
        is_report(prefix@),
        is_report(normalized@),
    ensures
        r <==> prefix@.len() <= 4 && normalized@.len() >= 6 && normalized@[4] == '0'
            && normalized@[5] == '0',
{
    lemma_report_bytes(prefix@);
    lemma_report_bytes(normalized@);
    if normalized@.len() >= 6 {
        let a = normalized@[4];
        let b = normalized@[5];
        assert(bytes_of(normalized@)[4] == a as u8 && bytes_of(normalized@)[5] == b as u8);
        assert(a as u8 == a as int && b as u8 == b as int);
    }
}

/// The label of a binding, its view and its copy are those of its texts, action and command.
pub proof fn law_views_of_bindings(b: FnKeyBinding, label: String, copy: FnKeyBinding)
    requires
        call_ensures(FnKeyBinding::label, (&b,), label),
        call_ensures(FnKeyBinding::clone, (&b,), copy),
    ensures
        label@ == b.class@ + " / "@ + dashed(normalized_hex(b.prefix@)),
        copy@ == b@,
        b@.class == b.class@,
        b@.prefix == b.prefix@,
        b@.action == b.action,
        b.command is Some <==> b@.command is Some,
        b.command is Some ==> b@.command->0 == b.command->0@,
{
}

/// The same on any text, by its bytes: the fifth and the sixth are the status, and a text with
/// fewer than six bytes has none.
pub proof fn law_status_of_any_text(
    normalized: &str,
    press: bool,
    release: bool,
    prefix: &str,
    ambiguous: bool,
    key: String,
)
    requires
        call_ensures(is_press_report, (normalized,), press),
        call_ensures(is_release_report, (normalized,), release),
        call_ensures(release_state_after_prefix, (prefix, normalized), ambiguous),
        call_ensures(key_without_status_byte, (normalized,), key),
    ensures
        ({
            let b = encode_utf8(normalized@);
            &&& press <==> b.len() >= 6 && b[4] == 0x30 && b[5] == 0x31
            &&& release <==> b.len() >= 6 && b[4] == 0x30 && b[5] == 0x30
            &&& ambiguous <==> encode_utf8(prefix@).len() <= 4 && release
            &&& b.len() < 6 ==> key@ == normalized@
            &&& b.len() >= 6 ==> key@ == decode_utf8(b.subrange(0, 4)) + decode_utf8(
                b.subrange(6, b.len() as int),
            )
        }),
{
}

/// What triggers a binding, on any text: the class is the same, and the text begins with the
/// prefix, which has a digit; but not where the prefix has at most four digits and the text
/// has the status of a release.
pub proof fn law_what_triggers_on_any_text(
    binding: FnKeyBinding,
    class: &str,
    normalized: &str,
    r: bool,
)
    requires
        call_ensures(binding_triggers, (&binding, class, normalized), r),
    ensures
        r <==> {
            let prefix = normalized_hex(binding.prefix@);
            let b = encode_utf8(normalized@);
            let release = b.len() >= 6 && b[4] == 0x30 && b[5] == 0x30;
            &&& class@ == binding.class@
            &&& prefix.len() > 0
            &&& prefix.is_prefix_of(normalized@)
            &&& release ==> prefix.len() > 4
        },
{
    lemma_normalized_hex_digits(binding.prefix@);
    lemma_hex_bytes(normalized_hex(binding.prefix@));
}

/// A report without a status byte is a key by itself.
pub proof fn law_identity_of_short_reports(class: Seq<char>, a: Seq<char>)
    requires
        is_report(a),
        a.len() < 6,
    ensures
        key_identity(class, a) == class + "/"@ + a,
{
    lemma_report_bytes(a);
}

} // verus!
