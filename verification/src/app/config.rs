//! The configuration: its defaults, how a stored one is made safe to use, and what a
//! program starts with after reading its file.

pub use crate::app::ec::BackendPreference;
use crate::app::fnkey::{
    bindings_view, default_bindings, fn_k_binding, is_valid_class, is_valid_prefix, valid_class,
    valid_prefix, FnKeyBinding, FnKeyBindingView,
};
use crate::app::limits::{
    coherent_charge_limit, coherent_limit, DEFAULT_CHARGE_LIMIT, FULL_CHARGE_LIMIT,
};
use crate::app::performance::{mode_code, mode_of_code, PerfMode};
use crate::text;
use vstd::prelude::*;

verus! {

/// The settings of the user.
#[derive(Debug)]
pub struct AppConfig {
    /// Whether battery care is on.
    pub battery_care_enabled: bool,
    /// The wanted charge limit in percent; it is kept while care is off.
    pub battery_charge_limit: u8,
    /// The code of the performance mode.
    pub performance_mode: u8,
    /// Whether the settings are written to the hardware at start-up.
    pub auto_apply_on_startup: bool,
    /// Whether they are written again when the power supply changes.
    pub auto_reapply_on_power_change: bool,
    /// Whether the application starts at boot.
    pub auto_start_on_boot: bool,
    /// Whether battery power switches to the most economic mode.
    pub auto_switch_to_quiet_on_battery: bool,
    /// Whether reaching the charge limit is announced.
    pub notify_on_charge_limit: bool,
    /// The wanted backend.
    pub backend: BackendPreference,
    /// The function key bindings.
    pub fn_key_bindings: Vec<FnKeyBinding>,
}

/// The settings, with the bindings by their views.
#[verifier::ext_equal]
pub struct AppConfigView {
    pub battery_care_enabled: bool,
    pub battery_charge_limit: u8,
    pub performance_mode: u8,
    pub auto_apply_on_startup: bool,
    pub auto_reapply_on_power_change: bool,
    pub auto_start_on_boot: bool,
    pub auto_switch_to_quiet_on_battery: bool,
    pub notify_on_charge_limit: bool,
    pub backend: BackendPreference,
    pub fn_key_bindings: Seq<FnKeyBindingView>,
}

impl View for AppConfig {
    type V = AppConfigView;

    open spec fn view(&self) -> AppConfigView {
        AppConfigView {
            battery_care_enabled: self.battery_care_enabled,
            battery_charge_limit: self.battery_charge_limit,
            performance_mode: self.performance_mode,
            auto_apply_on_startup: self.auto_apply_on_startup,
            auto_reapply_on_power_change: self.auto_reapply_on_power_change,
            auto_start_on_boot: self.auto_start_on_boot,
            auto_switch_to_quiet_on_battery: self.auto_switch_to_quiet_on_battery,
            notify_on_charge_limit: self.notify_on_charge_limit,
            backend: self.backend,
            fn_key_bindings: bindings_view(self.fn_key_bindings@),
        }
    }
}

/// The settings of a fresh installation.
pub open spec fn default_config() -> AppConfigView {
    AppConfigView {
        battery_care_enabled: false,
        battery_charge_limit: DEFAULT_CHARGE_LIMIT,
        performance_mode: mode_code(PerfMode::Smart),
        auto_apply_on_startup: true,
        auto_reapply_on_power_change: true,
        auto_start_on_boot: false,
        auto_switch_to_quiet_on_battery: false,
        notify_on_charge_limit: false,
        backend: BackendPreference::Wmi,
        fn_key_bindings: seq![fn_k_binding()],
    }
}

/// The settings when the stored ones cannot be read: the defaults, but nothing is written
/// to the hardware at start-up.
pub open spec fn degraded_config() -> AppConfigView {
    AppConfigView { auto_apply_on_startup: false, ..default_config() }
}

impl Default for AppConfig {
    fn default() -> (r: Self)
        ensures
            r@ == default_config(),
    {
        AppConfig {
            battery_care_enabled: false,
            battery_charge_limit: DEFAULT_CHARGE_LIMIT,
            performance_mode: PerfMode::Smart.ec_value(),
            auto_apply_on_startup: true,
            auto_reapply_on_power_change: true,
            auto_start_on_boot: false,
            auto_switch_to_quiet_on_battery: false,
            notify_on_charge_limit: false,
            backend: BackendPreference::Wmi,
            fn_key_bindings: default_bindings(),
        }
    }
}

/// A copy of a list of bindings.
fn copy_bindings(bindings: &Vec<FnKeyBinding>) -> (r: Vec<FnKeyBinding>)
    ensures
        r@ == bindings@,
{
    let mut out: Vec<FnKeyBinding> = Vec::new();
    let mut i: usize = 0;
    while i < bindings.len()
        invariant
            i <= bindings@.len(),
            out@ == bindings@.take(i as int),
        decreases bindings@.len() - i,
    {
        out.push(bindings[i].clone());
        assert(bindings@.take(i + 1) =~= bindings@.take(i as int).push(bindings@[i as int]));
        i = i + 1;
    }
    assert(bindings@.take(bindings@.len() as int) =~= bindings@);
    out
}

/// Whether two lists of bindings are the same.
fn same_bindings(a: &Vec<FnKeyBinding>, b: &Vec<FnKeyBinding>) -> (r: bool)
    ensures
        r == (bindings_view(a@) == bindings_view(b@)),
{
    if a.len() != b.len() {
        return false;
    }
    let mut i: usize = 0;
    while i < a.len()
        invariant
            i <= a@.len(),
            a@.len() == b@.len(),
            forall|k: int| 0 <= k < i ==> (#[trigger] a@[k])@ == b@[k]@,
        decreases a@.len() - i,
    {
        if a[i] != b[i] {
            assert(bindings_view(a@)[i as int] != bindings_view(b@)[i as int]);
            return false;
        }
        i = i + 1;
    }
    assert(bindings_view(a@) =~= bindings_view(b@));
    true
}

impl Clone for AppConfig {
    fn clone(&self) -> (r: Self)
        ensures
            r@ == self@,
            r.fn_key_bindings@ == self.fn_key_bindings@,
    {
        AppConfig {
            battery_care_enabled: self.battery_care_enabled,
            battery_charge_limit: self.battery_charge_limit,
            performance_mode: self.performance_mode,
            auto_apply_on_startup: self.auto_apply_on_startup,
            auto_reapply_on_power_change: self.auto_reapply_on_power_change,
            auto_start_on_boot: self.auto_start_on_boot,
            auto_switch_to_quiet_on_battery: self.auto_switch_to_quiet_on_battery,
            notify_on_charge_limit: self.notify_on_charge_limit,
            backend: self.backend,
            fn_key_bindings: copy_bindings(&self.fn_key_bindings),
        }
    }
}

impl PartialEq for AppConfig {
    fn eq(&self, other: &Self) -> (r: bool) {
        self.battery_care_enabled == other.battery_care_enabled && self.battery_charge_limit
            == other.battery_charge_limit && self.performance_mode == other.performance_mode
            && self.auto_apply_on_startup == other.auto_apply_on_startup
            && self.auto_reapply_on_power_change == other.auto_reapply_on_power_change
            && self.auto_start_on_boot == other.auto_start_on_boot
            && self.auto_switch_to_quiet_on_battery == other.auto_switch_to_quiet_on_battery
            && self.notify_on_charge_limit == other.notify_on_charge_limit && self.backend
            == other.backend && same_bindings(&self.fn_key_bindings, &other.fn_key_bindings)
    }
}

impl vstd::std_specs::cmp::PartialEqSpecImpl for AppConfig {
    open spec fn obeys_eq_spec() -> bool {
        true
    }

    open spec fn eq_spec(&self, other: &Self) -> bool {
        self@ == other@
    }
}

// ── Making a configuration safe ──

/// A binding with the white space around its class removed.
pub open spec fn with_trimmed_class(b: FnKeyBindingView) -> FnKeyBindingView {
    FnKeyBindingView { class: text::trimmed(b.class), ..b }
}

/// A binding that may be used: a class that may stand in a query and a safe prefix.
pub open spec fn is_bindable(b: FnKeyBindingView) -> bool {
    is_valid_class(b.class) && is_valid_prefix(b.prefix)
}

/// The usable ones of a list of bindings, their classes trimmed, in their order.
pub open spec fn usable_bindings(bindings: Seq<FnKeyBindingView>) -> Seq<FnKeyBindingView> {
    bindings.map_values(|b: FnKeyBindingView| with_trimmed_class(b)).filter(
        |b: FnKeyBindingView| is_bindable(b),
    )
}

/// The charge limit that a stored one stands for: nothing stands for the default, and
/// what is above the full charge for the full charge.
pub open spec fn usable_limit(care: bool, limit: u8) -> u8 {
    let in_range = if limit == 0 {
        DEFAULT_CHARGE_LIMIT
    } else if limit > FULL_CHARGE_LIMIT {
        FULL_CHARGE_LIMIT
    } else {
        limit
    };
    coherent_limit(care, in_range)
}

/// The performance mode that a stored code stands for: an unknown one stands for Smart.
pub open spec fn usable_mode(mode: u8) -> u8 {
    if mode_of_code(mode) is None {
        mode_code(PerfMode::Smart)
    } else {
        mode
    }
}

/// The configuration that a stored one stands for.
pub open spec fn sanitized(c: AppConfigView) -> AppConfigView {
    AppConfigView {
        performance_mode: usable_mode(c.performance_mode),
        battery_charge_limit: usable_limit(c.battery_care_enabled, c.battery_charge_limit),
        fn_key_bindings: usable_bindings(c.fn_key_bindings),
        ..c
    }
}

/// A configuration that is safe to write to the hardware and to watch keys with.
pub open spec fn is_safe(c: AppConfigView) -> bool {
    &&& mode_of_code(c.performance_mode) is Some
    &&& 0 < c.battery_charge_limit <= FULL_CHARGE_LIMIT
    &&& c.battery_care_enabled ==> c.battery_charge_limit < FULL_CHARGE_LIMIT
    &&& forall|i: int|
        0 <= i < c.fn_key_bindings.len() ==> is_bindable(#[trigger] c.fn_key_bindings[i])
            && with_trimmed_class(c.fn_key_bindings[i]) == c.fn_key_bindings[i]
}

proof fn lemma_usable_bindings_push(s: Seq<FnKeyBindingView>, b: FnKeyBindingView)
    ensures
        usable_bindings(s.push(b)) == if is_bindable(with_trimmed_class(b)) {
            usable_bindings(s).push(with_trimmed_class(b))
        } else {
            usable_bindings(s)
        },
{
    reveal(Seq::filter);
    let f = |b: FnKeyBindingView| with_trimmed_class(b);
    let t = s.push(b).map_values(f);
    assert(t.drop_last() =~= s.map_values(f));
    assert(t.last() == with_trimmed_class(b));
}

impl AppConfig {
    /// Makes a stored configuration safe to use, after it was edited by hand or damaged.
    ///
    /// An unknown performance mode becomes Smart. A charge limit of `0` becomes the
    /// default and one above 100% becomes 100%; with care on, 100% becomes the fallback.
    /// Of the bindings only those remain that have a safe prefix and a class that may
    /// stand in a query, and their classes are trimmed.
    pub fn sanitize(&mut self)
        ensures
            final(self)@ == sanitized(old(self)@),
    {
        if PerfMode::from_ec_value(self.performance_mode).is_none() {
            self.performance_mode = PerfMode::Smart.ec_value();
        }
        if self.battery_charge_limit == 0 {
            self.battery_charge_limit = DEFAULT_CHARGE_LIMIT;
        } else if self.battery_charge_limit > FULL_CHARGE_LIMIT {
            self.battery_charge_limit = FULL_CHARGE_LIMIT;
        }
        self.battery_charge_limit =
        coherent_charge_limit(self.battery_care_enabled, self.battery_charge_limit);
        self.fn_key_bindings = keep_usable_bindings(&self.fn_key_bindings);
    }
}

/// The usable ones of a list of bindings, their classes trimmed.
fn keep_usable_bindings(bindings: &Vec<FnKeyBinding>) -> (r: Vec<FnKeyBinding>)
    ensures
        bindings_view(r@) == usable_bindings(bindings_view(bindings@)),
{
    let ghost all = bindings_view(bindings@);
    let mut out: Vec<FnKeyBinding> = Vec::new();
    let mut i: usize = 0;
    proof {
        reveal(Seq::filter);
        assert(all.take(0).map_values(|b: FnKeyBindingView| with_trimmed_class(b))
            =~= Seq::<FnKeyBindingView>::empty());
        assert(bindings_view(out@) =~= usable_bindings(all.take(0)));
    }
    while i < bindings.len()
        invariant
            i <= bindings@.len(),
            all == bindings_view(bindings@),
            bindings_view(out@) == usable_bindings(all.take(i as int)),
        decreases bindings@.len() - i,
    {
        let ghost before = out@;
        let mut b = bindings[i].clone();
        b.class = text::trim(b.class.as_str());
        proof {
            lemma_usable_bindings_push(all.take(i as int), all[i as int]);
            assert(all.take(i as int).push(all[i as int]) =~= all.take(i + 1));
            assert(b@ == with_trimmed_class(all[i as int]));
        }
        if valid_class(b.class.as_str()) && valid_prefix(b.prefix.as_str()) {
            out.push(b);
            assert(bindings_view(out@) =~= bindings_view(before).push(b@));
        }
        i = i + 1;
    }
    assert(all.take(all.len() as int) =~= all);
    out
}

// ── Reading the file ──

/// What came of reading the configuration file.
pub enum FileContent {
    /// It held this configuration.
    Parsed(AppConfig),
    /// It held something else.
    Malformed,
    /// There is no such file.
    Missing,
    /// It could not be read.
    Unreadable,
}

/// The settings to start with, and whether to write them to the file.
pub struct LoadedConfig {
    /// The settings.
    pub config: AppConfig,
    /// Whether the file does not hold them, and should.
    pub save: bool,
}

/// The settings when the stored ones cannot be read.
///
/// They differ from the defaults in one thing: nothing is written to the hardware at
/// start-up, so that a damaged file does not undo what the hardware is set to.
pub fn degraded_defaults() -> (r: AppConfig)
    ensures
        r@ == degraded_config(),
{
    let mut config = AppConfig::default();
    config.auto_apply_on_startup = false;
    config
}

/// The settings to start with after reading the configuration file.
///
/// A configuration that was read is made safe, and written back if that changed it. A
/// missing file is created with the defaults. A file that cannot be understood or read
/// is left alone, and the degraded defaults are used. In every case the result is safe.
pub fn load(content: FileContent) -> (r: LoadedConfig)
    ensures
        match content {
            FileContent::Parsed(c) => r.config@ == sanitized(c@) && r.save == (sanitized(c@)
                != c@),
            FileContent::Missing => r.config@ == default_config() && r.save,
            FileContent::Malformed | FileContent::Unreadable => r.config@ == degraded_config()
                && !r.save,
        },
        is_safe(r.config@),
{
    proof {
        law_defaults_are_safe();
    }
    match content {
        FileContent::Parsed(stored) => {
            proof {
                law_sanitized_is_safe(stored@);
            }
            let mut config = stored.clone();
            config.sanitize();
            let save = config != stored;
            LoadedConfig { config, save }
        },
        FileContent::Missing => LoadedConfig { config: AppConfig::default(), save: true },
        FileContent::Malformed | FileContent::Unreadable => LoadedConfig {
            config: degraded_defaults(),
            save: false,
        },
    }
}

/// The name of the configuration file.
pub const CONFIG_FILE: &'static str = "config.toml";

/// The name of a temporary file of this process: `config.toml.<pid>.<seq>.tmp`.
pub open spec fn tmp_name(pid: u32, seq: u64) -> Seq<char> {
    "config.toml."@ + text::decimal(pid as nat) + "."@ + text::decimal(seq as nat) + ".tmp"@
}

/// A name that a temporary file of a save may have.
pub open spec fn is_tmp_name(name: Seq<char>) -> bool {
    "config.toml."@.is_prefix_of(name) && ".tmp"@.is_suffix_of(name)
}

/// The name of the temporary file for one save, which no other save shares.
pub fn tmp_file_name(pid: u32, seq: u64) -> (r: String)
    ensures
        r@ == tmp_name(pid, seq),
{
    let mut out = text::copy_str("config.toml.");
    text::push_decimal(&mut out, pid as u64);
    out.append(".");
    text::push_decimal(&mut out, seq);
    out.append(".tmp");
    out
}

/// Whether a file is left over from a save that did not finish.
pub fn is_stale_tmp_file(name: &str) -> (r: bool)
    ensures
        r == is_tmp_name(name@),
{
    text::starts_with(name, "config.toml.") && text::ends_with(name, ".tmp")
}

// ── Laws ──

/// What comes out of sanitising is safe, whatever went in.
pub proof fn law_sanitized_is_safe(c: AppConfigView)
    ensures
        is_safe(sanitized(c)),
{
    lemma_usable_bindings_are_usable(c.fn_key_bindings);
}

/// A safe configuration is left as it is.
pub proof fn law_safe_is_kept(c: AppConfigView)
    requires
        is_safe(c),
    ensures
        sanitized(c) == c,
{
    lemma_usable_bindings_kept(c.fn_key_bindings);
    assert(sanitized(c) =~= c);
}

/// Sanitising is idempotent.
pub proof fn law_sanitize_idempotent(c: AppConfigView)
    ensures
        sanitized(sanitized(c)) == sanitized(c),
{
    law_sanitized_is_safe(c);
    law_safe_is_kept(sanitized(c));
}

/// Sanitising touches the mode, the limit and the bindings only; above all it does not
/// turn battery care on or off.
pub proof fn law_sanitize_keeps_the_rest(c: AppConfigView)
    ensures
        sanitized(c) == (AppConfigView {
            performance_mode: sanitized(c).performance_mode,
            battery_charge_limit: sanitized(c).battery_charge_limit,
            fn_key_bindings: sanitized(c).fn_key_bindings,
            ..c
        }),
        sanitized(c).battery_care_enabled == c.battery_care_enabled,
{
}

/// The defaults are safe, and so are the degraded ones.
pub proof fn law_defaults_are_safe()
    ensures
        is_safe(default_config()),
        is_safe(degraded_config()),
{
    crate::app::fnkey::law_default_binding_is_valid();
    let b = fn_k_binding();
    reveal_strlit("HID_EVENT20");
    assert(b.class.last() == '0');
    assert(text::trim_start(b.class) == b.class);
    assert(with_trimmed_class(b) == b);
}

/// A configuration that cannot be read differs from the default in one setting, and that
/// one keeps the hardware untouched.
pub proof fn law_degraded_differs_in_auto_apply()
    ensures
        degraded_config() == (AppConfigView { auto_apply_on_startup: false, ..default_config() }),
        default_config().auto_apply_on_startup,
{
}

/// A stale file is recognised: the name of every temporary file is.
pub proof fn law_tmp_files_are_recognised(pid: u32, seq: u64)
    ensures
        is_tmp_name(tmp_name(pid, seq)),
        !is_tmp_name(CONFIG_FILE@),
{
    reveal_strlit("config.toml.");
    reveal_strlit("config.toml");
    reveal_strlit(".tmp");
    let n = tmp_name(pid, seq);
    assert(n.take("config.toml."@.len() as int) =~= "config.toml."@);
    assert(n.subrange(n.len() - 4, n.len() as int) =~= ".tmp"@);
    assert(CONFIG_FILE@.len() == 11);
    assert("config.toml."@.len() == 12);
}

/// No two saves share a temporary file, neither of one process nor of two.
pub proof fn law_tmp_names_are_unique(pid: u32, seq: u64, other_pid: u32, other_seq: u64)
    requires
        tmp_name(pid, seq) == tmp_name(other_pid, other_seq),
    ensures
        pid == other_pid,
        seq == other_seq,
{
    reveal_strlit("config.toml.");
    reveal_strlit(".");
    reveal_strlit(".tmp");
    text::lemma_decimal_is_digits(pid as nat);
    text::lemma_decimal_is_digits(other_pid as nat);
    let a = text::decimal(pid as nat);
    let b = text::decimal(other_pid as nat);
    let n = tmp_name(pid, seq);
    let head = "config.toml."@.len() as int;
    assert forall|i: int| 0 <= i < a.len() implies n[head + i] == #[trigger] a[i] by {}
    assert forall|i: int| 0 <= i < b.len() implies n[head + i] == #[trigger] b[i] by {}
    assert(n[head + a.len()] == '.');
    assert(n[head + b.len()] == '.');
    if a.len() < b.len() {
        assert(text::is_digit_char(b[a.len() as int]));
    }
    if b.len() < a.len() {
        assert(text::is_digit_char(a[b.len() as int]));
    }
    assert(a =~= b);
    text::lemma_decimal_injective(pid as nat, other_pid as nat);
    let from = head + a.len() + 1;
    let to = n.len() - 4;
    assert(n.subrange(from, to) =~= text::decimal(seq as nat));
    assert(n.subrange(from, to) =~= text::decimal(other_seq as nat));
    text::lemma_decimal_injective(seq as nat, other_seq as nat);
}

proof fn lemma_usable_bindings_are_usable(s: Seq<FnKeyBindingView>)
    ensures
        forall|i: int|
            0 <= i < usable_bindings(s).len() ==> is_bindable(#[trigger] usable_bindings(s)[i])
                && with_trimmed_class(usable_bindings(s)[i]) == usable_bindings(s)[i],
    decreases s.len(),
{
    reveal(Seq::filter);
    if s.len() > 0 {
        let front = s.drop_last();
        lemma_usable_bindings_are_usable(front);
        lemma_usable_bindings_push(front, s.last());
        text::lemma_trimmed_idempotent(s.last().class);
        assert(front.push(s.last()) =~= s);
    }
}

proof fn lemma_usable_bindings_kept(s: Seq<FnKeyBindingView>)
    requires
        forall|i: int|
            0 <= i < s.len() ==> is_bindable(#[trigger] s[i]) && with_trimmed_class(s[i]) == s[i],
    ensures
        usable_bindings(s) == s,
    decreases s.len(),
{
    reveal(Seq::filter);
    if s.len() > 0 {
        let front = s.drop_last();
        assert forall|i: int| 0 <= i < front.len() implies is_bindable(#[trigger] front[i])
            && with_trimmed_class(front[i]) == front[i] by {
            assert(front[i] == s[i]);
        }
        lemma_usable_bindings_kept(front);
        lemma_usable_bindings_push(front, s.last());
        assert(front.push(s.last()) =~= s);
        assert(s[s.len() - 1] == s.last());
    } else {
        assert(usable_bindings(s) =~= s);
    }
}

/// What becomes of a stored limit: with care on, one from 1% to 99% stays and any other
/// becomes 80%. With care off, one from 1% to 100% stays, 0% becomes 80%, and what is above
/// becomes 100%.
pub proof fn law_stored_limit_by_cases(c: AppConfigView)
    ensures
        ({
            let limit = c.battery_charge_limit;
            let after = sanitized(c).battery_charge_limit;
            &&& 1 <= limit <= 99 ==> after == limit
            &&& limit == 0 ==> after == 80
            &&& limit >= 100 && c.battery_care_enabled ==> after == 80
            &&& limit >= 100 && !c.battery_care_enabled ==> after == 100
        }),
{
}

/// What becomes of a stored mode: one of the five codes stays, and any other becomes Smart.
pub proof fn law_stored_mode_by_cases(c: AppConfigView)
    ensures
        ({
            let mode = c.performance_mode;
            let known = mode == 0x0A || mode == 0x02 || mode == 0x09 || mode == 0x03 || mode
                == 0x04;
            &&& known ==> sanitized(c).performance_mode == mode
            &&& !known ==> sanitized(c).performance_mode == 0x09
        }),
{
}

proof fn lemma_usable_bindings_concatenate(a: Seq<FnKeyBindingView>, b: Seq<FnKeyBindingView>)
    ensures
        usable_bindings(a + b) == usable_bindings(a) + usable_bindings(b),
    decreases b.len(),
{
    if b.len() == 0 {
        lemma_usable_bindings_kept(b);
        assert(a + b =~= a);
        assert(usable_bindings(a) + usable_bindings(b) =~= usable_bindings(a));
    } else {
        let front = b.drop_last();
        lemma_usable_bindings_concatenate(a, front);
        lemma_usable_bindings_push(a + front, b.last());
        lemma_usable_bindings_push(front, b.last());
        assert((a + front).push(b.last()) =~= a + b);
        assert(front.push(b.last()) =~= b);
        assert(usable_bindings(a + b) =~= usable_bindings(a) + usable_bindings(b));
    }
}

/// Each stored binding is judged by itself, and those that are kept stay in their order. One
/// is kept exactly if its prefix is safe and its class, trimmed, may stand in a query; prefix,
/// action and command are as before, and the class is trimmed.
pub proof fn law_each_binding_is_judged_by_itself(
    before: Seq<FnKeyBindingView>,
    b: FnKeyBindingView,
    after: Seq<FnKeyBindingView>,
)
    ensures
        ({
            let usable = is_valid_class(b.class) && is_valid_prefix(b.prefix);
            let kept = FnKeyBindingView {
                class: text::trimmed(b.class),
                prefix: b.prefix,
                action: b.action,
                command: b.command,
            };
            &&& usable ==> usable_bindings(before + seq![b] + after) == usable_bindings(before)
                + seq![kept] + usable_bindings(after)
            &&& !usable ==> usable_bindings(before + seq![b] + after) == usable_bindings(before)
                + usable_bindings(after)
        }),
        usable_bindings(Seq::empty()) == Seq::<FnKeyBindingView>::empty(),
{
    let none = Seq::<FnKeyBindingView>::empty();
    lemma_usable_bindings_kept(none);
    lemma_usable_bindings_push(none, b);
    assert(none.push(b) =~= seq![b]);
    lemma_usable_bindings_concatenate(before, seq![b]);
    lemma_usable_bindings_concatenate(before + seq![b], after);
    text::lemma_trimmed_idempotent(b.class);
    let left = usable_bindings(before);
    let right = usable_bindings(after);
    assert(none.push(with_trimmed_class(b)) =~= seq![with_trimmed_class(b)]);
    assert(left + none + right =~= left + right);
}

/// Two configurations are equal exactly if every setting is, and the bindings one by one.
pub proof fn law_equal_configurations(a: AppConfig, b: AppConfig, r: bool)
    requires
        call_ensures(AppConfig::eq, (&a, &b), r),
    ensures
        r <==> {
            &&& a.battery_care_enabled == b.battery_care_enabled
            &&& a.battery_charge_limit == b.battery_charge_limit
            &&& a.performance_mode == b.performance_mode
            &&& a.auto_apply_on_startup == b.auto_apply_on_startup
            &&& a.auto_reapply_on_power_change == b.auto_reapply_on_power_change
            &&& a.auto_start_on_boot == b.auto_start_on_boot
            &&& a.auto_switch_to_quiet_on_battery == b.auto_switch_to_quiet_on_battery
            &&& a.notify_on_charge_limit == b.notify_on_charge_limit
            &&& a.backend == b.backend
            &&& a.fn_key_bindings@.len() == b.fn_key_bindings@.len()
            &&& forall|i: int|
                0 <= i < a.fn_key_bindings@.len() ==> (#[trigger] a.fn_key_bindings@[i])@
                    == b.fn_key_bindings@[i]@
        },
{
    let x = bindings_view(a.fn_key_bindings@);
    let y = bindings_view(b.fn_key_bindings@);
    if r {
        assert(x == y);
        assert(x.len() == a.fn_key_bindings@.len() && y.len() == b.fn_key_bindings@.len());
        assert forall|i: int| 0 <= i < a.fn_key_bindings@.len() implies (
        #[trigger] a.fn_key_bindings@[i])@ == b.fn_key_bindings@[i]@ by {
            assert(x[i] == y[i]);
        }
    }
    if a.fn_key_bindings@.len() == b.fn_key_bindings@.len() && (forall|i: int|
        0 <= i < a.fn_key_bindings@.len() ==> (#[trigger] a.fn_key_bindings@[i])@
            == b.fn_key_bindings@[i]@) {
        assert(x =~= y);
    }
}

/// A copy of a configuration has all of its settings.
pub proof fn law_copy_has_every_setting(c: AppConfig, r: AppConfig)
    requires
        call_ensures(AppConfig::clone, (&c,), r),
    ensures
        r.battery_care_enabled == c.battery_care_enabled,
        r.battery_charge_limit == c.battery_charge_limit,
        r.performance_mode == c.performance_mode,
        r.auto_apply_on_startup == c.auto_apply_on_startup,
        r.auto_reapply_on_power_change == c.auto_reapply_on_power_change,
        r.auto_start_on_boot == c.auto_start_on_boot,
        r.auto_switch_to_quiet_on_battery == c.auto_switch_to_quiet_on_battery,
        r.notify_on_charge_limit == c.notify_on_charge_limit,
        r.backend == c.backend,
        r.fn_key_bindings@ == c.fn_key_bindings@,
{
    assert(r@ == c@);
    assert(r@.battery_care_enabled == r.battery_care_enabled);
}

/// What a program starts with. A configuration that was read keeps its care setting and its
/// switches, and is written back exactly if something in it was changed. A missing file is
/// written with the defaults. A file that could not be used is left alone, and nothing will
/// be written to the hardware.
pub proof fn law_start_by_content(content: FileContent, r: LoadedConfig)
    requires
        call_ensures(load, (content,), r),
    ensures
        content matches FileContent::Parsed(c) ==> {
            &&& r.save <==> r.config@ != c@
            &&& is_safe(c@) ==> r.config@ == c@
            &&& r.config.battery_care_enabled == c.battery_care_enabled
            &&& r.config.auto_apply_on_startup == c.auto_apply_on_startup
            &&& r.config.auto_reapply_on_power_change == c.auto_reapply_on_power_change
            &&& r.config.auto_start_on_boot == c.auto_start_on_boot
            &&& r.config.auto_switch_to_quiet_on_battery == c.auto_switch_to_quiet_on_battery
            &&& r.config.notify_on_charge_limit == c.notify_on_charge_limit
            &&& r.config.backend == c.backend
        },
        content is Missing ==> r.save && r.config.auto_apply_on_startup,
        content is Malformed || content is Unreadable ==> !r.save
            && !r.config.auto_apply_on_startup,
        content !is Parsed ==> {
            &&& !r.config.battery_care_enabled
            &&& r.config.battery_charge_limit == 80
            &&& r.config.performance_mode == 0x09
            &&& r.config.auto_reapply_on_power_change
            &&& !r.config.auto_start_on_boot
            &&& !r.config.auto_switch_to_quiet_on_battery
            &&& !r.config.notify_on_charge_limit
            &&& r.config.backend == BackendPreference::Wmi
        },
{
    if let FileContent::Parsed(c) = content {
        assert(r.config@.backend == r.config.backend);
        if is_safe(c@) {
            law_safe_is_kept(c@);
        }
    } else {
        assert(r.config@.backend == r.config.backend);
    }
}

/// A file is left over from a save exactly if its name begins with `config.toml.` and ends
/// with `.tmp`; and the name for a save holds the process and the number of the save.
pub proof fn law_names_of_temporary_files(
    name: &str,
    stale: bool,
    pid: u32,
    seq: u64,
    r: String,
)
    requires
        call_ensures(is_stale_tmp_file, (name,), stale),
        call_ensures(tmp_file_name, (pid, seq), r),
    ensures
        stale <==> name@.len() >= 12 && name@.take(12) == "config.toml."@ && name@.skip(
            name@.len() - 4,
        ) == ".tmp"@,
        r@ == "config.toml."@ + text::decimal(pid as nat) + "."@ + text::decimal(seq as nat)
            + ".tmp"@,
{
    reveal_strlit("config.toml.");
    reveal_strlit(".tmp");
    let n = name@.len() as int;
    if n >= 12 {
        assert(name@.skip(n - 4) =~= name@.subrange(n - 4, n));
        assert(name@.take(12) =~= name@.subrange(0, 12));
    }
}

/// Sanitising a configuration in place, by its settings: limit and mode as the laws above say,
/// and every switch as it was.
pub proof fn law_sanitized_in_place(c: &mut AppConfig, r: ())
    requires
        call_ensures(AppConfig::sanitize, (c,), r),
    ensures
        final(c)@ == sanitized(old(c)@),
        1 <= old(c).battery_charge_limit <= 99 ==> final(c).battery_charge_limit
            == old(c).battery_charge_limit,
        old(c).battery_charge_limit == 0 ==> final(c).battery_charge_limit == 80,
        old(c).battery_charge_limit >= 100 && old(c).battery_care_enabled
            ==> final(c).battery_charge_limit == 80,
        old(c).battery_charge_limit >= 100 && !old(c).battery_care_enabled
            ==> final(c).battery_charge_limit == 100,
        final(c).battery_care_enabled == old(c).battery_care_enabled,
        final(c).auto_apply_on_startup == old(c).auto_apply_on_startup,
        final(c).auto_reapply_on_power_change == old(c).auto_reapply_on_power_change,
        final(c).auto_start_on_boot == old(c).auto_start_on_boot,
        final(c).auto_switch_to_quiet_on_battery == old(c).auto_switch_to_quiet_on_battery,
        final(c).notify_on_charge_limit == old(c).notify_on_charge_limit,
        final(c).backend == old(c).backend,
{
    law_stored_limit_by_cases(old(c)@);
    law_sanitize_keeps_the_rest(old(c)@);
    assert(final(c)@.battery_charge_limit == final(c).battery_charge_limit);
    assert(final(c)@.battery_care_enabled == final(c).battery_care_enabled);
    assert(final(c)@.auto_apply_on_startup == final(c).auto_apply_on_startup);
    assert(final(c)@.backend == final(c).backend);
}

/// The defaults by their settings; the degraded ones differ in one.
pub proof fn law_defaults_by_setting(r: AppConfig, degraded: AppConfig)
    requires
        call_ensures(AppConfig::default, (), r),
        call_ensures(degraded_defaults, (), degraded),
    ensures
        !r.battery_care_enabled,
        r.battery_charge_limit == 80,
        r.performance_mode == 0x09,
        r.auto_apply_on_startup,
        r.auto_reapply_on_power_change,
        !r.auto_start_on_boot,
        !r.auto_switch_to_quiet_on_battery,
        !r.notify_on_charge_limit,
        r.backend == BackendPreference::Wmi,
        r.fn_key_bindings@.len() == 1,
        r.fn_key_bindings@[0].class@ == "HID_EVENT20"@,
        r.fn_key_bindings@[0].prefix@ == "012801"@,
        r.fn_key_bindings@[0].action == crate::app::fnkey::FnAction::CyclePerfMode,
        !degraded.auto_apply_on_startup,
        degraded@ == (AppConfigView { auto_apply_on_startup: false, ..r@ }),
{
    let v = r@;
    assert(v.battery_care_enabled == r.battery_care_enabled);
    assert(v.fn_key_bindings.len() == r.fn_key_bindings@.len());
    assert(v.fn_key_bindings[0] == r.fn_key_bindings@[0]@);
    assert(degraded@.auto_apply_on_startup == degraded.auto_apply_on_startup);
}

/// The view of a configuration shows every setting.
pub proof fn law_view_shows_every_setting(c: AppConfig)
    ensures
        c@.battery_care_enabled == c.battery_care_enabled,
        c@.battery_charge_limit == c.battery_charge_limit,
        c@.performance_mode == c.performance_mode,
        c@.auto_apply_on_startup == c.auto_apply_on_startup,
        c@.auto_reapply_on_power_change == c.auto_reapply_on_power_change,
        c@.auto_start_on_boot == c.auto_start_on_boot,
        c@.auto_switch_to_quiet_on_battery == c.auto_switch_to_quiet_on_battery,
        c@.notify_on_charge_limit == c.notify_on_charge_limit,
        c@.backend == c.backend,
        c@.fn_key_bindings.len() == c.fn_key_bindings@.len(),
        forall|i: int|
            0 <= i < c.fn_key_bindings@.len() ==> #[trigger] c@.fn_key_bindings[i]
                == c.fn_key_bindings@[i]@,
{
}

/// A configuration is safe exactly if its mode is one of the five, its limit is from 1% to
/// 100% and below that with care on, and every binding has a trimmed class that may stand in a
/// query and a safe prefix.
pub proof fn law_what_is_safe(c: AppConfigView)
    ensures
        is_safe(c) <==> {
            let mode = c.performance_mode;
            &&& mode == 0x0A || mode == 0x02 || mode == 0x09 || mode == 0x03 || mode == 0x04
            &&& 1 <= c.battery_charge_limit <= 100
            &&& c.battery_care_enabled ==> c.battery_charge_limit <= 99
            &&& forall|i: int|
                0 <= i < c.fn_key_bindings.len() ==> {
                    let b = #[trigger] c.fn_key_bindings[i];
                    &&& text::trimmed(b.class) == b.class
                    &&& is_valid_class(b.class)
                    &&& is_valid_prefix(b.prefix)
                }
        },
{
    if is_safe(c) {
        assert forall|i: int| 0 <= i < c.fn_key_bindings.len() implies {
            let b = #[trigger] c.fn_key_bindings[i];
            &&& text::trimmed(b.class) == b.class
            &&& is_valid_class(b.class)
            &&& is_valid_prefix(b.prefix)
        } by {
            let b = c.fn_key_bindings[i];
            assert(with_trimmed_class(b).class == b.class);
        }
    }
}

} // verus!
