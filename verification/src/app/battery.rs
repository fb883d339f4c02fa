//! Battery care and the charge limit: the rules that tie them together, and how a
//! configuration is written to the hardware.

use crate::app::config::{AppConfig, AppConfigView};
use crate::app::ec::{result_view, BoxedBackend, EcError, EcErrorView};
use crate::app::hardware::{lemma_recorded_then, recorded, writes, Access, HardwareWrite};
use crate::app::limits::{
    charge_limit_readback_is_invalid, coherent_charge_limit, coherent_limit, is_garbage_limit,
    FULL_CHARGE_LIMIT,
};
use crate::app::performance::{effective_code, effective_ec_value, mode_code, PerfMode};
use crate::app::power::PowerStatus;
pub use crate::ec::wmi::protocol::{
    nearest_wmi_percent, percent_to_wmi_rawcode, wmi_rawcode_to_percent, WMI_CHARGE_LIMITS,
    WMI_PRESET_PERCENTS,
};
use crate::text;
use vstd::prelude::*;

verus! {

// ── Rules ──

/// What a limit becomes on its way to the hardware: nothing is an error, and what is
/// above the full charge becomes the full charge.
pub open spec fn writable_limit(percent: u8) -> Result<u8, EcErrorView> {
    if percent == 0 {
        Err(EcErrorView::InvalidData("充电上限 0% 非法"@))
    } else if percent > FULL_CHARGE_LIMIT {
        Ok(FULL_CHARGE_LIMIT)
    } else {
        Ok(percent)
    }
}

/// Checks a charge limit before it is written to the hardware.
///
/// `0` is rejected: no backend would accept it on reading back. A limit above 100% is
/// written as 100%.
pub fn validate_charge_limit_write(percent: u8) -> (r: Result<u8, EcError>)
    ensures
        result_view(r) == writable_limit(percent),
{
    if percent == 0 {
        return Err(EcError::InvalidData(text::copy_str("充电上限 0% 非法")));
    }
    if percent > FULL_CHARGE_LIMIT {
        Ok(FULL_CHARGE_LIMIT)
    } else {
        Ok(percent)
    }
}

/// The rule that ties care to the limit: care is on exactly below the full charge.
pub open spec fn care_of_limit(limit: u8) -> bool {
    limit < FULL_CHARGE_LIMIT
}

/// Whether a charge limit means that battery care is on.
pub fn care_enabled_from_limit(limit: u8) -> (r: bool)
    ensures
        r == care_of_limit(limit),
{
    limit < FULL_CHARGE_LIMIT
}

/// The hardware reports another care setting than the limit in force means.
pub open spec fn disagrees_with(applied: u8, readback: Result<bool, EcError>) -> bool {
    readback matches Ok(enabled) && enabled != care_of_limit(applied)
}

/// Whether the care setting that the hardware reports disagrees with the limit in force. A
/// setting that could not be read does not.
pub fn care_readback_disagrees(applied: u8, readback: &Result<bool, EcError>) -> (r: bool)
    ensures
        r == disagrees_with(applied, *readback),
{
    match readback {
        Ok(enabled) => *enabled != care_enabled_from_limit(applied),
        Err(_) => false,
    }
}

/// The word for a care setting.
pub open spec fn care_word(enabled: bool) -> Seq<char> {
    if enabled {
        "开启"@
    } else {
        "关闭"@
    }
}

/// The word shown for a care setting.
pub fn care_label(enabled: bool) -> (r: &'static str)
    ensures
        r@ == care_word(enabled),
{
    if enabled {
        "开启"
    } else {
        "关闭"
    }
}

/// The configuration after the hardware took a limit: care follows the limit, and the
/// limit is stored if it means that care is on. With care off the wanted limit stays, for
/// when care is turned on again.
pub open spec fn synced_after_apply(c: AppConfigView, applied: u8) -> AppConfigView {
    AppConfigView {
        battery_care_enabled: care_of_limit(applied),
        battery_charge_limit: if care_of_limit(applied) {
            applied
        } else {
            c.battery_charge_limit
        },
        ..c
    }
}

/// Updates the configuration after the hardware took a limit.
pub fn sync_config_after_apply(config: &mut AppConfig, applied: u8)
    ensures
        final(config)@ == synced_after_apply(old(config)@, applied),
{
    let care = care_enabled_from_limit(applied);
    config.battery_care_enabled = care;
    if care {
        config.battery_charge_limit = applied;
    }
}

// ── Writing care and limit ──

/// What came of writing the charge limit and the care bit.
pub struct BatteryApplyOutcome {
    /// The limit that is in force, or why it could not be written.
    pub charge_limit: Result<u8, EcError>,
    /// Whether the care bit was written.
    pub care: Result<(), EcError>,
}

/// The limit to write: with care off the full charge, with care on a coherent one.
pub open spec fn limit_to_write(care: bool, desired_limit: u8) -> u8 {
    if care {
        coherent_limit(true, desired_limit)
    } else {
        FULL_CHARGE_LIMIT
    }
}

/// The limit in force after `written` was written: what the hardware reports, unless it
/// reports an error or garbage; then it is taken to be what was written.
pub open spec fn limit_in_force(written: u8, readback: Result<u8, EcError>) -> u8 {
    match readback {
        Ok(actual) => if is_garbage_limit(actual) {
            written
        } else {
            actual
        },
        Err(_) => written,
    }
}

/// The limit in force after a limit was written and read back.
///
/// The hardware may round a limit, so its answer counts. An error or garbage does not: it
/// must not pass for the setting of the user.
pub fn limit_after_readback(written: u8, readback: &Result<u8, EcError>) -> (r: u8)
    ensures
        r == limit_in_force(written, *readback),
{
    match readback {
        Ok(actual) => {
            if charge_limit_readback_is_invalid(*actual) {
                written
            } else {
                *actual
            }
        },
        Err(_) => written,
    }
}

/// The accesses of writing care and limit, given what came of it and how the limit was read
/// back: the limit, the care bit whatever came of the limit, and the reading if the limit
/// was written.
pub open spec fn battery_accesses(
    care: bool,
    desired_limit: u8,
    out: BatteryApplyOutcome,
    readback: Result<u8, EcError>,
) -> Seq<Access> {
    let limit = limit_to_write(care, desired_limit);
    match out.charge_limit {
        Ok(_) => seq![
            Access::SetLimit(limit, Ok(())),
            Access::SetCare(care, out.care),
            Access::GetLimit(readback),
        ],
        Err(e) => seq![Access::SetLimit(limit, Err(e)), Access::SetCare(care, out.care)],
    }
}

/// Where the limit was written, the one in force follows from the reading.
pub open spec fn limit_is_in_force(
    care: bool,
    desired_limit: u8,
    out: BatteryApplyOutcome,
    readback: Result<u8, EcError>,
) -> bool {
    out.charge_limit matches Ok(limit) ==> limit == limit_in_force(
        limit_to_write(care, desired_limit),
        readback,
    )
}

/// Care and limit were written to the backend, nothing else was asked of it, and `out` is
/// what came of it.
pub open spec fn battery_was_applied(
    before: BoxedBackend,
    after: BoxedBackend,
    care: bool,
    desired_limit: u8,
    out: BatteryApplyOutcome,
) -> bool {
    exists|readback: Result<u8, EcError>|
        recorded(before, after, #[trigger] battery_accesses(care, desired_limit, out, readback))
            && limit_is_in_force(care, desired_limit, out, readback)
}

/// Writes the charge limit and the care bit.
///
/// The limit goes first, since some firmware derives the care bit from it. With care off
/// it is 100%; with care on it is the wanted one, made coherent. The care bit is written in
/// any case. Then the limit is read back, if it was written.
pub fn apply_battery_state(backend: &mut BoxedBackend, care: bool, desired_limit: u8) -> (r:
    BatteryApplyOutcome)
    ensures
        battery_was_applied(*old(backend), *final(backend), care, desired_limit, r),
{
    let ghost start = *backend;
    let limit: u8 = if care {
        coherent_charge_limit(true, desired_limit)
    } else {
        FULL_CHARGE_LIMIT
    };
    let limit_result = backend.set_charge_limit(limit);
    let ghost first = seq![Access::SetLimit(limit, limit_result)];
    let ghost middle = *backend;
    let care_result = backend.set_battery_care(care);
    let ghost second = seq![Access::SetCare(care, care_result)];
    proof {
        lemma_recorded_then(start, middle, *backend, first, second);
    }
    let ghost written = *backend;
    match limit_result {
        Ok(()) => {
            let readback = backend.get_charge_limit();
            let charge_limit = Ok(limit_after_readback(limit, &readback));
            let r = BatteryApplyOutcome { charge_limit, care: care_result };
            proof {
                let third = seq![Access::GetLimit(readback)];
                let done: () = limit_result->Ok_0;
                assert(done == ());
                assert(limit_result == Ok::<(), EcError>(done));
                lemma_recorded_then(start, written, *backend, first + second, third);
                assert(first + second + third =~= battery_accesses(
                    care,
                    desired_limit,
                    r,
                    readback,
                ));
            }
            r
        },
        Err(e) => {
            let r = BatteryApplyOutcome { charge_limit: Err(e), care: care_result };
            proof {
                let readback: Result<u8, EcError> = Ok(limit);
                assert(first + second =~= battery_accesses(care, desired_limit, r, readback));
            }
            r
        },
    }
}

// ── Writing a configuration ──

/// What came of writing a configuration.
pub struct ApplyOutcome {
    /// Charge limit and care bit.
    pub battery: BatteryApplyOutcome,
    /// The performance mode.
    pub perf: Result<(), EcError>,
    /// The code that was written for the performance mode.
    pub perf_written: u8,
}

/// An error under the name of a field.
pub open spec fn named_error<T>(name: Seq<char>, r: Result<T, EcError>) -> Seq<
    (Seq<char>, EcErrorView),
> {
    match r {
        Ok(_) => Seq::empty(),
        Err(e) => seq![(name, e@)],
    }
}

/// The fields that could not be written, each with its error.
pub open spec fn failed_fields(out: ApplyOutcome) -> Seq<(Seq<char>, EcErrorView)> {
    named_error("充电上限"@, out.battery.charge_limit) + named_error("电池养护"@, out.battery.care)
        + named_error("性能模式"@, out.perf)
}

impl ApplyOutcome {
    /// The fields that could not be written, each by its name and with its error.
    pub fn field_errors(&self) -> (r: Vec<(&'static str, &EcError)>)
        ensures
            r@.map_values(|f: (&'static str, &EcError)| (f.0@, f.1@)) == failed_fields(*self),
    {
        let mut errors: Vec<(&'static str, &EcError)> = Vec::new();
        if let Err(e) = &self.battery.charge_limit {
            errors.push(("充电上限", e));
        }
        if let Err(e) = &self.battery.care {
            errors.push(("电池养护", e));
        }
        if let Err(e) = &self.perf {
            errors.push(("性能模式", e));
        }
        assert(errors@.map_values(|f: (&'static str, &EcError)| (f.0@, f.1@)) =~= failed_fields(
            *self,
        ));
        errors
    }
}

/// The code written for a mode: only where battery power is certain it is degraded.
pub open spec fn code_for_power(mode: u8, status: PowerStatus) -> u8 {
    match status {
        PowerStatus::OnAc => effective_code(mode, true),
        PowerStatus::OnBattery => effective_code(mode, false),
        PowerStatus::Unknown => mode,
    }
}

/// The code to write for a mode.
fn raw_perf_for_status(mode: u8, status: PowerStatus) -> (r: u8)
    ensures
        r == code_for_power(mode, status),
{
    match status {
        PowerStatus::OnAc => effective_ec_value(mode, true),
        PowerStatus::OnBattery => effective_ec_value(mode, false),
        PowerStatus::Unknown => mode,
    }
}

/// The code to write for the mode that the user chose, given the power supply.
///
/// On battery power Extreme becomes Fast. Where the power supply is unknown the choice of
/// the user stands.
pub fn effective_perf_for_power(mode: u8, status: PowerStatus) -> (r: u8)
    ensures
        r == code_for_power(mode, status),
{
    raw_perf_for_status(mode, status)
}

/// The code written for a configuration: on battery power the most economic mode if the
/// user wants that, else the mode of the user; and then what the power supply allows.
pub open spec fn code_to_apply(user_mode: u8, eco_on_battery: bool, status: PowerStatus) -> u8 {
    code_for_power(
        if eco_on_battery && status == PowerStatus::OnBattery {
            mode_code(PerfMode::Eco)
        } else {
            user_mode
        },
        status,
    )
}

/// The code to write for a configuration, and whether it is another than the user chose.
pub fn effective_applied_mode(
    user_mode: u8,
    auto_switch_to_quiet_on_battery: bool,
    status: PowerStatus,
) -> (r: (u8, bool))
    ensures
        r.0 == code_to_apply(user_mode, auto_switch_to_quiet_on_battery, status),
        r.1 == (r.0 != user_mode),
{
    let mode: u8 = if auto_switch_to_quiet_on_battery && status == PowerStatus::OnBattery {
        PerfMode::Eco.ec_value()
    } else {
        user_mode
    };
    let raw: u8 = raw_perf_for_status(mode, status);
    (raw, raw != user_mode)
}

/// The accesses of writing a configuration: those for the battery, and then the mode.
pub open spec fn config_accesses(
    c: AppConfigView,
    out: ApplyOutcome,
    readback: Result<u8, EcError>,
) -> Seq<Access> {
    battery_accesses(c.battery_care_enabled, c.battery_charge_limit, out.battery, readback).push(
        Access::SetMode(out.perf_written, out.perf),
    )
}

/// A configuration was written to the backend, nothing else was asked of it, and `out` is
/// what came of it.
pub open spec fn config_was_applied(
    before: BoxedBackend,
    after: BoxedBackend,
    c: AppConfigView,
    status: PowerStatus,
    out: ApplyOutcome,
) -> bool {
    &&& out.perf_written == code_to_apply(
        c.performance_mode,
        c.auto_switch_to_quiet_on_battery,
        status,
    )
    &&& exists|readback: Result<u8, EcError>|
        recorded(before, after, #[trigger] config_accesses(c, out, readback)) && limit_is_in_force(
            c.battery_care_enabled,
            c.battery_charge_limit,
            out.battery,
            readback,
        )
}

/// The settings that are written for a configuration, in their order.
pub open spec fn config_writes(c: AppConfigView, status: PowerStatus) -> Seq<HardwareWrite> {
    seq![
        HardwareWrite::Limit(limit_to_write(c.battery_care_enabled, c.battery_charge_limit)),
        HardwareWrite::Care(c.battery_care_enabled),
        HardwareWrite::Mode(
            code_to_apply(c.performance_mode, c.auto_switch_to_quiet_on_battery, status),
        ),
    ]
}

/// Writes a configuration to the hardware: charge limit, care bit and performance mode.
/// An error with one of them does not keep the others from being written.
pub fn apply_config_to_hardware(
    backend: &mut BoxedBackend,
    config: &AppConfig,
    status: PowerStatus,
) -> (r: ApplyOutcome)
    ensures
        config_was_applied(*old(backend), *final(backend), config@, status, r),
{
    let ghost start = *backend;
    let battery = apply_battery_state(
        backend,
        config.battery_care_enabled,
        config.battery_charge_limit,
    );
    let ghost care = config.battery_care_enabled;
    let ghost wanted = config.battery_charge_limit;
    let ghost readback = choose|readback: Result<u8, EcError>|
        recorded(start, *backend, #[trigger] battery_accesses(care, wanted, battery, readback))
            && limit_is_in_force(care, wanted, battery, readback);
    let ghost middle = *backend;
    let (raw, _adjusted) = effective_applied_mode(
        config.performance_mode,
        config.auto_switch_to_quiet_on_battery,
        status,
    );
    let perf = backend.set_performance_mode(raw);
    let r = ApplyOutcome { battery, perf, perf_written: raw };
    proof {
        let first = battery_accesses(care, wanted, battery, readback);
        let second = seq![Access::SetMode(raw, perf)];
        lemma_recorded_then(start, middle, *backend, first, second);
        assert(first + second =~= config_accesses(config@, r, readback));
    }
    r
}

// ── Laws ──

/// Whatever limit is asked for, the one that is written can be written, and with care on
/// it limits the charge.
pub proof fn law_written_limit_is_writable(care: bool, desired_limit: u8)
    ensures
        writable_limit(limit_to_write(care, desired_limit)) == Ok::<u8, EcErrorView>(
            limit_to_write(care, desired_limit),
        ),
        care_of_limit(limit_to_write(care, desired_limit)) == care,
{
}

/// The limit in force is never garbage, however the hardware answers.
pub proof fn law_limit_in_force_is_real(
    care: bool,
    desired_limit: u8,
    readback: Result<u8, EcError>,
)
    ensures
        !is_garbage_limit(limit_in_force(limit_to_write(care, desired_limit), readback)),
{
}

/// After an update care and limit agree as the rule has it, and with care off the wanted
/// limit is what it was.
pub proof fn law_sync_keeps_rule(c: AppConfigView, applied: u8)
    ensures
        synced_after_apply(c, applied).battery_care_enabled == care_of_limit(applied),
        care_of_limit(applied) ==> synced_after_apply(c, applied).battery_charge_limit == applied,
        !care_of_limit(applied) ==> synced_after_apply(c, applied).battery_charge_limit
            == c.battery_charge_limit,
        synced_after_apply(synced_after_apply(c, applied), applied) == synced_after_apply(
            c,
            applied,
        ),
{
}

/// Turning care off and on again brings back the limit that was in force before: the full
/// charge that care off means is not stored.
pub proof fn law_care_off_and_on_restores_limit(c: AppConfigView, limit: u8)
    requires
        care_of_limit(limit),
        limit > 0,
    ensures
        limit_to_write(
            true,
            synced_after_apply(
                synced_after_apply(c, limit),
                limit_to_write(false, limit),
            ).battery_charge_limit,
        ) == limit,
{
}

/// On battery power Extreme is never written, whatever the user chose.
pub proof fn law_extreme_is_never_written_on_battery(user_mode: u8, eco_on_battery: bool)
    ensures
        code_to_apply(user_mode, eco_on_battery, PowerStatus::OnBattery) != mode_code(
            PerfMode::Extreme,
        ),
        code_to_apply(user_mode, true, PowerStatus::OnBattery) == mode_code(PerfMode::Eco),
{
}

/// Off battery power, and where the supply is unknown, the choice of the user is written.
pub proof fn law_choice_stands_off_battery(user_mode: u8, eco_on_battery: bool, status: PowerStatus)
    requires
        status != PowerStatus::OnBattery,
    ensures
        code_to_apply(user_mode, eco_on_battery, status) == user_mode,
{
}

/// All fields were written exactly if no error is listed.
pub proof fn law_no_errors_means_all_written(out: ApplyOutcome)
    ensures
        failed_fields(out).len() == 0 <==> out.battery.charge_limit is Ok && out.battery.care is Ok
            && out.perf is Ok,
{
}

/// Writing a configuration writes the limit, the care bit and the mode, each once and in
/// this order, whatever the hardware answers.
pub proof fn law_config_is_written_once_in_order(
    c: AppConfigView,
    status: PowerStatus,
    out: ApplyOutcome,
    readback: Result<u8, EcError>,
)
    requires
        out.perf_written == code_to_apply(
            c.performance_mode,
            c.auto_switch_to_quiet_on_battery,
            status,
        ),
    ensures
        writes(config_accesses(c, out, readback)) == config_writes(c, status),
{
    let battery = battery_accesses(
        c.battery_care_enabled,
        c.battery_charge_limit,
        out.battery,
        readback,
    );
    lemma_battery_writes(c.battery_care_enabled, c.battery_charge_limit, out.battery, readback);
    assert(config_accesses(c, out, readback).drop_last() =~= battery);
    assert(writes(config_accesses(c, out, readback)) =~= config_writes(c, status));
}

proof fn lemma_battery_writes(
    care: bool,
    desired_limit: u8,
    out: BatteryApplyOutcome,
    readback: Result<u8, EcError>,
)
    ensures
        writes(battery_accesses(care, desired_limit, out, readback)) == seq![
            HardwareWrite::Limit(limit_to_write(care, desired_limit)),
            HardwareWrite::Care(care),
        ],
{
    reveal_with_fuel(writes, 4);
    let all = battery_accesses(care, desired_limit, out, readback);
    assert(writes(all) =~= seq![
        HardwareWrite::Limit(limit_to_write(care, desired_limit)),
        HardwareWrite::Care(care),
    ]);
}

/// What a limit becomes on its way to the hardware: from 1% to 100% it stays, above it
/// is 100%, and nothing but 0% is rejected.
pub proof fn law_only_zero_is_rejected(percent: u8, r: Result<u8, EcError>)
    requires
        call_ensures(validate_charge_limit_write, (percent,), r),
    ensures
        1 <= percent <= 100 ==> r == Ok::<u8, EcError>(percent),
        percent > 100 ==> r == Ok::<u8, EcError>(100),
        percent == 0 ==> result_view(r) == Err::<u8, EcErrorView>(
            EcErrorView::InvalidData("充电上限 0% 非法"@),
        ),
{
}

/// A limit of 99% or less means that care is on, one of 100% or more that it is off.
pub proof fn law_full_charge_means_no_care(limit: u8, r: bool)
    requires
        call_ensures(care_enabled_from_limit, (limit,), r),
    ensures
        limit <= 99 ==> r,
        limit >= 100 ==> !r,
{
}

/// A care setting that was read disagrees with the limit in force exactly if care is on at
/// 100% or off below; one that could not be read never disagrees.
pub proof fn law_care_disagrees_with_the_limit(
    applied: u8,
    readback: Result<bool, EcError>,
    r: bool,
)
    requires
        call_ensures(care_readback_disagrees, (applied, &readback), r),
    ensures
        readback == Ok::<bool, EcError>(true) ==> (r <==> applied >= 100),
        readback == Ok::<bool, EcError>(false) ==> (r <==> applied < 100),
        readback is Err ==> !r,
{
}

/// The two care settings have a word each.
pub proof fn law_care_words(enabled: bool, r: &'static str)
    requires
        call_ensures(care_label, (enabled,), r),
    ensures
        enabled ==> r@ == "开启"@,
        !enabled ==> r@ == "关闭"@,
{
}

/// The limit in force is the one that was read back, whatever was written, as long as the
/// reading is from 1% to 100%. Only for an error, for 0% and for more than 100% it is the
/// one that was written.
pub proof fn law_readback_is_the_limit_in_force(
    written: u8,
    readback: Result<u8, EcError>,
    r: u8,
)
    requires
        call_ensures(limit_after_readback, (written, &readback), r),
    ensures
        readback matches Ok(v) && 1 <= v <= 100 ==> r == readback->Ok_0,
        readback matches Ok(v) && v == 0 ==> r == written,
        readback matches Ok(v) && v > 100 ==> r == written,
        readback is Err ==> r == written,
        limit_in_force(written, readback) == r,
{
}

/// What is written for a limit: with care on the wanted one if it is from 1% to 99% and
/// else 80%; with care off 100%, whatever is wanted.
pub proof fn law_limit_written_for_care(care: bool, desired_limit: u8)
    ensures
        care && 1 <= desired_limit <= 99 ==> limit_to_write(care, desired_limit) == desired_limit,
        care && !(1 <= desired_limit <= 99) ==> limit_to_write(care, desired_limit) == 80,
        !care ==> limit_to_write(care, desired_limit) == 100,
{
}

/// After an update care is on exactly below 100%, a limit below 100% is the stored one, and
/// every other setting is what it was.
pub proof fn law_update_touches_care_and_limit_only(c: AppConfigView, applied: u8)
    ensures
        ({
            let after = synced_after_apply(c, applied);
            &&& after.battery_care_enabled == (applied < 100)
            &&& applied < 100 ==> after.battery_charge_limit == applied
            &&& applied >= 100 ==> after.battery_charge_limit == c.battery_charge_limit
            &&& after == (AppConfigView {
                battery_care_enabled: after.battery_care_enabled,
                battery_charge_limit: after.battery_charge_limit,
                ..c
            })
        }),
{
}

/// On mains power and where the supply is unknown, every code is written as it is. On
/// battery power that holds of every code but the one of Extreme, for which that of Fast
/// is written.
pub proof fn law_only_extreme_is_degraded(mode: u8, status: PowerStatus, r: u8)
    requires
        call_ensures(effective_perf_for_power, (mode, status), r),
    ensures
        status != PowerStatus::OnBattery ==> r == mode,
        status == PowerStatus::OnBattery && mode != 0x04 ==> r == mode,
        status == PowerStatus::OnBattery && mode == 0x04 ==> r == 0x03,
        code_for_power(mode, status) == r,
{
}

/// What is written for the mode of the user. Without the switch to Eco it is the mode,
/// but that Extreme is written as Fast on battery power. With the switch it is Eco on
/// battery power and else the mode. The flag tells whether the two differ.
pub proof fn law_mode_written_for_the_choice(
    user_mode: u8,
    eco_on_battery: bool,
    status: PowerStatus,
    r: (u8, bool),
)
    requires
        call_ensures(effective_applied_mode, (user_mode, eco_on_battery, status), r),
    ensures
        status != PowerStatus::OnBattery ==> r == (user_mode, false),
        status == PowerStatus::OnBattery && eco_on_battery ==> r == (0x0Au8, user_mode != 0x0A),
        status == PowerStatus::OnBattery && !eco_on_battery && user_mode != 0x04 ==> r == (
            user_mode,
            false,
        ),
        status == PowerStatus::OnBattery && !eco_on_battery && user_mode == 0x04 ==> r == (
            0x03u8,
            true,
        ),
        code_to_apply(user_mode, eco_on_battery, status) == r.0,
{
}

/// Each field that could not be written is listed once under its name with its error, in
/// the order limit, care, mode, and no other is.
pub proof fn law_each_error_is_listed_under_its_field(out: ApplyOutcome)
    ensures
        ({
            let limit: int = if out.battery.charge_limit is Err { 1 } else { 0 };
            let care: int = if out.battery.care is Err { 1 } else { 0 };
            let perf: int = if out.perf is Err { 1 } else { 0 };
            let listed = failed_fields(out);
            &&& listed.len() == limit + care + perf
            &&& limit == 1 ==> listed[0] == ("充电上限"@, out.battery.charge_limit->Err_0@)
            &&& care == 1 ==> listed[limit] == ("电池养护"@, out.battery.care->Err_0@)
            &&& perf == 1 ==> listed[limit + care] == ("性能模式"@, out.perf->Err_0@)
        }),
{
}

/// Writing care and limit asks this of the hardware and nothing else: to take the limit,
/// to take the care setting as it is wanted, and, if the limit was taken, to report it. What
/// is reported, from 1% to 100%, is the limit in force.
pub proof fn law_battery_is_written_limit_first(
    before: BoxedBackend,
    after: BoxedBackend,
    care: bool,
    desired_limit: u8,
    out: BatteryApplyOutcome,
)
    requires
        battery_was_applied(before, after, care, desired_limit, out),
    ensures
        exists|asked: Seq<Access>| #[trigger]
            recorded(before, after, asked) && {
                &&& asked.len() == if out.charge_limit is Ok { 3int } else { 2int }
                &&& asked[0] matches Access::SetLimit(limit, answer) && {
                    &&& care && 1 <= desired_limit <= 99 ==> limit == desired_limit
                    &&& care && !(1 <= desired_limit <= 99) ==> limit == 80
                    &&& !care ==> limit == 100
                    &&& answer is Ok <==> out.charge_limit is Ok
                    &&& answer is Err ==> answer->Err_0 == out.charge_limit->Err_0
                    &&& out.charge_limit is Ok ==> {
                        &&& asked[2] matches Access::GetLimit(reported)
                        &&& (asked[2]->GetLimit_0 matches Ok(v) && 1 <= v <= 100)
                            ==> out.charge_limit->Ok_0 == asked[2]->GetLimit_0->Ok_0
                        &&& !(asked[2]->GetLimit_0 matches Ok(v) && 1 <= v <= 100)
                            ==> out.charge_limit->Ok_0 == limit
                    }
                }
                &&& asked[1] == Access::SetCare(care, out.care)
            },
{
    let readback = choose|readback: Result<u8, EcError>|
        recorded(before, after, #[trigger] battery_accesses(care, desired_limit, out, readback))
            && limit_is_in_force(care, desired_limit, out, readback);
    let asked = battery_accesses(care, desired_limit, out, readback);
    assert(recorded(before, after, asked));
}

/// A configuration is written as a limit, a care setting and a mode, in this order: the
/// limit for its care, its care, and its mode as far as the power supply allows.
pub proof fn law_settings_of_a_configuration_are_written(c: AppConfigView, status: PowerStatus)
    ensures
        ({
            let list = config_writes(c, status);
            let mode = c.performance_mode;
            let on_battery = status == PowerStatus::OnBattery;
            &&& list.len() == 3
            &&& list[0] == HardwareWrite::Limit(
                if !c.battery_care_enabled {
                    100
                } else if 1 <= c.battery_charge_limit <= 99 {
                    c.battery_charge_limit
                } else {
                    80
                },
            )
            &&& list[1] == HardwareWrite::Care(c.battery_care_enabled)
            &&& !on_battery ==> list[2] == HardwareWrite::Mode(mode)
            &&& on_battery && c.auto_switch_to_quiet_on_battery ==> list[2]
                == HardwareWrite::Mode(0x0A)
            &&& on_battery && !c.auto_switch_to_quiet_on_battery ==> list[2]
                == HardwareWrite::Mode(if mode == 0x04 { 0x03 } else { mode })
        }),
{
}

/// Where a configuration was written, the hardware got the wanted care setting and limit,
/// and as the last thing the code that is reported as written.
pub proof fn law_mode_is_written_last(
    before: BoxedBackend,
    after: BoxedBackend,
    c: AppConfigView,
    status: PowerStatus,
    out: ApplyOutcome,
)
    requires
        config_was_applied(before, after, c, status, out),
    ensures
        status != PowerStatus::OnBattery ==> out.perf_written == c.performance_mode,
        exists|asked: Seq<Access>| #[trigger]
            recorded(before, after, asked) && {
                &&& asked.len() == if out.battery.charge_limit is Ok { 4int } else { 3int }
                &&& asked[0] is SetLimit
                &&& asked[1] == Access::SetCare(c.battery_care_enabled, out.battery.care)
                &&& out.battery.charge_limit is Ok ==> asked[2] is GetLimit
                &&& asked.last() == Access::SetMode(out.perf_written, out.perf)
            },
{
    let readback = choose|readback: Result<u8, EcError>|
        recorded(before, after, #[trigger] config_accesses(c, out, readback)) && limit_is_in_force(
            c.battery_care_enabled,
            c.battery_charge_limit,
            out.battery,
            readback,
        );
    let asked = config_accesses(c, out, readback);
    assert(recorded(before, after, asked));
}

/// The update after a write, by the stored settings: care is on exactly below 100%, a limit
/// below 100% is stored, and 100% leaves the stored one.
pub proof fn law_stored_after_a_write(config: &mut AppConfig, applied: u8, r: ())
    requires
        call_ensures(sync_config_after_apply, (config, applied), r),
    ensures
        final(config).battery_care_enabled == (applied < 100),
        applied < 100 ==> final(config).battery_charge_limit == applied,
        applied >= 100 ==> final(config).battery_charge_limit == old(config).battery_charge_limit,
        final(config).performance_mode == old(config).performance_mode,
        final(config)@ == (AppConfigView {
            battery_care_enabled: applied < 100,
            battery_charge_limit: final(config).battery_charge_limit,
            ..old(config)@
        }),
{
    assert(final(config)@.battery_care_enabled == final(config).battery_care_enabled);
    assert(final(config)@.battery_charge_limit == final(config).battery_charge_limit);
    assert(final(config)@.performance_mode == final(config).performance_mode);
}

/// What writing care and limit leaves in the record of the hardware: the limit for the care
/// setting, then the care setting as it is wanted, and then the reading, if the limit was
/// taken. The outcome tells how the writes were answered, and which limit is in force.
pub proof fn law_record_of_writing_the_battery(
    backend: &mut BoxedBackend,
    care: bool,
    desired_limit: u8,
    r: BatteryApplyOutcome,
)
    requires
        call_ensures(apply_battery_state, (backend, care, desired_limit), r),
    ensures
        ({
            let n = old(backend).log().len() as int;
            let log = final(backend).log();
            let limit: u8 = if !care {
                100
            } else if 1 <= desired_limit <= 99 {
                desired_limit
            } else {
                80
            };
            &&& log.take(n) == old(backend).log()
            &&& log.len() == n + if r.charge_limit is Ok { 3int } else { 2int }
            &&& log[n] matches Access::SetLimit(written, answer) && {
                &&& written == limit
                &&& answer is Ok <==> r.charge_limit is Ok
                &&& answer matches Err(e) ==> r.charge_limit->Err_0 == e
            }
            &&& log[n + 1] == Access::SetCare(care, r.care)
            &&& r.charge_limit is Ok ==> {
                &&& log[n + 2] is GetLimit
                &&& r.charge_limit->Ok_0 == match log[n + 2]->GetLimit_0 {
                    Ok(v) => if 1 <= v <= 100 {
                        v
                    } else {
                        limit
                    },
                    Err(_) => limit,
                }
            }
        }),
{
    let before = *old(backend);
    let after = *final(backend);
    let readback = choose|readback: Result<u8, EcError>|
        recorded(before, after, #[trigger] battery_accesses(care, desired_limit, r, readback))
            && limit_is_in_force(care, desired_limit, r, readback);
    assert(after.log().take(before.log().len() as int) =~= before.log());
}

/// What writing a configuration leaves in the record of the hardware: the limit for its care
/// setting, its care setting, the reading of the limit if that was taken, and at last its
/// mode. On battery power that is Eco if the user wants that, and Fast in place of Extreme.
pub proof fn law_record_of_writing_a_configuration(
    backend: &mut BoxedBackend,
    config: AppConfig,
    status: PowerStatus,
    r: ApplyOutcome,
)
    requires
        call_ensures(apply_config_to_hardware, (backend, &config, status), r),
    ensures
        ({
            let n = old(backend).log().len() as int;
            let log = final(backend).log();
            let mode = config.performance_mode;
            let on_battery = status == PowerStatus::OnBattery;
            &&& log.take(n) == old(backend).log()
            &&& log.len() == n + if r.battery.charge_limit is Ok { 4int } else { 3int }
            &&& log[n] matches Access::SetLimit(limit, _) && limit
                == if !config.battery_care_enabled {
                100
            } else if 1 <= config.battery_charge_limit <= 99 {
                config.battery_charge_limit
            } else {
                80
            }
            &&& log[n + 1] == Access::SetCare(config.battery_care_enabled, r.battery.care)
            &&& log.last() == Access::SetMode(r.perf_written, r.perf)
            &&& !on_battery ==> r.perf_written == mode
            &&& on_battery && config.auto_switch_to_quiet_on_battery ==> r.perf_written == 0x0A
            &&& on_battery && !config.auto_switch_to_quiet_on_battery && mode == 0x04
                ==> r.perf_written == 0x03
            &&& on_battery && !config.auto_switch_to_quiet_on_battery && mode != 0x04
                ==> r.perf_written == mode
        }),
{
    let before = *old(backend);
    let after = *final(backend);
    let c = config@;
    let readback = choose|readback: Result<u8, EcError>|
        recorded(before, after, #[trigger] config_accesses(c, r, readback)) && limit_is_in_force(
            c.battery_care_enabled,
            c.battery_charge_limit,
            r.battery,
            readback,
        );
    assert(after.log().take(before.log().len() as int) =~= before.log());
    assert(after.log().last() == config_accesses(c, r, readback).last());
}

/// The list of the fields that could not be written, as it is returned.
pub proof fn law_listed_errors(out: ApplyOutcome, r: Vec<(&'static str, &EcError)>)
    requires
        call_ensures(ApplyOutcome::field_errors, (&out,), r),
    ensures
        ({
            let limit: int = if out.battery.charge_limit is Err { 1 } else { 0 };
            let care: int = if out.battery.care is Err { 1 } else { 0 };
            let perf: int = if out.perf is Err { 1 } else { 0 };
            &&& r@.len() == limit + care + perf
            &&& limit == 1 ==> r@[0].0@ == "充电上限"@ && r@[0].1@
                == out.battery.charge_limit->Err_0@
            &&& care == 1 ==> r@[limit].0@ == "电池养护"@ && r@[limit].1@
                == out.battery.care->Err_0@
            &&& perf == 1 ==> r@[limit + care].0@ == "性能模式"@ && r@[limit + care].1@
                == out.perf->Err_0@
        }),
{
    law_each_error_is_listed_under_its_field(out);
    let views = r@.map_values(|f: (&'static str, &EcError)| (f.0@, f.1@));
    assert(views.len() == r@.len());
    assert forall|i: int| 0 <= i < r@.len() implies #[trigger] views[i] == (
        r@[i].0@,
        r@[i].1@,
    ) by {}
}

} // verus!
