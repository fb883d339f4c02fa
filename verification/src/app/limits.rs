//! Charge limits: the default, the full charge, and the rule that keeps battery
//! care and the limit coherent.

use vstd::prelude::*;

verus! {

/// The charge limit of a fresh configuration, in percent.
pub const DEFAULT_CHARGE_LIMIT: u8 = 80;

/// The full charge: a limit of this value does not limit charging, and any lower
/// limit means that battery care is on.
pub const FULL_CHARGE_LIMIT: u8 = 100;

/// The limit used when care is on and the stored limit contradicts it.
pub const FALLBACK_CARE_LIMIT: u8 = DEFAULT_CHARGE_LIMIT;

/// The limit that goes with a care setting: with care on, `0` and everything from the
/// full charge on is replaced by the fallback; any other limit stays.
pub open spec fn coherent_limit(enabled: bool, limit: u8) -> u8 {
    if enabled && (limit == 0 || limit >= FULL_CHARGE_LIMIT) {
        FALLBACK_CARE_LIMIT
    } else {
        limit
    }
}

/// A limit that hardware cannot mean: nothing at all, or more than the full charge.
pub open spec fn is_garbage_limit(raw: u8) -> bool {
    raw == 0 || raw > FULL_CHARGE_LIMIT
}

/// Makes a limit coherent with the care setting.
///
/// With care on, a limit of `0` (unset) or of 100% and more (a contradiction) becomes
/// [`FALLBACK_CARE_LIMIT`]. In every other case the limit is returned as it is.
pub fn coherent_charge_limit(enabled: bool, limit: u8) -> (r: u8)
    ensures
        r == coherent_limit(enabled, limit),
{
    if enabled && (limit == 0 || limit >= FULL_CHARGE_LIMIT) {
        FALLBACK_CARE_LIMIT
    } else {
        limit
    }
}

/// Whether a limit read back from hardware is garbage: `0`, or above 100%.
pub fn charge_limit_readback_is_invalid(raw: u8) -> (r: bool)
    ensures
        r == is_garbage_limit(raw),
{
    raw == 0 || raw > FULL_CHARGE_LIMIT
}

/// The rule is idempotent: a limit that it has made coherent stays as it is.
pub proof fn law_coherent_limit_idempotent(enabled: bool, limit: u8)
    ensures
        coherent_limit(enabled, coherent_limit(enabled, limit)) == coherent_limit(enabled, limit),
{
}

/// With care on, a coherent limit is a real limit: above nothing and below the full
/// charge. It is never one that a readback would reject.
pub proof fn law_coherent_limit_under_care(limit: u8)
    ensures
        0 < coherent_limit(true, limit) < FULL_CHARGE_LIMIT,
        !is_garbage_limit(coherent_limit(true, limit)),
{
}

/// A limit that already is a real limit is kept, and with care off every limit is.
pub proof fn law_coherent_limit_keeps_valid(enabled: bool, limit: u8)
    requires
        !enabled || 0 < limit < FULL_CHARGE_LIMIT,
    ensures
        coherent_limit(enabled, limit) == limit,
{
}

/// What the rule gives back, by cases. With care on, a limit from 1% to 99% stays and any
/// other becomes 80%. With care off every limit stays.
pub proof fn law_care_needs_a_limit_below_full(enabled: bool, limit: u8, r: u8)
    requires
        call_ensures(coherent_charge_limit, (enabled, limit), r),
    ensures
        enabled && 1 <= limit <= 99 ==> r == limit,
        enabled && limit == 0 ==> r == 80,
        enabled && limit >= 100 ==> r == 80,
        !enabled ==> r == limit,
{
}

/// A limit that was read back counts exactly if it is from 1% to 100%.
pub proof fn law_readback_from_one_to_full_counts(raw: u8, r: bool)
    requires
        call_ensures(charge_limit_readback_is_invalid, (raw,), r),
    ensures
        r <==> !(1 <= raw <= 100),
{
}

} // verus!
