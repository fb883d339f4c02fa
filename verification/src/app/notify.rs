//! When to announce a change, and in which words.

use crate::text;
use vstd::prelude::*;

verus! {

/// A change from a reading that was there to another one.
pub open spec fn changed<T>(last: Option<T>, current: T) -> bool {
    match last {
        Some(prev) => prev != current,
        None => false,
    }
}

/// Whether a change of the performance mode is announced.
///
/// The first reading is a baseline and no change.
pub fn should_notify_perf_change(last: Option<u8>, current: u8) -> (r: bool)
    ensures
        r == changed(last, current),
{
    match last {
        Some(prev) => prev != current,
        None => false,
    }
}

/// Whether a change of battery care is announced.
///
/// The first reading is a baseline and no change.
pub fn should_notify_care_change(last: Option<bool>, current: bool) -> (r: bool)
    ensures
        r == changed(last, current),
{
    match last {
        Some(prev) => prev != current,
        None => false,
    }
}

/// What is known of a limit: the stored state, if it was stored for this limit.
pub open spec fn state_for_limit(stored: Option<(u8, bool)>, limit: u8) -> Option<bool> {
    match stored {
        Some((at, state)) => if at == limit {
            Some(state)
        } else {
            None
        },
        None => None,
    }
}

/// What the last reading says of a limit.
///
/// A state belongs to the limit that it was recorded for: after the limit was changed
/// there is none, and the next reading is a baseline again.
pub fn armed_state_for_limit(stored: Option<(u8, bool)>, limit: u8) -> (r: Option<bool>)
    ensures
        r == state_for_limit(stored, limit),
{
    match stored {
        Some((armed_at, armed)) => {
            if armed_at == limit {
                Some(armed)
            } else {
                None
            }
        },
        None => None,
    }
}

/// The charge has reached the limit, give or take one percent below.
pub open spec fn has_reached(pct: u8, limit: u8) -> bool {
    pct + 1 >= limit
}

/// The charge has fallen far enough below the limit to announce the next arrival.
pub open spec fn has_fallen_away(pct: u8, limit: u8) -> bool {
    pct + 3 <= limit
}

/// Whether the arrival at the limit is announced, and whether the charge counts as having
/// arrived from now on; no state means that the next reading is a baseline.
pub open spec fn limit_decision(
    prev_at_limit: Option<bool>,
    pct: Option<u8>,
    limit: u8,
    on_ac: bool,
    enabled: bool,
) -> (bool, Option<bool>) {
    match pct {
        Some(p) if enabled && on_ac => if has_fallen_away(p, limit) {
            (false, Some(false))
        } else if has_reached(p, limit) && p > limit {
            (false, Some(true))
        } else {
            match prev_at_limit {
                None => (false, Some(has_reached(p, limit))),
                Some(prev) => if has_reached(p, limit) {
                    (!prev, Some(true))
                } else {
                    (false, Some(prev))
                },
            }
        },
        _ => (false, None),
    }
}

/// Decides whether the arrival of the charge at its limit is announced.
///
/// `prev_at_limit` says whether the charge had arrived at the last reading; `None` makes
/// this one a baseline. The answer is whether to announce, and the state for next time.
///
/// Nothing is announced while the switch is off, off mains power, or without a reading;
/// then the next reading is a baseline. The charge arrives at one percent below the limit.
/// A charge above the limit is on its way down and is not announced. The next arrival is
/// announced after the charge has fallen by three percent; in between the state stays.
pub fn charge_limit_notification_decision(
    prev_at_limit: Option<bool>,
    pct: Option<u8>,
    limit: u8,
    on_ac: bool,
    enabled: bool,
) -> (r: (bool, Option<bool>))
    requires
        enabled && on_ac ==> (pct matches Some(p) ==> p <= 252),
    ensures
        r == limit_decision(prev_at_limit, pct, limit, on_ac, enabled),
{
    if !enabled || !on_ac {
        return (false, None);
    }
    let pct: u8 = match pct {
        Some(p) => p,
        None => return (false, None),
    };
    if pct + 3 <= limit {
        return (false, Some(false));
    }
    let at_limit = pct + 1 >= limit;
    if at_limit && pct > limit {
        return (false, Some(true));
    }
    let prev = match prev_at_limit {
        Some(prev) => prev,
        None => return (false, Some(at_limit)),
    };
    if at_limit {
        return (!prev, Some(true));
    }
    (false, Some(prev))
}

/// The words that announce the arrival at a limit.
pub open spec fn arrival_text(limit: u8) -> Seq<char> {
    if limit >= 100 {
        "电池已充满"@
    } else {
        "电池已充至 "@ + text::decimal(limit as nat) + "% 养护上限"@
    }
}

/// The words that announce the arrival at a limit.
pub fn charge_limit_notification_text(limit: u8) -> (r: String)
    ensures
        r@ == arrival_text(limit),
{
    if limit >= 100 {
        text::copy_str("电池已充满")
    } else {
        let mut out = text::copy_str("电池已充至 ");
        text::push_decimal(&mut out, limit as u64);
        out.append("% 养护上限");
        out
    }
}

// ── Laws ──

/// A baseline is never announced, and neither is anything without the switch, without
/// mains power or without a reading.
pub proof fn law_baseline_is_silent(
    prev_at_limit: Option<bool>,
    pct: Option<u8>,
    limit: u8,
    on_ac: bool,
    enabled: bool,
)
    ensures
        prev_at_limit is None ==> !limit_decision(prev_at_limit, pct, limit, on_ac, enabled).0,
        !enabled || !on_ac || pct is None ==> limit_decision(
            prev_at_limit,
            pct,
            limit,
            on_ac,
            enabled,
        ) == (false, None::<bool>),
{
}

/// An announcement is the arrival itself: the charge had not arrived before, it is at the
/// limit or one percent below, and from now on it has arrived.
pub proof fn law_announcement_is_arrival(
    prev_at_limit: Option<bool>,
    pct: Option<u8>,
    limit: u8,
    on_ac: bool,
    enabled: bool,
)
    requires
        limit_decision(prev_at_limit, pct, limit, on_ac, enabled).0,
    ensures
        prev_at_limit == Some(false),
        pct matches Some(p) && p <= limit <= p + 1,
        limit_decision(prev_at_limit, pct, limit, on_ac, enabled).1 == Some(true),
{
}

/// The state after reading a series of charges one after the other.
pub open spec fn state_after(state: Option<bool>, charges: Seq<u8>, limit: u8) -> Option<bool>
    decreases charges.len(),
{
    if charges.len() == 0 {
        state
    } else {
        limit_decision(
            state_after(state, charges.drop_last(), limit),
            Some(charges.last()),
            limit,
            true,
            true,
        ).1
    }
}

/// After an arrival nothing more is announced until the charge has fallen away: as long
/// as no reading of a series is three percent below the limit, none of them is announced.
pub proof fn law_announced_once_until_fallen_away(charges: Seq<u8>, limit: u8, next: u8)
    requires
        forall|i: int|
            0 <= i < charges.len() ==> !has_fallen_away(#[trigger] charges[i], limit),
    ensures
        state_after(Some(true), charges, limit) == Some(true),
        !limit_decision(
            state_after(Some(true), charges, limit),
            Some(next),
            limit,
            true,
            true,
        ).0,
    decreases charges.len(),
{
    if charges.len() > 0 {
        let front = charges.drop_last();
        assert forall|i: int| 0 <= i < front.len() implies !has_fallen_away(
            #[trigger] front[i],
            limit,
        ) by {
            assert(front[i] == charges[i]);
        }
        law_announced_once_until_fallen_away(front, limit, charges.last());
        assert(!has_fallen_away(charges[charges.len() - 1], limit));
    }
}

/// A fall by three percent or more arms the announcement again, whatever was before.
pub proof fn law_fall_rearms(prev_at_limit: Option<bool>, pct: u8, limit: u8)
    requires
        has_fallen_away(pct, limit),
    ensures
        limit_decision(prev_at_limit, Some(pct), limit, true, true) == (false, Some(false)),
{
}

/// A state that was stored for one limit says nothing of another.
pub proof fn law_state_belongs_to_limit(limit: u8, other: u8, state: bool)
    ensures
        state_for_limit(Some((limit, state)), limit) == Some(state),
        limit != other ==> state_for_limit(Some((limit, state)), other) is None,
{
}

/// A change is announced exactly if there was a reading before and it was another one, of
/// the mode as of the care setting.
pub proof fn law_every_change_is_announced(
    last_mode: Option<u8>,
    mode: u8,
    perf: bool,
    last_care: Option<bool>,
    enabled: bool,
    care: bool,
)
    requires
        call_ensures(should_notify_perf_change, (last_mode, mode), perf),
        call_ensures(should_notify_care_change, (last_care, enabled), care),
    ensures
        perf <==> last_mode is Some && last_mode != Some(mode),
        care <==> last_care == Some(!enabled),
{
}

/// An arrival is announced at every limit: switched on and on mains power, where the charge
/// had not arrived before and is now at the limit or one percent below. After that it has
/// arrived.
pub proof fn law_arrival_is_announced(p: u8, limit: u8, r: (bool, Option<bool>))
    requires
        p <= limit <= p + 1,
        call_ensures(
            charge_limit_notification_decision,
            (Some(false), Some(p), limit, true, true),
            r,
        ),
    ensures
        r == (true, Some(true)),
        limit_decision(Some(false), Some(p), limit, true, true) == (true, Some(true)),
{
}

/// The decision on a reading on mains power, for every charge and limit, by the distance of
/// the two. Three percent or more below the limit the charge has not arrived. Two percent
/// below, what was known stays, and a baseline has not arrived. From one percent below it
/// has arrived, and that is news only at the limit or one percent below, where it was known
/// not to have arrived.
pub proof fn law_decision_follows_the_distance(
    prev_at_limit: Option<bool>,
    p: u8,
    limit: u8,
    r: (bool, Option<bool>),
)
    requires
        call_ensures(
            charge_limit_notification_decision,
            (prev_at_limit, Some(p), limit, true, true),
            r,
        ),
    ensures
        limit - p >= 3 ==> r == (false, Some(false)),
        limit - p == 2 ==> !r.0 && r.1 == Some(prev_at_limit == Some(true)),
        limit - p == 1 || limit == p ==> r == (prev_at_limit == Some(false), Some(true)),
        limit < p ==> r == (false, Some(true)),
{
}

/// Switched off, off mains power or without a reading nothing is announced and nothing is
/// known for next time, whatever the rest.
pub proof fn law_no_reading_no_state(
    prev_at_limit: Option<bool>,
    pct: Option<u8>,
    limit: u8,
    on_ac: bool,
    enabled: bool,
    r: (bool, Option<bool>),
)
    requires
        !enabled || !on_ac || pct is None,
        call_ensures(
            charge_limit_notification_decision,
            (prev_at_limit, pct, limit, on_ac, enabled),
            r,
        ),
    ensures
        r == (false, None::<bool>),
{
}

/// What was stored for a limit is known of that limit, and of no other.
pub proof fn law_stored_state_is_found(stored: Option<(u8, bool)>, limit: u8, r: Option<bool>)
    requires
        call_ensures(armed_state_for_limit, (stored, limit), r),
    ensures
        forall|state: bool| r == Some(state) <==> stored == Some((limit, state)),
{
}

/// The words of an arrival: below the full charge they hold the limit in base ten, and so
/// tell any two limits apart; from the full charge on they are always the same.
pub proof fn law_arrival_names_the_limit(limit: u8, r: String)
    requires
        call_ensures(charge_limit_notification_text, (limit,), r),
    ensures
        limit < 100 ==> r@ == "电池已充至 "@ + text::decimal(limit as nat) + "% 养护上限"@,
        limit >= 100 ==> r@ == "电池已充满"@,
{
}

} // verus!
