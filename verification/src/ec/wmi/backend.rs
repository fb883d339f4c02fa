//! The calling side of the WMI backend: which reply belongs to which call, and when the
//! worker is given up.

use crate::app::ec::{result_view, EcError, EcErrorView};
use crate::ec::wmi::worker::{WmiReply, WmiReplyView};
use crate::text;
use vstd::prelude::*;

verus! {

/// How long a call waits for its reply, in nanoseconds. The worker gives up earlier, so
/// this is reached only if the service hangs.
pub const CALL_REPLY_TIMEOUT_NS: u64 = 6_000_000_000;

/// How much longer a call waits at `now` for a reply that is due at `deadline`.
pub fn wait_left(now: u64, deadline: u64) -> (r: Option<u64>)
    ensures
        r == if now < deadline {
            Some((deadline - now) as u64)
        } else {
            None
        },
{
    if now < deadline {
        Some(deadline - now)
    } else {
        None
    }
}

/// What came from the worker while waiting.
pub enum Arrival {
    /// A reply to the call with this number.
    Reply(u64, WmiReply),
    /// Nothing in time.
    TimedOut,
    /// The worker is gone.
    Disconnected,
}

/// What to do about it.
pub enum Receipt {
    /// This is the reply.
    Take(WmiReply),
    /// Go on waiting.
    Wait,
    /// The call has failed.
    Fail(EcError),
}

/// The calling side of the backend. A worker that was given up stays so: nothing but a new
/// worker helps.
#[derive(Debug, Clone, Copy, PartialEq, Eq, Structural)]
pub struct WmiCalls {
    /// The number of the next call.
    pub next_seq: u64,
    /// Whether the worker was given up.
    pub wedged: bool,
}

/// The error of a backend whose worker was given up or is gone.
pub open spec fn unavailable(message: Seq<char>) -> EcErrorView {
    EcErrorView::BackendUnavailable(message)
}

/// The number after `n`; after the last one it starts again.
pub open spec fn next_number(n: u64) -> u64 {
    if n == u64::MAX {
        0
    } else {
        (n + 1) as u64
    }
}

/// What a call with the number `seq` does about a reply to the call with the number `got`:
/// it takes its own and drops any other.
pub open spec fn receipt_of(seq: u64, got: u64, reply: WmiReply) -> Receipt {
    if got == seq {
        Receipt::Take(reply)
    } else {
        Receipt::Wait
    }
}

impl WmiCalls {
    /// The calling side of a fresh worker.
    pub fn new() -> (r: Self)
        ensures
            r == (WmiCalls { next_seq: 1, wedged: false }),
    {
        WmiCalls { next_seq: 1, wedged: false }
    }

    /// Whether the worker was given up. The backend works again only after it was created
    /// anew.
    pub fn is_wedged(&self) -> (r: bool)
        ensures
            r == self.wedged,
    {
        self.wedged
    }

    /// Begins a call: gives it a number, unless the worker was given up; then it fails at
    /// once.
    pub fn begin(&mut self) -> (r: Result<u64, EcError>)
        ensures
            if old(self).wedged {
                &&& *final(self) == *old(self)
                &&& result_view(r) == Err::<u64, EcErrorView>(
                    unavailable("WMI worker 无响应（超时熔断，请切换后端重试）"@),
                )
            } else {
                &&& r == Ok::<u64, EcError>(old(self).next_seq)
                &&& *final(self) == (WmiCalls {
                    next_seq: next_number(old(self).next_seq),
                    wedged: false,
                })
            },
            old(self).wedged ==> final(self).wedged,
    {
        if self.wedged {
            return Err(
                EcError::BackendUnavailable(
                    text::copy_str("WMI worker 无响应（超时熔断，请切换后端重试）"),
                ),
            );
        }
        let seq: u64 = self.next_seq;
        self.next_seq = if seq == u64::MAX {
            0
        } else {
            seq + 1
        };
        Ok(seq)
    }

    /// Gives the worker up.
    fn wedge(&mut self, message: &str) -> (r: EcError)
        ensures
            *final(self) == (WmiCalls { wedged: true, ..*old(self) }),
            r@ == unavailable(message@),
    {
        self.wedged = true;
        EcError::BackendUnavailable(text::copy_str(message))
    }

    /// The command could not be sent: the worker is gone, and is given up.
    pub fn send_failed(&mut self) -> (r: EcError)
        ensures
            *final(self) == (WmiCalls { wedged: true, ..*old(self) }),
            r@ == unavailable("WMI worker 已退出"@),
            old(self).wedged ==> final(self).wedged,
    {
        self.wedge("WMI worker 已退出")
    }

    /// Takes what came while the call with the number `seq` waits for its reply.
    ///
    /// A reply to another call belongs to one that has timed out; it is dropped. Where
    /// nothing comes in time, or the worker is gone, the worker is given up, so that later
    /// calls fail at once and do not block the user interface.
    pub fn received(&mut self, seq: u64, arrival: Arrival) -> (r: Receipt)
        ensures
            match arrival {
                Arrival::Reply(got, reply) => {
                    &&& *final(self) == *old(self)
                    &&& r == receipt_of(seq, got, reply)
                },
                Arrival::TimedOut => {
                    &&& *final(self) == (WmiCalls { wedged: true, ..*old(self) })
                    &&& r matches Receipt::Fail(e) && e@ == unavailable(
                        "WMI worker 无响应（超时熔断）"@,
                    )
                },
                Arrival::Disconnected => {
                    &&& *final(self) == (WmiCalls { wedged: true, ..*old(self) })
                    &&& r matches Receipt::Fail(e) && e@ == unavailable("WMI worker 无响应"@)
                },
            },
            old(self).wedged ==> final(self).wedged,
    {
        match arrival {
            Arrival::Reply(got, reply) => {
                if got == seq {
                    Receipt::Take(reply)
                } else {
                    Receipt::Wait
                }
            },
            Arrival::TimedOut => Receipt::Fail(self.wedge("WMI worker 无响应（超时熔断）")),
            Arrival::Disconnected => Receipt::Fail(self.wedge("WMI worker 无响应")),
        }
    }
}

/// The outcome of starting the worker, by its first reply; no reply is a timeout.
pub open spec fn handshake_outcome(reply: Option<WmiReplyView>) -> Result<(), EcErrorView> {
    match reply {
        Some(WmiReplyView::Unit(r)) => r,
        Some(_) => Err(EcErrorView::WmiConnect("WMI worker 握手响应异常"@)),
        None => Err(EcErrorView::WmiConnect("WMI worker 握手超时"@)),
    }
}

/// The outcome of starting the worker, by its first reply. `None` stands for no reply in
/// time, and for a worker that is gone.
pub fn await_handshake(reply: Option<WmiReply>) -> (r: Result<(), EcError>)
    ensures
        result_view(r) == handshake_outcome(
            match reply {
                Some(reply) => Some(reply@),
                None => None,
            },
        ),
{
    match reply {
        Some(WmiReply::Unit(r)) => r,
        Some(_) => Err(EcError::WmiConnect(text::copy_str("WMI worker 握手响应异常"))),
        None => Err(EcError::WmiConnect(text::copy_str("WMI worker 握手超时"))),
    }
}

/// The error of a reply of the wrong kind.
pub open spec fn wrong_kind() -> EcErrorView {
    unavailable("WMI worker 响应异常"@)
}

fn wrong_kind_error() -> (r: EcError)
    ensures
        r@ == wrong_kind(),
{
    EcError::BackendUnavailable(text::copy_str("WMI worker 响应异常"))
}

/// What a reply means to a write.
pub fn unit(reply: WmiReply) -> (r: Result<(), EcError>)
    ensures
        result_view(r) == match reply@ {
            WmiReplyView::Unit(r) => r,
            _ => Err(wrong_kind()),
        },
{
    match reply {
        WmiReply::Unit(r) => r,
        _ => Err(wrong_kind_error()),
    }
}

/// What a reply means to a reading of care and limit. A failed call is reported with its
/// own error.
pub fn battery(reply: WmiReply) -> (r: Result<(bool, u8), EcError>)
    ensures
        result_view(r) == match reply@ {
            WmiReplyView::BatteryState(r) => r,
            WmiReplyView::Unit(Err(e)) => Err(e),
            _ => Err(wrong_kind()),
        },
{
    match reply {
        WmiReply::BatteryState(r) => r,
        WmiReply::Unit(Err(e)) => Err(e),
        _ => Err(wrong_kind_error()),
    }
}

/// What a reply means to a reading of the performance mode. A failed call is reported
/// with its own error.
pub fn perf(reply: WmiReply) -> (r: Result<u8, EcError>)
    ensures
        result_view(r) == match reply@ {
            WmiReplyView::PerfMode(r) => r,
            WmiReplyView::Unit(Err(e)) => Err(e),
            _ => Err(wrong_kind()),
        },
{
    match reply {
        WmiReply::PerfMode(r) => r,
        WmiReply::Unit(Err(e)) => Err(e),
        _ => Err(wrong_kind_error()),
    }
}

// ── Laws ──

/// What a call makes of the replies in the order of their arrival: it waits until there
/// is one to take.
pub open spec fn taken(seq: u64, replies: Seq<(u64, WmiReply)>) -> Option<WmiReply>
    decreases replies.len(),
{
    if replies.len() == 0 {
        None
    } else {
        match receipt_of(seq, replies[0].0, replies[0].1) {
            Receipt::Take(reply) => Some(reply),
            _ => taken(seq, replies.drop_first()),
        }
    }
}

/// A call never gets the reply to another call, however many stale replies are waiting:
/// what it takes carries its number.
pub proof fn law_stale_replies_are_dropped(seq: u64, replies: Seq<(u64, WmiReply)>)
    ensures
        taken(seq, replies) matches Some(reply) ==> replies.contains((seq, reply)),
        taken(seq, replies) is None <==> forall|i: int|
            0 <= i < replies.len() ==> (#[trigger] replies[i]).0 != seq,
    decreases replies.len(),
{
    if replies.len() > 0 {
        if replies[0].0 == seq {
            assert(replies[0] == (seq, replies[0].1));
        } else {
            let rest = replies.drop_first();
            law_stale_replies_are_dropped(seq, rest);
            assert forall|i: int| 0 <= i < rest.len() implies rest[i] == #[trigger] replies[i
                + 1] by {}
            if let Some(reply) = taken(seq, rest) {
                let i = choose|i: int| 0 <= i < rest.len() && rest[i] == (seq, reply);
                assert(replies[i + 1] == (seq, reply));
            }
            if forall|i: int| 0 <= i < rest.len() ==> (#[trigger] rest[i]).0 != seq {
                assert forall|i: int| 0 <= i < replies.len() implies (#[trigger] replies[i]).0
                    != seq by {
                    if i > 0 {
                        assert(rest[i - 1] == replies[i]);
                    }
                }
            }
            if forall|i: int| 0 <= i < replies.len() ==> (#[trigger] replies[i]).0 != seq {
                assert forall|i: int| 0 <= i < rest.len() implies (#[trigger] rest[i]).0 != seq by {
                    assert(replies[i + 1].0 != seq);
                }
            }
        }
    }
}

/// Two calls in a row have different numbers.
pub proof fn law_numbers_differ(n: u64)
    ensures
        next_number(n) != n,
{
}

/// A call waits exactly as long as there is time until its deadline.
pub proof fn law_wait_until_the_deadline(now: u64, deadline: u64, r: Option<u64>)
    requires
        call_ensures(wait_left, (now, deadline), r),
    ensures
        r matches Some(left) ==> now + left == deadline && left > 0,
        r is None <==> now >= deadline,
{
}

/// A call of a worker that was given up fails at once and changes nothing. Any other call gets
/// the next number, and the one after it is kept for the call after it.
pub proof fn law_calls_are_numbered(calls: &mut WmiCalls, r: Result<u64, EcError>)
    requires
        call_ensures(WmiCalls::begin, (calls,), r),
    ensures
        r is Err <==> old(calls).wedged,
        old(calls).wedged ==> *final(calls) == *old(calls),
        old(calls).wedged ==> r->Err_0@ == EcErrorView::BackendUnavailable(
            "WMI worker 无响应（超时熔断，请切换后端重试）"@,
        ),
        !old(calls).wedged ==> r->Ok_0 == old(calls).next_seq && !final(calls).wedged,
        !old(calls).wedged && old(calls).next_seq < u64::MAX ==> final(calls).next_seq
            == old(calls).next_seq + 1,
        !old(calls).wedged && old(calls).next_seq == u64::MAX ==> final(calls).next_seq == 0,
{
}

/// A waiting call takes the reply with its own number and waits on at any other. Where nothing
/// comes in time, or the worker is gone, it fails and the worker is given up; nothing else
/// gives it up, and the numbering is not touched.
pub proof fn law_own_reply_is_taken(
    calls: &mut WmiCalls,
    seq: u64,
    arrival: Arrival,
    r: Receipt,
)
    requires
        call_ensures(WmiCalls::received, (calls, seq, arrival), r),
    ensures
        final(calls).next_seq == old(calls).next_seq,
        arrival matches Arrival::Reply(got, reply) ==> {
            &&& final(calls).wedged == old(calls).wedged
            &&& got == seq ==> r == Receipt::Take(reply)
            &&& got != seq ==> r == Receipt::Wait
        },
        arrival !is Reply ==> final(calls).wedged,
        arrival is TimedOut ==> (r matches Receipt::Fail(e) && e@
            == EcErrorView::BackendUnavailable("WMI worker 无响应（超时熔断）"@)),
        arrival is Disconnected ==> (r matches Receipt::Fail(e) && e@
            == EcErrorView::BackendUnavailable("WMI worker 无响应"@)),
{
}

/// A worker that cannot be sent to is given up, and says so from then on; a fresh one is not.
pub proof fn law_lost_worker_is_given_up(
    calls: &mut WmiCalls,
    r: EcError,
    fresh: WmiCalls,
    wedged: bool,
)
    requires
        call_ensures(WmiCalls::send_failed, (calls,), r),
        call_ensures(WmiCalls::new, (), fresh),
        call_ensures(WmiCalls::is_wedged, (&*old(calls),), wedged),
    ensures
        final(calls).wedged,
        final(calls).next_seq == old(calls).next_seq,
        r@ == EcErrorView::BackendUnavailable("WMI worker 已退出"@),
        !fresh.wedged,
        fresh.next_seq == 1,
        wedged <==> old(calls).wedged,
{
}

/// The first reply of a worker says whether it has started. No reply, and one of another kind,
/// is a failure.
pub proof fn law_first_reply_is_the_handshake(reply: Option<WmiReply>, r: Result<(), EcError>)
    requires
        call_ensures(await_handshake, (reply,), r),
    ensures
        r is Ok <==> (reply matches Some(WmiReply::Unit(done)) && done is Ok),
        reply is None ==> r->Err_0@ == EcErrorView::WmiConnect("WMI worker 握手超时"@),
        reply matches Some(WmiReply::Unit(Err(e))) ==> r->Err_0@ == e@,
        reply matches Some(w) && w !is Unit ==> r->Err_0@ == EcErrorView::WmiConnect(
            "WMI worker 握手响应异常"@,
        ),
{
}

/// A reply of the kind that was asked for is handed on, success and failure alike. A reading
/// takes the failure of a write for its own. Any other reply is an error.
pub proof fn law_replies_of_the_right_kind(
    reply: WmiReply,
    done: Result<(), EcError>,
    state: Result<(bool, u8), EcError>,
    mode: Result<u8, EcError>,
)
    requires
        call_ensures(unit, (reply,), done),
        call_ensures(battery, (reply,), state),
        call_ensures(perf, (reply,), mode),
    ensures
        done is Ok <==> (reply matches WmiReply::Unit(r) && r is Ok),
        state is Ok <==> (reply matches WmiReply::BatteryState(r) && r is Ok),
        mode is Ok <==> (reply matches WmiReply::PerfMode(r) && r is Ok),
        reply matches WmiReply::BatteryState(Ok(v)) ==> state->Ok_0 == v,
        reply matches WmiReply::PerfMode(Ok(v)) ==> mode->Ok_0 == v,
        reply matches WmiReply::Unit(Err(e)) ==> done->Err_0@ == e@ && state->Err_0@ == e@
            && mode->Err_0@ == e@,
        reply matches WmiReply::BatteryState(Err(e)) ==> state->Err_0@ == e@,
        reply matches WmiReply::PerfMode(Err(e)) ==> mode->Err_0@ == e@,
        reply !is Unit ==> done->Err_0@ == EcErrorView::BackendUnavailable("WMI worker 响应异常"@),
        reply is PerfMode || (reply matches WmiReply::Unit(r) && r is Ok) ==> state->Err_0@
            == EcErrorView::BackendUnavailable("WMI worker 响应异常"@),
        reply is BatteryState || (reply matches WmiReply::Unit(r) && r is Ok) ==> mode->Err_0@
            == EcErrorView::BackendUnavailable("WMI worker 响应异常"@),
{
}

/// A call waits six seconds, twice as long as the worker waits for the firmware, so that an
/// answer of the worker comes in time.
pub proof fn law_worker_gives_up_first()
    ensures
        CALL_REPLY_TIMEOUT_NS == 6_000_000_000,
        CALL_REPLY_TIMEOUT_NS == 2 * crate::ec::wmi::worker::GET_RESULT_TIMEOUT_MS * 1_000_000,
{
}

} // verus!
