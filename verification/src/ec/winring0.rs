//! The WinRing0 backend: registers of the embedded controller through two I/O ports.
//!
//! The controller is spoken to byte by byte. Before each byte that goes to it its input
//! buffer must be empty, and before a byte is taken from it its output buffer must be
//! full; the status says so. A [`Transfer`] is one such conversation. It says which port
//! to read or write next and is told what was read; it does not touch the ports itself.

use crate::app::battery::{
    care_enabled_from_limit, care_of_limit, validate_charge_limit_write, writable_limit,
};
use crate::app::ec::{result_view, EcError, EcErrorView};
use crate::app::limits::{charge_limit_readback_is_invalid, is_garbage_limit};
use crate::ec::addr;
use crate::ec::retry::{attempted, lemma_attempted_then, Attempts};
use crate::text;
use vstd::prelude::*;

verus! {

// ── Waiting ──

/// How often the status is read before the controller is given up.
pub const MAX_POLLS: u32 = 1000;

/// How many of the first readings follow each other without sleeping.
pub const SPIN_POLLS: u32 = 100;

/// What to do after a reading of the status.
#[derive(Debug, Clone, Copy, PartialEq, Eq, Structural)]
pub enum Wait {
    /// The controller is ready.
    Ready,
    /// Read again at once.
    Spin,
    /// Sleep for a millisecond, then read again.
    Sleep,
}

/// What to do after the reading with the number `poll`, counted from zero.
pub open spec fn after_poll(poll: int, status: u8, mask: u8, expected: u8) -> Wait {
    if status & mask == expected {
        Wait::Ready
    } else if poll < SPIN_POLLS {
        Wait::Spin
    } else {
        Wait::Sleep
    }
}

/// Decides after a reading of the status whether the bits under `mask` are as expected,
/// and if not, how to wait for the next one: the first hundred times without sleeping,
/// since most often the controller is ready within a few, and after that with a
/// millisecond of sleep.
pub fn ec_wait_status(poll: u32, status: u8, mask: u8, expected: u8) -> (r: Wait)
    ensures
        r == after_poll(poll as int, status, mask, expected),
{
    if status & mask == expected {
        Wait::Ready
    } else if poll < SPIN_POLLS {
        Wait::Spin
    } else {
        Wait::Sleep
    }
}

/// Decides after so many readings of the status whether it is read once more: up to
/// [`MAX_POLLS`] times, and then the wait ends with an error.
pub fn ec_wait_again(polls: u32) -> (r: Result<(), EcError>)
    ensures
        match r {
            Ok(_) => polls < MAX_POLLS,
            Err(e) => polls >= MAX_POLLS && e@ == timeout_error(),
        },
{
    if polls < MAX_POLLS {
        Ok(())
    } else {
        Err(EcError::Timeout(addr::EC_CMD))
    }
}

// ── The script of a transfer ──

/// The status bit for a full input buffer.
pub const IBF: u8 = 0x02;

/// The status bit for a full output buffer.
pub const OBF: u8 = 0x01;

/// The command that reads a register.
pub const CMD_READ_EC: u8 = 0x80;

/// The command that writes a register.
pub const CMD_WRITE_EC: u8 = 0x81;

/// One step of a transfer.
#[derive(Debug, Clone, Copy, PartialEq, Eq, Structural)]
pub enum Step {
    /// Wait until the bits of the status under a mask have a value.
    Await {
        /// The bits that count.
        mask: u8,
        /// What they have to be.
        expected: u8,
    },
    /// Write a byte to a port.
    Send {
        /// The port.
        port: u16,
        /// The byte.
        value: u8,
    },
    /// Read the data port; the byte is the result.
    Fetch,
}

/// What a transfer is to do with its register.
#[derive(Debug, Clone, Copy, PartialEq, Eq, Structural)]
pub enum Access {
    /// Read it.
    Read,
    /// Write this byte to it.
    Write(u8),
}

/// The input buffer is empty.
pub open spec fn await_input() -> Step {
    Step::Await { mask: IBF, expected: 0 }
}

/// The output buffer is full.
pub open spec fn await_output() -> Step {
    Step::Await { mask: OBF, expected: OBF }
}

/// The steps of a transfer: the command, the register, and then the byte that is fetched
/// or sent, each after a wait. A write ends with the controller having taken its byte.
pub open spec fn script(access: Access, register: u8) -> Seq<Step> {
    match access {
        Access::Read => seq![
            await_input(),
            Step::Send { port: addr::EC_CMD, value: CMD_READ_EC },
            await_input(),
            Step::Send { port: addr::EC_DATA, value: register },
            await_output(),
            Step::Fetch,
        ],
        Access::Write(value) => seq![
            await_input(),
            Step::Send { port: addr::EC_CMD, value: CMD_WRITE_EC },
            await_input(),
            Step::Send { port: addr::EC_DATA, value: register },
            await_input(),
            Step::Send { port: addr::EC_DATA, value },
            await_input(),
        ],
    }
}

/// How many steps a transfer has.
pub open spec fn script_len(access: Access) -> int {
    match access {
        Access::Read => 6,
        Access::Write(_) => 7,
    }
}

/// One step of the script.
fn script_step(access: Access, register: u8, at: usize) -> (r: Step)
    requires
        at < script_len(access),
    ensures
        r == script(access, register)[at as int],
{
    match access {
        Access::Read => match at {
            0 | 2 => Step::Await { mask: IBF, expected: 0 },
            1 => Step::Send { port: addr::EC_CMD, value: CMD_READ_EC },
            3 => Step::Send { port: addr::EC_DATA, value: register },
            4 => Step::Await { mask: OBF, expected: OBF },
            _ => Step::Fetch,
        },
        Access::Write(value) => match at {
            1 => Step::Send { port: addr::EC_CMD, value: CMD_WRITE_EC },
            3 => Step::Send { port: addr::EC_DATA, value: register },
            5 => Step::Send { port: addr::EC_DATA, value },
            _ => Step::Await { mask: IBF, expected: 0 },
        },
    }
}

// ── A transfer under way ──

/// Where a transfer stands.
#[derive(Debug, Clone, Copy, PartialEq, Eq, Structural)]
pub enum Phase {
    /// About to do the step with this number.
    At(usize),
    /// The status is being read for the step `at`, after so many readings.
    Polling {
        /// The number of the step.
        at: usize,
        /// How many readings there were before.
        polls: u32,
    },
    /// A pause after so many readings for the step `at`.
    Resting {
        /// The number of the step.
        at: usize,
        /// How many readings there were.
        polls: u32,
    },
    /// The status is being read once more after the wait of the step `at` was given up, to
    /// tell what it was in the end.
    Observing {
        /// The number of the step.
        at: usize,
    },
    /// The data port is being read for the result.
    Fetching,
    /// The data port is being read so that a late byte does not stay in it.
    Draining,
    /// It is over.
    Finished,
}

/// What to do next.
#[derive(Debug)]
pub enum PortAction {
    /// Read the status from the command port and report it.
    ReadStatus,
    /// Read the data port and report the byte.
    ReadData,
    /// Write a byte to a port.
    WritePort {
        /// The port.
        port: u16,
        /// The byte.
        value: u8,
    },
    /// Go on at once.
    Spin,
    /// Sleep for a millisecond.
    Sleep,
    /// A read is over, with this byte.
    DoneRead(u8),
    /// A write is over.
    DoneWrite,
    /// The transfer has failed.
    Failed(EcError),
}

/// An action with its error as a view.
pub enum PortActionView {
    ReadStatus,
    ReadData,
    WritePort { port: u16, value: u8 },
    Spin,
    Sleep,
    DoneRead(u8),
    DoneWrite,
    Failed(EcErrorView),
}

impl View for PortAction {
    type V = PortActionView;

    open spec fn view(&self) -> PortActionView {
        match self {
            PortAction::ReadStatus => PortActionView::ReadStatus,
            PortAction::ReadData => PortActionView::ReadData,
            PortAction::WritePort { port, value } => PortActionView::WritePort {
                port: *port,
                value: *value,
            },
            PortAction::Spin => PortActionView::Spin,
            PortAction::Sleep => PortActionView::Sleep,
            PortAction::DoneRead(b) => PortActionView::DoneRead(*b),
            PortAction::DoneWrite => PortActionView::DoneWrite,
            PortAction::Failed(e) => PortActionView::Failed(e@),
        }
    }
}

/// A conversation with the controller about one register.
#[derive(Debug, Clone, Copy, PartialEq, Eq, Structural)]
pub struct Transfer {
    /// What it is to do.
    pub access: Access,
    /// The register.
    pub register: u8,
    /// Where it stands.
    pub phase: Phase,
}

/// The error of a controller that did not become ready.
pub open spec fn timeout_error() -> EcErrorView {
    EcErrorView::Timeout(addr::EC_CMD)
}

impl Transfer {
    /// The steps of the transfer.
    pub open spec fn steps(self) -> Seq<Step> {
        script(self.access, self.register)
    }

    /// It stands at a wait, and has not read the status too often.
    pub open spec fn wf(self) -> bool {
        match self.phase {
            Phase::At(at) => at < self.steps().len() && self.steps()[at as int] is Await,
            Phase::Polling { at, polls } => at < self.steps().len() && self.steps()[at as int] is Await
                && polls < MAX_POLLS,
            Phase::Resting { at, polls } => at < self.steps().len() && self.steps()[at as int] is Await
                && 0 < polls <= MAX_POLLS,
            Phase::Observing { at } => at < self.steps().len() && self.steps()[at as int] is Await,
            Phase::Fetching => self.access == Access::Read,
            Phase::Draining => self.access == Access::Read,
            Phase::Finished => true,
        }
    }

    /// Doing the step with the number `at`: where the transfer stands then, and the
    /// action.
    pub open spec fn doing(self, at: int) -> (Phase, PortActionView) {
        if at >= self.steps().len() {
            (Phase::Finished, PortActionView::DoneWrite)
        } else {
            match self.steps()[at] {
                Step::Await { .. } => (
                    Phase::Polling { at: at as usize, polls: 0 },
                    PortActionView::ReadStatus,
                ),
                Step::Send { port, value } => (
                    Phase::At((at + 1) as usize),
                    PortActionView::WritePort { port, value },
                ),
                Step::Fetch => (Phase::Fetching, PortActionView::ReadData),
            }
        }
    }

    /// The transition: where the transfer stands after `input`, and the next action.
    /// `input` is the byte that was read, where the last action was to read one.
    pub open spec fn next(self, input: u8) -> (Phase, PortActionView) {
        match self.phase {
            Phase::At(at) => self.doing(at as int),
            Phase::Polling { at, polls } => match self.steps()[at as int] {
                Step::Await { mask, expected } => match after_poll(
                    polls as int,
                    input,
                    mask,
                    expected,
                ) {
                    Wait::Ready => self.doing(at + 1),
                    Wait::Spin => (
                        Phase::Resting { at, polls: (polls + 1) as u32 },
                        PortActionView::Spin,
                    ),
                    Wait::Sleep => (
                        Phase::Resting { at, polls: (polls + 1) as u32 },
                        PortActionView::Sleep,
                    ),
                },
                _ => (Phase::Finished, PortActionView::Failed(timeout_error())),
            },
            Phase::Resting { at, polls } => if polls < MAX_POLLS {
                (Phase::Polling { at, polls }, PortActionView::ReadStatus)
            } else {
                (Phase::Observing { at }, PortActionView::ReadStatus)
            },
            Phase::Observing { at } => if self.steps()[at as int] == await_output() {
                (Phase::Draining, PortActionView::ReadData)
            } else {
                (Phase::Finished, PortActionView::Failed(timeout_error()))
            },
            Phase::Fetching => (Phase::Finished, PortActionView::DoneRead(input)),
            Phase::Draining | Phase::Finished => (
                Phase::Finished,
                PortActionView::Failed(timeout_error()),
            ),
        }
    }

    /// The transfer in another phase.
    pub open spec fn with_phase(self, phase: Phase) -> Transfer {
        Transfer { phase, ..self }
    }

    /// The transfer after `input`.
    pub open spec fn after(self, input: u8) -> Transfer {
        self.with_phase(self.next(input).0)
    }

    /// Goes to the step with the number `at`.
    fn begin_step(&mut self, at: usize) -> (r: PortAction)
        requires
            at <= old(self).steps().len(),
        ensures
            (final(self).phase, r@) == old(self).doing(at as int),
            *final(self) == old(self).with_phase(final(self).phase),
    {
        let len: usize = match self.access {
            Access::Read => 6,
            Access::Write(_) => 7,
        };
        if at >= len {
            self.phase = Phase::Finished;
            return PortAction::DoneWrite;
        }
        match script_step(self.access, self.register, at) {
            Step::Await { .. } => {
                self.phase = Phase::Polling { at, polls: 0 };
                PortAction::ReadStatus
            },
            Step::Send { port, value } => {
                self.phase = Phase::At(at + 1);
                PortAction::WritePort { port, value }
            },
            Step::Fetch => {
                self.phase = Phase::Fetching;
                PortAction::ReadData
            },
        }
    }

    /// Takes the byte that the last action has read, if it was one that reads, and says
    /// what to do next. The first call takes any byte.
    ///
    /// After a wait that was given up the status is read once more, to tell what it was.
    /// Where the controller does not fill its output buffer in time, the data port is read
    /// once more before the transfer fails: a byte that comes late must not be taken for
    /// the answer to the next request.
    pub fn advance(&mut self, input: u8) -> (r: PortAction)
        requires
            old(self).wf(),
        ensures
            (final(self).phase, r@) == old(self).next(input),
            *final(self) == old(self).after(input),
            final(self).wf(),
    {
        proof {
            law_transfer_stays_well_formed(*self, input);
        }
        match self.phase {
            Phase::At(at) => self.begin_step(at),
            Phase::Polling { at, polls } => {
                match script_step(self.access, self.register, at) {
                    Step::Await { mask, expected } => {
                        match ec_wait_status(polls, input, mask, expected) {
                            Wait::Ready => self.begin_step(at + 1),
                            Wait::Spin => {
                                self.phase = Phase::Resting { at, polls: polls + 1 };
                                PortAction::Spin
                            },
                            Wait::Sleep => {
                                self.phase = Phase::Resting { at, polls: polls + 1 };
                                PortAction::Sleep
                            },
                        }
                    },
                    _ => {
                        self.phase = Phase::Finished;
                        PortAction::Failed(EcError::Timeout(addr::EC_CMD))
                    },
                }
            },
            Phase::Resting { at, polls } => {
                if ec_wait_again(polls).is_ok() {
                    self.phase = Phase::Polling { at, polls };
                } else {
                    self.phase = Phase::Observing { at };
                }
                PortAction::ReadStatus
            },
            Phase::Observing { at } => {
                if script_step(self.access, self.register, at) == (Step::Await {
                    mask: OBF,
                    expected: OBF,
                }) {
                    self.phase = Phase::Draining;
                    PortAction::ReadData
                } else {
                    self.phase = Phase::Finished;
                    PortAction::Failed(EcError::Timeout(addr::EC_CMD))
                }
            },
            Phase::Fetching => {
                self.phase = Phase::Finished;
                PortAction::DoneRead(input)
            },
            Phase::Draining | Phase::Finished => {
                self.phase = Phase::Finished;
                PortAction::Failed(EcError::Timeout(addr::EC_CMD))
            },
        }
    }
}

// ── Starting transfers ──

/// The register that a 16-bit address stands for: addresses have eight bits.
pub open spec fn register_of(address: u16) -> Result<u8, EcErrorView> {
    if address <= 0xFF {
        Ok(address as u8)
    } else {
        Err(
            EcErrorView::InvalidData(
                "EC 寄存器地址 0x"@ + text::lower_hex_of_u16(address) + " 超出 8 位范围"@,
            ),
        )
    }
}

/// The register for an address. An address that does not fit is rejected: cut down to
/// eight bits it would be that of another register.
pub fn ec_addr_u8(address: u16) -> (r: Result<u8, EcError>)
    ensures
        result_view(r) == register_of(address),
{
    if address <= 0xFF {
        Ok(address as u8)
    } else {
        let mut message = text::copy_str("EC 寄存器地址 0x");
        text::push_lower_hex_of_u16(&mut message, address);
        message.append(" 超出 8 位范围");
        Err(EcError::InvalidData(message))
    }
}

/// A transfer that has not begun.
pub open spec fn fresh(access: Access, register: u8) -> Transfer {
    Transfer { access, register, phase: Phase::At(0) }
}

/// A transfer that reads the register at an address.
pub fn read_byte(address: u16) -> (r: Result<Transfer, EcError>)
    ensures
        match register_of(address) {
            Ok(register) => r == Ok::<Transfer, EcError>(fresh(Access::Read, register)),
            Err(e) => result_view(r) == Err::<Transfer, EcErrorView>(e),
        },
{
    match ec_addr_u8(address) {
        Ok(register) => Ok(Transfer { access: Access::Read, register, phase: Phase::At(0) }),
        Err(e) => Err(e),
    }
}

/// A transfer that writes a byte to the register at an address.
pub fn write_byte(address: u16, value: u8) -> (r: Result<Transfer, EcError>)
    ensures
        match register_of(address) {
            Ok(register) => r == Ok::<Transfer, EcError>(fresh(Access::Write(value), register)),
            Err(e) => result_view(r) == Err::<Transfer, EcErrorView>(e),
        },
{
    match ec_addr_u8(address) {
        Ok(register) => Ok(
            Transfer { access: Access::Write(value), register, phase: Phase::At(0) },
        ),
        Err(e) => Err(e),
    }
}

/// The attempts at an operation that is repeated once after a failure, and its result: one
/// attempt if that succeeds, else two, and the last one counts.
pub open spec fn retried<T>(results: Seq<Result<T, EcError>>, r: Result<T, EcError>) -> bool {
    ||| results == seq![r] && r is Ok
    ||| results.len() == 2 && results[0] is Err && results[1] == r
}

/// Does an operation, and does it a second time if it has failed. The controller may have
/// been busy for a moment; a second failure is reported as it is.
pub fn retry_transient<T, F: Fn() -> Result<T, EcError>>(op: &mut Attempts<T, F>) -> (r: Result<
    T,
    EcError,
>)
    requires
        call_requires(old(op).op(), ()),
    ensures
        exists|results: Seq<Result<T, EcError>>| #[trigger]
            attempted(*old(op), *final(op), results) && retried(results, r),
{
    let ghost a = *op;
    let first = op.run();
    let ghost b = *op;
    let ghost one = seq![first];
    assert(attempted(a, b, one));
    match first {
        Ok(v) => {
            assert(one =~= seq![Ok::<T, EcError>(v)]);
            Ok(v)
        },
        Err(_) => {
            let second = op.run();
            proof {
                lemma_attempted_then(a, b, *op, one, seq![second]);
                let both = one + seq![second];
                assert(attempted(a, *op, both));
            }
            second
        },
    }
}

// ── Registers ──

/// What the register of the charge limit stands for.
pub open spec fn limit_of_register(raw: u8) -> Result<u8, EcErrorView> {
    if is_garbage_limit(raw) {
        Err(
            EcErrorView::InvalidData(
                "充电上限寄存器值 0x"@ + text::lower_hex_of_byte(raw) + " 非法"@,
            ),
        )
    } else {
        Ok(raw)
    }
}

/// Battery care and charge limit by the register of the limit.
pub open spec fn state_of_register(raw: u8) -> Result<(bool, u8), EcErrorView> {
    match limit_of_register(raw) {
        Ok(limit) => Ok((care_of_limit(limit), limit)),
        Err(e) => Err(e),
    }
}

/// The charge limit that its register holds. A value that cannot be one is an error: it
/// must not pass for a setting.
pub fn charge_limit_from_register(raw: u8) -> (r: Result<u8, EcError>)
    ensures
        result_view(r) == limit_of_register(raw),
{
    if charge_limit_readback_is_invalid(raw) {
        let mut message = text::copy_str("充电上限寄存器值 0x");
        text::push_lower_hex_of_byte(&mut message, raw);
        message.append(" 非法");
        return Err(EcError::InvalidData(message));
    }
    Ok(raw)
}

/// Battery care and the charge limit from the register of the limit. Care follows from
/// the limit: its own register is not reliable.
pub fn battery_state_from_register(raw: u8) -> (r: Result<(bool, u8), EcError>)
    ensures
        result_view(r) == state_of_register(raw),
{
    match charge_limit_from_register(raw) {
        Ok(limit) => Ok((care_enabled_from_limit(limit), limit)),
        Err(e) => Err(e),
    }
}

/// The byte that turns battery care on or off.
pub open spec fn care_byte(enabled: bool) -> u8 {
    if enabled {
        0x01
    } else {
        0x00
    }
}

/// The transfer that reads the charge limit.
pub fn get_charge_limit() -> (r: Transfer)
    ensures
        r == fresh(Access::Read, addr::CHARGE_LIMIT as u8),
{
    Transfer { access: Access::Read, register: addr::CHARGE_LIMIT as u8, phase: Phase::At(0) }
}

/// The transfer that turns battery care on or off.
pub fn set_battery_care(enabled: bool) -> (r: Transfer)
    ensures
        r == fresh(Access::Write(care_byte(enabled)), addr::BATTERY_CARE as u8),
{
    let value: u8 = if enabled {
        0x01
    } else {
        0x00
    };
    Transfer {
        access: Access::Write(value),
        register: addr::BATTERY_CARE as u8,
        phase: Phase::At(0),
    }
}

/// The transfer that writes a charge limit, unless the limit cannot be written.
pub fn set_charge_limit(percent: u8) -> (r: Result<Transfer, EcError>)
    ensures
        match writable_limit(percent) {
            Ok(limit) => r == Ok::<Transfer, EcError>(
                fresh(Access::Write(limit), addr::CHARGE_LIMIT as u8),
            ),
            Err(e) => result_view(r) == Err::<Transfer, EcErrorView>(e),
        },
{
    match validate_charge_limit_write(percent) {
        Ok(limit) => Ok(
            Transfer {
                access: Access::Write(limit),
                register: addr::CHARGE_LIMIT as u8,
                phase: Phase::At(0),
            },
        ),
        Err(e) => Err(e),
    }
}

/// The transfer that reads the performance mode.
pub fn get_performance_mode() -> (r: Transfer)
    ensures
        r == fresh(Access::Read, addr::PERF_MODE as u8),
{
    Transfer { access: Access::Read, register: addr::PERF_MODE as u8, phase: Phase::At(0) }
}

/// The transfer that writes the code of a performance mode.
pub fn set_performance_mode(mode: u8) -> (r: Transfer)
    ensures
        r == fresh(Access::Write(mode), addr::PERF_MODE as u8),
{
    Transfer { access: Access::Write(mode), register: addr::PERF_MODE as u8, phase: Phase::At(0) }
}

// ── Loading the driver ──

/// How often the driver is started before it is given up.
pub const INIT_ATTEMPTS: u32 = 3;

/// What to do after an attempt to start the driver.
#[derive(Debug)]
pub enum InitStep {
    /// It runs.
    Started,
    /// Wait half a second and try again.
    Retry,
    /// Wait half a second and give up.
    GiveUp(EcError),
}

/// The error of a driver that does not start.
pub open spec fn init_error(last_error: u32) -> EcErrorView {
    EcErrorView::InitFailed("错误码: 0x"@ + text::hex(last_error as nat))
}

/// Decides after an attempt to start the driver, counted from zero. `last_error` is the
/// system error of the attempt. A driver that was just unpacked, or a service that is
/// still being removed, may take a moment.
pub fn after_init_attempt(attempt: u32, started: bool, last_error: u32) -> (r: InitStep)
    ensures
        match r {
            InitStep::Started => started,
            InitStep::Retry => !started && attempt + 1 < INIT_ATTEMPTS,
            InitStep::GiveUp(e) => !started && attempt + 1 >= INIT_ATTEMPTS && e@ == init_error(
                last_error,
            ),
        },
{
    if started {
        return InitStep::Started;
    }
    if attempt < INIT_ATTEMPTS - 1 {
        return InitStep::Retry;
    }
    let mut message = text::copy_str("错误码: 0x");
    text::push_hex(&mut message, last_error as u64);
    InitStep::GiveUp(EcError::InitFailed(message))
}

/// Whether a driver service that is left over from another run is removed before the
/// driver is started: not while this process has a backend, which uses that service.
pub fn removes_stale_service(live_backends: usize) -> (r: bool)
    ensures
        r == (live_backends == 0),
{
    live_backends == 0
}

/// How often it is looked whether a removed service is gone, a tenth of a second apart.
pub const SERVICE_POLLS: u32 = 30;

/// What to do after a look at a removed service.
#[derive(Debug, Clone, Copy, PartialEq, Eq, Structural)]
pub enum ServiceWait {
    /// It is gone.
    Gone,
    /// Look again.
    Again,
    /// It has stayed too long.
    Stays,
}

/// Decides after a look at a removed service, counted from zero. A service disappears
/// only some time after it was removed, and until then no other can have its name.
pub fn after_service_poll(poll: u32, still_there: bool) -> (r: ServiceWait)
    ensures
        r == if !still_there {
            ServiceWait::Gone
        } else if poll + 1 < SERVICE_POLLS {
            ServiceWait::Again
        } else {
            ServiceWait::Stays
        },
{
    if !still_there {
        ServiceWait::Gone
    } else if poll < SERVICE_POLLS - 1 {
        ServiceWait::Again
    } else {
        ServiceWait::Stays
    }
}

/// The error of a driver library that could not be unpacked.
pub fn extraction_error(dll_name: &str, reason: &str) -> (r: EcError)
    ensures
        r@ == EcErrorView::DllLoad(dll_name@ + " 提取失败: "@ + reason@),
{
    let mut message = text::copy_str(dll_name);
    message.append(" 提取失败: ");
    message.append(reason);
    EcError::DllLoad(message)
}

// ── Laws ──

/// A transfer that has not begun is well-formed, and stays so whatever is read.
pub proof fn law_transfer_stays_well_formed(t: Transfer, input: u8)
    requires
        t.wf(),
    ensures
        t.after(input).wf(),
        fresh(t.access, t.register).wf(),
{
}

/// A byte goes to the controller only right after a status that says that the input
/// buffer is empty.
pub proof fn law_bytes_are_sent_when_input_is_empty(t: Transfer, input: u8)
    requires
        t.wf(),
        t.next(input).1 is WritePort,
    ensures
        t.phase is Polling,
        input & IBF == 0,
{
}

/// The result of a read is the byte that was read from the data port right after a status
/// that says that the output buffer is full.
pub proof fn law_data_is_fetched_when_output_is_full(t: Transfer, input: u8)
    requires
        t.wf(),
    ensures
        t.next(input).0 == Phase::Fetching ==> t.phase is Polling && input & OBF == OBF,
        t.next(input).1 is DoneRead ==> t.phase == Phase::Fetching && t.next(input).1
            == PortActionView::DoneRead(input),
{
}

/// How many actions a transfer can still take, at most.
pub open spec fn steps_left(t: Transfer) -> int {
    let one_wait = 2 * MAX_POLLS as int + 8;
    match t.phase {
        Phase::At(at) => (t.steps().len() - at) * one_wait + 4,
        Phase::Polling { at, polls } => (t.steps().len() - at) * one_wait - 2 * polls + 1,
        Phase::Resting { at, polls } => (t.steps().len() - at) * one_wait - 2 * polls + 2,
        Phase::Observing { .. } => 3,
        Phase::Fetching => 2,
        Phase::Draining => 2,
        Phase::Finished => 0,
    }
}

/// A transfer ends: every action brings it nearer to its end, whatever is read.
pub proof fn law_transfer_ends(t: Transfer, input: u8)
    requires
        t.wf(),
        t.phase != Phase::Finished,
    ensures
        0 <= steps_left(t.after(input)) < steps_left(t),
{
    let n = t.steps().len() as int;
    let w = 2 * MAX_POLLS as int + 8;
    match t.phase {
        Phase::At(at) => {
            assert((n - at) * w == (n - at - 1) * w + w) by (nonlinear_arith);
            assert((n - at) * w >= 0 && (at < n ==> (n - at - 1) * w >= 0)) by (nonlinear_arith)
                requires
                    at <= n,
                    w > 0,
            ;
        },
        Phase::Polling { at, polls } => {
            assert((n - at) * w == (n - at - 1) * w + w) by (nonlinear_arith);
            assert((n - at - 1) * w == (n - at - 2) * w + w) by (nonlinear_arith);
            assert((n - at - 1) * w >= 0) by (nonlinear_arith)
                requires
                    at < n,
                    w > 0,
            ;
            assert(at + 1 < n ==> (n - at - 2) * w >= 0) by (nonlinear_arith)
                requires
                    w > 0,
            ;
        },
        Phase::Resting { at, polls } => {
            assert((n - at) * w == (n - at - 1) * w + w) by (nonlinear_arith);
            assert((n - at - 1) * w >= 0) by (nonlinear_arith)
                requires
                    at < n,
                    w > 0,
            ;
        },
        _ => {},
    }
}

/// A transfer fails only after a wait was given up, that is after a thousand readings of
/// the status and one more to tell what it was.
pub proof fn law_failure_is_a_timeout(t: Transfer, input: u8)
    requires
        t.wf(),
    ensures
        t.next(input).1 is Failed ==> {
            &&& t.next(input).1 == PortActionView::Failed(timeout_error())
            &&& t.phase is Finished || t.phase is Draining || t.phase is Observing
        },
        t.next(input).0 is Draining ==> t.phase is Observing,
        t.next(input).0 is Observing ==> (t.phase matches Phase::Resting { polls, .. } && polls
            == MAX_POLLS),
{
}

/// The transfer after a series of inputs.
pub open spec fn after_all(t: Transfer, inputs: Seq<u8>) -> Transfer
    decreases inputs.len(),
{
    if inputs.len() == 0 {
        t
    } else {
        after_all(t, inputs.drop_last()).after(inputs.last())
    }
}

/// The actions of a transfer for a series of inputs.
pub open spec fn actions(t: Transfer, inputs: Seq<u8>) -> Seq<PortActionView>
    decreases inputs.len(),
{
    if inputs.len() == 0 {
        Seq::empty()
    } else {
        actions(t, inputs.drop_last()).push(
            after_all(t, inputs.drop_last()).next(inputs.last()).1,
        )
    }
}

proof fn lemma_actions_push(t: Transfer, inputs: Seq<u8>, input: u8)
    ensures
        after_all(t, inputs.push(input)) == after_all(t, inputs).after(input),
        actions(t, inputs.push(input)) == actions(t, inputs).push(
            after_all(t, inputs).next(input).1,
        ),
{
    assert(inputs.push(input).drop_last() =~= inputs);
}

/// A read with a controller that is ready every time: the command, the register and the
/// data, each after one look at the status, and the data is the result.
pub proof fn law_read_of_a_ready_controller(register: u8, s1: u8, s2: u8, s3: u8, data: u8)
    requires
        s1 & IBF == 0,
        s2 & IBF == 0,
        s3 & OBF == OBF,
    ensures
        actions(fresh(Access::Read, register), seq![0u8, s1, 0u8, s2, 0u8, s3, data]) == seq![
            PortActionView::ReadStatus,
            PortActionView::WritePort { port: addr::EC_CMD, value: CMD_READ_EC },
            PortActionView::ReadStatus,
            PortActionView::WritePort { port: addr::EC_DATA, value: register },
            PortActionView::ReadStatus,
            PortActionView::ReadData,
            PortActionView::DoneRead(data),
        ],
{
    let t = fresh(Access::Read, register);
    let i0 = Seq::<u8>::empty();
    let i1 = i0.push(0);
    let i2 = i1.push(s1);
    let i3 = i2.push(0);
    let i4 = i3.push(s2);
    let i5 = i4.push(0);
    let i6 = i5.push(s3);
    let i7 = i6.push(data);
    lemma_actions_push(t, i0, 0);
    assert(after_all(t, i1).phase == Phase::Polling { at: 0, polls: 0 });
    lemma_actions_push(t, i1, s1);
    assert(after_all(t, i2).phase == Phase::At(2));
    lemma_actions_push(t, i2, 0);
    assert(after_all(t, i3).phase == Phase::Polling { at: 2, polls: 0 });
    lemma_actions_push(t, i3, s2);
    assert(after_all(t, i4).phase == Phase::At(4));
    lemma_actions_push(t, i4, 0);
    assert(after_all(t, i5).phase == Phase::Polling { at: 4, polls: 0 });
    lemma_actions_push(t, i5, s3);
    assert(after_all(t, i6).phase == Phase::Fetching);
    lemma_actions_push(t, i6, data);
    assert(seq![0u8, s1, 0u8, s2, 0u8, s3, data] =~= i7);
}

/// A write with a controller that is ready every time: the command, the register and the
/// byte, each after one look at the status, and a last look.
pub proof fn law_write_of_a_ready_controller(
    register: u8,
    value: u8,
    s1: u8,
    s2: u8,
    s3: u8,
    s4: u8,
)
    requires
        s1 & IBF == 0,
        s2 & IBF == 0,
        s3 & IBF == 0,
        s4 & IBF == 0,
    ensures
        actions(
            fresh(Access::Write(value), register),
            seq![0u8, s1, 0u8, s2, 0u8, s3, 0u8, s4],
        ) == seq![
            PortActionView::ReadStatus,
            PortActionView::WritePort { port: addr::EC_CMD, value: CMD_WRITE_EC },
            PortActionView::ReadStatus,
            PortActionView::WritePort { port: addr::EC_DATA, value: register },
            PortActionView::ReadStatus,
            PortActionView::WritePort { port: addr::EC_DATA, value },
            PortActionView::ReadStatus,
            PortActionView::DoneWrite,
        ],
{
    let t = fresh(Access::Write(value), register);
    let i0 = Seq::<u8>::empty();
    let i1 = i0.push(0);
    let i2 = i1.push(s1);
    let i3 = i2.push(0);
    let i4 = i3.push(s2);
    let i5 = i4.push(0);
    let i6 = i5.push(s3);
    let i7 = i6.push(0);
    let i8 = i7.push(s4);
    lemma_actions_push(t, i0, 0);
    assert(after_all(t, i1).phase == Phase::Polling { at: 0, polls: 0 });
    lemma_actions_push(t, i1, s1);
    assert(after_all(t, i2).phase == Phase::At(2));
    lemma_actions_push(t, i2, 0);
    assert(after_all(t, i3).phase == Phase::Polling { at: 2, polls: 0 });
    lemma_actions_push(t, i3, s2);
    assert(after_all(t, i4).phase == Phase::At(4));
    lemma_actions_push(t, i4, 0);
    assert(after_all(t, i5).phase == Phase::Polling { at: 4, polls: 0 });
    lemma_actions_push(t, i5, s3);
    assert(after_all(t, i6).phase == Phase::At(6));
    lemma_actions_push(t, i6, 0);
    assert(after_all(t, i7).phase == Phase::Polling { at: 6, polls: 0 });
    lemma_actions_push(t, i7, s4);
    assert(seq![0u8, s1, 0u8, s2, 0u8, s3, 0u8, s4] =~= i8);
}

/// The controller is ready exactly if the bits under the mask are as expected. If it is not,
/// the first hundred readings follow each other at once and the others after a sleep.
pub proof fn law_how_to_wait(poll: u32, status: u8, mask: u8, expected: u8, r: Wait)
    requires
        call_ensures(ec_wait_status, (poll, status, mask, expected), r),
    ensures
        r == Wait::Ready <==> status & mask == expected,
        status & mask != expected && poll <= 99 ==> r == Wait::Spin,
        status & mask != expected && poll >= 100 ==> r == Wait::Sleep,
{
}

/// The status is read again up to a thousand times, and then the wait fails with a timeout on
/// the command port.
pub proof fn law_waits_end(polls: u32, r: Result<(), EcError>)
    requires
        call_ensures(ec_wait_again, (polls,), r),
    ensures
        polls <= 999 ==> r is Ok,
        polls >= 1000 ==> (r matches Err(e) && e@ == EcErrorView::Timeout(0x66)),
{
}

/// The status that the wait at a step is for: that the output buffer is full before a byte is
/// fetched, and else that the input buffer is empty.
pub open spec fn is_ready_at(access: Access, at: int, status: u8) -> bool {
    if access == Access::Read && at == 4 {
        status & 0x01 == 0x01
    } else {
        status & 0x02 == 0
    }
}

/// One call of a transfer, by where it stands. At a wait the status is read. Where it is not
/// as it has to be there is a pause, and then it is read again, up to a thousand times. Where
/// it is, the next byte goes out or comes in: the command `80` or `81` to the port `66`, then
/// the register to the port `62`, then for a write the byte to the port `62`, and for a read
/// the byte from there.
pub proof fn law_transfer_by_phase(t: &mut Transfer, input: u8, r: PortAction)
    requires
        call_ensures(Transfer::advance, (t, input), r),
        old(t).wf(),
    ensures
        final(t).access == old(t).access,
        final(t).register == old(t).register,
        old(t).phase matches Phase::At(at) ==> {
            &&& r@ == PortActionView::ReadStatus
            &&& final(t).phase == Phase::Polling { at, polls: 0 }
        },
        old(t).phase matches Phase::Polling { at, polls } ==> {
            let access = old(t).access;
            &&& at == 0 || at == 2 || at == 4 || (at == 6 && access is Write)
            &&& !is_ready_at(access, at as int, input) ==> {
                &&& polls < 100 ==> r@ == PortActionView::Spin
                &&& polls >= 100 ==> r@ == PortActionView::Sleep
                &&& final(t).phase matches Phase::Resting { at: a, polls: p } && a == at && p
                    == polls + 1
            }
            &&& is_ready_at(access, at as int, input) && at == 0 ==> {
                &&& access == Access::Read ==> r@ == (PortActionView::WritePort {
                    port: 0x66,
                    value: 0x80,
                })
                &&& access is Write ==> r@ == (PortActionView::WritePort {
                    port: 0x66,
                    value: 0x81,
                })
                &&& final(t).phase == Phase::At(2)
            }
            &&& is_ready_at(access, at as int, input) && at == 2 ==> {
                &&& r@ == (PortActionView::WritePort { port: 0x62, value: old(t).register })
                &&& final(t).phase == Phase::At(4)
            }
            &&& is_ready_at(access, at as int, input) && at == 4 ==> {
                &&& access == Access::Read ==> r@ == PortActionView::ReadData && final(t).phase
                    == Phase::Fetching
                &&& access matches Access::Write(value) ==> r@ == (PortActionView::WritePort {
                    port: 0x62,
                    value,
                }) && final(t).phase == Phase::At(6)
            }
            &&& is_ready_at(access, at as int, input) && at == 6 ==> {
                &&& r@ == PortActionView::DoneWrite
                &&& final(t).phase == Phase::Finished
            }
        },
        old(t).phase matches Phase::Resting { at, polls } ==> {
            &&& r@ == PortActionView::ReadStatus
            &&& polls < 1000 ==> final(t).phase == (Phase::Polling { at, polls })
            &&& polls >= 1000 ==> final(t).phase == (Phase::Observing { at })
        },
        old(t).phase matches Phase::Observing { at } ==> {
            &&& old(t).access == Access::Read && at == 4 ==> r@ == PortActionView::ReadData
                && final(t).phase == Phase::Draining
            &&& !(old(t).access == Access::Read && at == 4) ==> r@ == PortActionView::Failed(
                EcErrorView::Timeout(0x66),
            ) && final(t).phase == Phase::Finished
        },
        old(t).phase == Phase::Fetching ==> r@ == PortActionView::DoneRead(input) && final(t).phase
            == Phase::Finished,
        old(t).phase == Phase::Draining || old(t).phase == Phase::Finished ==> r@
            == PortActionView::Failed(EcErrorView::Timeout(0x66)) && final(t).phase
            == Phase::Finished,
{
}

/// A transfer starts at its first step with the register that the address names. An address
/// names a register exactly if it has eight bits, and else it is rejected and shown with its
/// four digits.
pub proof fn law_addresses_have_eight_bits(
    address: u16,
    value: u8,
    read: Result<Transfer, EcError>,
    write: Result<Transfer, EcError>,
)
    requires
        call_ensures(read_byte, (address,), read),
        call_ensures(write_byte, (address, value), write),
    ensures
        address <= 0xFF ==> (read matches Ok(t) && t.access == Access::Read && t.register
            == address && t.phase == Phase::At(0)),
        address <= 0xFF ==> (write matches Ok(t) && t.access == Access::Write(value) && t.register
            == address && t.phase == Phase::At(0)),
        address > 0xFF ==> (read matches Err(e) && e@ == EcErrorView::InvalidData(
            "EC 寄存器地址 0x"@ + text::lower_hex_of_u16(address) + " 超出 8 位范围"@,
        )),
        address > 0xFF ==> (write matches Err(e) && e@ == EcErrorView::InvalidData(
            "EC 寄存器地址 0x"@ + text::lower_hex_of_u16(address) + " 超出 8 位范围"@,
        )),
{
}

/// The registers of the settings. The limit is read from and written to `A7`, cut to 100% and
/// never 0%; care is written to `A4` as one or zero; the mode is read from and written to
/// `68`.
pub proof fn law_registers_of_the_settings(
    enabled: bool,
    percent: u8,
    mode: u8,
    get_limit: Transfer,
    set_care: Transfer,
    set_limit: Result<Transfer, EcError>,
    get_mode: Transfer,
    set_mode: Transfer,
)
    requires
        call_ensures(get_charge_limit, (), get_limit),
        call_ensures(set_battery_care, (enabled,), set_care),
        call_ensures(set_charge_limit, (percent,), set_limit),
        call_ensures(get_performance_mode, (), get_mode),
        call_ensures(set_performance_mode, (mode,), set_mode),
    ensures
        get_limit == (Transfer { access: Access::Read, register: 0xA7, phase: Phase::At(0) }),
        enabled ==> set_care == (Transfer {
            access: Access::Write(0x01),
            register: 0xA4,
            phase: Phase::At(0),
        }),
        !enabled ==> set_care == (Transfer {
            access: Access::Write(0x00),
            register: 0xA4,
            phase: Phase::At(0),
        }),
        1 <= percent <= 100 ==> set_limit == Ok::<Transfer, EcError>(
            Transfer { access: Access::Write(percent), register: 0xA7, phase: Phase::At(0) },
        ),
        percent > 100 ==> set_limit == Ok::<Transfer, EcError>(
            Transfer { access: Access::Write(100), register: 0xA7, phase: Phase::At(0) },
        ),
        percent == 0 ==> set_limit is Err,
        get_mode == (Transfer { access: Access::Read, register: 0x68, phase: Phase::At(0) }),
        set_mode == (Transfer { access: Access::Write(mode), register: 0x68, phase: Phase::At(0) }),
{
}

/// The register of the limit counts exactly from 1% to 100%, and then care is on exactly below
/// 100%; any other value is an error that shows it.
pub proof fn law_register_of_the_limit(
    raw: u8,
    limit: Result<u8, EcError>,
    state: Result<(bool, u8), EcError>,
)
    requires
        call_ensures(charge_limit_from_register, (raw,), limit),
        call_ensures(battery_state_from_register, (raw,), state),
    ensures
        1 <= raw <= 100 ==> limit == Ok::<u8, EcError>(raw),
        1 <= raw <= 100 ==> state == Ok::<(bool, u8), EcError>((raw < 100, raw)),
        !(1 <= raw <= 100) ==> (limit matches Err(e) && e@ == EcErrorView::InvalidData(
            "充电上限寄存器值 0x"@ + text::lower_hex_of_byte(raw) + " 非法"@,
        )),
        !(1 <= raw <= 100) ==> (state matches Err(e) && e@ == EcErrorView::InvalidData(
            "充电上限寄存器值 0x"@ + text::lower_hex_of_byte(raw) + " 非法"@,
        )),
{
}

/// An operation is run a second time exactly after a failure, and never a third time: the
/// result is that of the last run.
pub proof fn law_second_try_after_a_failure<T, F: Fn() -> Result<T, EcError>>(
    op: &mut Attempts<T, F>,
    r: Result<T, EcError>,
)
    requires
        call_ensures(retry_transient::<T, F>, (op,), r),
    ensures
        ({
            let n = old(op).log().len() as int;
            let log = final(op).log();
            &&& log.take(n) == old(op).log()
            &&& log.len() == n + 1 || log.len() == n + 2
            &&& log.last() == r
            &&& log.len() == n + 1 <==> log[n] is Ok
            &&& call_ensures(old(op).op(), (), r)
        }),
{
    let before = *old(op);
    let after = *final(op);
    let results = choose|results: Seq<Result<T, EcError>>| #[trigger]
        attempted(before, after, results) && retried(results, r);
    assert(after.log().take(before.log().len() as int) =~= before.log());
    assert(results[results.len() - 1] == r);
}

/// The driver is started anew after the first two failures, and after the third it is given up
/// with the last error code.
pub proof fn law_attempts_to_start_the_driver(
    attempt: u32,
    started: bool,
    last_error: u32,
    r: InitStep,
)
    requires
        call_ensures(after_init_attempt, (attempt, started, last_error), r),
    ensures
        started ==> r is Started,
        !started && attempt <= 1 ==> r is Retry,
        !started && attempt >= 2 ==> (r matches InitStep::GiveUp(e) && e@
            == EcErrorView::InitFailed("错误码: 0x"@ + text::hex(last_error as nat))),
{
}

/// A service that is left over is removed exactly if this process has no backend.
pub proof fn law_service_in_use_stays(live_backends: usize, r: bool)
    requires
        call_ensures(removes_stale_service, (live_backends,), r),
    ensures
        r <==> live_backends == 0,
{
}

/// A removed service is looked for thirty times, and then it has stayed too long.
pub proof fn law_looks_at_a_removed_service(poll: u32, still_there: bool, r: ServiceWait)
    requires
        call_ensures(after_service_poll, (poll, still_there), r),
    ensures
        !still_there ==> r == ServiceWait::Gone,
        still_there && poll <= 28 ==> r == ServiceWait::Again,
        still_there && poll >= 29 ==> r == ServiceWait::Stays,
{
}

/// The error of a library that could not be unpacked names it and the reason.
pub proof fn law_extraction_error_names_the_library(dll_name: &str, reason: &str, r: EcError)
    requires
        call_ensures(extraction_error, (dll_name, reason), r),
    ensures
        r@ == EcErrorView::DllLoad(dll_name@ + " 提取失败: "@ + reason@),
{
}

/// The view of an action keeps its kind and what it carries.
pub proof fn law_views_of_actions(a: PortAction)
    ensures
        a is ReadStatus <==> a@ == PortActionView::ReadStatus,
        a is ReadData <==> a@ == PortActionView::ReadData,
        a is Spin <==> a@ == PortActionView::Spin,
        a is Sleep <==> a@ == PortActionView::Sleep,
        a is DoneWrite <==> a@ == PortActionView::DoneWrite,
        a matches PortAction::WritePort { port, value } ==> a@ == (PortActionView::WritePort {
            port,
            value,
        }),
        a matches PortAction::DoneRead(b) ==> a@ == PortActionView::DoneRead(b),
        a matches PortAction::Failed(e) ==> a@ == PortActionView::Failed(e@),
{
}

/// An address names a register exactly if it has eight bits.
pub proof fn law_register_of_an_address(address: u16, r: Result<u8, EcError>)
    requires
        call_ensures(ec_addr_u8, (address,), r),
    ensures
        address <= 0xFF ==> (r matches Ok(register) && register == address),
        address > 0xFF ==> r is Err,
{
}

} // verus!
