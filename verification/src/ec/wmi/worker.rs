//! The worker of the WMI backend: how it starts, what a command needs, which instance and
//! which parameters it uses, and what an answer of the firmware means.

use crate::app::battery::{
    care_enabled_from_limit, care_of_limit, validate_charge_limit_write, writable_limit,
};
use crate::app::ec::{result_view, EcError, EcErrorView};
use crate::app::startup::text_view;
use crate::ec::wmi::protocol::{
    code_of_percent, command_bytes, escape_instance_name, escaped, first_target, is_target,
    law_code_percent_inverse, law_nearest_is_preset, nearest_preset, percent_of_code,
    read_battery_cmd, read_perf_cmd, select_target_instance, target_index, wmi_rawcode_for_percent,
    wmi_rawcode_to_percent, write_battery_cmd, write_perf_cmd, Instance, CMD_BUF_LEN, CMD_READ,
    CMD_WRITE, FUN2_BATTERY, FUN2_PERF, MAX_SCHEMA_PROPERTY_NAMES, MIN_OUTPUT_LEN,
    WMI_STATUS_SUCCESS,
};
use crate::text;
use vstd::prelude::*;

verus! {

// ── Starting up ──

/// How often the worker tries to connect.
pub const CONNECT_ATTEMPTS: u32 = 4;

/// How long it waits between two attempts, in milliseconds.
pub const CONNECT_RETRY_DELAY_MS: u64 = 2000;

/// How long the start of the worker may take, in milliseconds.
pub const HANDSHAKE_TIMEOUT_MS: u64 = 10_000;

/// How long the worker waits for the result of a call, in milliseconds.
pub const GET_RESULT_TIMEOUT_MS: i32 = 3000;

/// The attempts to connect are over well before the start times out: the waits between
/// them take less than four fifths of the time.
pub proof fn law_connecting_fits_the_handshake()
    ensures
        CONNECT_ATTEMPTS >= 2,
        (CONNECT_ATTEMPTS - 1) * CONNECT_RETRY_DELAY_MS * 10 < HANDSHAKE_TIMEOUT_MS * 8,
{
}

/// What to do after an attempt to connect.
#[derive(Debug)]
pub enum ConnectStep {
    /// It is connected.
    Connected,
    /// Wait and try again.
    Retry,
    /// Give up, with the last error.
    GiveUp(EcError),
}

/// Decides after an attempt to connect, counted from one. After a boot the service or the
/// provider may not be ready yet, so every error is worth another attempt.
pub fn after_connect_attempt(attempt: u32, result: Result<(), EcError>) -> (r: ConnectStep)
    ensures
        match result {
            Ok(_) => r == ConnectStep::Connected,
            Err(e) => r == if attempt < CONNECT_ATTEMPTS {
                ConnectStep::Retry
            } else {
                ConnectStep::GiveUp(e)
            },
        },
{
    match result {
        Ok(_) => ConnectStep::Connected,
        Err(e) => {
            if attempt < CONNECT_ATTEMPTS {
                ConnectStep::Retry
            } else {
                ConnectStep::GiveUp(e)
            }
        },
    }
}

/// `RPC_E_CHANGED_MODE`: the thread has COM in another mode.
pub const RPC_E_CHANGED_MODE: u32 = 0x8001_0106;

/// The outcome of initialising COM on the thread of the worker.
pub open spec fn com_outcome(hr: u32, description: Seq<char>) -> Result<(), EcErrorView> {
    if hr == 0 || hr == 1 {
        Ok(())
    } else if hr == RPC_E_CHANGED_MODE {
        Err(
            EcErrorView::WmiConnect(
                "COM already initialized with a different mode on this thread (need MTA, hr=0x"@
                    + text::hex_of_u32(hr) + ")"@,
            ),
        )
    } else {
        Err(EcErrorView::WmiConnect("COM init: "@ + description))
    }
}

/// The outcome of initialising COM, by the `HRESULT` and its description. That it was
/// initialised before is no error, unless it was in another mode.
pub fn ensure_com(hr: u32, description: &str) -> (r: Result<(), EcError>)
    ensures
        result_view(r) == com_outcome(hr, description@),
{
    if hr == 0 || hr == 1 {
        return Ok(());
    }
    if hr == RPC_E_CHANGED_MODE {
        let mut message = text::copy_str(
            "COM already initialized with a different mode on this thread (need MTA, hr=0x",
        );
        text::push_hex_of_u32(&mut message, hr);
        message.append(")");
        return Err(EcError::WmiConnect(message));
    }
    let mut message = text::copy_str("COM init: ");
    message.append(description);
    Err(EcError::WmiConnect(message))
}

// ── Commands and replies ──

/// A command to the worker.
#[derive(Debug, Clone, Copy, PartialEq, Eq, Structural)]
pub enum WmiCmd {
    /// Read care and limit.
    GetBatteryState,
    /// Turn care on or off.
    SetBatteryCare(bool),
    /// Write the limit in percent.
    SetChargeLimit(u8),
    /// Read the code of the performance mode.
    GetPerfMode,
    /// Write the code of the performance mode.
    SetPerfMode(u8),
    /// Stop.
    Quit,
}

impl WmiCmd {
    /// The name of the command, for the log.
    pub fn name(&self) -> (r: &'static str)
        ensures
            r@ == match *self {
                WmiCmd::GetBatteryState => "GetBatteryState"@,
                WmiCmd::SetBatteryCare(_) => "SetBatteryCare"@,
                WmiCmd::SetChargeLimit(_) => "SetChargeLimit"@,
                WmiCmd::GetPerfMode => "GetPerfMode"@,
                WmiCmd::SetPerfMode(_) => "SetPerfMode"@,
                WmiCmd::Quit => "Quit"@,
            },
    {
        match self {
            WmiCmd::GetBatteryState => "GetBatteryState",
            WmiCmd::SetBatteryCare(_) => "SetBatteryCare",
            WmiCmd::SetChargeLimit(_) => "SetChargeLimit",
            WmiCmd::GetPerfMode => "GetPerfMode",
            WmiCmd::SetPerfMode(_) => "SetPerfMode",
            WmiCmd::Quit => "Quit",
        }
    }
}

/// The answer of the worker.
#[derive(Debug)]
pub enum WmiReply {
    /// To a write.
    Unit(Result<(), EcError>),
    /// To a reading of care and limit.
    BatteryState(Result<(bool, u8), EcError>),
    /// To a reading of the performance mode.
    PerfMode(Result<u8, EcError>),
}

/// A reply with its error as a view.
pub enum WmiReplyView {
    Unit(Result<(), EcErrorView>),
    BatteryState(Result<(bool, u8), EcErrorView>),
    PerfMode(Result<u8, EcErrorView>),
}

impl View for WmiReply {
    type V = WmiReplyView;

    open spec fn view(&self) -> WmiReplyView {
        match self {
            WmiReply::Unit(r) => WmiReplyView::Unit(result_view(*r)),
            WmiReply::BatteryState(r) => WmiReplyView::BatteryState(result_view(*r)),
            WmiReply::PerfMode(r) => WmiReplyView::PerfMode(result_view(*r)),
        }
    }
}

/// What a command needs.
#[derive(Debug)]
pub enum Request {
    /// Nothing: the worker stops.
    Stop,
    /// Nothing: this is the answer.
    Answer(WmiReply),
    /// A call with this command buffer.
    Call([u8; 32]),
}

/// What a command needs, by its bytes and views.
pub enum RequestView {
    Stop,
    Answer(WmiReplyView),
    Call(Seq<u8>),
}

impl View for Request {
    type V = RequestView;

    open spec fn view(&self) -> RequestView {
        match self {
            Request::Stop => RequestView::Stop,
            Request::Answer(reply) => RequestView::Answer(reply@),
            Request::Call(buffer) => RequestView::Call(buffer@),
        }
    }
}

/// What a command needs: a call with its buffer; but care is no setting of the firmware,
/// and a limit that cannot be written is answered with its error.
pub open spec fn request_of(cmd: WmiCmd) -> RequestView {
    match cmd {
        WmiCmd::GetBatteryState => RequestView::Call(
            command_bytes(CMD_READ, FUN2_BATTERY, 0x0002, 0),
        ),
        WmiCmd::SetBatteryCare(_) => RequestView::Answer(WmiReplyView::Unit(Ok(()))),
        WmiCmd::SetChargeLimit(percent) => match writable_limit(percent) {
            Ok(limit) => RequestView::Call(
                command_bytes(
                    CMD_WRITE,
                    FUN2_BATTERY,
                    0x0002,
                    code_of_percent(nearest_preset(limit))->0 as u32,
                ),
            ),
            Err(e) => RequestView::Answer(WmiReplyView::Unit(Err(e))),
        },
        WmiCmd::GetPerfMode => RequestView::Call(command_bytes(CMD_READ, FUN2_PERF, 0x0000, 0)),
        WmiCmd::SetPerfMode(mode) => RequestView::Call(
            command_bytes(CMD_WRITE, FUN2_PERF, mode as u16, 0),
        ),
        WmiCmd::Quit => RequestView::Stop,
    }
}

/// What a command needs.
///
/// The firmware has no care bit of its own: care is on exactly while the limit is below
/// 100%. Setting care therefore succeeds without a call.
pub fn request_for(cmd: WmiCmd) -> (r: Request)
    ensures
        r@ == request_of(cmd),
{
    match cmd {
        WmiCmd::GetBatteryState => Request::Call(read_battery_cmd()),
        WmiCmd::SetBatteryCare(_) => Request::Answer(WmiReply::Unit(Ok(()))),
        WmiCmd::SetChargeLimit(percent) => match validate_charge_limit_write(percent) {
            Ok(limit) => {
                let raw: u8 = wmi_rawcode_for_percent(limit).unwrap();
                Request::Call(write_battery_cmd(raw))
            },
            Err(e) => Request::Answer(WmiReply::Unit(Err(e))),
        },
        WmiCmd::GetPerfMode => Request::Call(read_perf_cmd()),
        WmiCmd::SetPerfMode(mode) => Request::Call(write_perf_cmd(mode)),
        WmiCmd::Quit => Request::Stop,
    }
}

/// Where an answer holds the code of the charge limit.
pub const LIMIT_CODE_AT: usize = 6;

/// Where an answer holds the code of the performance mode.
pub const MODE_CODE_AT: usize = 4;

/// Care and limit by a code: an unknown code is an error and not a full charge.
pub open spec fn battery_state_of_code(code: u8) -> Result<(bool, u8), EcErrorView> {
    match percent_of_code(code) {
        Some(percent) => Ok((care_of_limit(percent), percent)),
        None => Err(
            EcErrorView::InvalidData(
                "WMI 充电上限 raw code 0x"@ + text::lower_hex_of_byte(code) + " 未定义"@,
            ),
        ),
    }
}

/// Care and limit by the code in an answer.
pub fn battery_state_from_code(code: u8) -> (r: Result<(bool, u8), EcError>)
    ensures
        result_view(r) == battery_state_of_code(code),
{
    match wmi_rawcode_to_percent(code) {
        Some(percent) => Ok((care_enabled_from_limit(percent), percent)),
        None => {
            let mut message = text::copy_str("WMI 充电上限 raw code 0x");
            text::push_lower_hex_of_byte(&mut message, code);
            message.append(" 未定义");
            Err(EcError::InvalidData(message))
        },
    }
}

/// The reply to a command after its call.
pub open spec fn reply_of(cmd: WmiCmd, result: Result<Seq<u8>, EcErrorView>) -> WmiReplyView {
    match cmd {
        WmiCmd::GetBatteryState => WmiReplyView::BatteryState(
            match result {
                Ok(b) => battery_state_of_code(b[LIMIT_CODE_AT as int]),
                Err(e) => Err(e),
            },
        ),
        WmiCmd::GetPerfMode => WmiReplyView::PerfMode(
            match result {
                Ok(b) => Ok(b[MODE_CODE_AT as int]),
                Err(e) => Err(e),
            },
        ),
        _ => WmiReplyView::Unit(
            match result {
                Ok(_) => Ok(()),
                Err(e) => Err(e),
            },
        ),
    }
}

/// The result of a call, with the answer as a sequence and the error as a view.
pub open spec fn call_view(result: Result<[u8; 32], EcError>) -> Result<Seq<u8>, EcErrorView> {
    match result {
        Ok(b) => Ok(b@),
        Err(e) => Err(e@),
    }
}

/// The reply to a command after its call.
pub fn reply_for(cmd: WmiCmd, result: Result<[u8; 32], EcError>) -> (r: WmiReply)
    ensures
        r@ == reply_of(cmd, call_view(result)),
{
    match cmd {
        WmiCmd::GetBatteryState => WmiReply::BatteryState(
            match result {
                Ok(b) => battery_state_from_code(b[LIMIT_CODE_AT]),
                Err(e) => Err(e),
            },
        ),
        WmiCmd::GetPerfMode => WmiReply::PerfMode(
            match result {
                Ok(b) => Ok(b[MODE_CODE_AT]),
                Err(e) => Err(e),
            },
        ),
        _ => WmiReply::Unit(
            match result {
                Ok(_) => Ok(()),
                Err(e) => Err(e),
            },
        ),
    }
}

/// If an answer holds the code that the command wrote, at the same place, then the limit
/// read is the nearest one that the firmware has to the one written, and care is on if that
/// is below the full charge.
pub proof fn law_written_limit_reads_back(percent: u8, answer: Seq<u8>)
    requires
        percent > 0,
        request_of(WmiCmd::SetChargeLimit(percent)) matches RequestView::Call(command)
            && answer[LIMIT_CODE_AT as int] == command[LIMIT_CODE_AT as int],
    ensures
        ({
            let limit = nearest_preset(
                if percent > 100 {
                    100
                } else {
                    percent
                },
            );
            reply_of(WmiCmd::GetBatteryState, Ok(answer)) == WmiReplyView::BatteryState(
                Ok((limit < 100, limit)),
            )
        }),
{
    let capped: u8 = if percent > 100 {
        100
    } else {
        percent
    };
    law_nearest_is_preset(capped);
    let limit = nearest_preset(capped);
    let code = code_of_percent(limit)->0;
    law_code_percent_inverse(limit);
    assert(command_bytes(CMD_WRITE, FUN2_BATTERY, 0x0002, code as u32)[6] == code);
}

/// If an answer holds the code that the command wrote, at the same place, then the
/// performance mode read is the one written.
pub proof fn law_written_mode_reads_back(mode: u8, answer: Seq<u8>)
    requires
        request_of(WmiCmd::SetPerfMode(mode)) matches RequestView::Call(command)
            && answer[MODE_CODE_AT as int] == command[MODE_CODE_AT as int],
    ensures
        reply_of(WmiCmd::GetPerfMode, Ok(answer)) == WmiReplyView::PerfMode(Ok(mode)),
{
    assert(command_bytes(CMD_WRITE, FUN2_PERF, mode as u16, 0)[4] == mode);
}

// ── Answers of the firmware ──

/// The first two bytes of an answer as a word.
pub open spec fn status_of(answer: Seq<u8>) -> u16 {
    (answer[0] + 256 * answer[1]) as u16
}

/// An answer cut or filled up with zeros to the length of a buffer.
pub open spec fn as_buffer(answer: Seq<u8>) -> Seq<u8> {
    Seq::new(
        CMD_BUF_LEN as nat,
        |i: int|
            if i < answer.len() {
                answer[i]
            } else {
                0u8
            },
    )
}

/// What an answer of the firmware means: its fields, if they are all there and the status
/// is that of success.
pub open spec fn answer_of(answer: Seq<u8>) -> Result<Seq<u8>, EcErrorView> {
    if answer.len() < MIN_OUTPUT_LEN {
        Err(EcErrorView::WmiCallFailed(0))
    } else if status_of(answer) != WMI_STATUS_SUCCESS {
        Err(EcErrorView::WmiCallFailed(status_of(answer)))
    } else {
        Ok(as_buffer(answer))
    }
}

/// Reads an answer of the firmware. It needs to have its eighteen bytes of fields; what
/// goes beyond a buffer is left out.
pub fn parse_answer(answer: &Vec<u8>) -> (r: Result<[u8; 32], EcError>)
    ensures
        call_view(r) == answer_of(answer@),
{
    if answer.len() < MIN_OUTPUT_LEN {
        return Err(EcError::WmiCallFailed(0));
    }
    let mut buffer: [u8; 32] = [0; 32];
    let mut i: usize = 0;
    while i < CMD_BUF_LEN && i < answer.len()
        invariant
            i <= CMD_BUF_LEN,
            i <= answer@.len(),
            forall|k: int| 0 <= k < i ==> buffer@[k] == answer@[k],
            forall|k: int| i <= k < CMD_BUF_LEN ==> buffer@[k] == 0,
        decreases CMD_BUF_LEN - i,
    {
        buffer[i] = answer[i];
        i = i + 1;
    }
    assert(buffer@ =~= as_buffer(answer@));
    let status: u16 = buffer[0] as u16 + 256 * buffer[1] as u16;
    if status != WMI_STATUS_SUCCESS {
        return Err(EcError::WmiCallFailed(status));
    }
    Ok(buffer)
}

// ── The parameter of the method ──

/// A property that is no parameter: one of the system, or the return value.
pub open spec fn is_reserved_property(name: Seq<char>) -> bool {
    ||| "__"@.is_prefix_of(name)
    ||| text::same_ignoring_case(name, "ReturnValue"@)
    ||| text::same_ignoring_case(name, "ReturnCode"@)
}

/// The first parameter among the first `n` properties, or the usual name.
pub open spec fn first_parameter(names: Seq<String>, from: int, n: int, usual: Seq<char>) -> Seq<
    char,
>
    decreases n - from,
{
    if from < 0 || from >= n {
        usual
    } else if is_reserved_property(names[from]@) {
        first_parameter(names, from + 1, n, usual)
    } else {
        names[from]@
    }
}

/// How many properties of a schema are looked at.
pub open spec fn names_looked_at(names: Seq<String>) -> int {
    if names.len() < MAX_SCHEMA_PROPERTY_NAMES {
        names.len() as int
    } else {
        MAX_SCHEMA_PROPERTY_NAMES as int
    }
}

/// The name of the parameter in a schema, or the usual name if the schema could not be
/// read or has none.
pub open spec fn parameter_of(names: Option<Seq<String>>, usual: Seq<char>) -> Seq<char> {
    match names {
        Some(names) => first_parameter(names, 0, names_looked_at(names), usual),
        None => usual,
    }
}

/// A list of names that may be missing.
pub open spec fn names_view(names: Option<Vec<String>>) -> Option<Seq<String>> {
    match names {
        Some(names) => Some(names@),
        None => None,
    }
}

/// Whether a property is no parameter.
fn is_reserved(name: &str) -> (r: bool)
    ensures
        r == is_reserved_property(name@),
{
    text::starts_with(name, "__") || text::eq_ignore_case(name, "ReturnValue")
        || text::eq_ignore_case(name, "ReturnCode")
}

/// The name of the parameter in a schema.
///
/// Firmware revisions name it differently, so it is looked up: the first property that
/// belongs neither to the system nor to the return value. Where the schema could not be
/// read, or has no such property, it is the usual name.
pub fn param_name_from_schema(names: &Option<Vec<String>>, usual: &str) -> (r: String)
    ensures
        r@ == parameter_of(names_view(*names), usual@),
{
    match names {
        None => text::copy_str(usual),
        Some(names) => {
            let n: usize = if names.len() < MAX_SCHEMA_PROPERTY_NAMES {
                names.len()
            } else {
                MAX_SCHEMA_PROPERTY_NAMES
            };
            first_param(names, n, usual)
        },
    }
}

/// The first parameter among the first `n` properties, or the usual name.
fn first_param(names: &Vec<String>, n: usize, usual: &str) -> (r: String)
    requires
        n <= names@.len(),
    ensures
        r@ == first_parameter(names@, 0, n as int, usual@),
{
    let mut i: usize = 0;
    while i < n
        invariant
            i <= n <= names@.len(),
            first_parameter(names@, 0, n as int, usual@) == first_parameter(
                names@,
                i as int,
                n as int,
                usual@,
            ),
        decreases n - i,
    {
        if !is_reserved(names[i].as_str()) {
            return names[i].clone();
        }
        i = i + 1;
    }
    text::copy_str(usual)
}

// ── The target ──

/// What is known of an instance: its name and whether it is active, as far as they could
/// be read.
pub struct RawInstance {
    /// The name.
    pub name: Option<String>,
    /// Whether it is active.
    pub active: Option<bool>,
}

/// The mark in the name of the instance of the firmware.
pub open spec fn is_marked(name: Seq<char>) -> bool {
    text::occurs_in("MIFS"@, text::uppercased(name))
}

/// The usable ones among instances: those with a name; one that does not say that it is
/// active is not.
pub open spec fn usable_instances(raw: Seq<RawInstance>) -> Seq<(Seq<char>, bool, bool)>
    decreases raw.len(),
{
    if raw.len() == 0 {
        Seq::empty()
    } else {
        let front = usable_instances(raw.drop_last());
        match raw.last().name {
            Some(name) => front.push((name@, raw.last().active == Some(true), is_marked(name@))),
            None => front,
        }
    }
}

/// An instance by the characters of its name.
pub open spec fn instance_view(i: Instance) -> (Seq<char>, bool, bool) {
    (i.0@, i.1, i.2)
}

/// The usable ones among instances.
fn collect_instances(raw: &Vec<RawInstance>) -> (r: Vec<Instance>)
    ensures
        r@.map_values(|i: Instance| instance_view(i)) == usable_instances(raw@),
{
    let mut out: Vec<Instance> = Vec::new();
    let mut i: usize = 0;
    assert(raw@.take(0) =~= Seq::<RawInstance>::empty());
    assert(out@.map_values(|i: Instance| instance_view(i)) =~= usable_instances(raw@.take(0)));
    while i < raw.len()
        invariant
            i <= raw@.len(),
            out@.map_values(|i: Instance| instance_view(i)) == usable_instances(raw@.take(i as int)),
        decreases raw@.len() - i,
    {
        let ghost before = out@;
        assert(raw@.take(i + 1).drop_last() =~= raw@.take(i as int));
        if let Some(name) = &raw[i].name {
            let active = match raw[i].active {
                Some(a) => a,
                None => false,
            };
            let upper = text::to_uppercase(name.as_str());
            let marked = text::contains(upper.as_str(), "MIFS");
            out.push((name.clone(), active, marked));
            assert(out@.map_values(|i: Instance| instance_view(i)) =~= before.map_values(
                |i: Instance| instance_view(i),
            ).push((name@, active, marked)));
        }
        i = i + 1;
    }
    assert(raw@.take(raw@.len() as int) =~= raw@);
    out
}

/// The index of the first usable instance that is active and marked, else the first one.
pub open spec fn preferred(instances: Seq<(Seq<char>, bool, bool)>, from: int) -> int
    decreases instances.len() - from,
{
    if from < 0 || from >= instances.len() {
        0
    } else if instances[from].1 && instances[from].2 {
        from
    } else {
        preferred(instances, from + 1)
    }
}

/// The object path of an instance.
pub open spec fn path_of(name: Seq<char>) -> Seq<char> {
    "MICommonInterface.InstanceName=\""@ + escaped(name) + "\""@
}

/// The target among instances: the path of the preferred one, if there is any.
pub open spec fn target_of(raw: Seq<RawInstance>) -> Option<Seq<char>> {
    let usable = usable_instances(raw);
    if usable.len() == 0 {
        None
    } else {
        Some(path_of(usable[preferred(usable, 0)].0))
    }
}

proof fn lemma_preferred_is_target(instances: Seq<Instance>, from: int)
    requires
        0 <= from <= instances.len(),
        forall|k: int|
            0 <= k < from ==> !is_target(#[trigger] instances[k]),
    ensures
        preferred(instances.map_values(|i: Instance| instance_view(i)), from) == target_index(
            instances,
        ),
    decreases instances.len() - from,
{
    let views = instances.map_values(|i: Instance| instance_view(i));
    if from < instances.len() {
        if is_target(instances[from]) {
            lemma_first_target(instances, 0, from);
        } else {
            lemma_preferred_is_target(instances, from + 1);
        }
    }
}

proof fn lemma_first_target(instances: Seq<Instance>, from: int, at: int)
    requires
        0 <= from <= at < instances.len(),
        is_target(instances[at]),
        forall|k: int|
            from <= k < at ==> !is_target(#[trigger] instances[k]),
    ensures
        first_target(instances, from) == at,
    decreases at - from,
{
    if from < at {
        lemma_first_target(instances, from + 1, at);
    }
}

/// The object path of the instance to call.
pub fn find_target(raw: &Vec<RawInstance>) -> (r: Option<String>)
    ensures
        text_view(r) == target_of(raw@),
{
    let instances = collect_instances(raw);
    proof {
        lemma_preferred_is_target(instances@, 0);
    }
    match select_target_instance(&instances) {
        None => None,
        Some(name) => {
            let mut path = text::copy_str("MICommonInterface.InstanceName=\"");
            path.append(escape_instance_name(name).as_str());
            path.append("\"");
            Some(path)
        },
    }
}

// ── Laws ──

/// There are four attempts to connect: after a failure there is another one exactly after the
/// first three, and after the fourth it is given up with its error. Success ends it.
pub proof fn law_four_attempts_to_connect(
    attempt: u32,
    result: Result<(), EcError>,
    r: ConnectStep,
)
    requires
        call_ensures(after_connect_attempt, (attempt, result), r),
    ensures
        result is Ok ==> r is Connected,
        result is Err && attempt <= 3 ==> r is Retry,
        result matches Err(e) && attempt >= 4 ==> r == ConnectStep::GiveUp(result->Err_0),
{
}

/// COM is ready exactly if it was initialised now or before; another mode and every other
/// failure has an error of its own.
pub proof fn law_com_is_ready(hr: u32, description: &str, r: Result<(), EcError>)
    requires
        call_ensures(ensure_com, (hr, description), r),
    ensures
        r is Ok <==> hr == 0 || hr == 1,
        hr == 0x8001_0106 ==> (r matches Err(e) && e@ == EcErrorView::WmiConnect(
            "COM already initialized with a different mode on this thread (need MTA, hr=0x"@
                + text::hex_of_u32(0x8001_0106) + ")"@,
        )),
        hr > 1 && hr != 0x8001_0106 ==> (r matches Err(e) && e@ == EcErrorView::WmiConnect(
            "COM init: "@ + description@,
        )),
{
}

/// The log names each command by its own name.
pub proof fn law_names_of_worker_commands(cmd: WmiCmd, r: &'static str)
    requires
        call_ensures(WmiCmd::name, (&cmd,), r),
    ensures
        cmd is GetBatteryState ==> r@ == "GetBatteryState"@,
        cmd is SetBatteryCare ==> r@ == "SetBatteryCare"@,
        cmd is SetChargeLimit ==> r@ == "SetChargeLimit"@,
        cmd is GetPerfMode ==> r@ == "GetPerfMode"@,
        cmd is SetPerfMode ==> r@ == "SetPerfMode"@,
        cmd is Quit ==> r@ == "Quit"@,
{
}

/// What each command needs. Reading and writing the mode and reading the battery is always a
/// call. A limit of 0% is answered with an error, and any other is a call with the code of the
/// limit nearest to it. Care needs no call and succeeds.
pub proof fn law_what_commands_need(cmd: WmiCmd, r: Request)
    requires
        call_ensures(request_for, (cmd,), r),
    ensures
        cmd is Quit <==> r is Stop,
        cmd is SetBatteryCare ==> (r matches Request::Answer(a) && a@ == WmiReplyView::Unit(
            Ok(()),
        )),
        cmd is GetBatteryState ==> (r matches Request::Call(b) && b@[0] == 0 && b@[1] == 0xFA
            && b@[2] == 0 && b@[3] == 0x10 && b@[4] == 2 && b@[6] == 0),
        cmd is GetPerfMode ==> (r matches Request::Call(b) && b@[0] == 0 && b@[1] == 0xFA && b@[2]
            == 0 && b@[3] == 0x08 && b@[4] == 0),
        cmd matches WmiCmd::SetPerfMode(mode) ==> (r matches Request::Call(b) && b@[0] == 0
            && b@[1] == 0xFB && b@[2] == 0 && b@[3] == 0x08 && b@[4] == mode && b@[5] == 0),
        cmd matches WmiCmd::SetChargeLimit(percent) && percent == 0 ==> (r matches Request::Answer(
            a,
        ) && a@ == WmiReplyView::Unit(
            Err(EcErrorView::InvalidData("充电上限 0% 非法"@)),
        )),
        cmd matches WmiCmd::SetChargeLimit(percent) && percent > 0 ==> (r matches Request::Call(b)
            && b@[0] == 0 && b@[1] == 0xFB && b@[2] == 0 && b@[3] == 0x10 && b@[4] == 2 && b@[7]
            == 0 && percent_of_code(b@[6]) == Some(
            nearest_preset(
                if cmd->SetChargeLimit_0 > 100 {
                    100
                } else {
                    cmd->SetChargeLimit_0
                },
            ),
        )),
{
    if let WmiCmd::SetChargeLimit(percent) = cmd {
        let capped: u8 = if percent > 100 {
            100
        } else {
            percent
        };
        law_nearest_is_preset(capped);
        law_code_percent_inverse(nearest_preset(capped));
    }
}

/// What each command is answered after its call. The seventh byte of an answer is the code of
/// the limit, and the fifth that of the mode; care is on exactly if the limit is below 100%. A
/// code without a limit is an error. A write succeeds exactly if its call did, and the error
/// of a call is the error of the command.
pub proof fn law_what_answers_mean(cmd: WmiCmd, result: Result<[u8; 32], EcError>, r: WmiReply)
    requires
        call_ensures(reply_for, (cmd, result), r),
    ensures
        cmd is GetBatteryState && result is Ok ==> {
            let code = result->Ok_0@[6];
            r matches WmiReply::BatteryState(state) && match percent_of_code(code) {
                Some(percent) => state == Ok::<(bool, u8), EcError>((percent < 100, percent)),
                None => result_view(state) == Err::<(bool, u8), EcErrorView>(
                    EcErrorView::InvalidData(
                        "WMI 充电上限 raw code 0x"@ + text::lower_hex_of_byte(code) + " 未定义"@,
                    ),
                ),
            }
        },
        cmd is GetBatteryState && result is Err ==> (r matches WmiReply::BatteryState(state)
            && result_view(state) == Err::<(bool, u8), EcErrorView>(result->Err_0@)),
        cmd is GetPerfMode && result is Ok ==> (r matches WmiReply::PerfMode(mode) && mode
            == Ok::<u8, EcError>(result->Ok_0@[4])),
        cmd is GetPerfMode && result is Err ==> (r matches WmiReply::PerfMode(mode)
            && result_view(mode) == Err::<u8, EcErrorView>(result->Err_0@)),
        cmd !is GetBatteryState && cmd !is GetPerfMode ==> (r matches WmiReply::Unit(done)
            && (done is Ok <==> result is Ok) && (result matches Err(e) ==> done->Err_0@ == e@)),
{
}

/// An answer of the firmware counts exactly if it has eighteen bytes or more and begins with
/// the bytes of success. Then its first 32 bytes are taken, filled up with zeros. One that is
/// too short fails with the status 0, and any other with its own status.
pub proof fn law_answers_that_count(answer: Vec<u8>, r: Result<[u8; 32], EcError>, i: int)
    requires
        call_ensures(parse_answer, (&answer,), r),
        0 <= i < 32,
    ensures
        r is Ok <==> answer@.len() >= 18 && answer@[0] == 0x00 && answer@[1] == 0x80,
        r is Ok && i < answer@.len() ==> r->Ok_0@[i] == answer@[i],
        r is Ok && i >= answer@.len() ==> r->Ok_0@[i] == 0,
        answer@.len() < 18 ==> (r matches Err(e) && e@ == EcErrorView::WmiCallFailed(0)),
        answer@.len() >= 18 && r is Err ==> (r matches Err(e) && (e@
            matches EcErrorView::WmiCallFailed(status) && status == answer@[0] + 256 * answer@[1])),
{
}

/// The parameter is the first property that belongs neither to the system nor to the return
/// value, among the first 64; where there is none, it has the usual name.
pub proof fn law_first_parameter_counts(
    names: Option<Vec<String>>,
    usual: &str,
    r: String,
    at: int,
)
    requires
        call_ensures(param_name_from_schema, (&names, usual), r),
    ensures
        names is None ==> r@ == usual@,
        names matches Some(v) && 0 <= at < v@.len() && at < 64 && !is_reserved_property(v@[at]@)
            && (forall|k: int| 0 <= k < at ==> is_reserved_property((#[trigger] v@[k])@)) ==> r@
            == names->0@[at]@,
        names matches Some(v) && (forall|k: int|
            0 <= k < v@.len() && k < 64 ==> is_reserved_property((#[trigger] v@[k])@)) ==> r@
            == usual@,
{
    if let Some(v) = names {
        let n = names_looked_at(v@);
        if 0 <= at < v@.len() && at < 64 && !is_reserved_property(v@[at]@) && (forall|k: int|
            0 <= k < at ==> is_reserved_property((#[trigger] v@[k])@)) {
            lemma_first_parameter(v@, 0, n, usual@, at);
        }
        if forall|k: int|
            0 <= k < v@.len() && k < 64 ==> is_reserved_property((#[trigger] v@[k])@) {
            lemma_first_parameter(v@, 0, n, usual@, n);
        }
    }
}

proof fn lemma_first_parameter(names: Seq<String>, from: int, n: int, usual: Seq<char>, at: int)
    requires
        0 <= from <= at <= n <= names.len(),
        forall|k: int| from <= k < at ==> is_reserved_property((#[trigger] names[k])@),
        at < n ==> !is_reserved_property(names[at]@),
    ensures
        first_parameter(names, from, n, usual) == if at < n {
            names[at]@
        } else {
            usual
        },
    decreases at - from,
{
    if from < at {
        lemma_first_parameter(names, from + 1, n, usual, at);
    }
}

/// A property is no parameter exactly if it begins with two underscores or is, up to case, the
/// return value or the return code.
pub proof fn law_reserved_properties(name: Seq<char>)
    ensures
        is_reserved_property(name) <==> {
            ||| name.len() >= 2 && name[0] == '_' && name[1] == '_'
            ||| text::uppercased(name) == text::uppercased("ReturnValue"@)
            ||| text::uppercased(name) == text::uppercased("ReturnCode"@)
        },
{
    reveal_strlit("__");
    if name.len() >= 2 {
        assert("__"@ =~= seq!['_', '_']);
        if name[0] == '_' && name[1] == '_' {
            assert(name.take(2) =~= "__"@);
        }
        if "__"@.is_prefix_of(name) {
            assert(name.take(2)[0] == name[0] && name.take(2)[1] == name[1]);
        }
    }
    text::lemma_same_ignoring_case(name, "ReturnValue"@);
    text::lemma_same_ignoring_case(name, "ReturnCode"@);
}

/// An instance is one that may be called first: it has a name with the mark in it, in either
/// case, and says that it is active.
pub open spec fn is_wanted(raw: RawInstance) -> bool {
    raw.active == Some(true) && (raw.name matches Some(name) && text::occurs_in(
        "MIFS"@,
        text::uppercased(name@),
    ))
}

proof fn lemma_usable_concatenate(a: Seq<RawInstance>, b: Seq<RawInstance>)
    ensures
        usable_instances(a + b) == usable_instances(a) + usable_instances(b),
    decreases b.len(),
{
    if b.len() == 0 {
        assert(a + b =~= a);
        assert(usable_instances(a) + usable_instances(b) =~= usable_instances(a));
    } else {
        lemma_usable_concatenate(a, b.drop_last());
        assert((a + b).drop_last() =~= a + b.drop_last());
        assert((a + b).last() == b.last());
        assert(usable_instances(a + b) =~= usable_instances(a) + usable_instances(b));
    }
}

proof fn lemma_usable_one(x: RawInstance)
    ensures
        usable_instances(seq![x]) == match x.name {
            Some(name) => seq![(name@, x.active == Some(true), is_marked(name@))],
            None => Seq::empty(),
        },
{
    reveal_with_fuel(usable_instances, 2);
    let one = seq![x];
    assert(one.drop_last() =~= Seq::<RawInstance>::empty());
    assert(one.last() == x);
    assert(usable_instances(one) =~= match x.name {
        Some(name) => seq![(name@, x.active == Some(true), is_marked(name@))],
        None => Seq::empty(),
    });
}

proof fn lemma_unwanted_stay_unwanted(raw: Seq<RawInstance>)
    requires
        forall|i: int| 0 <= i < raw.len() ==> !is_wanted(#[trigger] raw[i]),
    ensures
        forall|i: int|
            0 <= i < usable_instances(raw).len() ==> !((#[trigger] usable_instances(raw)[i]).1
                && usable_instances(raw)[i].2),
    decreases raw.len(),
{
    if raw.len() > 0 {
        let front = raw.drop_last();
        assert forall|i: int| 0 <= i < front.len() implies !is_wanted(#[trigger] front[i]) by {
            assert(front[i] == raw[i]);
        }
        lemma_unwanted_stay_unwanted(front);
        let last = raw[raw.len() - 1];
        assert(!is_wanted(last));
        let all = usable_instances(raw);
        let rest = usable_instances(front);
        assert forall|i: int| 0 <= i < all.len() implies !((#[trigger] all[i]).1 && all[i].2) by {
            if i < rest.len() {
                assert(all[i] == rest[i]);
            }
        }
    }
}

proof fn lemma_preferred(instances: Seq<(Seq<char>, bool, bool)>, from: int, at: int)
    requires
        0 <= from <= at <= instances.len(),
        forall|k: int| from <= k < at ==> !((#[trigger] instances[k]).1 && instances[k].2),
        at < instances.len() ==> instances[at].1 && instances[at].2,
    ensures
        preferred(instances, from) == if at < instances.len() {
            at
        } else {
            0
        },
    decreases at - from,
{
    if from < at {
        lemma_preferred(instances, from + 1, at);
    }
}

/// The first instance that is active and marked is the target, whatever stands around it: the
/// target is its path, with its name in quotes and escaped.
pub proof fn law_target_is_the_first_wanted(
    before: Seq<RawInstance>,
    x: RawInstance,
    after: Seq<RawInstance>,
    raw: Vec<RawInstance>,
    r: Option<String>,
)
    requires
        call_ensures(find_target, (&raw,), r),
        raw@ == before + seq![x] + after,
        is_wanted(x),
        forall|i: int| 0 <= i < before.len() ==> !is_wanted(#[trigger] before[i]),
    ensures
        r matches Some(path) && path@ == "MICommonInterface.InstanceName=\""@ + escaped(
            x.name->0@,
        ) + "\""@,
{
    lemma_usable_concatenate(before + seq![x], after);
    lemma_usable_concatenate(before, seq![x]);
    lemma_unwanted_stay_unwanted(before);
    lemma_usable_one(x);
    let front = usable_instances(before);
    let all = usable_instances(raw@);
    assert forall|k: int| 0 <= k < front.len() implies !((#[trigger] all[k]).1 && all[k].2) by {
        assert(all[k] == front[k]);
    }
    assert(all[front.len() as int] == (x.name->0@, true, true));
    lemma_preferred(all, 0, front.len() as int);
}

/// Where no instance is active and marked, the first one that has a name is the target, and
/// where none has a name there is no target.
pub proof fn law_first_named_instance_stands_in(
    before: Seq<RawInstance>,
    x: RawInstance,
    after: Seq<RawInstance>,
    raw: Vec<RawInstance>,
    r: Option<String>,
)
    requires
        call_ensures(find_target, (&raw,), r),
        forall|i: int| 0 <= i < before.len() ==> (#[trigger] before[i]).name is None,
        forall|i: int| 0 <= i < after.len() ==> !is_wanted(#[trigger] after[i]),
    ensures
        raw@ == before ==> r is None,
        raw@ == before + seq![x] + after && x.name is Some && !is_wanted(x) ==> (r
            matches Some(path) && path@ == "MICommonInterface.InstanceName=\""@ + escaped(
            x.name->0@,
        ) + "\""@),
{
    lemma_unnamed_are_not_usable(before);
    if raw@ == before + seq![x] + after && x.name is Some && !is_wanted(x) {
        lemma_usable_concatenate(before + seq![x], after);
        lemma_usable_concatenate(before, seq![x]);
        lemma_unwanted_stay_unwanted(after);
        lemma_usable_one(x);
        let rest = usable_instances(after);
        let all = usable_instances(raw@);
        assert(all.len() == rest.len() + 1);
        assert forall|k: int| 0 <= k < all.len() implies !((#[trigger] all[k]).1 && all[k].2) by {
            if k > 0 {
                assert(all[k] == rest[k - 1]);
            }
        }
        lemma_preferred(all, 0, all.len() as int);
        assert(all[0].0 == x.name->0@);
    }
}

proof fn lemma_unnamed_are_not_usable(raw: Seq<RawInstance>)
    requires
        forall|i: int| 0 <= i < raw.len() ==> (#[trigger] raw[i]).name is None,
    ensures
        usable_instances(raw).len() == 0,
    decreases raw.len(),
{
    if raw.len() > 0 {
        let front = raw.drop_last();
        assert forall|i: int| 0 <= i < front.len() implies (#[trigger] front[i]).name is None by {
            assert(front[i] == raw[i]);
        }
        lemma_unnamed_are_not_usable(front);
        assert(raw[raw.len() - 1].name is None);
    }
}

/// A code of the firmware means the limit that it stands for, with care on exactly below 100%;
/// a code that stands for none is an error that shows it.
pub proof fn law_state_by_code(code: u8, r: Result<(bool, u8), EcError>)
    requires
        call_ensures(battery_state_from_code, (code,), r),
    ensures
        code == 0 ==> r == Ok::<(bool, u8), EcError>((false, 100u8)),
        code == 1 ==> r == Ok::<(bool, u8), EcError>((true, 80u8)),
        code == 4 ==> r == Ok::<(bool, u8), EcError>((true, 90u8)),
        code == 5 ==> r == Ok::<(bool, u8), EcError>((true, 70u8)),
        code == 6 ==> r == Ok::<(bool, u8), EcError>((true, 60u8)),
        code == 7 ==> r == Ok::<(bool, u8), EcError>((true, 50u8)),
        code == 8 ==> r == Ok::<(bool, u8), EcError>((true, 40u8)),
        code == 2 || code == 3 || code > 8 ==> (r matches Err(e) && e@ == EcErrorView::InvalidData(
            "WMI 充电上限 raw code 0x"@ + text::lower_hex_of_byte(code) + " 未定义"@,
        )),
{
}

/// The views of replies and requests keep their kind and what they carry.
pub proof fn law_views_of_replies(reply: WmiReply, request: Request)
    ensures
        reply matches WmiReply::Unit(r) ==> reply@ == WmiReplyView::Unit(result_view(r)),
        reply matches WmiReply::BatteryState(r) ==> reply@ == WmiReplyView::BatteryState(
            result_view(r),
        ),
        reply matches WmiReply::PerfMode(r) ==> reply@ == WmiReplyView::PerfMode(result_view(r)),
        request is Stop <==> request@ is Stop,
        request matches Request::Answer(a) ==> request@ == RequestView::Answer(a@),
        request matches Request::Call(b) ==> request@ == RequestView::Call(b@),
{
}

} // verus!
