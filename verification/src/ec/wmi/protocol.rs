//! The wire format of `MiInterface`: command buffers, the codes of the charge limits, the
//! choice of the instance to call, and which errors are final.

use crate::app::ec::{EcError, EcErrorView};
use crate::text;
use vstd::prelude::*;

verus! {

// ── Charge limits ──

/// The codes of the charge limits that the firmware knows: code and percent.
pub const WMI_CHARGE_LIMITS: [(u8, u8); 7] = [
    (0, 100),
    (1, 80),
    (4, 90),
    (5, 70),
    (6, 60),
    (7, 50),
    (8, 40),
];

/// The charge limits that the firmware knows, from the lowest to the highest.
pub const WMI_PRESET_PERCENTS: [u8; 7] = [40, 50, 60, 70, 80, 90, 100];

/// The percentage that a code stands for.
pub open spec fn percent_of_code(code: u8) -> Option<u8> {
    if code == 0 {
        Some(100)
    } else if code == 1 {
        Some(80)
    } else if code == 4 {
        Some(90)
    } else if code == 5 {
        Some(70)
    } else if code == 6 {
        Some(60)
    } else if code == 7 {
        Some(50)
    } else if code == 8 {
        Some(40)
    } else {
        None
    }
}

/// The code of a percentage, if the firmware knows it.
pub open spec fn code_of_percent(percent: u8) -> Option<u8> {
    if percent == 100 {
        Some(0)
    } else if percent == 80 {
        Some(1)
    } else if percent == 90 {
        Some(4)
    } else if percent == 70 {
        Some(5)
    } else if percent == 60 {
        Some(6)
    } else if percent == 50 {
        Some(7)
    } else if percent == 40 {
        Some(8)
    } else {
        None
    }
}

/// A charge limit that the firmware knows.
pub open spec fn is_preset(percent: u8) -> bool {
    code_of_percent(percent) is Some
}

/// How far apart two percentages are.
pub open spec fn distance(a: u8, b: u8) -> int {
    if a >= b {
        a - b
    } else {
        b - a
    }
}

/// The row, among the first `n` of the table, whose percentage is nearest; of equally
/// near ones the first.
pub open spec fn nearest_row(percent: u8, n: nat) -> int
    decreases n,
{
    if n <= 1 {
        0
    } else {
        let best = nearest_row(percent, (n - 1) as nat);
        if distance(WMI_CHARGE_LIMITS@[n - 1].1, percent) < distance(
            WMI_CHARGE_LIMITS@[best].1,
            percent,
        ) {
            n - 1
        } else {
            best
        }
    }
}

/// The known charge limit nearest to a percentage; of equally near ones the one that
/// stands first in the table.
pub open spec fn nearest_preset(percent: u8) -> u8 {
    WMI_CHARGE_LIMITS@[nearest_row(percent, 7)].1
}

/// The percentage that a charge limit code stands for.
pub fn wmi_rawcode_to_percent(rawcode: u8) -> (r: Option<u8>)
    ensures
        r == percent_of_code(rawcode),
{
    let mut i: usize = 0;
    while i < WMI_CHARGE_LIMITS.len()
        invariant
            i <= 7,
            forall|k: int| 0 <= k < i ==> (#[trigger] WMI_CHARGE_LIMITS@[k]).0 != rawcode,
        decreases 7 - i,
    {
        if WMI_CHARGE_LIMITS[i].0 == rawcode {
            return Some(WMI_CHARGE_LIMITS[i].1);
        }
        i = i + 1;
    }
    assert(WMI_CHARGE_LIMITS@[0].0 != rawcode && WMI_CHARGE_LIMITS@[1].0 != rawcode
        && WMI_CHARGE_LIMITS@[2].0 != rawcode && WMI_CHARGE_LIMITS@[3].0 != rawcode
        && WMI_CHARGE_LIMITS@[4].0 != rawcode && WMI_CHARGE_LIMITS@[5].0 != rawcode
        && WMI_CHARGE_LIMITS@[6].0 != rawcode);
    None
}

/// The code of a charge limit, for the limits that the firmware knows.
pub fn percent_to_wmi_rawcode(percent: u8) -> (r: Option<u8>)
    ensures
        r == code_of_percent(percent),
{
    let mut i: usize = 0;
    while i < WMI_CHARGE_LIMITS.len()
        invariant
            i <= 7,
            forall|k: int| 0 <= k < i ==> (#[trigger] WMI_CHARGE_LIMITS@[k]).1 != percent,
        decreases 7 - i,
    {
        if WMI_CHARGE_LIMITS[i].1 == percent {
            return Some(WMI_CHARGE_LIMITS[i].0);
        }
        i = i + 1;
    }
    assert(WMI_CHARGE_LIMITS@[0].1 != percent && WMI_CHARGE_LIMITS@[1].1 != percent
        && WMI_CHARGE_LIMITS@[2].1 != percent && WMI_CHARGE_LIMITS@[3].1 != percent
        && WMI_CHARGE_LIMITS@[4].1 != percent && WMI_CHARGE_LIMITS@[5].1 != percent
        && WMI_CHARGE_LIMITS@[6].1 != percent);
    None
}

/// How far apart two percentages are.
fn percent_distance(a: u8, b: u8) -> (r: u8)
    ensures
        r == distance(a, b),
{
    if a >= b {
        a - b
    } else {
        b - a
    }
}

/// The charge limit, among those that the firmware knows, that is nearest to a
/// percentage. Halfway between two it is the one that stands first in the table: 85
/// gives 80, 45 gives 50 and 95 gives 100.
pub fn nearest_wmi_percent(percent: u8) -> (r: u8)
    ensures
        r == nearest_preset(percent),
{
    let mut best: usize = 0;
    let mut i: usize = 1;
    while i < WMI_CHARGE_LIMITS.len()
        invariant
            1 <= i <= 7,
            best < i,
            best == nearest_row(percent, i as nat),
        decreases 7 - i,
    {
        if percent_distance(WMI_CHARGE_LIMITS[i].1, percent) < percent_distance(
            WMI_CHARGE_LIMITS[best].1,
            percent,
        ) {
            best = i;
        }
        i = i + 1;
    }
    WMI_CHARGE_LIMITS[best].1
}

/// The code to write for a percentage: that of the nearest limit that the firmware
/// knows. There always is one.
pub fn wmi_rawcode_for_percent(percent: u8) -> (r: Option<u8>)
    ensures
        r == code_of_percent(nearest_preset(percent)),
        r is Some,
{
    proof {
        law_nearest_is_preset(percent);
    }
    percent_to_wmi_rawcode(nearest_wmi_percent(percent))
}

// ── Command buffers ──

/// The length of a command buffer, in bytes.
pub const CMD_BUF_LEN: usize = 32;

/// The command word of a read.
pub const CMD_READ: u16 = 0xFA00;

/// The command word of a write.
pub const CMD_WRITE: u16 = 0xFB00;

/// The function word of the battery.
pub const FUN2_BATTERY: u16 = 0x1000;

/// The function word of the performance mode.
pub const FUN2_PERF: u16 = 0x0800;

/// The status of a successful answer.
pub const WMI_STATUS_SUCCESS: u16 = 0x8000;

/// The length of the fields of an answer, in bytes; firmware may send more.
pub const MIN_OUTPUT_LEN: usize = 18;

/// How many property names a method schema may have.
pub const MAX_SCHEMA_PROPERTY_NAMES: usize = 64;

/// From how many milliseconds on a call counts as slow.
pub const SLOW_CALL_WARN_MS: u64 = 500;

/// The low byte of a 16-bit word.
pub open spec fn low_byte(n: int) -> u8 {
    (n % 256) as u8
}

/// A 16-bit word as two bytes, the low one first.
pub open spec fn le16(val: u16) -> Seq<u8> {
    seq![low_byte(val as int), low_byte(val as int / 256)]
}

/// A 32-bit word as four bytes, the low one first.
pub open spec fn le32(val: u32) -> Seq<u8> {
    seq![
        low_byte(val as int),
        low_byte(val as int / 0x100),
        low_byte(val as int / 0x1_0000),
        low_byte(val as int / 0x100_0000),
    ]
}

/// The 16-bit word that two bytes hold, the low one first.
pub open spec fn word_at(b: Seq<u8>, offset: int) -> int {
    b[offset] + 256 * b[offset + 1]
}

/// A buffer with `part` written over its bytes from `offset` on.
pub open spec fn overwrite(b: Seq<u8>, offset: int, part: Seq<u8>) -> Seq<u8> {
    Seq::new(
        b.len(),
        |i: int|
            if offset <= i < offset + part.len() {
                part[i - offset]
            } else {
                b[i]
            },
    )
}

/// Writes a 16-bit word into a command buffer, the low byte first.
pub fn put_le16(buf: &mut [u8; 32], offset: usize, val: u16)
    requires
        offset + 2 <= CMD_BUF_LEN,
    ensures
        final(buf)@ == overwrite(old(buf)@, offset as int, le16(val)),
{
    let low: u8 = (val % 256) as u8;
    let high: u8 = (val / 256) as u8;
    buf[offset] = low;
    buf[offset + 1] = high;
    assert(buf@ =~= overwrite(old(buf)@, offset as int, le16(val)));
}

/// Writes a 32-bit word into a command buffer, the low byte first.
pub fn put_le32(buf: &mut [u8; 32], offset: usize, val: u32)
    requires
        offset + 4 <= CMD_BUF_LEN,
    ensures
        final(buf)@ == overwrite(old(buf)@, offset as int, le32(val)),
{
    let b0: u8 = (val % 256) as u8;
    let b1: u8 = (val / 0x100 % 256) as u8;
    let b2: u8 = (val / 0x1_0000 % 256) as u8;
    let b3: u8 = (val / 0x100_0000) as u8;
    buf[offset] = b0;
    buf[offset + 1] = b1;
    buf[offset + 2] = b2;
    buf[offset + 3] = b3;
    assert(buf@ =~= overwrite(old(buf)@, offset as int, le32(val)));
}

/// A command: the command word, the function word and the subfunction word, two bytes
/// each, a payload of four bytes, and zeros.
pub open spec fn command_bytes(fun1: u16, fun2: u16, fun3: u16, fun4: u32) -> Seq<u8> {
    le16(fun1) + le16(fun2) + le16(fun3) + le32(fun4) + Seq::new(22, |i: int| 0u8)
}

/// Builds a command buffer.
pub fn build_cmd(fun1: u16, fun2: u16, fun3: u16, fun4: u32) -> (r: [u8; 32])
    ensures
        r@ == command_bytes(fun1, fun2, fun3, fun4),
{
    let mut buf: [u8; 32] = [0; 32];
    put_le16(&mut buf, 0, fun1);
    put_le16(&mut buf, 2, fun2);
    put_le16(&mut buf, 4, fun3);
    if fun4 != 0 {
        put_le32(&mut buf, 6, fun4);
    }
    assert(buf@ =~= command_bytes(fun1, fun2, fun3, fun4));
    buf
}

/// The command that reads the charge limit.
pub fn read_battery_cmd() -> (r: [u8; 32])
    ensures
        r@ == command_bytes(CMD_READ, FUN2_BATTERY, 0x0002, 0),
{
    build_cmd(CMD_READ, FUN2_BATTERY, 0x0002, 0)
}

/// The command that writes the code of a charge limit.
pub fn write_battery_cmd(raw_code: u8) -> (r: [u8; 32])
    ensures
        r@ == command_bytes(CMD_WRITE, FUN2_BATTERY, 0x0002, raw_code as u32),
{
    build_cmd(CMD_WRITE, FUN2_BATTERY, 0x0002, raw_code as u32)
}

/// The command that reads the performance mode.
pub fn read_perf_cmd() -> (r: [u8; 32])
    ensures
        r@ == command_bytes(CMD_READ, FUN2_PERF, 0x0000, 0),
{
    build_cmd(CMD_READ, FUN2_PERF, 0x0000, 0)
}

/// The command that writes the code of a performance mode.
pub fn write_perf_cmd(mode: u8) -> (r: [u8; 32])
    ensures
        r@ == command_bytes(CMD_WRITE, FUN2_PERF, mode as u16, 0),
{
    build_cmd(CMD_WRITE, FUN2_PERF, mode as u16, 0)
}

// ── Instances ──

/// A name as it stands inside the quotes of an object path: backslashes and quotes have a
/// backslash before them.
pub open spec fn escaped(name: Seq<char>) -> Seq<char>
    decreases name.len(),
{
    if name.len() == 0 {
        name
    } else if name.last() == '\\' || name.last() == '"' {
        escaped(name.drop_last()).push('\\').push(name.last())
    } else {
        escaped(name.drop_last()).push(name.last())
    }
}

/// Escapes the name of an instance for an object path.
pub fn escape_instance_name(name: &str) -> (r: String)
    ensures
        r@ == escaped(name@),
{
    let v = text::chars_of(name);
    let mut out = String::new();
    let mut i: usize = 0;
    assert(v@.take(0) =~= Seq::<char>::empty());
    while i < v.len()
        invariant
            i <= v@.len(),
            out@ == escaped(v@.take(i as int)),
        decreases v@.len() - i,
    {
        assert(v@.take(i + 1).drop_last() =~= v@.take(i as int));
        if v[i] == '\\' || v[i] == '"' {
            out.push('\\');
        }
        out.push(v[i]);
        i = i + 1;
    }
    assert(v@.take(v@.len() as int) =~= v@);
    out
}

/// An instance of the interface: its name, whether it is active, and whether its name
/// marks it as the one of the firmware.
pub type Instance = (String, bool, bool);

/// The index of the instance to call: the first that is active and marked, else the
/// first one.
pub open spec fn target_index(instances: Seq<Instance>) -> int {
    if exists|i: int| 0 <= i < instances.len() && #[trigger] is_target(instances[i]) {
        first_target(instances, 0)
    } else {
        0
    }
}

/// An instance that is active and marked.
pub open spec fn is_target(instance: Instance) -> bool {
    instance.1 && instance.2
}

/// The index of the first active and marked instance from `i` on.
pub open spec fn first_target(instances: Seq<Instance>, i: int) -> int
    decreases instances.len() - i,
{
    if i < 0 || i >= instances.len() || is_target(instances[i]) {
        i
    } else {
        first_target(instances, i + 1)
    }
}

/// The name of the instance to call: the first that is active and marked, else the first
/// one; none if there is no instance.
pub fn select_target_instance(instances: &Vec<Instance>) -> (r: Option<&str>)
    ensures
        match r {
            Some(name) => instances@.len() > 0 && 0 <= target_index(instances@) < instances@.len()
                && name@ == instances@[target_index(instances@)].0@,
            None => instances@.len() == 0,
        },
{
    let mut i: usize = 0;
    while i < instances.len()
        invariant
            i <= instances@.len(),
            forall|k: int| 0 <= k < i ==> !is_target(#[trigger] instances@[k]),
            first_target(instances@, 0) == first_target(instances@, i as int),
        decreases instances@.len() - i,
    {
        if instances[i].1 && instances[i].2 {
            assert(is_target(instances@[i as int]));
            return Some(instances[i].0.as_str());
        }
        i = i + 1;
    }
    if instances.len() > 0 {
        Some(instances[0].0.as_str())
    } else {
        None
    }
}

// ── Final errors ──

/// `WBEM_E_NOT_FOUND`.
pub const WBEM_E_NOT_FOUND: u32 = 0x8004_1002;

/// `WBEM_E_PROVIDER_FAILURE`.
pub const WBEM_E_PROVIDER_FAILURE: u32 = 0x8004_1004;

/// `WBEM_E_INVALID_PARAMETER`.
pub const WBEM_E_INVALID_PARAMETER: u32 = 0x8004_1008;

/// `WBEM_E_NOT_SUPPORTED`.
pub const WBEM_E_NOT_SUPPORTED: u32 = 0x8004_100C;

/// `WBEM_E_INVALID_CLASS`.
pub const WBEM_E_INVALID_CLASS: u32 = 0x8004_1010;

/// `WBEM_E_INVALID_METHOD`.
pub const WBEM_E_INVALID_METHOD: u32 = 0x8004_102E;

/// `WBEM_E_INVALID_METHOD_PARAMETERS`.
pub const WBEM_E_INVALID_METHOD_PARAMETERS: u32 = 0x8004_102F;

/// An `HRESULT` that will come again however often the call is repeated.
pub open spec fn is_final_hresult(hr: u32) -> bool {
    ||| hr == WBEM_E_INVALID_METHOD_PARAMETERS
    ||| hr == WBEM_E_PROVIDER_FAILURE
    ||| hr == WBEM_E_INVALID_CLASS
    ||| hr == WBEM_E_NOT_FOUND
    ||| hr == WBEM_E_INVALID_METHOD
    ||| hr == WBEM_E_NOT_SUPPORTED
    ||| hr == WBEM_E_INVALID_PARAMETER
}

/// Whether an `HRESULT` will come again however often the call is repeated: the firmware
/// or the provider does not support the call. A busy or restarting service is not final.
pub fn is_latching_hresult(hr: u32) -> (r: bool)
    ensures
        r == is_final_hresult(hr),
{
    hr == WBEM_E_INVALID_METHOD_PARAMETERS || hr == WBEM_E_PROVIDER_FAILURE || hr
        == WBEM_E_INVALID_CLASS || hr == WBEM_E_NOT_FOUND || hr == WBEM_E_INVALID_METHOD || hr
        == WBEM_E_NOT_SUPPORTED || hr == WBEM_E_INVALID_PARAMETER
}

/// An error that is final: one without an `HRESULT`, or with a final one.
pub open spec fn is_final(hr: Option<u32>) -> bool {
    match hr {
        None => true,
        Some(hr) => is_final_hresult(hr),
    }
}

/// What is latched after an error: the first final error, for good.
pub open spec fn latched_after(
    state: Option<EcErrorView>,
    hr: Option<u32>,
    err: EcErrorView,
) -> Option<EcErrorView> {
    if state is None && is_final(hr) {
        Some(err)
    } else {
        state
    }
}

/// A latch by its view.
pub open spec fn latch_view(state: Option<EcError>) -> Option<EcErrorView> {
    match state {
        Some(e) => Some(e@),
        None => None,
    }
}

/// Latches an error if it is final and none is latched yet, and gives it back.
///
/// `hr` is the `HRESULT` behind the error; `None` stands for an error that cannot but
/// come again.
pub fn latch_into(state: &mut Option<EcError>, hr: Option<u32>, err: EcError) -> (r: EcError)
    ensures
        r == err,
        latch_view(*final(state)) == latched_after(latch_view(*old(state)), hr, err@),
{
    let fatal = match hr {
        None => true,
        Some(hr) => is_latching_hresult(hr),
    };
    if fatal && state.is_none() {
        *state = Some(err.clone());
    }
    err
}

// ── Laws ──

/// Codes and percentages are inverse to each other.
pub proof fn law_code_percent_inverse(n: u8)
    ensures
        percent_of_code(n) matches Some(p) ==> code_of_percent(p) == Some(n),
        code_of_percent(n) matches Some(c) ==> percent_of_code(c) == Some(n),
{
}

/// The table, the two conversions and the list of presets agree: a row of the table is a
/// code with its percentage, and a percentage is known exactly if it is listed.
pub proof fn law_table_agrees(i: int, percent: u8)
    ensures
        0 <= i < 7 ==> percent_of_code(WMI_CHARGE_LIMITS@[i].0) == Some(WMI_CHARGE_LIMITS@[i].1),
        0 <= i < 7 ==> is_preset(WMI_PRESET_PERCENTS@[i]),
        is_preset(percent) ==> WMI_PRESET_PERCENTS@.contains(percent),
        WMI_PRESET_PERCENTS@.contains(percent) ==> is_preset(percent),
        0 <= i < 6 ==> WMI_PRESET_PERCENTS@[i] < WMI_PRESET_PERCENTS@[i + 1],
{
    if 0 <= i < 7 {
        assert(i == 0 || i == 1 || i == 2 || i == 3 || i == 4 || i == 5 || i == 6);
    }
    let p = WMI_PRESET_PERCENTS@;
    assert(p[0] == 40 && p[1] == 50 && p[2] == 60 && p[3] == 70 && p[4] == 80 && p[5] == 90 && p[6]
        == 100);
    if p.contains(percent) {
        let k = choose|k: int| 0 <= k < p.len() && p[k] == percent;
        assert(k == 0 || k == 1 || k == 2 || k == 3 || k == 4 || k == 5 || k == 6);
    }
}

proof fn lemma_nearest_row_is_nearest(percent: u8, n: nat)
    requires
        1 <= n <= 7,
    ensures
        0 <= nearest_row(percent, n) < n,
        forall|j: int|
            0 <= j < n ==> distance(WMI_CHARGE_LIMITS@[nearest_row(percent, n)].1, percent)
                <= distance((#[trigger] WMI_CHARGE_LIMITS@[j]).1, percent),
        forall|j: int|
            0 <= j < nearest_row(percent, n) ==> distance(
                WMI_CHARGE_LIMITS@[nearest_row(percent, n)].1,
                percent,
            ) < distance((#[trigger] WMI_CHARGE_LIMITS@[j]).1, percent),
    decreases n,
{
    if n > 1 {
        lemma_nearest_row_is_nearest(percent, (n - 1) as nat);
    }
}

/// The nearest limit is one that the firmware knows, none of the others is nearer, and
/// every one of the others that stands before it in the table is farther.
pub proof fn law_nearest_is_preset(percent: u8)
    ensures
        is_preset(nearest_preset(percent)),
        forall|q: u8| #[trigger]
            is_preset(q) ==> distance(nearest_preset(percent), percent) <= distance(q, percent),
        forall|j: int|
            0 <= j < nearest_row(percent, 7) ==> distance(nearest_preset(percent), percent)
                < distance((#[trigger] WMI_CHARGE_LIMITS@[j]).1, percent),
{
    lemma_nearest_row_is_nearest(percent, 7);
    law_table_agrees(nearest_row(percent, 7), percent);
    law_code_percent_inverse(WMI_CHARGE_LIMITS@[nearest_row(percent, 7)].0);
    assert forall|q: u8| #[trigger] is_preset(q) implies distance(nearest_preset(percent), percent)
        <= distance(q, percent) by {
        let t = WMI_CHARGE_LIMITS@;
        assert(t[0].1 == 100 && t[1].1 == 80 && t[2].1 == 90 && t[3].1 == 70 && t[4].1 == 60
            && t[5].1 == 50 && t[6].1 == 40);
    }
}

/// A limit that the firmware knows is its own nearest one.
pub proof fn law_nearest_fixes_presets(percent: u8)
    requires
        is_preset(percent),
    ensures
        nearest_preset(percent) == percent,
{
    law_nearest_is_preset(percent);
    assert(distance(percent, percent) == 0);
}

/// Choosing the nearest limit is idempotent.
pub proof fn law_nearest_idempotent(percent: u8)
    ensures
        nearest_preset(nearest_preset(percent)) == nearest_preset(percent),
{
    law_nearest_is_preset(percent);
    law_nearest_fixes_presets(nearest_preset(percent));
}

/// A command can be read back: its words stand where they were put, the payload after
/// them, and the rest is zero.
pub proof fn law_command_reads_back(fun1: u16, fun2: u16, fun3: u16, fun4: u32)
    ensures
        command_bytes(fun1, fun2, fun3, fun4).len() == CMD_BUF_LEN,
        word_at(command_bytes(fun1, fun2, fun3, fun4), 0) == fun1,
        word_at(command_bytes(fun1, fun2, fun3, fun4), 2) == fun2,
        word_at(command_bytes(fun1, fun2, fun3, fun4), 4) == fun3,
        word_at(command_bytes(fun1, fun2, fun3, fun4), 6) + 0x1_0000 * word_at(
            command_bytes(fun1, fun2, fun3, fun4),
            8,
        ) == fun4,
        forall|i: int| 10 <= i < 32 ==> #[trigger] command_bytes(fun1, fun2, fun3, fun4)[i] == 0,
{
}

/// The four commands are told apart by their first three words: a read is never a write,
/// and the battery is never the performance mode.
pub proof fn law_commands_are_distinct(raw_code: u8, mode: u8)
    ensures
        word_at(command_bytes(CMD_READ, FUN2_BATTERY, 0x0002, 0), 0) != word_at(
            command_bytes(CMD_WRITE, FUN2_BATTERY, 0x0002, raw_code as u32),
            0,
        ),
        word_at(command_bytes(CMD_READ, FUN2_PERF, 0x0000, 0), 0) != word_at(
            command_bytes(CMD_WRITE, FUN2_PERF, mode as u16, 0),
            0,
        ),
        word_at(command_bytes(CMD_WRITE, FUN2_BATTERY, 0x0002, raw_code as u32), 2) != word_at(
            command_bytes(CMD_WRITE, FUN2_PERF, mode as u16, 0),
            2,
        ),
{
    law_command_reads_back(CMD_READ, FUN2_BATTERY, 0x0002, 0);
    law_command_reads_back(CMD_WRITE, FUN2_BATTERY, 0x0002, raw_code as u32);
    law_command_reads_back(CMD_READ, FUN2_PERF, 0x0000, 0);
    law_command_reads_back(CMD_WRITE, FUN2_PERF, mode as u16, 0);
}

/// The latch keeps the first final error for good, and an error that is not final never
/// sets it.
pub proof fn law_latch_keeps_first(
    state: Option<EcErrorView>,
    hr: Option<u32>,
    err: EcErrorView,
)
    ensures
        state is Some ==> latched_after(state, hr, err) == state,
        !is_final(hr) ==> latched_after(state, hr, err) == state,
        state is None && is_final(hr) ==> latched_after(state, hr, err) == Some(err),
{
}

/// The codes of the firmware and the limits that they stand for; no other code and no other
/// percentage is known.
pub proof fn law_seven_limits(n: u8, percent: Option<u8>, code: Option<u8>)
    requires
        call_ensures(wmi_rawcode_to_percent, (n,), percent),
        call_ensures(percent_to_wmi_rawcode, (n,), code),
    ensures
        n == 0 ==> percent == Some(100u8),
        n == 1 ==> percent == Some(80u8),
        n == 4 ==> percent == Some(90u8),
        5 <= n <= 8 ==> percent is Some && percent->0 == 120 - 10 * n,
        n == 2 || n == 3 || n > 8 ==> percent is None,
        n == 100 ==> code == Some(0u8),
        n == 80 ==> code == Some(1u8),
        n == 90 ==> code == Some(4u8),
        n == 70 || n == 60 || n == 50 || n == 40 ==> code is Some && code->0 * 10 == 120 - n,
        !(40 <= n <= 100 && n % 10 == 0) ==> code is None,
{
}

/// The limit that the firmware gets for a percentage, on the whole range: the nearest ten
/// from 40% to 100%. Halfway between two it is the higher one, but for 85%, which is taken for
/// 80%.
pub proof fn law_nearest_by_ranges(percent: u8, r: u8)
    requires
        call_ensures(nearest_wmi_percent, (percent,), r),
    ensures
        percent <= 44 ==> r == 40,
        45 <= percent <= 54 ==> r == 50,
        55 <= percent <= 64 ==> r == 60,
        65 <= percent <= 74 ==> r == 70,
        75 <= percent <= 85 ==> r == 80,
        86 <= percent <= 94 ==> r == 90,
        95 <= percent ==> r == 100,
{
    let t = WMI_CHARGE_LIMITS@;
    assert(t[0].1 == 100 && t[1].1 == 80 && t[2].1 == 90 && t[3].1 == 70 && t[4].1 == 60 && t[5].1
        == 50 && t[6].1 == 40);
    reveal_with_fuel(nearest_row, 8);
}

/// The code that is written for a percentage is that of the limit nearest to it.
pub proof fn law_code_written_for_a_percentage(
    percent: u8,
    nearest: u8,
    r: Option<u8>,
    back: Option<u8>,
)
    requires
        call_ensures(nearest_wmi_percent, (percent,), nearest),
        call_ensures(wmi_rawcode_for_percent, (percent,), r),
        call_ensures(wmi_rawcode_to_percent, (r->0,), back),
    ensures
        r is Some,
        back == Some(nearest),
{
    law_nearest_is_preset(percent);
    law_code_percent_inverse(nearest);
}

/// A word is put into a buffer with its low byte first, and all other bytes stay.
pub proof fn law_words_are_put_low_byte_first(
    buf: &mut [u8; 32],
    offset: usize,
    val: u16,
    r: (),
    i: int,
)
    requires
        call_ensures(put_le16, (buf, offset, val), r),
        offset + 2 <= 32,
        0 <= i < 32,
    ensures
        final(buf)@[offset as int] + 256 * final(buf)@[offset + 1] == val,
        i != offset && i != offset + 1 ==> final(buf)@[i] == old(buf)@[i],
{
}

/// A double word is put into a buffer with its low byte first, and all other bytes stay.
pub proof fn law_double_words_are_put_low_byte_first(
    buf: &mut [u8; 32],
    offset: usize,
    val: u32,
    r: (),
    i: int,
)
    requires
        call_ensures(put_le32, (buf, offset, val), r),
        offset + 4 <= 32,
        0 <= i < 32,
    ensures
        final(buf)@[offset as int] + 0x100 * final(buf)@[offset + 1] + 0x1_0000
            * final(buf)@[offset + 2] + 0x100_0000 * final(buf)@[offset + 3] == val,
        !(offset <= i < offset + 4) ==> final(buf)@[i] == old(buf)@[i],
{
    let v = val as int;
    vstd::arithmetic::div_mod::lemma_div_denominator(v, 0x100, 0x100);
    vstd::arithmetic::div_mod::lemma_div_denominator(v, 0x1_0000, 0x100);
}

/// The four commands, byte by byte. The first two words say whether to read (`FA00`) or to
/// write (`FB00`) and what: the battery (`1000`) or the mode (`0800`). The battery has the
/// subfunction 2 and the code in the payload; a mode is written as the subfunction. All other
/// bytes are zero.
pub proof fn law_commands_byte_by_byte(
    code: u8,
    mode: u8,
    read_battery: [u8; 32],
    write_battery: [u8; 32],
    read_perf: [u8; 32],
    write_perf: [u8; 32],
    i: int,
)
    requires
        call_ensures(read_battery_cmd, (), read_battery),
        call_ensures(write_battery_cmd, (code,), write_battery),
        call_ensures(read_perf_cmd, (), read_perf),
        call_ensures(write_perf_cmd, (mode,), write_perf),
        0 <= i < 32,
    ensures
        read_battery@[i] == if i == 1 {
            0xFAu8
        } else if i == 3 {
            0x10
        } else if i == 4 {
            0x02
        } else {
            0x00
        },
        write_battery@[i] == if i == 1 {
            0xFBu8
        } else if i == 3 {
            0x10
        } else if i == 4 {
            0x02
        } else if i == 6 {
            code
        } else {
            0x00
        },
        read_perf@[i] == if i == 1 {
            0xFAu8
        } else if i == 3 {
            0x08
        } else {
            0x00
        },
        write_perf@[i] == if i == 1 {
            0xFBu8
        } else if i == 3 {
            0x08
        } else if i == 4 {
            mode
        } else {
            0x00
        },
{
}

/// A command is built of its words in their order, the low byte first, and zeros.
pub proof fn law_command_layout(fun1: u16, fun2: u16, fun3: u16, fun4: u32, r: [u8; 32], i: int)
    requires
        call_ensures(build_cmd, (fun1, fun2, fun3, fun4), r),
        10 <= i < 32,
    ensures
        r@[0] + 256 * r@[1] == fun1,
        r@[2] + 256 * r@[3] == fun2,
        r@[4] + 256 * r@[5] == fun3,
        r@[6] + 0x100 * r@[7] + 0x1_0000 * r@[8] + 0x100_0000 * r@[9] == fun4,
        r@[i] == 0,
{
    law_command_reads_back(fun1, fun2, fun3, fun4);
}

/// Escaping goes character by character: a backslash comes before every backslash and every
/// quote, and every other character stays as it is.
pub proof fn law_escaping_by_character(a: Seq<char>, b: Seq<char>, c: char)
    ensures
        escaped(a + b) == escaped(a) + escaped(b),
        c == '\\' || c == '"' ==> escaped(seq![c]) == seq!['\\', c],
        c != '\\' && c != '"' ==> escaped(seq![c]) == seq![c],
        escaped(Seq::empty()).len() == 0,
    decreases b.len(),
{
    reveal_with_fuel(escaped, 2);
    let one = seq![c];
    assert(one.drop_last() =~= Seq::<char>::empty());
    assert(one.last() == c);
    assert(escaped(one) =~= if c == '\\' || c == '"' {
        seq!['\\', c]
    } else {
        seq![c]
    });
    if b.len() == 0 {
        assert(a + b =~= a);
        assert(escaped(a) + escaped(b) =~= escaped(a));
    } else {
        law_escaping_by_character(a, b.drop_last(), c);
        assert((a + b).drop_last() =~= a + b.drop_last());
        assert((a + b).last() == b.last());
        assert(escaped(a + b) =~= escaped(a) + escaped(b));
    }
}

/// The instance to call is the first that is active and marked; where there is none, the
/// first of all; and none only where there is no instance.
pub proof fn law_first_active_marked_instance(instances: Vec<Instance>, r: Option<&str>, at: int)
    requires
        call_ensures(select_target_instance, (&instances,), r),
    ensures
        r is None <==> instances@.len() == 0,
        0 <= at < instances@.len() && instances@[at].1 && instances@[at].2 && (forall|k: int|
            0 <= k < at ==> !((#[trigger] instances@[k]).1 && instances@[k].2)) ==> (r
            matches Some(name) && name@ == instances@[at].0@),
        instances@.len() > 0 && (forall|k: int|
            0 <= k < instances@.len() ==> !((#[trigger] instances@[k]).1 && instances@[k].2)) ==> (r
            matches Some(name) && name@ == instances@[0].0@),
{
    let all = instances@;
    if 0 <= at < all.len() && all[at].1 && all[at].2 && (forall|k: int|
        0 <= k < at ==> !((#[trigger] all[k]).1 && all[k].2)) {
        assert(is_target(all[at]));
        assert forall|k: int| 0 <= k < at implies !is_target(#[trigger] all[k]) by {
            assert(!(all[k].1 && all[k].2));
        }
        lemma_first_target_at(all, 0, at);
    }
    if forall|k: int| 0 <= k < all.len() ==> !((#[trigger] all[k]).1 && all[k].2) {
        assert forall|k: int| 0 <= k < all.len() implies !is_target(#[trigger] all[k]) by {
            assert(!(all[k].1 && all[k].2));
        }
    }
}

proof fn lemma_first_target_at(instances: Seq<Instance>, from: int, at: int)
    requires
        0 <= from <= at < instances.len(),
        is_target(instances[at]),
        forall|k: int| from <= k < at ==> !is_target(#[trigger] instances[k]),
    ensures
        first_target(instances, from) == at,
    decreases at - from,
{
    if from < at {
        assert(!is_target(instances[from]));
        lemma_first_target_at(instances, from + 1, at);
    }
}

/// Seven result codes are final, and no other is.
pub proof fn law_seven_final_codes(hr: u32, r: bool)
    requires
        call_ensures(is_latching_hresult, (hr,), r),
    ensures
        r <==> {
            ||| hr == 0x8004_1002
            ||| hr == 0x8004_1004
            ||| hr == 0x8004_1008
            ||| hr == 0x8004_100C
            ||| hr == 0x8004_1010
            ||| hr == 0x8004_102E
            ||| hr == 0x8004_102F
        },
{
}

/// An error is given back as it is. It is latched exactly if none was and it has no result
/// code or a final one; what was latched stays.
pub proof fn law_first_final_error_stays(
    state: &mut Option<EcError>,
    hr: Option<u32>,
    err: EcError,
    r: EcError,
    passing: bool,
)
    requires
        call_ensures(latch_into, (state, hr, err), r),
        hr is Some ==> call_ensures(is_latching_hresult, (hr->0,), !passing),
        hr is None ==> !passing,
    ensures
        r == err,
        *old(state) matches Some(e) ==> (*final(state) matches Some(f) && f@ == e@),
        *old(state) is None && !passing ==> (*final(state) matches Some(f) && f@ == err@),
        *old(state) is None && passing ==> *final(state) is None,
{
}

/// The name of an instance is escaped as [`law_escaping_by_character`] says.
pub proof fn law_names_are_escaped(name: &str, r: String)
    requires
        call_ensures(escape_instance_name, (name,), r),
    ensures
        r@ == escaped(name@),
        (forall|i: int|
            0 <= i < name@.len() ==> #[trigger] name@[i] != '\\' && name@[i] != '"') ==> r@
            == name@,
{
    if forall|i: int| 0 <= i < name@.len() ==> #[trigger] name@[i] != '\\' && name@[i] != '"' {
        lemma_plain_names(name@);
    }
}

proof fn lemma_plain_names(name: Seq<char>)
    requires
        forall|i: int| 0 <= i < name.len() ==> #[trigger] name[i] != '\\' && name[i] != '"',
    ensures
        escaped(name) == name,
    decreases name.len(),
{
    if name.len() > 0 {
        let front = name.drop_last();
        assert forall|i: int| 0 <= i < front.len() implies #[trigger] front[i] != '\\' && front[i]
            != '"' by {
            assert(front[i] == name[i]);
        }
        lemma_plain_names(front);
        assert(name[name.len() - 1] == name.last());
        assert(front.push(name.last()) =~= name);
    }
}

} // verus!
