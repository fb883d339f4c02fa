//! The WMI backend.

use xiaomi_pc_manager_lite::app::ec::EcError;
use xiaomi_pc_manager_lite::ec::wmi::backend::{
    await_handshake, battery, perf, unit, wait_left, Arrival, Receipt, WmiCalls,
};
use xiaomi_pc_manager_lite::ec::wmi::protocol::{
    escape_instance_name, is_latching_hresult, latch_into, put_le16, put_le32, read_battery_cmd,
    read_perf_cmd, select_target_instance, wmi_rawcode_for_percent, write_battery_cmd,
    write_perf_cmd, MIN_OUTPUT_LEN, WBEM_E_INVALID_CLASS, WBEM_E_INVALID_METHOD,
    WBEM_E_INVALID_METHOD_PARAMETERS, WBEM_E_INVALID_PARAMETER, WBEM_E_NOT_FOUND,
    WBEM_E_NOT_SUPPORTED, WBEM_E_PROVIDER_FAILURE, WMI_STATUS_SUCCESS,
};
use xiaomi_pc_manager_lite::ec::wmi::session::{
    CallStep, ExecResult, InputResult, Lookup, OutputResult, Session,
};
use xiaomi_pc_manager_lite::ec::wmi::worker::{
    after_connect_attempt, battery_state_from_code, ensure_com, parse_answer, reply_for,
    request_for, ConnectStep, RawInstance, Request, WmiCmd, WmiReply, CONNECT_ATTEMPTS,
    CONNECT_RETRY_DELAY_MS, HANDSHAKE_TIMEOUT_MS,
};

#[test]
fn mod_test_escape_instance_name() {
    assert_eq!(escape_instance_name("MIFS"), "MIFS");
    assert_eq!(
        escape_instance_name("ACPI\\PNP0C14\\MIFS_0"),
        "ACPI\\\\PNP0C14\\\\MIFS_0"
    );
    assert_eq!(escape_instance_name("a\"b"), "a\\\"b");
    assert_eq!(escape_instance_name("A\\B\"C"), "A\\\\B\\\"C");
}

#[test]
fn test_select_target_instance_policy() {
    let mk = |n: &str, a: bool, m: bool| (n.to_string(), a, m);
    let v = vec![
        mk("ACPI\\PNP0C14\\MII_0", true, false),
        mk("ACPI\\PNP0C14\\MIFS_0", true, true),
        mk("ACPI\\PNP0C14\\Y_0", false, true),
    ];
    assert_eq!(
        select_target_instance(&v),
        Some("ACPI\\PNP0C14\\MIFS_0"),
        "active+MIFS must win over first instance"
    );
    let v2 = vec![mk("first", true, false), mk("second", false, true)];
    assert_eq!(select_target_instance(&v2), Some("first"));
    let v3 = vec![mk("only", false, false)];
    assert_eq!(select_target_instance(&v3), Some("only"));
    assert_eq!(select_target_instance(&vec![]), None);
}

#[test]
fn test_put_le16_put_le32_byte_layout() {
    let mut buf = [0u8; 32];
    put_le16(&mut buf, 0, 0x1234);
    assert_eq!(&buf[0..2], &[0x34, 0x12], "u16 must be little-endian");
    put_le32(&mut buf, 2, 0x12345678);
    assert_eq!(
        &buf[2..6],
        &[0x78, 0x56, 0x34, 0x12],
        "u32 must be little-endian"
    );
    assert_eq!(buf[0], 0x34);
    assert_eq!(buf[1], 0x12);
}

#[test]
fn test_command_buffer_composition() {
    let bat_read = read_battery_cmd();
    assert_eq!(&bat_read[0..2], &[0x00, 0xFA]);
    assert_eq!(&bat_read[2..4], &[0x00, 0x10]);
    assert_eq!(&bat_read[4..6], &[0x02, 0x00]);
    assert!(bat_read[6..].iter().all(|&b| b == 0));

    let bat_write = write_battery_cmd(0x01);
    assert_eq!(&bat_write[0..2], &[0x00, 0xFB]);
    assert_eq!(&bat_write[2..4], &[0x00, 0x10]);
    assert_eq!(&bat_write[4..6], &[0x02, 0x00]);
    assert_eq!(&bat_write[6..10], &[0x01, 0x00, 0x00, 0x00]);
    assert!(bat_write[10..].iter().all(|&b| b == 0));

    let perf_read = read_perf_cmd();
    assert_eq!(&perf_read[0..2], &[0x00, 0xFA]);
    assert_eq!(&perf_read[2..4], &[0x00, 0x08]);
    assert_eq!(&perf_read[4..6], &[0x00, 0x00]);
    assert!(perf_read[6..].iter().all(|&b| b == 0));

    let perf_write = write_perf_cmd(0x09);
    assert_eq!(&perf_write[0..2], &[0x00, 0xFB]);
    assert_eq!(&perf_write[2..4], &[0x00, 0x08]);
    assert_eq!(&perf_write[4..6], &[0x09, 0x00]);
    assert!(perf_write[6..].iter().all(|&b| b == 0));
}

#[test]
fn mod_test_status_success_is_0x8000() {
    assert_eq!(WMI_STATUS_SUCCESS, 0x8000);
    let out = [0x00u8, 0x80, 0x00, 0x08, 0x09, 0x00];
    let status = u16::from_le_bytes([out[0], out[1]]);
    assert_eq!(status, WMI_STATUS_SUCCESS);
    let fail = [0x00u8, 0x00];
    assert_ne!(u16::from_le_bytes([fail[0], fail[1]]), WMI_STATUS_SUCCESS);
}

#[test]
fn mod_test_output_min_length_is_18() {
    assert_eq!(MIN_OUTPUT_LEN, 18);
    assert_eq!(2 + 2 + 2 + 4 + 4 + 4, MIN_OUTPUT_LEN);
    assert!(30 >= MIN_OUTPUT_LEN);
}

#[test]
fn mod_test_is_latching_hresult_deterministic_errors() {
    assert!(is_latching_hresult(WBEM_E_INVALID_METHOD_PARAMETERS));
    assert!(is_latching_hresult(WBEM_E_PROVIDER_FAILURE));
    assert!(is_latching_hresult(WBEM_E_INVALID_CLASS));
    assert!(is_latching_hresult(WBEM_E_NOT_FOUND));
    assert!(is_latching_hresult(WBEM_E_INVALID_METHOD));
    assert!(is_latching_hresult(WBEM_E_NOT_SUPPORTED));
    assert!(is_latching_hresult(WBEM_E_INVALID_PARAMETER));
}

#[test]
fn mod_test_is_latching_hresult_transient_errors() {
    assert!(!is_latching_hresult(0x80004003));
    assert!(!is_latching_hresult(0x80004005));
    assert!(!is_latching_hresult(WBEM_E_TIMED_OUT));
    assert!(!is_latching_hresult(0x80041017));
    assert!(!is_latching_hresult(0x800401F0));
    assert!(!is_latching_hresult(0x800706BA));
}

#[test]
fn mod_test_latch_into_stores_first_error_only() {
    let mut state = None::<EcError>;
    let first = EcError::WmiCallHResult(WBEM_E_PROVIDER_FAILURE);
    let returned = latch_into(
        &mut state,
        Some(WBEM_E_PROVIDER_FAILURE),
        first.clone(),
    );
    assert_eq!(returned.to_string(), first.to_string());

    let second = EcError::WmiCallHResult(WBEM_E_INVALID_CLASS);
    let _ = latch_into(&mut state, Some(WBEM_E_INVALID_CLASS), second);
    let latched = state.as_ref().expect("latched").to_string();
    assert_eq!(latched, first.to_string());
}

#[test]
fn mod_test_latch_into_force_on_missing_interface() {
    let mut state = None::<EcError>;
    let err = EcError::WmiInterfaceNotFound;
    let _ = latch_into(&mut state, None, err);
    assert!(state.is_some());
}

#[test]
fn mod_test_latch_into_ignores_transient() {
    let mut state = None::<EcError>;
    let _ = latch_into(
        &mut state,
        Some(0x80004005),
        EcError::WmiCallHResult(0x80004005),
    );
    assert!(state.is_none());
}

#[test]
fn mod_test_wmi_rawcode_for_percent_exact() {
    assert_eq!(wmi_rawcode_for_percent(100), Some(0));
    assert_eq!(wmi_rawcode_for_percent(80), Some(1));
    assert_eq!(wmi_rawcode_for_percent(90), Some(4));
    assert_eq!(wmi_rawcode_for_percent(70), Some(5));
    assert_eq!(wmi_rawcode_for_percent(60), Some(6));
    assert_eq!(wmi_rawcode_for_percent(50), Some(7));
    assert_eq!(wmi_rawcode_for_percent(40), Some(8));
}

#[test]
fn mod_test_wmi_rawcode_for_percent_nearest() {
    assert_eq!(wmi_rawcode_for_percent(85), Some(1));
    assert_eq!(wmi_rawcode_for_percent(55), Some(6));
    assert_eq!(wmi_rawcode_for_percent(95), Some(0));
    assert_eq!(wmi_rawcode_for_percent(45), Some(7));
}

#[test]
fn wmi_test_escape_instance_name() {
    assert_eq!(escape_instance_name("MIFS"), "MIFS");
    assert_eq!(
        escape_instance_name("ACPI\\PNP0C14\\MIFS_0"),
        "ACPI\\\\PNP0C14\\\\MIFS_0"
    );
    assert_eq!(escape_instance_name("a\"b"), "a\\\"b");
    assert_eq!(escape_instance_name("A\\B\"C"), "A\\\\B\\\"C");
}

#[test]
fn wmi_test_status_success_is_0x8000() {
    assert_eq!(WMI_STATUS_SUCCESS, 0x8000);
    let out = [0x00u8, 0x80, 0x00, 0x08, 0x09, 0x00];
    let status = u16::from_le_bytes([out[0], out[1]]);
    assert_eq!(status, WMI_STATUS_SUCCESS);
    let fail = [0x00u8, 0x00];
    assert_ne!(u16::from_le_bytes([fail[0], fail[1]]), WMI_STATUS_SUCCESS);
}

#[test]
fn wmi_test_output_min_length_is_18() {
    assert_eq!(MIN_OUTPUT_LEN, 18);
    assert_eq!(2 + 2 + 2 + 4 + 4 + 4, MIN_OUTPUT_LEN);
    assert!(30 >= MIN_OUTPUT_LEN);
}

#[test]
fn wmi_test_is_latching_hresult_deterministic_errors() {
    assert!(is_latching_hresult(WBEM_E_INVALID_METHOD_PARAMETERS));
    assert!(is_latching_hresult(WBEM_E_PROVIDER_FAILURE));
    assert!(is_latching_hresult(WBEM_E_INVALID_CLASS));
    assert!(is_latching_hresult(WBEM_E_NOT_FOUND));
    assert!(is_latching_hresult(WBEM_E_INVALID_METHOD));
    assert!(is_latching_hresult(WBEM_E_NOT_SUPPORTED));
    assert!(is_latching_hresult(WBEM_E_INVALID_PARAMETER));
}

#[test]
fn wmi_test_is_latching_hresult_transient_errors() {
    assert!(!is_latching_hresult(0x80004003));
    assert!(!is_latching_hresult(0x80004005));
    assert!(!is_latching_hresult(WBEM_E_TIMED_OUT));
    assert!(!is_latching_hresult(0x80041017));
    assert!(!is_latching_hresult(0x800401F0));
    assert!(!is_latching_hresult(0x800706BA));
}

#[test]
fn wmi_test_latch_into_stores_first_error_only() {
    let mut state = None::<EcError>;
    let first = EcError::WmiCallHResult(WBEM_E_PROVIDER_FAILURE);
    let returned = latch_into(&mut state, Some(WBEM_E_PROVIDER_FAILURE), first.clone());
    assert_eq!(returned.to_string(), first.to_string());

    let second = EcError::WmiCallHResult(WBEM_E_INVALID_CLASS);
    let _ = latch_into(&mut state, Some(WBEM_E_INVALID_CLASS), second);
    let latched = state.as_ref().expect("latched").to_string();
    assert_eq!(latched, first.to_string());
}

#[test]
fn wmi_test_latch_into_force_on_missing_interface() {
    let mut state = None::<EcError>;
    let err = EcError::WmiInterfaceNotFound;
    let _ = latch_into(&mut state, None, err);
    assert!(state.is_some());
}

#[test]
fn wmi_test_latch_into_ignores_transient() {
    let mut state = None::<EcError>;
    let _ = latch_into(&mut state, Some(0x80004005), EcError::WmiCallHResult(0x80004005));
    assert!(state.is_none());
}

#[test]
fn wmi_test_wmi_rawcode_for_percent_exact() {
    assert_eq!(wmi_rawcode_for_percent(100).unwrap(), 0);
    assert_eq!(wmi_rawcode_for_percent(80).unwrap(), 1);
    assert_eq!(wmi_rawcode_for_percent(90).unwrap(), 4);
    assert_eq!(wmi_rawcode_for_percent(70).unwrap(), 5);
    assert_eq!(wmi_rawcode_for_percent(60).unwrap(), 6);
    assert_eq!(wmi_rawcode_for_percent(50).unwrap(), 7);
    assert_eq!(wmi_rawcode_for_percent(40).unwrap(), 8);
}

#[test]
fn wmi_test_wmi_rawcode_for_percent_nearest() {
    assert_eq!(wmi_rawcode_for_percent(85).unwrap(), 1);
    assert_eq!(wmi_rawcode_for_percent(55).unwrap(), 6);
    assert_eq!(wmi_rawcode_for_percent(95).unwrap(), 0);
    assert_eq!(wmi_rawcode_for_percent(45).unwrap(), 7);
}

/// The code of a call that timed out.
const WBEM_E_TIMED_OUT: u32 = 0x8004_1069;

#[test]
fn mod_test_wmi_backend_is_send_sync() {
    fn assert_send_sync<T: Send + Sync>() {}
    assert_send_sync::<WmiCalls>();
}

#[test]
fn wmi_test_wmi_backend_is_send_sync() {
    fn assert_send_sync<T: Send + Sync>() {}
    assert_send_sync::<WmiCalls>();
}

#[test]
fn test_dead_worker_wedges_backend() {
    let mut calls = WmiCalls::new();
    assert!(!calls.is_wedged());
    calls.begin().unwrap();
    match calls.send_failed() {
        EcError::BackendUnavailable(_) => {}
        other => panic!("expected BackendUnavailable, got {:?}", other),
    }
    assert!(calls.is_wedged(), "dead worker must wedge the backend");
    assert_eq!(
        calls.begin().unwrap_err().to_string(),
        "后端不可用: WMI worker 无响应（超时熔断，请切换后端重试）"
    );
}

#[test]
fn test_recv_reply_discards_stale_seq() {
    let mut calls = WmiCalls::new();
    let stale = Arrival::Reply(5, WmiReply::PerfMode(Ok(0x77)));
    assert!(matches!(calls.received(7, stale), Receipt::Wait));
    let current = Arrival::Reply(7, WmiReply::PerfMode(Ok(0x99)));
    match calls.received(7, current) {
        Receipt::Take(WmiReply::PerfMode(Ok(mode))) => {
            assert_eq!(mode, 0x99, "stale reply must be discarded")
        }
        _ => panic!("seq=7 reply must be returned"),
    }
    assert!(!calls.is_wedged());
}

#[test]
fn a_silent_or_lost_worker_is_given_up() {
    let mut calls = WmiCalls::new();
    match calls.received(1, Arrival::TimedOut) {
        Receipt::Fail(e) => {
            assert_eq!(e.to_string(), "后端不可用: WMI worker 无响应（超时熔断）")
        }
        _ => panic!("a timeout ends the call"),
    }
    assert!(calls.is_wedged());

    let mut calls = WmiCalls::new();
    match calls.received(1, Arrival::Disconnected) {
        Receipt::Fail(e) => assert_eq!(e.to_string(), "后端不可用: WMI worker 无响应"),
        _ => panic!("a lost worker ends the call"),
    }
    assert!(calls.is_wedged());
}

#[test]
fn calls_are_numbered_and_numbers_start_again() {
    let mut calls = WmiCalls::new();
    assert_eq!(calls.begin().unwrap(), 1);
    assert_eq!(calls.begin().unwrap(), 2);
    calls.next_seq = u64::MAX;
    assert_eq!(calls.begin().unwrap(), u64::MAX);
    assert_eq!(calls.begin().unwrap(), 0);
    assert_eq!(wait_left(10, 15), Some(5));
    assert_eq!(wait_left(15, 15), None);
}

#[test]
fn test_await_handshake_times_out() {
    let err = await_handshake(None).expect_err("no handshake reply must time out");
    assert!(
        err.to_string().contains("握手超时"),
        "unexpected error: {}",
        err.to_string()
    );
}

#[test]
fn test_await_handshake_success() {
    await_handshake(Some(WmiReply::Unit(Ok(())))).expect("success handshake");
}

#[test]
fn test_await_handshake_propagates_error() {
    let err = await_handshake(Some(WmiReply::Unit(Err(EcError::WmiInterfaceNotFound))))
        .expect_err("must fail");
    assert!(
        err.to_string().contains("MICommonInterface"),
        "unexpected: {}",
        err.to_string()
    );
}

#[test]
fn test_await_handshake_wrong_reply_kind() {
    let err = await_handshake(Some(WmiReply::PerfMode(Ok(0)))).expect_err("must fail");
    assert!(
        err.to_string().contains("握手响应异常"),
        "unexpected: {}",
        err.to_string()
    );
}

#[test]
fn test_connect_retry_budget_within_handshake_timeout() {
    assert!(CONNECT_ATTEMPTS >= 2, "retry loop must be meaningful");
    let total_backoff = (CONNECT_ATTEMPTS - 1) as u64 * CONNECT_RETRY_DELAY_MS;
    assert!(
        total_backoff * 10 < HANDSHAKE_TIMEOUT_MS * 8,
        "retry backoff {}ms too close to handshake timeout {}ms",
        total_backoff,
        HANDSHAKE_TIMEOUT_MS
    );
}

#[test]
fn connecting_is_tried_four_times() {
    let failed = || Err(EcError::WmiInterfaceNotFound);
    assert!(matches!(
        after_connect_attempt(1, Ok(())),
        ConnectStep::Connected
    ));
    assert!(matches!(
        after_connect_attempt(3, failed()),
        ConnectStep::Retry
    ));
    assert!(matches!(
        after_connect_attempt(4, failed()),
        ConnectStep::GiveUp(EcError::WmiInterfaceNotFound)
    ));
}

#[test]
fn com_may_already_be_initialised() {
    assert!(ensure_com(0, "").is_ok());
    assert!(ensure_com(1, "").is_ok());
    assert!(ensure_com(0x8001_0106, "x").is_err());
    assert!(ensure_com(0x8000_4005, "x").is_err());
}

#[test]
fn replies_of_the_wrong_kind_are_errors() {
    let wrong = "后端不可用: WMI worker 响应异常";
    assert_eq!(
        unit(WmiReply::PerfMode(Ok(1))).unwrap_err().to_string(),
        wrong
    );
    assert_eq!(
        battery(WmiReply::PerfMode(Ok(1))).unwrap_err().to_string(),
        wrong
    );
    assert_eq!(
        perf(WmiReply::BatteryState(Ok((true, 1))))
            .unwrap_err()
            .to_string(),
        wrong
    );
    assert_eq!(perf(WmiReply::PerfMode(Ok(9))).unwrap(), 9);
    assert_eq!(
        battery(WmiReply::BatteryState(Ok((true, 80)))).unwrap(),
        (true, 80)
    );
    assert!(unit(WmiReply::Unit(Ok(()))).is_ok());
    let lost = || WmiReply::Unit(Err(EcError::WmiInterfaceNotFound));
    assert!(matches!(perf(lost()), Err(EcError::WmiInterfaceNotFound)));
    assert!(matches!(
        battery(lost()),
        Err(EcError::WmiInterfaceNotFound)
    ));
}

#[test]
fn commands_become_calls() {
    assert_eq!(WmiCmd::SetChargeLimit(1).name(), "SetChargeLimit");
    assert!(matches!(request_for(WmiCmd::Quit), Request::Stop));
    assert!(matches!(
        request_for(WmiCmd::SetBatteryCare(true)),
        Request::Answer(WmiReply::Unit(Ok(())))
    ));
    assert!(matches!(
        request_for(WmiCmd::SetChargeLimit(0)),
        Request::Answer(WmiReply::Unit(Err(EcError::InvalidData(_))))
    ));
    match request_for(WmiCmd::SetChargeLimit(85)) {
        Request::Call(buffer) => assert_eq!(buffer, write_battery_cmd(1)),
        _ => panic!("a limit is written by a call"),
    }
    match request_for(WmiCmd::GetPerfMode) {
        Request::Call(buffer) => assert_eq!(buffer, read_perf_cmd()),
        _ => panic!("a mode is read by a call"),
    }
}

#[test]
fn what_was_written_is_read_back() {
    for (written, care, limit) in [(40, true, 40), (73, true, 70), (100, false, 100), (200, false, 100)] {
        let answer = match request_for(WmiCmd::SetChargeLimit(written)) {
            Request::Call(buffer) => buffer,
            _ => panic!("a limit is written by a call"),
        };
        match reply_for(WmiCmd::GetBatteryState, Ok(answer)) {
            WmiReply::BatteryState(Ok(state)) => assert_eq!(state, (care, limit)),
            _ => panic!("the limit {} is read back", written),
        }
    }
    for mode in [0x02, 0x03, 0x04, 0x09, 0x0A] {
        let answer = match request_for(WmiCmd::SetPerfMode(mode)) {
            Request::Call(buffer) => buffer,
            _ => panic!("a mode is written by a call"),
        };
        match reply_for(WmiCmd::GetPerfMode, Ok(answer)) {
            WmiReply::PerfMode(Ok(read)) => assert_eq!(read, mode),
            _ => panic!("the mode {} is read back", mode),
        }
    }
}

#[test]
fn a_worker_that_was_given_up_stays_so() {
    let mut calls = WmiCalls::new();
    let _ = calls.received(1, Arrival::TimedOut);
    let late = Arrival::Reply(1, WmiReply::PerfMode(Ok(0x09)));
    assert!(matches!(calls.received(1, late), Receipt::Take(_)));
    assert!(calls.is_wedged());
    assert!(calls.begin().is_err());
    assert!(calls.is_wedged());
}

#[test]
fn answers_are_checked_before_they_are_read() {
    assert!(matches!(
        parse_answer(&vec![0; 17]),
        Err(EcError::WmiCallFailed(0))
    ));
    let mut answer = vec![0u8; 30];
    answer[0] = 0x01;
    assert!(matches!(
        parse_answer(&answer),
        Err(EcError::WmiCallFailed(1))
    ));
    answer[0] = 0x00;
    answer[1] = 0x80;
    answer[4] = 0x09;
    answer[6] = 0x01;
    let fields = parse_answer(&answer).unwrap();
    assert_eq!(&fields[..30], &answer[..]);
    assert_eq!(&fields[30..], &[0, 0]);
    assert!(matches!(
        reply_for(WmiCmd::GetBatteryState, Ok(fields)),
        WmiReply::BatteryState(Ok((true, 80)))
    ));
    assert!(matches!(
        reply_for(WmiCmd::GetPerfMode, Ok(fields)),
        WmiReply::PerfMode(Ok(9))
    ));
    assert!(matches!(
        reply_for(WmiCmd::SetPerfMode(9), Ok(fields)),
        WmiReply::Unit(Ok(()))
    ));
    assert_eq!(
        battery_state_from_code(2).unwrap_err().to_string(),
        "硬件返回无效数据: WMI 充电上限 raw code 0x02 未定义"
    );
}

fn raw(name: &str, active: bool) -> RawInstance {
    RawInstance {
        name: Some(name.to_string()),
        active: Some(active),
    }
}

/// Takes a session through a whole call; every answer is a success.
fn call(session: &mut Session, answer: Vec<u8>) -> (Vec<String>, Result<[u8; 32], EcError>) {
    let mut seen = Vec::new();
    let mut step = session.begin();
    loop {
        step = match step {
            CallStep::ListInstances => {
                seen.push("list".to_string());
                session.instances_listed(Ok(vec![
                    raw("other", true),
                    raw("ACPI\\PNP0C14\\MIFS_0", true),
                ]))
            }
            CallStep::GetClass => {
                seen.push("class".to_string());
                session.class_found(Lookup::Found)
            }
            CallStep::GetMethod => {
                seen.push("method".to_string());
                session.method_found(Lookup::Found, Some(vec!["InData".to_string()]))
            }
            CallStep::PutInput(name) => {
                seen.push(format!("put {}", name));
                session.input_put(InputResult::Put)
            }
            CallStep::Execute(path) => {
                seen.push(format!("execute {}", path));
                session.executed(ExecResult::Started)
            }
            CallStep::AwaitResult => {
                seen.push("await".to_string());
                session.result_came(Ok(None))
            }
            CallStep::GetOutput(name) => {
                seen.push(format!("get {}", name));
                session.output_read(OutputResult::Bytes(answer.clone()))
            }
            CallStep::Done(result) => return (seen, result),
        };
    }
}

#[test]
fn the_interface_is_looked_up_once() {
    let mut answer = vec![0u8; 18];
    answer[1] = 0x80;
    let mut session = Session::new();
    let (seen, result) = call(&mut session, answer.clone());
    assert!(result.is_ok());
    assert_eq!(seen[..3], ["list", "class", "method"]);
    assert_eq!(seen[3], "put InData");
    assert!(seen[4].contains("MIFS_0"));
    assert_eq!(seen[5..], ["await", "get OutData"]);

    let (seen, result) = call(&mut session, answer);
    assert!(result.is_ok());
    assert_eq!(seen.len(), 4);
    assert_eq!(seen[0], "put InData");
}

#[test]
fn a_final_error_ends_all_further_calls() {
    let mut session = Session::new();
    let failed = session.class_found(Lookup::Missing);
    assert!(matches!(
        failed,
        CallStep::Done(Err(EcError::WmiInterfaceNotFound))
    ));
    assert!(matches!(
        session.begin(),
        CallStep::Done(Err(EcError::WmiInterfaceNotFound))
    ));

    let mut session = Session::new();
    let failed = session.executed(ExecResult::Failed(0x8000_4005));
    assert!(matches!(
        failed,
        CallStep::Done(Err(EcError::WmiCallHResult(0x8000_4005)))
    ));
    assert!(matches!(session.begin(), CallStep::ListInstances));

    let failed = session.executed(ExecResult::Failed(WBEM_E_INVALID_METHOD));
    assert!(matches!(
        failed,
        CallStep::Done(Err(EcError::WmiCallHResult(WBEM_E_INVALID_METHOD)))
    ));
    assert!(matches!(
        session.begin(),
        CallStep::Done(Err(EcError::WmiCallHResult(WBEM_E_INVALID_METHOD)))
    ));
}
