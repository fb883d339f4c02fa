//! Talking to the embedded controller through its two ports.

use std::cell::Cell;
use xiaomi_pc_manager_lite::app::ec::EcError;
use xiaomi_pc_manager_lite::ec::embed::arch_file_names;
use xiaomi_pc_manager_lite::ec::retry::Attempts;
use xiaomi_pc_manager_lite::ec::winring0::{
    after_init_attempt, after_service_poll, battery_state_from_register,
    charge_limit_from_register, ec_addr_u8, ec_wait_again, ec_wait_status, extraction_error,
    get_charge_limit, get_performance_mode, read_byte, removes_stale_service, retry_transient, set_battery_care,
    set_charge_limit, set_performance_mode, write_byte, InitStep, PortAction, ServiceWait,
    Transfer, Wait, MAX_POLLS, SPIN_POLLS,
};

/// Polls a status that never changes, for as long as the library wants.
fn wait(status: u8, mask: u8, expected: u8) -> Result<(), EcError> {
    let mut polls = 0;
    loop {
        ec_wait_again(polls)?;
        if ec_wait_status(polls, status, mask, expected) == Wait::Ready {
            return Ok(());
        }
        polls += 1;
    }
}

#[test]
fn test_ec_wait_status_immediate_success() {
    let result = wait(0x02, 0x02, 0x02);
    assert!(result.is_ok(), "mask-matched status must succeed");
}

#[test]
fn test_ec_wait_status_timeout_when_busy() {
    let result = wait(0x00, 0x02, 0x02);
    assert!(
        matches!(result, Err(EcError::Timeout(_))),
        "never-ready EC status must time out"
    );
    let trace = run(read_byte(0x68).unwrap(), |_| 0x02, 0);
    assert_eq!(trace.written, vec![]);
    assert_eq!(trace.end, Err("EC 操作超时 (地址: 0x66)".to_string()));
}

#[test]
fn test_ec_wait_status_masked_compare() {
    assert!(wait(0x03, 0x02, 0x02).is_ok());
    assert!(matches!(
        wait(0x03, 0x04, 0x04),
        Err(EcError::Timeout(_))
    ));
}

#[test]
fn the_status_is_read_a_thousand_times() {
    assert!(ec_wait_again(MAX_POLLS - 1).is_ok());
    assert_eq!(
        ec_wait_again(MAX_POLLS).unwrap_err().to_string(),
        "EC 操作超时 (地址: 0x66)"
    );
}

#[test]
fn waiting_spins_at_first_and_sleeps_later() {
    assert_eq!(ec_wait_status(0, 0x02, 0x02, 0x00), Wait::Spin);
    assert_eq!(ec_wait_status(SPIN_POLLS - 1, 0x02, 0x02, 0x00), Wait::Spin);
    assert_eq!(ec_wait_status(SPIN_POLLS, 0x02, 0x02, 0x00), Wait::Sleep);
    assert_eq!(ec_wait_status(999, 0xFD, 0x02, 0x00), Wait::Ready);
}

#[test]
fn test_arch_file_names_consistent() {
    let (dll, sys) = arch_file_names();
    assert!(!dll.is_empty() && !sys.is_empty());
    if usize::BITS == 64 {
        assert_eq!(dll, "WinRing0x64.dll");
        assert_eq!(sys, "WinRing0x64.sys");
    } else {
        assert_eq!(dll, "WinRing0.dll");
        assert_eq!(sys, "WinRing0.sys");
    }
}

#[test]
fn test_retry_transient_recovers_or_reports() {
    let calls = Cell::new(0);
    let ok = retry_transient(&mut Attempts::new(|| {
        calls.set(calls.get() + 1);
        if calls.get() == 1 {
            Err(EcError::Timeout(0x66))
        } else {
            Ok(42u8)
        }
    }));
    assert_eq!(ok.unwrap(), 42);
    assert_eq!(
        calls.get(),
        2,
        "must retry exactly once after transient failure"
    );

    let calls = Cell::new(0);
    let err: Result<u8, EcError> = retry_transient(&mut Attempts::new(|| {
        calls.set(calls.get() + 1);
        Err(EcError::Timeout(0x66))
    }));
    assert!(matches!(err, Err(EcError::Timeout(0x66))));
    assert_eq!(calls.get(), 2, "must not retry endlessly");

    let calls = Cell::new(0);
    let ok = retry_transient(&mut Attempts::new(|| {
        calls.set(calls.get() + 1);
        Ok(1u8)
    }));
    assert_eq!(ok.unwrap(), 1);
    assert_eq!(calls.get(), 1);
}

#[test]
fn test_ec_addr_u8_rejects_overflow() {
    assert_eq!(ec_addr_u8(0x68).unwrap(), 0x68);
    assert_eq!(ec_addr_u8(0xA7).unwrap(), 0xA7);
    assert_eq!(ec_addr_u8(0x00).unwrap(), 0x00);
    assert_eq!(ec_addr_u8(0xFF).unwrap(), 0xFF);
    assert!(matches!(ec_addr_u8(0x100), Err(EcError::InvalidData(_))));
    assert!(matches!(ec_addr_u8(0x168), Err(EcError::InvalidData(_))));
    assert_eq!(
        ec_addr_u8(0x168).unwrap_err().to_string(),
        "硬件返回无效数据: EC 寄存器地址 0x0168 超出 8 位范围"
    );
}

/// What a transfer did to the ports, and how it ended.
#[derive(Debug, PartialEq)]
struct Trace {
    written: Vec<(u16, u8)>,
    data_reads: u32,
    status_reads: u32,
    sleeps: u32,
    end: Result<Option<u8>, String>,
}

/// Runs a transfer against a controller with a fixed status and data byte.
fn run(mut transfer: Transfer, status: impl Fn(u32) -> u8, data: u8) -> Trace {
    let mut trace = Trace {
        written: Vec::new(),
        data_reads: 0,
        status_reads: 0,
        sleeps: 0,
        end: Ok(None),
    };
    let mut input = 0u8;
    loop {
        match transfer.advance(input) {
            PortAction::ReadStatus => {
                input = status(trace.status_reads);
                trace.status_reads += 1;
            }
            PortAction::ReadData => {
                input = data;
                trace.data_reads += 1;
            }
            PortAction::WritePort { port, value } => trace.written.push((port, value)),
            PortAction::Spin => {}
            PortAction::Sleep => trace.sleeps += 1,
            PortAction::DoneRead(byte) => {
                trace.end = Ok(Some(byte));
                return trace;
            }
            PortAction::DoneWrite => return trace,
            PortAction::Failed(e) => {
                trace.end = Err(e.to_string());
                return trace;
            }
        }
    }
}

#[test]
fn a_read_sends_command_and_register_and_fetches_one_byte() {
    let trace = run(read_byte(0xA7).unwrap(), |_| 0x01, 80);
    assert_eq!(
        trace,
        Trace {
            written: vec![(0x66, 0x80), (0x62, 0xA7)],
            data_reads: 1,
            status_reads: 3,
            sleeps: 0,
            end: Ok(Some(80)),
        }
    );
}

#[test]
fn a_write_sends_command_register_and_byte() {
    let trace = run(write_byte(0x68, 0x09).unwrap(), |_| 0x00, 0);
    assert_eq!(
        trace,
        Trace {
            written: vec![(0x66, 0x81), (0x62, 0x68), (0x62, 0x09)],
            data_reads: 0,
            status_reads: 4,
            sleeps: 0,
            end: Ok(None),
        }
    );
}

#[test]
fn a_busy_controller_is_given_up() {
    let trace = run(write_byte(0x68, 0x09).unwrap(), |_| 0x02, 0);
    assert_eq!(trace.written, vec![]);
    assert_eq!(trace.status_reads, 1001);
    assert_eq!(trace.sleeps, 900);
    assert_eq!(trace.end, Err("EC 操作超时 (地址: 0x66)".to_string()));
}

#[test]
fn a_late_byte_is_drained_before_a_read_fails() {
    let trace = run(read_byte(0x68).unwrap(), |_| 0x00, 0x55);
    assert_eq!(trace.written.len(), 2);
    assert_eq!(trace.data_reads, 1);
    assert_eq!(trace.end, Err("EC 操作超时 (地址: 0x66)".to_string()));
}

#[test]
fn a_controller_that_becomes_ready_is_waited_for() {
    let trace = run(read_byte(0x68).unwrap(), |n| if n < 5 { 0x02 } else { 0x01 }, 7);
    assert_eq!(trace.status_reads, 8);
    assert_eq!(trace.end, Ok(Some(7)));
}

#[test]
fn settings_go_to_their_registers() {
    let ready = |_: u32| 0x01u8;
    let register = |t: &Trace| t.written[1].1;
    let t = run(get_charge_limit(), ready, 80);
    assert_eq!((register(&t), t.end), (0xA7, Ok(Some(80))));
    let t = run(get_performance_mode(), ready, 9);
    assert_eq!((register(&t), t.end), (0x68, Ok(Some(9))));

    let free = |_: u32| 0x00u8;
    let last = |t: &Trace| (t.written[1].1, t.written[2].1);
    assert_eq!(last(&run(set_battery_care(true), free, 0)), (0xA4, 0x01));
    assert_eq!(last(&run(set_battery_care(false), free, 0)), (0xA4, 0x00));
    assert_eq!(last(&run(set_performance_mode(4), free, 0)), (0x68, 4));
    assert_eq!(
        last(&run(set_charge_limit(60).unwrap(), free, 0)),
        (0xA7, 60)
    );
    assert_eq!(
        last(&run(set_charge_limit(150).unwrap(), free, 0)),
        (0xA7, 100)
    );
    assert!(matches!(set_charge_limit(0), Err(EcError::InvalidData(_))));
    assert!(matches!(read_byte(0x100), Err(EcError::InvalidData(_))));
    assert!(matches!(write_byte(0x100, 1), Err(EcError::InvalidData(_))));
}

#[test]
fn garbage_in_the_limit_register_is_an_error() {
    assert_eq!(charge_limit_from_register(80).unwrap(), 80);
    assert_eq!(
        charge_limit_from_register(0xFF).unwrap_err().to_string(),
        "硬件返回无效数据: 充电上限寄存器值 0xff 非法"
    );
    assert!(charge_limit_from_register(0).is_err());
    assert_eq!(battery_state_from_register(80).unwrap(), (true, 80));
    assert_eq!(battery_state_from_register(100).unwrap(), (false, 100));
    assert!(battery_state_from_register(101).is_err());
}

#[test]
fn the_driver_is_started_at_most_three_times() {
    assert!(matches!(after_init_attempt(0, true, 0), InitStep::Started));
    assert!(matches!(after_init_attempt(0, false, 5), InitStep::Retry));
    assert!(matches!(after_init_attempt(1, false, 5), InitStep::Retry));
    match after_init_attempt(2, false, 0x1F) {
        InitStep::GiveUp(e) => {
            assert_eq!(e.to_string(), "WinRing0 初始化失败: 错误码: 0x1f")
        }
        _ => panic!("the third failure is the last"),
    }
}

#[test]
fn a_stale_service_is_removed_only_without_a_live_backend() {
    assert!(removes_stale_service(0));
    assert!(!removes_stale_service(1));
    assert_eq!(after_service_poll(0, false), ServiceWait::Gone);
    assert_eq!(after_service_poll(0, true), ServiceWait::Again);
    assert_eq!(after_service_poll(28, true), ServiceWait::Again);
    assert_eq!(after_service_poll(29, true), ServiceWait::Stays);
}

#[test]
fn an_extraction_error_names_the_library() {
    assert_eq!(
        extraction_error("WinRing0x64.dll", "拒绝访问").to_string(),
        "WinRing0 DLL 加载失败: WinRing0x64.dll 提取失败: 拒绝访问"
    );
}
