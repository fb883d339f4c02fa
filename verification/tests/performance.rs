//! Performance modes.

use xiaomi_pc_manager_lite::app::performance::{effective_ec_value, next_cycle_mode, PerfMode, CYCLE};

#[test]
fn test_perf_mode_ec_values() {
    assert_eq!(PerfMode::Eco.ec_value(), 0x0A);
    assert_eq!(PerfMode::Quiet.ec_value(), 0x02);
    assert_eq!(PerfMode::Smart.ec_value(), 0x09);
    assert_eq!(PerfMode::Fast.ec_value(), 0x03);
    assert_eq!(PerfMode::Extreme.ec_value(), 0x04);
}

#[test]
fn test_from_ec_value_valid() {
    assert_eq!(PerfMode::from_ec_value(0x0A), Some(PerfMode::Eco));
    assert_eq!(PerfMode::from_ec_value(0x02), Some(PerfMode::Quiet));
    assert_eq!(PerfMode::from_ec_value(0x09), Some(PerfMode::Smart));
    assert_eq!(PerfMode::from_ec_value(0x03), Some(PerfMode::Fast));
    assert_eq!(PerfMode::from_ec_value(0x04), Some(PerfMode::Extreme));
}

#[test]
fn test_from_ec_value_invalid() {
    assert_eq!(PerfMode::from_ec_value(0x00), None);
    assert_eq!(PerfMode::from_ec_value(0x01), None);
    assert_eq!(PerfMode::from_ec_value(0x05), None);
    assert_eq!(PerfMode::from_ec_value(0x06), None);
    assert_eq!(PerfMode::from_ec_value(0x07), None);
    assert_eq!(PerfMode::from_ec_value(0x08), None);
    assert_eq!(PerfMode::from_ec_value(0x0B), None);
    assert_eq!(PerfMode::from_ec_value(0xFF), None);
}

#[test]
fn test_name() {
    assert_eq!(PerfMode::Eco.name(), "节能");
    assert_eq!(PerfMode::Quiet.name(), "静音");
    assert_eq!(PerfMode::Smart.name(), "智能");
    assert_eq!(PerfMode::Fast.name(), "极速");
    assert_eq!(PerfMode::Extreme.name(), "狂暴");
}

#[test]
fn test_all() {
    let all = PerfMode::all();
    assert_eq!(all.len(), 5);
    assert_eq!(all[0], PerfMode::Eco);
    assert_eq!(all[1], PerfMode::Quiet);
    assert_eq!(all[2], PerfMode::Smart);
    assert_eq!(all[3], PerfMode::Fast);
    assert_eq!(all[4], PerfMode::Extreme);
}

#[test]
fn test_smart_is_default() {
    assert_eq!(PerfMode::Smart.ec_value(), 0x09);
}

#[test]
fn test_from_ec_value_roundtrip() {
    for mode in PerfMode::all() {
        let val = mode.ec_value();
        assert_eq!(PerfMode::from_ec_value(val), Some(*mode));
    }
}

#[test]
fn test_perf_mode_debug() {
    assert_eq!(format!("{:?}", PerfMode::Eco), "Eco");
    assert_eq!(format!("{:?}", PerfMode::Quiet), "Quiet");
    assert_eq!(format!("{:?}", PerfMode::Smart), "Smart");
    assert_eq!(format!("{:?}", PerfMode::Fast), "Fast");
    assert_eq!(format!("{:?}", PerfMode::Extreme), "Extreme");
}

#[test]
fn test_perf_mode_descriptions_nonempty_distinct() {
    let mut descs: Vec<&str> = PerfMode::all().iter().map(|m| m.description()).collect();
    assert!(
        descs.iter().all(|d| !d.is_empty()),
        "every mode must have a non-empty description"
    );
    descs.sort();
    descs.dedup();
    assert_eq!(
        descs.len(),
        PerfMode::all().len(),
        "mode descriptions must be distinct"
    );
}

#[test]
fn test_effective_ec_value_guard() {
    assert_eq!(
        effective_ec_value(PerfMode::Extreme.ec_value(), false),
        PerfMode::Fast.ec_value()
    );
    assert_eq!(
        effective_ec_value(PerfMode::Extreme.ec_value(), true),
        PerfMode::Extreme.ec_value()
    );
    assert_eq!(
        effective_ec_value(PerfMode::Smart.ec_value(), false),
        PerfMode::Smart.ec_value()
    );
    assert_eq!(
        effective_ec_value(PerfMode::Quiet.ec_value(), true),
        PerfMode::Quiet.ec_value()
    );
    assert_eq!(
        effective_ec_value(PerfMode::Fast.ec_value(), false),
        PerfMode::Fast.ec_value()
    );
}

#[test]
fn test_cycle_progresses_in_order() {
    assert_eq!(next_cycle_mode(PerfMode::Smart), PerfMode::Quiet);
    assert_eq!(next_cycle_mode(PerfMode::Quiet), PerfMode::Extreme);
    assert_eq!(next_cycle_mode(PerfMode::Extreme), PerfMode::Smart);
}

#[test]
fn test_cycle_unknown_mode_restarts_from_first() {
    assert_eq!(next_cycle_mode(PerfMode::Eco), PerfMode::Smart);
    assert_eq!(next_cycle_mode(PerfMode::Fast), PerfMode::Smart);
}

#[test]
fn test_cycle_is_nonempty_distinct_valid() {
    assert!(!CYCLE.is_empty());
    let distinct: std::collections::HashSet<PerfMode> = CYCLE.iter().copied().collect();
    assert_eq!(
        distinct.len(),
        CYCLE.len(),
        "CYCLE must not contain duplicates"
    );
    for m in CYCLE.iter() {
        assert_eq!(PerfMode::from_ec_value(m.ec_value()), Some(*m));
    }
}

#[test]
fn names_and_descriptions_of_unknown_codes() {
    assert_eq!(PerfMode::name_or_unknown(0x09), "智能");
    assert_eq!(PerfMode::name_or_unknown(0xFF), "未知");
    assert_eq!(effective_ec_value(0xFF, false), 0xFF);
}
