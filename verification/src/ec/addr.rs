//! Addresses of the embedded controller.

use vstd::prelude::*;

verus! {

/// The register of the performance mode.
pub const PERF_MODE: u16 = 0x68;

/// The register that turns battery care on and off.
pub const BATTERY_CARE: u16 = 0xA4;

/// The register of the charge limit.
pub const CHARGE_LIMIT: u16 = 0xA7;

/// The command port; reading it gives the status.
pub const EC_CMD: u16 = 0x66;

/// The data port.
pub const EC_DATA: u16 = 0x62;

/// The registers of mode, care and limit, and the two ports.
pub proof fn law_addresses()
    ensures
        PERF_MODE == 0x68,
        BATTERY_CARE == 0xA4,
        CHARGE_LIMIT == 0xA7,
        EC_CMD == 0x66,
        EC_DATA == 0x62,
{
}

} // verus!
