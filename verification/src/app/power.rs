//! The power supply: its state, a snapshot of it, and the port that reads it.

use vstd::prelude::*;

verus! {

/// What the machine runs on.
///
/// `Unknown` is a state of its own: a failed query is not taken for battery power, so
/// nothing is degraded on a guess.
#[derive(Debug, Clone, Copy, PartialEq, Eq, Structural)]
pub enum PowerStatus {
    /// Mains power.
    OnAc,
    /// Battery power.
    OnBattery,
    /// The state could not be read.
    Unknown,
}

/// One reading of the power supply and of the battery's charge.
#[derive(Debug, Clone, Copy, PartialEq, Eq, Structural)]
pub struct PowerSnapshot {
    /// What the machine runs on.
    pub status: PowerStatus,
    /// The charge in percent; `None` where it is unknown or no battery is fitted.
    pub battery_percent: Option<u8>,
}

/// The port through which the power supply is read.
pub trait PowerSource: Send + Sync {
    /// Reads the power supply once.
    fn snapshot(&self) -> (r: PowerSnapshot);
}

} // verus!
