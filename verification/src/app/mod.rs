//! The application core: the configuration, the charge limit and performance mode
//! policies, the function key bindings and the start-up sequence.
//!
//! Nothing here touches hardware. What does is reached through ports: traits such as
//! [`ec::EcBackend`] and [`power::PowerSource`].

pub mod battery;
pub mod command;
pub mod config;
pub mod ec;
pub mod fnkey;
pub mod hardware;
pub mod limits;
pub mod notify;
pub mod performance;
pub mod power;
pub mod recent;
pub mod sink;
pub mod startup;
