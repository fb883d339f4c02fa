//! Access to the hardware: the two backends and how they are created.

pub mod addr;
pub mod backend;
pub mod connect;
pub mod embed;
pub mod error;
pub mod fn_watcher;
pub mod retry;
pub mod winring0;
pub mod wmi;
