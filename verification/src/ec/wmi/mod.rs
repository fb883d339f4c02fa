//! The WMI backend.
//!
//! All calls to WMI are made by one worker thread, which callers reach through a channel.
//! `protocol` is the wire format, `worker` says what the worker does with a command,
//! `session` takes it through one call step by step, and `backend` is the calling side.

pub mod backend;
pub mod protocol;
pub mod session;
pub mod worker;
