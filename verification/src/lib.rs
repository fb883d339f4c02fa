//! Battery care, charge limits and performance modes of Xiaomi laptops.

pub mod app;
pub mod commands;
pub mod ec;
pub mod fnkey;
pub mod gui;
pub mod text;
pub mod tray;
