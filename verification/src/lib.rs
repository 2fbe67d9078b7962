//! Verified core of a tray application that keeps a Windows machine awake.

pub mod helper;
pub mod ui;
pub mod win32;
