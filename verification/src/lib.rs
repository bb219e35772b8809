//! Serial port capture and control.
//!
//! A daemon holds serial ports, keeps everything they send in a queryable
//! capture, and serves a command line, a language model, an HTTP client and
//! monitor windows. This library is what it decides and computes; opening
//! devices, files and sockets is left to the program around it.
use vstd::prelude::*;

pub mod cli;
pub mod clock;
pub mod config;
pub mod engine;
pub mod esp;
pub mod export;
pub mod gui_ipc;
pub mod hex;
pub mod ipc;
pub mod json;
pub mod laws;
pub mod modem;
pub mod monitor;
pub mod paths;
pub mod pattern;
pub mod platform;
pub mod port_manager;
pub mod protocol;
pub mod reader;
pub mod rest;
pub mod serial_params;
pub mod server;
pub mod standalone;
pub mod state;
pub mod storage;
pub mod table;
pub mod text;

verus! {

/// Who holds the copyright, as the program shows it.
pub const COPYRIGHT: &'static str = "\u{a9} 2026 Fabian Schmieder";

} // verus!
