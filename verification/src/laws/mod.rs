//! What the operations promise, said of their inputs and results.
//!
//! The models beside the code say how a result is made up. The laws here say,
//! in bytes, numbers and words, what has to be true of it.
pub mod cli;
pub mod daemon;
pub mod engine;
pub mod faults;
pub mod modem;
pub mod places;
pub mod ports;
pub mod rest;
pub mod settings;
pub mod tools;
pub mod values;
pub mod windows;
