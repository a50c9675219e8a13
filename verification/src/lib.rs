//! Decision logic of an interactive terminal for a serial line.
//!
//! The terminal opens a character device, makes the line behind it raw at a
//! fixed symbol rate, and then carries bytes both ways: what the device says
//! goes to the console, and what the operator types goes to the device, line
//! by line, until the operator types `q!`.
//!
//! This crate decides; it does not touch the device, the console or the
//! clock. A program around it performs what the crate tells it to and reports
//! back what happened.
//!
//! - [`arguments`] and [`startup`] read the command line and decide whether
//!   the device is opened at all.
//! - [`baud`], [`modes`] and [`settings`] say what a raw line is and in
//!   which steps a device is brought to it.
//! - [`inbound`] and [`outbound`] decide, read by read, what is shown on the
//!   console and what is sent to the device.
//! - [`session`] follows the session from start-up to its exit status.
//! - [`text`] compares and trims text.

pub mod arguments;
pub mod baud;
pub mod inbound;
pub mod modes;
pub mod outbound;
pub mod session;
pub mod settings;
pub mod startup;
pub mod text;
