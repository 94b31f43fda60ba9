//! Core of a firmware that toggles an LED on every edge seen on an
//! interrupt-capable input line.
//!
//! The crate holds the decisions of such a firmware and a model of the board
//! it runs on; the register accesses themselves belong to the binary that
//! links it.
//!
//! - [`registry`]: the slots through which the startup routine hands the
//!   peripheral handles to the interrupt handler.
//! - [`handler`]: the handler's own storage and its response to a run.
//! - [`startup`]: the order of the startup operations.
//! - [`level`] and [`line`]: logic levels, and the two lines as plain values.
//! - [`board`]: all of these together as a state machine, with the laws that
//!   hold of it.

pub mod board;
pub mod handler;
pub mod level;
pub mod line;
pub mod registry;
pub mod startup;
