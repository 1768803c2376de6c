//! Core of a desktop brightness adjuster for external monitors that
//! speak DDC/CI: a registry of enumerated monitors, the policy for
//! interpreting the platform's brightness reads and writes, and the
//! state machine that drives the selector, slider and status line.
//!
//! The windowing toolkit and the platform's monitor primitives are
//! outside collaborators: they hand this crate plain values (an opaque
//! handle, a description, the raw outcome of a read or write) and take
//! plain decisions back.

pub mod controller;
pub mod monitor;
pub mod shell;
