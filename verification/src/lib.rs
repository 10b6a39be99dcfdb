//! Control core for a multi-slot drink dispenser.
//!
//! The crate models the hardware topology (1-wire addressable slots and
//! GPIO-driven slots), resolves a raw key/value configuration into a
//! validated [`config::ConfigData`], and drives the drop actuation
//! sequence as a verified state machine. All hardware I/O (device files,
//! GPIO lines, sleeps) is performed by the surrounding binary, which asks
//! the state machines here what to do next and reports back what happened.

pub mod config;
pub mod latch;
pub mod machine;
pub mod text;
