//! Core of a desktop companion overlay: lifecycle of a single overlay window
//! and cross-window synchronization of a shared "condensed" display mode.
//!
//! The windowing toolkit (the "window host") is out of scope: it creates,
//! shows, focuses and delivers notifications to windows. This crate holds the
//! decisions — when to create the overlay rather than re-show it, how the mode
//! flag moves, which event is broadcast — as verified state machines. The
//! surrounding application performs each requested host action and reports its
//! outcome back.

pub mod broadcaster;
pub mod error;
pub mod event;
pub mod registry;
