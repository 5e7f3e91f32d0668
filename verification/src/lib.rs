//! Hardware-identity snapshot and drift-detection engine.
//!
//! The library normalizes raw platform identity strings, renders a snapshot
//! to a durable text format, reparses that format into a baseline, diffs a
//! live snapshot against the baseline, and evaluates how locked down the
//! current platform is.  Data collection and presentation live outside.

pub mod advice;
pub mod baseboard;
pub mod baseline;
pub mod bios;
pub mod chars;
pub mod chassis;
pub mod compare;
pub mod disk;
pub mod gpu;
pub mod monitor;
pub mod network;
pub mod normalize;
pub mod parse;
pub mod posture;
pub mod processor;
pub mod round_trip;
pub mod serialize;
pub mod session;
pub mod snapshot;
pub mod system;
pub mod tabs;
