//! Record/replay infrastructure for deterministic testing.

pub mod format;
pub mod recorder;
pub mod replayer;
pub mod theorems;
