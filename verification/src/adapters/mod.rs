//! The rules of the adapters that stand behind a port.
//!
//! - `live`: how a request is put to a service and its answer is read
//! - `recording`: how the outcome of a live call is written on a cassette
//! - `replaying`: how a recorded outcome is read back

pub mod live;
pub mod recording;
pub mod replaying;
