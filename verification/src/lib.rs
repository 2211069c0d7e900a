//! Command-dispatch and effect-execution engine for per-zone RGB keyboard
//! lighting.
//!
//! A front-end produces [`types::Command`] values; the engine consumes them,
//! keeps its configuration clamped to the device's advertised ranges, and
//! turns an active effect into a deterministic stream of frames for the
//! device handle. Cancellation is cooperative through a two-phase
//! request/acknowledge stop flag, and profiles round-trip through a byte
//! codec.

pub mod types;
pub mod stop;
pub mod channel;
pub mod frame;
pub mod engine;
pub mod codec;
