//! The verified core of a pitch analysis for tuning: the input ring and its
//! reader, the decisions on the coarse spectrum and the zoom, the lock-in
//! bookkeeping, and the capture state machine, in fixed point.
//!
//! The signal arithmetic that needs sines, logarithms or an FFT is the
//! host's: it hands its results to the engine as fixed-point values.

pub mod capture;
pub mod demod;
pub mod engine;
pub mod fixed;
pub mod fusion;
pub mod history;
pub mod laws;
pub mod lockin;
pub mod long_average;
pub mod params;
pub mod ring;
pub mod signal;
pub mod spectrum;
pub mod stability;
pub mod stats;
pub mod tracker;
pub mod zoom;
