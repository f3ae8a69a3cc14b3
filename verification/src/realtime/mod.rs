//! Realtime delivery: the bounded channel that applies backpressure to
//! event streams.

pub mod backpressure;
