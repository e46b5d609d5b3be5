//! A realtime duplex audio bridge: capture samples flow into a fixed-capacity
//! ring buffer, pre-filled with silence to a target latency, and playback
//! drains it, dropping samples on overrun and playing silence on underrun.

pub mod config;
pub mod ring;
pub mod callback;
pub mod bridge;
pub mod catalog;
pub mod widgets;
