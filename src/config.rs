//! Stream configuration shared by the capture and playback sides, and the
//! sizing of the buffer that realises a target latency.

use vstd::prelude::*;

verus! {

/// The latency, in milliseconds, that a session asks for unless told otherwise.
pub const DEFAULT_LATENCY_MS: u32 = 100;

/// One configuration used for both the capture and the playback stream.
#[derive(Clone, Copy, Debug, PartialEq, Eq, Structural)]
pub struct StreamConfig {
    /// Frames per second.
    pub sample_rate: u32,
    /// Interleaved samples per frame.
    pub channel_count: u16,
}

impl StreamConfig {
    /// Both quantities are positive.
    pub open spec fn wf(&self) -> bool {
        self.sample_rate > 0 && self.channel_count > 0
    }
}

/// The settings a session is started with.
#[derive(Clone, Copy, Debug, PartialEq, Eq, Structural)]
pub struct AudioData {
    /// The target latency in milliseconds.
    pub latency_ms: u32,
}

impl AudioData {
    /// The settings a session starts with.
    pub fn from_args() -> (r: AudioData)
        ensures
            r.latency_ms == DEFAULT_LATENCY_MS,
    {
        AudioData { latency_ms: DEFAULT_LATENCY_MS }
    }
}

/// Frames of delay for a latency of `target_ms` milliseconds; fractional
/// frames are dropped.
pub open spec fn frames_for(sample_rate: nat, target_ms: nat) -> nat {
    (target_ms * sample_rate) / 1000
}

/// Interleaved samples of delay: one per channel for each frame.
pub open spec fn samples_for(config: StreamConfig, target_ms: nat) -> nat {
    frames_for(config.sample_rate as nat, target_ms) * (config.channel_count as nat)
}

/// The ring holds twice the delay, so that the pre-fill leaves as much room again.
pub open spec fn ring_capacity_for(config: StreamConfig, target_ms: nat) -> nat {
    2 * samples_for(config, target_ms)
}

/// The delay a target latency comes to, in frames and in interleaved samples.
#[derive(Clone, Copy, Debug, PartialEq, Eq, Structural)]
pub struct LatencyFrames {
    pub frame_count: usize,
    pub sample_count: usize,
}

/// Sizes the delay for `target_ms` milliseconds at the configured rate:
/// `floor(target_ms / 1000 * sample_rate)` frames, times the channel count
/// in samples.
pub fn compute_latency_frames(config: StreamConfig, target_ms: u32) -> (r: LatencyFrames)
    requires
        config.wf(),
        ring_capacity_for(config, target_ms as nat) <= usize::MAX,
    ensures
        r.frame_count == frames_for(config.sample_rate as nat, target_ms as nat),
        r.sample_count == samples_for(config, target_ms as nat),
{
    assert(target_ms as u64 * config.sample_rate as u64 <= u64::MAX) by (nonlinear_arith)
        requires target_ms <= u32::MAX, config.sample_rate <= u32::MAX;
    let product: u64 = target_ms as u64 * config.sample_rate as u64;
    let frames: u64 = product / 1000;
    proof {
        let f = frames_for(config.sample_rate as nat, target_ms as nat);
        assert(f <= f * (config.channel_count as nat)) by (nonlinear_arith)
            requires config.channel_count >= 1;
    }
    let frame_count = frames as usize;
    let sample_count = frame_count * config.channel_count as usize;
    LatencyFrames { frame_count, sample_count }
}

} // verus!
