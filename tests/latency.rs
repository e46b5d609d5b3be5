use pd_gui::bridge::{negotiate_config, prime_ring, BridgeError};
use pd_gui::config::{compute_latency_frames, AudioData, LatencyFrames, StreamConfig, DEFAULT_LATENCY_MS};

fn stereo_48k() -> StreamConfig {
    StreamConfig { sample_rate: 48000, channel_count: 2 }
}

#[test]
fn latency_frames_at_48k_stereo() {
    let r = compute_latency_frames(stereo_48k(), 100);
    assert_eq!(r, LatencyFrames { frame_count: 4800, sample_count: 9600 });
}

#[test]
fn latency_frames_truncate_fractional_frames() {
    let config = StreamConfig { sample_rate: 44100, channel_count: 1 };
    // 1 ms at 44.1 kHz is 44.1 frames.
    assert_eq!(compute_latency_frames(config, 1), LatencyFrames { frame_count: 44, sample_count: 44 });
    let config = StreamConfig { sample_rate: 44100, channel_count: 6 };
    assert_eq!(compute_latency_frames(config, 10), LatencyFrames { frame_count: 441, sample_count: 2646 });
}

#[test]
fn latency_of_zero_ms_is_zero_samples() {
    assert_eq!(compute_latency_frames(stereo_48k(), 0), LatencyFrames { frame_count: 0, sample_count: 0 });
}

#[test]
fn default_settings_ask_for_100_ms() {
    assert_eq!(DEFAULT_LATENCY_MS, 100);
    assert_eq!(AudioData::from_args().latency_ms, 100);
}

#[test]
fn negotiate_keeps_the_capture_configuration() {
    assert_eq!(negotiate_config(48000, 2), Ok(stereo_48k()));
    assert_eq!(negotiate_config(0, 2), Err(BridgeError::ConfigNegotiationFailed));
    assert_eq!(negotiate_config(44100, 0), Err(BridgeError::ConfigNegotiationFailed));
}

#[test]
fn prime_ring_capacity_is_twice_the_delay() {
    let config = StreamConfig { sample_rate: 44100, channel_count: 1 };
    let p = prime_ring(config, 10).ok().unwrap();
    assert_eq!(p.latency.sample_count, 441);
    assert_eq!(p.ring.capacity(), 882);
    assert_eq!(p.ring.len(), 441);
    assert_eq!(p.ring.free_len(), 441);
}

#[test]
fn prime_ring_refuses_a_latency_of_no_samples() {
    assert_eq!(prime_ring(stereo_48k(), 0).err(), Some(BridgeError::LatencyOutOfRange));
    // 1 ms at 500 Hz is half a frame, which truncates to nothing.
    let slow = StreamConfig { sample_rate: 500, channel_count: 2 };
    assert_eq!(prime_ring(slow, 1).err(), Some(BridgeError::LatencyOutOfRange));
}

#[test]
fn prime_ring_refuses_a_ring_too_large_to_address() {
    let config = StreamConfig { sample_rate: u32::MAX, channel_count: u16::MAX };
    assert_eq!(prime_ring(config, u32::MAX).err(), Some(BridgeError::LatencyOutOfRange));
}
