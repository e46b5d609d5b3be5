use pd_gui::bridge::prime_ring;
use pd_gui::config::StreamConfig;
use pd_gui::ring::{SampleRing, SILENCE};

fn ring_with(capacity: usize, items: &[u32]) -> SampleRing {
    let mut ring = SampleRing::with_capacity(capacity);
    for &s in items {
        assert_eq!(ring.push(s), Ok(()));
    }
    ring
}

fn drain(ring: &mut SampleRing) -> Vec<u32> {
    let mut out = Vec::new();
    while let Some(s) = ring.pop() {
        out.push(s);
    }
    out
}

#[test]
fn scenario_48k_stereo_100ms_fill_then_overrun() {
    let config = StreamConfig { sample_rate: 48000, channel_count: 2 };
    let p = prime_ring(config, 100).ok().unwrap();
    assert_eq!(p.latency.frame_count, 4800);
    assert_eq!(p.latency.sample_count, 9600);
    let mut ring = p.ring;
    assert_eq!(ring.capacity(), 19200);
    assert_eq!(ring.len(), 9600);
    assert_eq!(ring.free_len(), 9600);
    assert!(!ring.is_full());

    let real: Vec<u32> = (1..=9600u32).collect();
    assert!(!ring.capture_block(&real));
    assert!(ring.is_full());

    assert!(ring.capture_block(&[42]));
    assert!(ring.is_full());

    let contents = drain(&mut ring);
    assert_eq!(contents.len(), 19200);
    assert!(contents[..9600].iter().all(|&s| s == SILENCE));
    assert_eq!(&contents[9600..], &real[..]);
}

#[test]
fn prefill_is_exactly_silence() {
    let config = StreamConfig { sample_rate: 8000, channel_count: 1 };
    let mut ring = prime_ring(config, 2).ok().unwrap().ring;
    assert_eq!(ring.len(), 16);
    assert_eq!(ring.free_len(), 16);
    assert_eq!(drain(&mut ring), vec![0u32; 16]);
    assert_eq!(0.0f32.to_bits(), SILENCE);
}

#[test]
fn scenario_empty_ring_plays_256_zeros() {
    let mut ring = SampleRing::with_capacity(512);
    let mut out = vec![7u32; 256];
    assert!(ring.playback_block(&mut out));
    assert_eq!(out, vec![0u32; 256]);
    assert!(ring.is_empty());
}

#[test]
fn capture_then_playback_keeps_order() {
    let mut ring = ring_with(8, &[10, 11]);
    assert!(!ring.capture_block(&[1, 2, 3]));
    let mut out = vec![0u32; 5];
    assert!(!ring.playback_block(&mut out));
    assert_eq!(out, vec![10, 11, 1, 2, 3]);
    assert!(ring.is_empty());
}

#[test]
fn overrun_drops_only_the_samples_that_do_not_fit() {
    let mut ring = ring_with(4, &[1, 2, 3]);
    assert!(ring.capture_block(&[4, 5, 6]));
    assert!(ring.is_full());
    assert_eq!(drain(&mut ring), vec![1, 2, 3, 4]);
}

#[test]
fn full_ring_refuses_a_push_and_hands_the_sample_back() {
    let mut ring = ring_with(2, &[1, 2]);
    assert_eq!(ring.push(9), Err(9));
    assert_eq!(drain(&mut ring), vec![1, 2]);
}

#[test]
fn underrun_fills_the_rest_with_silence() {
    let mut ring = ring_with(4, &[7, 8]);
    let mut out = vec![5u32; 4];
    assert!(ring.playback_block(&mut out));
    assert_eq!(out, vec![7, 8, 0, 0]);
    assert!(ring.is_empty());
}

#[test]
fn partial_playback_leaves_the_newest_samples() {
    let mut ring = ring_with(6, &[1, 2, 3, 4]);
    let mut out = vec![0u32; 3];
    assert!(!ring.playback_block(&mut out));
    assert_eq!(out, vec![1, 2, 3]);
    assert_eq!(ring.len(), 1);
    assert_eq!(ring.pop(), Some(4));
    assert_eq!(ring.pop(), None);
}

#[test]
fn empty_capture_block_changes_nothing() {
    let mut ring = ring_with(3, &[1, 2, 3]);
    assert!(!ring.capture_block(&[]));
    assert_eq!(drain(&mut ring), vec![1, 2, 3]);
}

#[test]
fn split_halves_carry_samples_in_order() {
    let ring = ring_with(4, &[0, 0]);
    let (mut producer, mut consumer) = ring.split();
    assert!(!producer.capture_block(&[1, 2]));
    assert!(producer.capture_block(&[3]));
    let mut out = vec![9u32; 6];
    assert!(consumer.playback_block(&mut out));
    assert_eq!(out, vec![0, 0, 1, 2, 0, 0]);
    assert!(producer.push(3));
    assert_eq!(consumer.pop(), Some(3));
    assert_eq!(consumer.pop(), None);
}

#[test]
fn float_samples_survive_the_ring() {
    let samples = [0.25f32, -1.0, 0.5];
    let bits: Vec<u32> = samples.iter().map(|s| s.to_bits()).collect();
    let mut ring = SampleRing::with_capacity(3);
    assert!(!ring.capture_block(&bits));
    let mut out = vec![0u32; 4];
    assert!(ring.playback_block(&mut out));
    let played: Vec<f32> = out.iter().map(|&b| f32::from_bits(b)).collect();
    assert_eq!(played, vec![0.25, -1.0, 0.5, 0.0]);
}
