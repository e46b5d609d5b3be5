//! The duplex bridge's decisions: validating the negotiated configuration,
//! priming the ring with silence, the phases of a session, and stopping.
//! The device work itself (finding devices, building and starting streams)
//! is done by the caller, which reports its outcome back as events.

use vstd::prelude::*;
use crate::config::{
    compute_latency_frames, frames_for, ring_capacity_for, samples_for, LatencyFrames, StreamConfig,
};
use crate::ring::{SampleRing, SILENCE};

verus! {

/// Why a session could not start.
#[derive(Clone, Copy, Debug, PartialEq, Eq, Structural)]
pub enum BridgeError {
    /// No default capture device or no default playback device.
    DeviceNotFound,
    /// The capture device offers no usable default configuration.
    ConfigNegotiationFailed,
    /// The hardware refused to build or start a stream.
    StreamBuildFailed,
    /// The target latency comes to no sample at all, or to a ring too large
    /// to address.
    LatencyOutOfRange,
}

/// Takes the capture device's default configuration as the one both streams
/// use; a zero rate or channel count is no usable configuration.
pub fn negotiate_config(sample_rate: u32, channel_count: u16) -> (r: Result<StreamConfig, BridgeError>)
    ensures
        (sample_rate > 0 && channel_count > 0) ==> r == Ok::<StreamConfig, BridgeError>(
            StreamConfig { sample_rate, channel_count },
        ),
        !(sample_rate > 0 && channel_count > 0) ==> r == Err::<StreamConfig, BridgeError>(
            BridgeError::ConfigNegotiationFailed,
        ),
{
    if sample_rate > 0 && channel_count > 0 {
        Ok(StreamConfig { sample_rate, channel_count })
    } else {
        Err(BridgeError::ConfigNegotiationFailed)
    }
}

/// A latency can be realised: it comes to at least one sample, and the ring
/// of twice that many can be addressed.
pub open spec fn latency_in_range(config: StreamConfig, target_ms: nat) -> bool {
    0 < samples_for(config, target_ms) && ring_capacity_for(config, target_ms) <= usize::MAX
}

/// `n` samples of silence.
pub open spec fn silence(n: nat) -> Seq<u32> {
    Seq::new(n, |i: int| SILENCE)
}

/// The ring a session starts streaming with, and the delay it realises.
pub struct PrimedRing {
    pub latency: LatencyFrames,
    pub ring: SampleRing,
}

/// Sizes the delay for `target_ms`, makes a ring of twice as many samples
/// and fills half of it with silence, so that playback has the whole delay
/// in hand before capture delivers anything.
pub fn prime_ring(config: StreamConfig, target_ms: u32) -> (r: Result<PrimedRing, BridgeError>)
    requires
        config.wf(),
    ensures
        r is Ok <==> latency_in_range(config, target_ms as nat),
        r is Err ==> r == Err::<PrimedRing, BridgeError>(BridgeError::LatencyOutOfRange),
        r matches Ok(p) ==> {
            &&& p.latency.frame_count == frames_for(config.sample_rate as nat, target_ms as nat)
            &&& p.latency.sample_count == samples_for(config, target_ms as nat)
            &&& p.ring.wf()
            &&& p.ring.cap() == 2 * p.latency.sample_count
            &&& p.ring@ == silence(p.latency.sample_count as nat)
            &&& p.ring.cap() - p.ring@.len() == p.latency.sample_count
        },
{
    assert(target_ms as u128 * config.sample_rate as u128 <= u64::MAX as u128) by (nonlinear_arith)
        requires target_ms <= u32::MAX, config.sample_rate <= u32::MAX;
    let frames: u128 = target_ms as u128 * config.sample_rate as u128 / 1000;
    assert(frames * config.channel_count as u128 <= u64::MAX as u128 * 0x10000) by (nonlinear_arith)
        requires frames <= u64::MAX, config.channel_count <= u16::MAX;
    let samples: u128 = frames * config.channel_count as u128;
    if samples == 0 || 2 * samples > usize::MAX as u128 {
        return Err(BridgeError::LatencyOutOfRange);
    }
    let latency = compute_latency_frames(config, target_ms);
    let n = latency.sample_count;
    let mut ring = SampleRing::with_capacity(2 * n);
    let mut i: usize = 0;
    while i < n
        invariant
            i <= n,
            ring.wf(),
            ring.cap() == 2 * n,
            ring@ == silence(i as nat),
        decreases n - i,
    {
        // The ring has room for twice the delay, so this push never fails.
        let _ = ring.push(SILENCE);
        assert(ring@ == silence((i + 1) as nat));
        i = i + 1;
    }
    Ok(PrimedRing { latency, ring })
}


/// Where a session stands.
#[derive(Clone, Copy, Debug, PartialEq, Eq, Structural)]
pub enum BridgePhase {
    /// Nothing is open; a start may be asked for.
    Idle,
    /// The devices and their shared configuration are being resolved.
    Configuring,
    /// The ring is being primed and the two streams built and started.
    Priming,
    /// Both streams run; samples flow from capture to playback.
    Streaming,
    /// The session is over; stopping again changes nothing.
    Stopped,
}

/// What the caller reports to the session.
#[derive(Clone, Copy, Debug, PartialEq, Eq, Structural)]
pub enum BridgeEvent {
    /// The host asks for a session.
    StartRequested,
    /// Both devices were found and their shared configuration read.
    Configured,
    /// A step of the start failed.
    Failed(BridgeError),
    /// Both streams were built and started.
    StreamsStarted,
    /// The host asks for the session to end.
    StopRequested,
}

/// What the session asks the caller to do next.
#[derive(Clone, Copy, Debug, PartialEq, Eq, Structural)]
pub enum BridgeAction {
    /// Find the default devices and read the capture configuration.
    ResolveDevices,
    /// Prime the ring, then build and start both streams.
    PrimeAndStart,
    /// Drop both streams and the two halves of the ring.
    TearDown,
    /// Hand this error to whoever asked for the start.
    Report(BridgeError),
    /// Nothing to do.
    Nothing,
}

/// The next phase and the action for an event. A failed stream build leaves
/// the session idle, so that a start can be asked for again; any other
/// failure of the start ends it. Stopping tears down running streams, and
/// is a no-op when there is nothing to stop. Every other event leaves the
/// phase alone and asks for nothing.
pub open spec fn transition(phase: BridgePhase, event: BridgeEvent) -> (BridgePhase, BridgeAction) {
    match (phase, event) {
        (BridgePhase::Idle, BridgeEvent::StartRequested) => (BridgePhase::Configuring, BridgeAction::ResolveDevices),
        (BridgePhase::Configuring, BridgeEvent::Configured) => (BridgePhase::Priming, BridgeAction::PrimeAndStart),
        (BridgePhase::Configuring, BridgeEvent::Failed(e)) => (BridgePhase::Stopped, BridgeAction::Report(e)),
        (BridgePhase::Priming, BridgeEvent::Failed(BridgeError::StreamBuildFailed)) =>
            (BridgePhase::Idle, BridgeAction::Report(BridgeError::StreamBuildFailed)),
        (BridgePhase::Priming, BridgeEvent::Failed(e)) => (BridgePhase::Stopped, BridgeAction::Report(e)),
        (BridgePhase::Priming, BridgeEvent::StreamsStarted) => (BridgePhase::Streaming, BridgeAction::Nothing),
        (BridgePhase::Streaming, BridgeEvent::StopRequested) => (BridgePhase::Stopped, BridgeAction::TearDown),
        (BridgePhase::Configuring, BridgeEvent::StopRequested) => (BridgePhase::Stopped, BridgeAction::Nothing),
        (BridgePhase::Priming, BridgeEvent::StopRequested) => (BridgePhase::Stopped, BridgeAction::Nothing),
        _ => (phase, BridgeAction::Nothing),
    }
}

/// Decides the next phase and action of a session.
pub fn step(phase: BridgePhase, event: BridgeEvent) -> (r: (BridgePhase, BridgeAction))
    ensures
        r == transition(phase, event),
{
    match (phase, event) {
        (BridgePhase::Idle, BridgeEvent::StartRequested) => (BridgePhase::Configuring, BridgeAction::ResolveDevices),
        (BridgePhase::Configuring, BridgeEvent::Configured) => (BridgePhase::Priming, BridgeAction::PrimeAndStart),
        (BridgePhase::Configuring, BridgeEvent::Failed(e)) => (BridgePhase::Stopped, BridgeAction::Report(e)),
        (BridgePhase::Priming, BridgeEvent::Failed(BridgeError::StreamBuildFailed)) =>
            (BridgePhase::Idle, BridgeAction::Report(BridgeError::StreamBuildFailed)),
        (BridgePhase::Priming, BridgeEvent::Failed(e)) => (BridgePhase::Stopped, BridgeAction::Report(e)),
        (BridgePhase::Priming, BridgeEvent::StreamsStarted) => (BridgePhase::Streaming, BridgeAction::Nothing),
        (BridgePhase::Streaming, BridgeEvent::StopRequested) => (BridgePhase::Stopped, BridgeAction::TearDown),
        (BridgePhase::Configuring, BridgeEvent::StopRequested) => (BridgePhase::Stopped, BridgeAction::Nothing),
        (BridgePhase::Priming, BridgeEvent::StopRequested) => (BridgePhase::Stopped, BridgeAction::Nothing),
        _ => (phase, BridgeAction::Nothing),
    }
}

/// A stop followed by another stop: the second leaves the phase where the
/// first put it and asks for nothing, whatever phase the session was in.
pub proof fn lemma_stop_is_idempotent(phase: BridgePhase)
    ensures
        transition(transition(phase, BridgeEvent::StopRequested).0, BridgeEvent::StopRequested)
            == (transition(phase, BridgeEvent::StopRequested).0, BridgeAction::Nothing),
{
}

/// A running session: the two live streams, whatever type the audio host
/// gives them, until it is stopped.
pub struct ActiveBridge<H> {
    phase: BridgePhase,
    streams: Option<H>,
}

impl<H> ActiveBridge<H> {
    /// The phase the session is in.
    pub closed spec fn phase_of(&self) -> BridgePhase {
        self.phase
    }

    /// The streams the session still holds.
    pub closed spec fn streams_of(&self) -> Option<H> {
        self.streams
    }

    /// Streams are held exactly while streaming.
    pub open spec fn wf(&self) -> bool {
        (self.phase_of() is Streaming <==> self.streams_of() is Some)
            && (self.phase_of() is Streaming || self.phase_of() is Stopped)
    }

    /// Takes over two started streams.
    pub fn new(streams: H) -> (r: ActiveBridge<H>)
        ensures
            r.wf(),
            r.phase_of() == BridgePhase::Streaming,
            r.streams_of() == Some(streams),
    {
        ActiveBridge { phase: BridgePhase::Streaming, streams: Some(streams) }
    }

    /// Ends the session: drops both streams, which stops the hardware
    /// callbacks and releases the ring. On a stopped session it does nothing.
    pub fn stop(&mut self)
        requires
            old(self).wf(),
        ensures
            final(self).wf(),
            final(self).phase_of() == transition(old(self).phase_of(), BridgeEvent::StopRequested).0,
            final(self).phase_of() == BridgePhase::Stopped,
            final(self).streams_of() is None,
            old(self).phase_of() is Stopped ==> *final(self) == *old(self),
    {
        let (next, action) = step(self.phase, BridgeEvent::StopRequested);
        if let BridgeAction::TearDown = action {
            self.streams = None;
        }
        self.phase = next;
    }

    /// Whether the session has ended.
    pub fn is_stopped(&self) -> (r: bool)
        ensures
            r == (self.phase_of() is Stopped),
    {
        match self.phase {
            BridgePhase::Stopped => true,
            _ => false,
        }
    }
}

/// A warning a callback raises about the block it just handled.
#[derive(Clone, Copy, Debug, PartialEq, Eq, Structural)]
pub enum HealthEvent {
    /// Capture found the ring full: samples were dropped.
    OutputFellBehind,
    /// Playback found the ring empty: silence was played.
    InputFellBehind,
}

impl HealthEvent {
    /// The line a log sink or status line shows for the event.
    pub fn message(&self) -> (r: &'static str)
        ensures
            *self == HealthEvent::OutputFellBehind ==> r@ == "output stream fell behind: try increasing latency"@,
            *self == HealthEvent::InputFellBehind ==> r@ == "input stream fell behind: try increasing latency"@,
    {
        match self {
            HealthEvent::OutputFellBehind => "output stream fell behind: try increasing latency",
            HealthEvent::InputFellBehind => "input stream fell behind: try increasing latency",
        }
    }
}

/// The warning for a captured block: one when any sample was dropped.
pub fn capture_health(output_fell_behind: bool) -> (r: Option<HealthEvent>)
    ensures
        output_fell_behind ==> r == Some(HealthEvent::OutputFellBehind),
        !output_fell_behind ==> r is None,
{
    if output_fell_behind { Some(HealthEvent::OutputFellBehind) } else { None }
}

/// The warning for a played block: one when any slot got silence.
pub fn playback_health(input_fell_behind: bool) -> (r: Option<HealthEvent>)
    ensures
        input_fell_behind ==> r == Some(HealthEvent::InputFellBehind),
        !input_fell_behind ==> r is None,
{
    if input_fell_behind { Some(HealthEvent::InputFellBehind) } else { None }
}

} // verus!
