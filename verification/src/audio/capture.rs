//! Decisions of the loopback audio capturer.
//!
//! The capture device delivers interleaved stereo frames of two
//! little-endian 32-bit floats (8 bytes per frame) at 48 kHz. This module
//! holds what the capture loop decides: which bytes form complete frames,
//! how they split into left and right sample words, and whether a start or
//! stop request may proceed. Talking to the device and running the worker
//! thread happen outside the library.

use crate::audio::ring_buffer::AudioProducer;
use std::collections::VecDeque;
use vstd::prelude::*;

verus! {

/// Sample rate the capture device delivers (Hz).
pub const DEVICE_SAMPLE_RATE: u32 = 48000;

/// Channels requested from the capture device (stereo).
pub const DEVICE_CHANNELS: u16 = 2;

/// Sample rate of the audio handed to the detector and recogniser (Hz).
pub const TARGET_SAMPLE_RATE: u32 = 16000;

/// Timeout, in milliseconds, for one wait on the device event.
pub const EVENT_WAIT_TIMEOUT_MS: u32 = 100;

/// Bytes in one sample word.
pub const BYTES_PER_SAMPLE: usize = 4;

/// Bytes in one stereo frame (two sample words).
pub const STEREO_FRAME_BYTES: usize = 8;

/// Configuration for audio capture.
#[derive(Debug, Clone, Copy, PartialEq, Eq)]
pub struct CaptureConfig {
    /// Target process ID.
    pub target_pid: u32,
    /// Whether to include the whole process tree of the target.
    pub include_process_tree: bool,
}

/// The 32-bit word stored little-endian in four bytes.
pub open spec fn le_word(b0: u8, b1: u8, b2: u8, b3: u8) -> u32 {
    (b0 + 256 * b1 + 65536 * b2 + 16777216 * b3) as u32
}

/// The left and right sample words of the `i`-th stereo frame in `bytes`.
pub open spec fn stereo_frame_at(bytes: Seq<u8>, i: int) -> (u32, u32) {
    let o = 8 * i;
    (
        le_word(bytes[o], bytes[o + 1], bytes[o + 2], bytes[o + 3]),
        le_word(bytes[o + 4], bytes[o + 5], bytes[o + 6], bytes[o + 7]),
    )
}

/// Decodes four little-endian bytes into a 32-bit word.
pub fn word_from_le(b0: u8, b1: u8, b2: u8, b3: u8) -> (w: u32)
    ensures
        w == le_word(b0, b1, b2, b3),
{
    b0 as u32 + 256 * (b1 as u32) + 65536 * (b2 as u32) + 16777216 * (b3 as u32)
}

/// Removes every complete stereo frame from the front of `queue` and
/// returns the frames' left and right sample words, in order. A trailing
/// partial frame stays in the queue.
pub fn drain_stereo_frames(queue: &mut VecDeque<u8>) -> (frames: Vec<(u32, u32)>)
    ensures
        frames@.len() == old(queue)@.len() / 8,
        forall|i: int| 0 <= i < frames@.len() ==> #[trigger] frames@[i] == stereo_frame_at(old(queue)@, i),
        final(queue)@ == old(queue)@.skip((8 * (old(queue)@.len() / 8)) as int),
{
    let ghost incoming = queue@;
    let available_frames = queue.len() / STEREO_FRAME_BYTES;
    let mut frames: Vec<(u32, u32)> = Vec::with_capacity(available_frames);
    let mut k: usize = 0;
    while k < available_frames
        invariant
            available_frames == incoming.len() / 8,
            k <= available_frames,
            8 * available_frames <= incoming.len(),
            queue@ == incoming.skip(8 * k),
            frames@.len() == k,
            forall|i: int| 0 <= i < k ==> #[trigger] frames@[i] == stereo_frame_at(incoming, i),
        decreases available_frames - k,
    {
        assert(8 * k + 8 <= incoming.len()) by (nonlinear_arith)
            requires
                k < available_frames,
                8 * available_frames <= incoming.len(),
        ;
        let mut bytes: [u8; 8] = [0u8; 8];
        let mut j: usize = 0;
        while j < STEREO_FRAME_BYTES
            invariant
                j <= 8,
                8 * k + 8 <= incoming.len(),
                queue@ == incoming.skip(8 * k + j),
                forall|t: int| 0 <= t < j ==> bytes@[t] == incoming[8 * k + t],
            decreases 8 - j,
        {
            let b = match queue.pop_front() {
                Some(b) => b,
                None => 0u8,
            };
            proof {
                assert(incoming.skip(8 * k + j)[0] == incoming[8 * k + j]);
                assert(incoming.skip(8 * k + j).drop_first() == incoming.skip(8 * k + j + 1));
            }
            bytes[j] = b;
            j = j + 1;
        }
        let left = word_from_le(bytes[0], bytes[1], bytes[2], bytes[3]);
        let right = word_from_le(bytes[4], bytes[5], bytes[6], bytes[7]);
        frames.push((left, right));
        k = k + 1;
    }
    frames
}

/// Why a capture could not start.
#[derive(Debug, Clone, Copy, PartialEq, Eq, Structural)]
pub enum CaptureError {
    /// A capture is already running.
    AlreadyRunning,
    /// The producer was handed to an earlier capture.
    ProducerConsumed,
}

/// The capturer's bookkeeping as values.
pub struct SessionView {
    /// Whether the ring-buffer producer is still held.
    pub holds_producer: bool,
    /// Whether a capture is running.
    pub capturing: bool,
}

/// The requests that change the capturer's bookkeeping.
pub enum SessionOp {
    /// A start request ([`CaptureSession::begin_start`]).
    Start,
    /// The worker was spawned ([`CaptureSession::mark_started`]).
    Started,
    /// The worker was stopped and joined ([`CaptureSession::mark_stopped`]).
    Stopped,
}

/// Why a start request from `v` is refused, if it is.
pub open spec fn start_refusal(v: SessionView) -> Option<CaptureError> {
    if v.capturing {
        Some(CaptureError::AlreadyRunning)
    } else if !v.holds_producer {
        Some(CaptureError::ProducerConsumed)
    } else {
        None
    }
}

/// The bookkeeping after `op`.
pub open spec fn session_step(v: SessionView, op: SessionOp) -> SessionView {
    match op {
        SessionOp::Start => if start_refusal(v) is None {
            SessionView { holds_producer: false, capturing: v.capturing }
        } else {
            v
        },
        SessionOp::Started => SessionView { holds_producer: v.holds_producer, capturing: true },
        SessionOp::Stopped => SessionView { holds_producer: v.holds_producer, capturing: false },
    }
}

/// How many start requests among `ops`, applied in order from `v`, are
/// granted.
pub open spec fn granted_starts(v: SessionView, ops: Seq<SessionOp>) -> nat
    decreases ops.len(),
{
    if ops.len() == 0 {
        0
    } else {
        (if ops[0] is Start && start_refusal(v) is None {
            1nat
        } else {
            0nat
        }) + granted_starts(session_step(v, ops[0]), ops.drop_first())
    }
}

/// The capturer's bookkeeping: its configuration, the ring-buffer producer
/// until a capture takes it, and whether a capture is running.
pub struct CaptureSession {
    config: CaptureConfig,
    producer: Option<AudioProducer>,
    is_capturing: bool,
}

impl CaptureSession {
    /// The configuration of the capture.
    pub closed spec fn config(&self) -> CaptureConfig {
        self.config
    }

    /// The producer captured audio is to be pushed into, held until a
    /// start hands it to the worker.
    pub closed spec fn held(&self) -> Option<AudioProducer> {
        self.producer
    }

    /// Whether the producer is still held (no capture has taken it).
    pub open spec fn holds_producer(&self) -> bool {
        self.held() is Some
    }

    /// Whether a capture is running.
    pub closed spec fn capturing(&self) -> bool {
        self.is_capturing
    }

    /// The bookkeeping as values.
    pub open spec fn session_view(&self) -> SessionView {
        SessionView { holds_producer: self.holds_producer(), capturing: self.capturing() }
    }

    /// Creates a capturer that will push into `producer`.
    pub fn new(config: CaptureConfig, producer: AudioProducer) -> (s: Self)
        ensures
            s.config() == config,
            s.held() == Some(producer),
            !s.capturing(),
    {
        CaptureSession { config, producer: Some(producer), is_capturing: false }
    }

    /// The capture configuration.
    pub fn capture_config(&self) -> (c: CaptureConfig)
        ensures
            c == self.config(),
    {
        self.config
    }

    /// Decides a start request: refuses while running, refuses once the
    /// producer is gone, otherwise hands out the producer for the worker.
    pub fn begin_start(&mut self) -> (r: Result<AudioProducer, CaptureError>)
        ensures
            final(self).config() == old(self).config(),
            final(self).capturing() == old(self).capturing(),
            old(self).capturing() ==> r == Err::<AudioProducer, CaptureError>(
                CaptureError::AlreadyRunning,
            ) && final(self).holds_producer() == old(self).holds_producer(),
            !old(self).capturing() && !old(self).holds_producer() ==> r == Err::<
                AudioProducer,
                CaptureError,
            >(CaptureError::ProducerConsumed) && !final(self).holds_producer(),
            !old(self).capturing() && old(self).holds_producer() ==> r is Ok
                && !final(self).holds_producer(),
            final(self).session_view() == session_step(old(self).session_view(), SessionOp::Start),
            match r {
                Ok(p) => start_refusal(old(self).session_view()) is None && old(self).held() == Some(
                    p,
                ) && final(self).held() is None,
                Err(e) => start_refusal(old(self).session_view()) == Some(e) && final(self).held()
                    == old(self).held(),
            },
    {
        if self.is_capturing {
            return Err(CaptureError::AlreadyRunning);
        }
        match self.producer.take() {
            Some(p) => Ok(p),
            None => Err(CaptureError::ProducerConsumed),
        }
    }

    /// Records that the worker is running.
    pub fn mark_started(&mut self)
        ensures
            final(self).config() == old(self).config(),
            final(self).held() == old(self).held(),
            final(self).capturing(),
            final(self).session_view() == session_step(old(self).session_view(), SessionOp::Started),
    {
        self.is_capturing = true;
    }

    /// Decides a stop request: whether a running worker must be stopped.
    pub fn needs_stop(&self) -> (r: bool)
        ensures
            r == self.capturing(),
    {
        self.is_capturing
    }

    /// Records that the worker has stopped.
    pub fn mark_stopped(&mut self)
        ensures
            final(self).config() == old(self).config(),
            final(self).held() == old(self).held(),
            !final(self).capturing(),
            final(self).session_view() == session_step(old(self).session_view(), SessionOp::Stopped),
    {
        self.is_capturing = false;
    }

    /// Whether a capture is running.
    pub fn is_capturing(&self) -> (r: bool)
        ensures
            r == self.capturing(),
    {
        self.is_capturing
    }
}

/// A capturer captures at most once in its life: its producer goes to the
/// first granted start and never comes back, so whatever requests follow
/// (a start after a stop among them) at most one start is granted, and none
/// once the producer is gone.
pub proof fn law_one_capture_per_producer(v: SessionView, ops: Seq<SessionOp>)
    ensures
        granted_starts(v, ops) <= (if v.holds_producer {
            1nat
        } else {
            0nat
        }),
    decreases ops.len(),
{
    if ops.len() > 0 {
        let w = session_step(v, ops[0]);
        law_one_capture_per_producer(w, ops.drop_first());
        assert(w.holds_producer ==> v.holds_producer);
        assert(ops[0] is Start && start_refusal(v) is None ==> !w.holds_producer);
    }
}

/// A stop request on a stopped capturer changes nothing: a second stop is
/// a no-op, and no stop is then needed.
pub proof fn law_second_stop_is_noop(v: SessionView)
    ensures
        session_step(session_step(v, SessionOp::Stopped), SessionOp::Stopped) == session_step(
            v,
            SessionOp::Stopped,
        ),
        !session_step(v, SessionOp::Stopped).capturing,
{
}

} // verus!
