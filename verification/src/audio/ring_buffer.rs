//! Lock-free single-producer, single-consumer audio ring buffer.
//!
//! Bridges the capture thread (producer) and the detector thread (consumer)
//! without locks: the capture side must never block. Samples travel as
//! their IEEE-754 bit patterns (`f32::to_bits`), so the buffer itself only
//! moves 32-bit words.
//!
//! The producer and the consumer run on different threads, so each half
//! only knows its own side of the buffer. The contracts therefore speak of
//! what each half did (the samples it appended or removed, in order) and of
//! what each half can be sure of whatever the other thread does: only the
//! consumer frees slots, so the producer's last knowledge of the free room
//! is a lower bound; only the producer adds samples, so the consumer's last
//! reading of the occupancy is a lower bound too.

use ringbuf::traits::{Consumer, Observer, Producer, Split};
use ringbuf::{HeapCons, HeapProd, HeapRb};
use std::sync::atomic::{AtomicBool, Ordering};
use std::sync::Arc;
use vstd::prelude::*;

verus! {

/// A `ringbuf::HeapRb<u32>` before it is split.
#[verifier::external_body]
pub struct HeapRing {
    rb: HeapRb<u32>,
}

/// The producer half of a `ringbuf::HeapRb<u32>`.
#[verifier::external_body]
pub struct RingWriter {
    half: HeapProd<u32>,
}

/// The consumer half of a `ringbuf::HeapRb<u32>`.
#[verifier::external_body]
pub struct RingReader {
    half: HeapCons<u32>,
}

/// Capacity, in samples, of a ring buffer.
pub uninterp spec fn ring_capacity_of(r: HeapRing) -> nat;

/// Capacity, in samples, of the ring buffer a producer half writes to.
pub uninterp spec fn writer_capacity(w: RingWriter) -> nat;

/// Capacity, in samples, of the ring buffer a consumer half reads from.
pub uninterp spec fn reader_capacity(r: RingReader) -> nat;

/// Which buffer a ring is; the two halves split from it carry the same
/// identity.
pub uninterp spec fn ring_identity(r: HeapRing) -> int;

/// The identity of the buffer a producer half writes to.
pub uninterp spec fn writer_ring(w: RingWriter) -> int;

/// The identity of the buffer a consumer half reads from.
pub uninterp spec fn reader_ring(r: RingReader) -> int;

/// The number of samples stored in a ring that is not split yet.
pub uninterp spec fn ring_stored(r: HeapRing) -> nat;

/// The samples appended through a producer half since the split, in order.
pub uninterp spec fn writer_appended(w: RingWriter) -> Seq<u32>;

/// The samples removed through a consumer half since the split, in order.
pub uninterp spec fn reader_removed(r: RingReader) -> Seq<u32>;

/// The free slots a producer half is sure of: the room it last saw, less
/// what it appended since. Only the consumer frees slots, so the buffer
/// has at least this much room.
pub uninterp spec fn writer_sure_room(w: RingWriter) -> nat;

/// The buffered samples a consumer half is sure of: its last occupancy
/// reading, less what it removed since. Only the producer adds samples, so
/// the buffer holds at least this many.
pub uninterp spec fn reader_sure_len(r: RingReader) -> nat;

/// `a - b`, or zero when `b` exceeds `a`.
pub open spec fn less_or_zero(a: int, b: int) -> nat {
    if a >= b {
        (a - b) as nat
    } else {
        0
    }
}

/// Creates an empty `ringbuf::HeapRb<u32>` with `HeapRb::new`. Claims the
/// buffer has the requested capacity and holds nothing. `HeapRb::new`
/// panics on a zero capacity, which `requires` rules out.
#[verifier::external_body]
fn new_heap_ring(capacity: usize) -> (r: HeapRing)
    requires
        capacity > 0,
    ensures
        ring_capacity_of(r) == capacity,
        ring_stored(r) == 0,
{
    HeapRing { rb: HeapRb::<u32>::new(capacity) }
}

/// Splits a ring buffer into its producer and consumer halves with
/// `Split::split`. Claims both halves work on the one buffer (the split
/// shares a single `Arc` of it), see its fixed capacity, have appended and
/// removed nothing yet, and know its room and occupancy at the split.
#[verifier::external_body]
fn split_heap_ring(r: HeapRing) -> (halves: (RingWriter, RingReader))
    ensures
        writer_capacity(halves.0) == ring_capacity_of(r),
        reader_capacity(halves.1) == ring_capacity_of(r),
        writer_ring(halves.0) == ring_identity(r),
        reader_ring(halves.1) == ring_identity(r),
        writer_appended(halves.0) == Seq::<u32>::empty(),
        reader_removed(halves.1) == Seq::<u32>::empty(),
        writer_sure_room(halves.0) + ring_stored(r) == ring_capacity_of(r),
        reader_sure_len(halves.1) == ring_stored(r),
{
    let (p, c) = r.rb.split();
    (RingWriter { half: p }, RingReader { half: c })
}

/// Appends a prefix of `samples` with `Producer::push_slice` and returns
/// its length. Claims that the first `written` samples are appended in
/// order; that no more than the slice and no more than the capacity are
/// written; and that at least as many are written as the room the producer
/// was sure of allows (the call fetches the consumer's position, which only
/// moves forward). How much more fits depends on the consumer thread and
/// is not stated.
#[verifier::external_body]
fn ring_push_slice(w: &mut RingWriter, samples: &[u32]) -> (written: usize)
    ensures
        written <= samples@.len(),
        written <= writer_capacity(*old(w)),
        written >= samples@.len() || written >= writer_sure_room(*old(w)),
        writer_appended(*final(w)) == writer_appended(*old(w)) + samples@.take(written as int),
        writer_sure_room(*final(w)) == less_or_zero(writer_sure_room(*old(w)) as int, written as int),
        writer_capacity(*final(w)) == writer_capacity(*old(w)),
        writer_ring(*final(w)) == writer_ring(*old(w)),
{
    w.half.push_slice(samples)
}

/// Reads the number of buffered samples with `Observer::occupied_len`,
/// which also refreshes the consumer's cached view of the producer's
/// position. Claims the reading does not exceed the capacity and is at
/// least what the consumer was already sure of; the reading becomes what
/// it is sure of. The producer thread may add samples at any time.
#[verifier::external_body]
fn ring_occupied_len(r: &mut RingReader) -> (n: usize)
    ensures
        n <= reader_capacity(*old(r)),
        n >= reader_sure_len(*old(r)),
        reader_sure_len(*final(r)) == n,
        reader_removed(*final(r)) == reader_removed(*old(r)),
        reader_capacity(*final(r)) == reader_capacity(*old(r)),
        reader_ring(*final(r)) == reader_ring(*old(r)),
{
    r.half.occupied_len()
}

/// Moves samples from the buffer into the front of `dest` with
/// `Consumer::pop_slice` and returns how many were moved. Claims that the
/// moved samples are the next ones in the consumer's order; that at most
/// `dest.len()` and at least as many as the consumer was sure of are moved;
/// that `dest` keeps its length and its tail past the moved samples; and
/// that the capacity and the buffer do not change.
#[verifier::external_body]
fn ring_pop_slice(r: &mut RingReader, dest: &mut [u32]) -> (n: usize)
    ensures
        n <= old(dest)@.len(),
        n >= old(dest)@.len() || n >= reader_sure_len(*old(r)),
        final(dest)@.len() == old(dest)@.len(),
        final(dest)@.subrange(n as int, final(dest)@.len() as int) == old(dest)@.subrange(
            n as int,
            old(dest)@.len() as int,
        ),
        reader_removed(*final(r)) == reader_removed(*old(r)) + final(dest)@.take(n as int),
        reader_sure_len(*final(r)) == less_or_zero(reader_sure_len(*old(r)) as int, n as int),
        reader_capacity(*final(r)) == reader_capacity(*old(r)),
        reader_ring(*final(r)) == reader_ring(*old(r)),
{
    r.half.pop_slice(dest)
}

/// Shares the overflow flag with `Arc::clone`, which makes another pointer
/// to the same allocation. Claims the result is that same flag; nothing is
/// stated about the flag's value, which the other thread may change at any
/// time.
#[verifier::external_body]
fn share_flag(flag: &Arc<AtomicBool>) -> (shared: Arc<AtomicBool>)
    ensures
        shared == *flag,
{
    Arc::clone(flag)
}

/// Producer half of the audio ring buffer (capture thread).
pub struct AudioProducer {
    inner: RingWriter,
    overflowed: Arc<AtomicBool>,
}

/// Consumer half of the audio ring buffer (detector thread).
pub struct AudioConsumer {
    inner: RingReader,
    overflowed: Arc<AtomicBool>,
}

/// What a push did.
pub struct PushOutcome {
    /// Samples that did not fit and were dropped.
    pub dropped: usize,
    /// Whether this push raised the overflow flag, which was down before
    /// (only then is an overflow worth reporting).
    pub newly_flagged: bool,
}

/// Capacity of a ring buffer holding `duration_ms` of audio at `sample_rate`.
pub open spec fn ring_capacity(sample_rate: u32, duration_ms: u32) -> nat {
    (sample_rate * duration_ms / 1000) as nat
}

/// The capacity is the number of whole samples in `duration_ms`
/// milliseconds at `sample_rate` samples per second: the largest count
/// whose duration does not exceed `duration_ms`.
pub proof fn law_ring_capacity_is_whole_samples(sample_rate: u32, duration_ms: u32)
    ensures
        ring_capacity(sample_rate, duration_ms) * 1000 <= sample_rate * duration_ms,
        sample_rate * duration_ms < (ring_capacity(sample_rate, duration_ms) + 1) * 1000,
        ring_capacity(16000, 5000) == 80000,
{
    let p: int = sample_rate * duration_ms;
    assert(p >= 0) by (nonlinear_arith)
        requires
            p == sample_rate * duration_ms,
            sample_rate >= 0,
            duration_ms >= 0,
    ;
    assert((p / 1000) * 1000 <= p && p < (p / 1000 + 1) * 1000) by (nonlinear_arith)
        requires
            p >= 0,
    ;
}

/// Creates a ring buffer pair holding `duration_ms` milliseconds of audio
/// at `sample_rate` samples per second (16000 Hz for 5000 ms gives 80 000
/// samples).
pub fn audio_ring_buffer(sample_rate: u32, duration_ms: u32) -> (pair: (AudioProducer, AudioConsumer))
    requires
        ring_capacity(sample_rate, duration_ms) > 0,
        ring_capacity(sample_rate, duration_ms) <= usize::MAX,
    ensures
        pair.0.capacity() == ring_capacity(sample_rate, duration_ms),
        pair.1.capacity() == ring_capacity(sample_rate, duration_ms),
        pair.0.capacity() == sample_rate * duration_ms / 1000,
        pair.1.capacity() == sample_rate * duration_ms / 1000,
        pair.0.ring() == pair.1.ring(),
        pair.0.flag() == pair.1.flag(),
        pair.0.appended() == Seq::<u32>::empty(),
        pair.1.removed() == Seq::<u32>::empty(),
        pair.0.sure_room() == ring_capacity(sample_rate, duration_ms),
        pair.1.sure_len() == 0,
{
    let rate = sample_rate as u64;
    let ms = duration_ms as u64;
    assert(rate * ms <= 0xffff_ffffu64 * 0xffff_ffffu64) by (nonlinear_arith)
        requires
            rate <= 0xffff_ffffu64,
            ms <= 0xffff_ffffu64,
    ;
    let capacity = (rate * ms / 1000) as usize;
    ring_buffer_with_capacity(capacity)
}

/// Creates a ring buffer pair of `capacity` samples: two halves of one
/// empty buffer sharing one overflow flag.
pub fn ring_buffer_with_capacity(capacity: usize) -> (pair: (AudioProducer, AudioConsumer))
    requires
        capacity > 0,
    ensures
        pair.0.capacity() == capacity,
        pair.1.capacity() == capacity,
        pair.0.ring() == pair.1.ring(),
        pair.0.flag() == pair.1.flag(),
        pair.0.appended() == Seq::<u32>::empty(),
        pair.1.removed() == Seq::<u32>::empty(),
        pair.0.sure_room() == capacity,
        pair.1.sure_len() == 0,
{
    let (w, r) = split_heap_ring(new_heap_ring(capacity));
    let overflowed = Arc::new(AtomicBool::new(false));
    let shared = share_flag(&overflowed);
    (AudioProducer { inner: w, overflowed: shared }, AudioConsumer { inner: r, overflowed })
}

/// Raises the overflow flag and returns whether it was already up.
fn raise_flag(flag: &Arc<AtomicBool>) -> bool {
    flag.swap(true, Ordering::Relaxed)
}

impl AudioProducer {
    /// Capacity of the buffer in samples.
    pub closed spec fn capacity(&self) -> nat {
        writer_capacity(self.inner)
    }

    /// The identity of the buffer this half writes to.
    pub closed spec fn ring(&self) -> int {
        writer_ring(self.inner)
    }

    /// The overflow flag this half raises.
    pub closed spec fn flag(&self) -> Arc<AtomicBool> {
        self.overflowed
    }

    /// The samples stored through this half so far, in order.
    pub closed spec fn appended(&self) -> Seq<u32> {
        writer_appended(self.inner)
    }

    /// The free room this half is sure the buffer has.
    pub closed spec fn sure_room(&self) -> nat {
        writer_sure_room(self.inner)
    }

    /// Pushes samples from the capture thread without blocking.
    ///
    /// The samples that fit are appended in order; the rest are dropped and
    /// the overflow flag is raised. At least as many are stored as the room
    /// this half is sure of allows, and never more than the capacity.
    pub fn push(&mut self, samples: &[u32]) -> (out: PushOutcome)
        ensures
            final(self).capacity() == old(self).capacity(),
            final(self).ring() == old(self).ring(),
            final(self).flag() == old(self).flag(),
            out.dropped <= samples@.len(),
            final(self).appended() == old(self).appended() + samples@.take(
                samples@.len() - out.dropped,
            ),
            out.dropped == 0 || samples@.len() - out.dropped >= old(self).sure_room(),
            final(self).sure_room() == less_or_zero(
                old(self).sure_room() as int,
                samples@.len() - out.dropped,
            ),
            samples@.len() > old(self).capacity() ==> out.dropped >= samples@.len() - old(
                self,
            ).capacity(),
            out.newly_flagged ==> out.dropped > 0,
    {
        let written = ring_push_slice(&mut self.inner, samples);
        let mut newly_flagged = false;
        if written < samples.len() {
            newly_flagged = !raise_flag(&self.overflowed);
        }
        PushOutcome { dropped: samples.len() - written, newly_flagged }
    }
}

impl AudioConsumer {
    /// Capacity of the buffer in samples.
    pub closed spec fn capacity(&self) -> nat {
        reader_capacity(self.inner)
    }

    /// The identity of the buffer this half reads from.
    pub closed spec fn ring(&self) -> int {
        reader_ring(self.inner)
    }

    /// The overflow flag this half reads.
    pub closed spec fn flag(&self) -> Arc<AtomicBool> {
        self.overflowed
    }

    /// The samples taken out through this half so far, in order.
    pub closed spec fn removed(&self) -> Seq<u32> {
        reader_removed(self.inner)
    }

    /// The number of buffered samples this half is sure of.
    pub closed spec fn sure_len(&self) -> nat {
        reader_sure_len(self.inner)
    }

    /// Pulls exactly `count` samples, or nothing when fewer are buffered.
    ///
    /// The occupancy is read once and the rest is [`Self::pull_buffered`]
    /// with that reading. The pulled samples are the next `count` in the
    /// buffer's order. A request for nothing always succeeds with an empty
    /// vector; a request for no more than this half is sure of always
    /// succeeds; a request for more than the capacity never does.
    pub fn pull(&mut self, count: usize) -> (out: Option<Vec<u32>>)
        ensures
            final(self).capacity() == old(self).capacity(),
            final(self).ring() == old(self).ring(),
            final(self).flag() == old(self).flag(),
            out matches Some(v) ==> v@.len() == count && final(self).removed() == old(self).removed()
                + v@,
            out is None ==> final(self).removed() == old(self).removed(),
            count == 0 ==> (out matches Some(v) && v@.len() == 0),
            count <= old(self).sure_len() ==> out is Some,
            count > old(self).capacity() ==> out is None,
    {
        let buffered = ring_occupied_len(&mut self.inner);
        let out = self.pull_buffered(buffered, count);
        assert(out matches Some(v) ==> v@.take(count as int) =~= v@);
        out
    }

    /// Pulls `count` samples given a reading `buffered` of how many samples
    /// the buffer holds: nothing when the reading is short of `count`,
    /// otherwise a vector of `count` slots. Its front holds the samples
    /// moved out of the buffer, next in the buffer's order, and at least as
    /// many as this half was sure of; any slot past them is zero.
    pub fn pull_buffered(&mut self, buffered: usize, count: usize) -> (out: Option<Vec<u32>>)
        ensures
            final(self).capacity() == old(self).capacity(),
            final(self).ring() == old(self).ring(),
            final(self).flag() == old(self).flag(),
            buffered < count ==> out is None && final(self).removed() == old(self).removed()
                && final(self).sure_len() == old(self).sure_len(),
            buffered >= count ==> (out matches Some(v) && v@.len() == count && exists|n: int|
                0 <= n <= count && (n == count || n >= old(self).sure_len())
                    && final(self).removed() == old(self).removed() + v@.take(n) && v@.skip(n)
                    == Seq::new((count - n) as nat, |i: int| 0u32) && final(self).sure_len()
                    == less_or_zero(old(self).sure_len() as int, n)),
    {
        if buffered < count {
            return None;
        }
        let mut buf: Vec<u32> = vec![0u32; count];
        let popped = ring_pop_slice(&mut self.inner, buf.as_mut_slice());
        proof {
            assert(buf@.skip(popped as int) == buf@.subrange(popped as int, count as int));
            assert(buf@.skip(popped as int) =~= Seq::new((count - popped) as nat, |i: int| 0u32));
            let n: int = popped as int;
            assert(self.removed() == old(self).removed() + buf@.take(n));
            assert(buf@.skip(n) == Seq::new((count - n) as nat, |i: int| 0u32));
            assert(self.sure_len() == less_or_zero(old(self).sure_len() as int, n));
        }
        Some(buf)
    }

    /// The number of samples currently buffered: at most the capacity and
    /// at least what this half was already sure of. The reading becomes
    /// what it is sure of.
    pub fn available(&mut self) -> (n: usize)
        ensures
            n <= old(self).capacity(),
            n >= old(self).sure_len(),
            final(self).sure_len() == n,
            final(self).removed() == old(self).removed(),
            final(self).capacity() == old(self).capacity(),
            final(self).ring() == old(self).ring(),
            final(self).flag() == old(self).flag(),
    {
        ring_occupied_len(&mut self.inner)
    }

    /// Reads and clears the overflow flag raised by the producer.
    pub fn take_overflow_flag(&self) -> bool {
        self.overflowed.swap(false, Ordering::Relaxed)
    }
}

} // verus!
