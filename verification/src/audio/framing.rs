//! Cutting a stream of samples into fixed-size frames.
//!
//! Samples arrive in pieces of any length; a [`FrameAssembler`] holds back
//! what does not yet fill a frame and hands out complete frames in arrival
//! order. The resampler uses it to feed its fixed input block, and the
//! detector loop to cut 512-sample frames.

use crate::samples::{append_samples, copy_range};
use vstd::prelude::*;

verus! {

/// The complete frames of length `n` at the front of `s`, in order.
pub open spec fn frames_of<S>(s: Seq<S>, n: nat) -> Seq<Seq<S>>
    decreases s.len(),
{
    if n == 0 || s.len() < n {
        Seq::empty()
    } else {
        seq![s.take(n as int)] + frames_of(s.skip(n as int), n)
    }
}

/// What is left of `s` after its complete frames of length `n`.
pub open spec fn frame_remainder<S>(s: Seq<S>, n: nat) -> Seq<S>
    decreases s.len(),
{
    if n == 0 || s.len() < n {
        s
    } else {
        frame_remainder(s.skip(n as int), n)
    }
}

/// The concatenation of a sequence of frames.
pub open spec fn flatten_frames<S>(frames: Seq<Seq<S>>) -> Seq<S>
    decreases frames.len(),
{
    if frames.len() == 0 {
        Seq::empty()
    } else {
        frames[0] + flatten_frames(frames.drop_first())
    }
}

/// The views of a vector of frames.
pub open spec fn frame_views<S>(v: Seq<Vec<S>>) -> Seq<Seq<S>> {
    v.map_values(|f: Vec<S>| f@)
}

/// Collects samples and hands them out in frames of a fixed length.
pub struct FrameAssembler<S> {
    frame_len: usize,
    pending: Vec<S>,
}

impl<S: Copy> FrameAssembler<S> {
    /// The frame length.
    pub closed spec fn frame_len(&self) -> nat {
        self.frame_len as nat
    }

    /// The samples received but not yet handed out.
    pub closed spec fn pending(&self) -> Seq<S> {
        self.pending@
    }

    /// Well-formedness: frames are non-empty and fewer samples than one
    /// frame are pending.
    pub open spec fn wf(&self) -> bool {
        self.frame_len() > 0 && self.pending().len() < self.frame_len()
    }

    /// Creates an assembler for frames of `frame_len` samples.
    pub fn new(frame_len: usize) -> (fa: Self)
        requires
            frame_len > 0,
        ensures
            fa.wf(),
            fa.frame_len() == frame_len,
            fa.pending() == Seq::<S>::empty(),
    {
        FrameAssembler { frame_len, pending: Vec::with_capacity(frame_len) }
    }

    /// Adds `input` and returns every frame that is now complete, in order.
    pub fn push(&mut self, input: &[S]) -> (frames: Vec<Vec<S>>)
        requires
            old(self).wf(),
        ensures
            final(self).wf(),
            final(self).frame_len() == old(self).frame_len(),
            frame_views(frames@) == frames_of(old(self).pending() + input@, old(self).frame_len()),
            final(self).pending() == frame_remainder(
                old(self).pending() + input@,
                old(self).frame_len(),
            ),
    {
        let ghost all = self.pending@ + input@;
        let ghost n = self.frame_len as nat;
        append_samples(&mut self.pending, input);
        let len = self.pending.len();
        let n_exec = self.frame_len;
        let mut frames: Vec<Vec<S>> = Vec::new();
        let mut start: usize = 0;
        proof {
            assert(all.skip(0) == all);
            assert(frame_views(frames@) == Seq::<Seq<S>>::empty());
            assert(Seq::<Seq<S>>::empty() + frames_of(all, n) == frames_of(all, n));
        }
        while len - start >= n_exec
            invariant
                n_exec == n,
                n > 0,
                all == self.pending@,
                len == all.len(),
                start <= len,
                frame_views(frames@) + frames_of(all.skip(start as int), n) == frames_of(all, n),
                frame_remainder(all.skip(start as int), n) == frame_remainder(all, n),
            decreases len - start,
        {
            let frame = copy_range(self.pending.as_slice(), start, start + n_exec);
            proof {
                let rest = all.skip(start as int);
                assert(rest.take(n as int) == frame@);
                assert(rest.skip(n as int) == all.skip(start + n));
                assert(frames_of(rest, n) == seq![frame@] + frames_of(all.skip(start + n), n));
                assert(frame_views(frames@.push(frame)) == frame_views(frames@).push(frame@));
                assert(frame_views(frames@).push(frame@) + frames_of(all.skip(start + n), n)
                    == frame_views(frames@) + (seq![frame@] + frames_of(all.skip(start + n), n)));
            }
            frames.push(frame);
            start = start + n_exec;
        }
        proof {
            let rest = all.skip(start as int);
            assert(frames_of(rest, n) == Seq::<Seq<S>>::empty());
            assert(frame_views(frames@) + Seq::<Seq<S>>::empty() == frame_views(frames@));
            assert(frame_remainder(rest, n) == rest);
            assert(rest == all.subrange(start as int, len as int));
        }
        self.pending = copy_range(self.pending.as_slice(), start, len);
        frames
    }

    /// The number of samples waiting for a frame to fill.
    pub fn pending_len(&self) -> (n: usize)
        ensures
            n == self.pending().len(),
    {
        self.pending.len()
    }

    /// Drops the pending samples.
    pub fn clear(&mut self)
        requires
            old(self).wf(),
        ensures
            final(self).wf(),
            final(self).frame_len() == old(self).frame_len(),
            final(self).pending() == Seq::<S>::empty(),
    {
        self.pending.clear();
    }
}

/// Framing loses and invents nothing: the frames followed by the remainder
/// are exactly the input.
pub proof fn law_frames_conserve_samples<S>(s: Seq<S>, n: nat)
    requires
        n > 0,
    ensures
        flatten_frames(frames_of(s, n)) + frame_remainder(s, n) == s,
    decreases s.len(),
{
    if s.len() < n {
        assert(frames_of(s, n) == Seq::<Seq<S>>::empty());
        assert(flatten_frames(Seq::<Seq<S>>::empty()) == Seq::<S>::empty());
        assert(Seq::<S>::empty() + s == s);
    } else {
        let rest = s.skip(n as int);
        law_frames_conserve_samples(rest, n);
        let fs = frames_of(s, n);
        assert(fs == seq![s.take(n as int)] + frames_of(rest, n));
        assert(fs.drop_first() == frames_of(rest, n));
        assert(flatten_frames(fs) == s.take(n as int) + flatten_frames(frames_of(rest, n)));
        assert(s.take(n as int) + (flatten_frames(frames_of(rest, n)) + frame_remainder(rest, n))
            == s);
    }
}

/// Every frame has exactly the frame length, and the remainder is shorter
/// than one frame.
pub proof fn law_frames_have_fixed_length<S>(s: Seq<S>, n: nat)
    requires
        n > 0,
    ensures
        forall|i: int| 0 <= i < frames_of(s, n).len() ==> #[trigger] frames_of(s, n)[i].len() == n,
        frame_remainder(s, n).len() < n,
        frames_of(s, n).len() == s.len() / n,
    decreases s.len(),
{
    if s.len() >= n {
        let rest = s.skip(n as int);
        law_frames_have_fixed_length(rest, n);
        let fs = frames_of(s, n);
        assert forall|i: int| 0 <= i < fs.len() implies #[trigger] fs[i].len() == n by {
            if i > 0 {
                assert(fs[i] == frames_of(rest, n)[i - 1]);
            }
        }
        assert(rest.len() == s.len() - n);
        assert((s.len() - n) as nat / n == s.len() / n - 1) by (nonlinear_arith)
            requires
                s.len() >= n,
                n > 0,
        ;
    } else {
        assert(s.len() / n == 0) by (nonlinear_arith)
            requires
                s.len() < n,
        ;
    }
}

/// Framing in pieces is framing the whole: cutting `x` first and then the
/// remainder of `x` followed by `b` gives the frames of `x + b`, in the same
/// order, and leaves the same remainder. Successive pushes therefore see one
/// seamless stream.
pub proof fn law_frames_of_concatenation<S>(x: Seq<S>, b: Seq<S>, n: nat)
    requires
        n > 0,
    ensures
        frames_of(x, n) + frames_of(frame_remainder(x, n) + b, n) == frames_of(x + b, n),
        frame_remainder(frame_remainder(x, n) + b, n) == frame_remainder(x + b, n),
    decreases x.len(),
{
    if x.len() < n {
        assert(frames_of(x, n) == Seq::<Seq<S>>::empty());
        assert(frame_remainder(x, n) == x);
        assert(Seq::<Seq<S>>::empty() + frames_of(x + b, n) == frames_of(x + b, n));
    } else {
        let rest = x.skip(n as int);
        law_frames_of_concatenation(rest, b, n);
        let xb = x + b;
        assert(xb.len() >= n);
        assert(xb.take(n as int) == x.take(n as int));
        assert(xb.skip(n as int) == rest + b);
        assert(frames_of(xb, n) == seq![x.take(n as int)] + frames_of(rest + b, n));
        assert(frames_of(x, n) == seq![x.take(n as int)] + frames_of(rest, n));
        assert(frame_remainder(x, n) == frame_remainder(rest, n));
        assert(frame_remainder(xb, n) == frame_remainder(rest + b, n));
        assert(seq![x.take(n as int)] + frames_of(rest, n) + frames_of(
            frame_remainder(rest, n) + b,
            n,
        ) == seq![x.take(n as int)] + (frames_of(rest, n) + frames_of(
            frame_remainder(rest, n) + b,
            n,
        )));
    }
}

} // verus!
