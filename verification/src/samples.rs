//! Copying helpers for sequences of audio samples of any `Copy` type.

use vstd::prelude::*;

verus! {

/// Appends every sample of `frame` to the end of `buf`.
pub fn append_samples<S: Copy>(buf: &mut Vec<S>, frame: &[S])
    ensures
        final(buf)@ == old(buf)@ + frame@,
{
    let n = frame.len();
    let mut i: usize = 0;
    while i < n
        invariant
            n == frame@.len(),
            i <= n,
            buf@ == old(buf)@ + frame@.subrange(0, i as int),
        decreases n - i,
    {
        buf.push(frame[i]);
        i = i + 1;
        assert(frame@.subrange(0, i as int) == frame@.subrange(0, (i - 1) as int).push(frame@[i - 1]));
    }
    assert(frame@.subrange(0, n as int) == frame@);
}

/// Returns a fresh vector holding `src[lo..hi]`.
pub fn copy_range<S: Copy>(src: &[S], lo: usize, hi: usize) -> (out: Vec<S>)
    requires
        lo <= hi <= src@.len(),
    ensures
        out@ == src@.subrange(lo as int, hi as int),
{
    let mut out: Vec<S> = Vec::with_capacity(hi - lo);
    let mut i: usize = lo;
    while i < hi
        invariant
            lo <= i <= hi <= src@.len(),
            out@ == src@.subrange(lo as int, i as int),
        decreases hi - i,
    {
        out.push(src[i]);
        i = i + 1;
        assert(src@.subrange(lo as int, i as int) == src@.subrange(lo as int, (i - 1) as int).push(src@[i - 1]));
    }
    out
}

/// Returns a fresh vector with the same samples as `src`.
pub fn copy_all<S: Copy>(src: &[S]) -> (out: Vec<S>)
    ensures
        out@ == src@,
{
    let out = copy_range(src, 0, src.len());
    assert(src@.subrange(0, src@.len() as int) == src@);
    out
}

/// Returns a vector of `n` copies of `value`.
pub fn filled<S: Copy>(value: S, n: usize) -> (out: Vec<S>)
    ensures
        out@ == Seq::new(n as nat, |i: int| value),
{
    let mut out: Vec<S> = Vec::with_capacity(n);
    let mut i: usize = 0;
    while i < n
        invariant
            i <= n,
            out@ == Seq::new(i as nat, |k: int| value),
        decreases n - i,
    {
        out.push(value);
        i = i + 1;
        assert(out@ =~= Seq::new(i as nat, |k: int| value));
    }
    out
}

} // verus!
