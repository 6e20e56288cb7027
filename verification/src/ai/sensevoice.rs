//! Decisions around the local speech recogniser.
//!
//! The recogniser is a native library reached through a C interface. It
//! takes a NUL-terminated model path and writes its transcript into a
//! fixed buffer of `MAX_TEXT_LEN` bytes, padded with NUL bytes, returning
//! a status code. This module decides whether a model path can be passed
//! and turns a status code and output buffer into a transcript or an error.

use crate::ai::translator::EngineError;
use crate::text::contains_nul;
use vstd::prelude::*;
use vstd::string::StringSliceAdditionalSpecFns;

verus! {

/// Size of the buffer the recogniser writes its transcript into.
pub const MAX_TEXT_LEN: usize = 4096;

/// Whether `path` can be handed to the recogniser: a C string cannot hold
/// a NUL byte.
pub fn check_model_path(path: &str) -> (r: Result<(), EngineError>)
    ensures
        r is Ok <==> !path.spec_bytes().contains(0u8),
        r is Err ==> r == Err::<(), EngineError>(EngineError::InvalidModelPath),
{
    if contains_nul(path) {
        Err(EngineError::InvalidModelPath)
    } else {
        Ok(())
    }
}

/// The bytes of `buf` without its trailing NUL bytes.
pub open spec fn trim_trailing_nuls(buf: Seq<u8>) -> Seq<u8>
    decreases buf.len(),
{
    if buf.len() > 0 && buf.last() == 0u8 {
        trim_trailing_nuls(buf.drop_last())
    } else {
        buf
    }
}

/// Turns the recogniser's status code and output buffer into the
/// transcript's bytes: a non-zero status is an error carrying the code;
/// otherwise the transcript is the buffer without its NUL padding.
pub fn decode_transcription(status: i32, out_buf: &[u8]) -> (r: Result<Vec<u8>, EngineError>)
    ensures
        status != 0 ==> (r matches Err(e) && e == EngineError::TranscribeFailed(status)),
        status == 0 ==> (r matches Ok(t) && t@ == trim_trailing_nuls(out_buf@)),
{
    if status != 0 {
        return Err(EngineError::TranscribeFailed(status));
    }
    let mut end = out_buf.len();
    proof {
        assert(out_buf@.subrange(0, out_buf@.len() as int) == out_buf@);
    }
    while end > 0 && out_buf[end - 1] == 0u8
        invariant
            end <= out_buf@.len(),
            trim_trailing_nuls(out_buf@.subrange(0, end as int)) == trim_trailing_nuls(out_buf@),
        decreases end,
    {
        proof {
            let cur = out_buf@.subrange(0, end as int);
            assert(cur.drop_last() == out_buf@.subrange(0, end - 1));
        }
        end = end - 1;
    }
    proof {
        let cur = out_buf@.subrange(0, end as int);
        if end > 0 {
            assert(cur.last() == out_buf@[end - 1]);
        }
        assert(trim_trailing_nuls(cur) == cur);
    }
    Ok(crate::samples::copy_range(out_buf, 0, end))
}

} // verus!
