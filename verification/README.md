# aura_core

The decision logic of Aura's real-time speech captioning core, verified
with Verus.

Audio captured from a process is pushed through a lock-free ring buffer,
cut into 512-sample frames, classified by a voice-activity detector and
segmented by a chunking state machine into provisional, final and hard-cut
chunks; a speech engine turns chunks into captions that are handed to the
host application through a C interface.

## Layout

- `src/` — the verified library:
  - `vad/state_machine.rs` — the chunking state machine, specified by a
    step function over an abstract state; `vad/chunking_laws.rs` — laws
    proved over that step function (invariant, silence close, hard-cut
    overlap, provisional timing, whole-utterance conservation, the onset
    frame opening the next chunk).
  - `vad/silero.rs` — detector context, recurrent state and hysteresis,
    with the carry-over of context and state from one call to the next.
  - `audio/ring_buffer.rs` — the SPSC ring buffer over `ringbuf`, whose
    two halves share one buffer and one overflow flag and state, in order,
    what each appended or removed;
    `audio/framing.rs` — fixed-size framing with conservation laws and
    the law that framing in pieces equals framing the whole;
    `audio/capture.rs` — stereo frame decoding and capture start/stop
    decisions, with the law that a capturer captures at most once.
  - `ai/` — the engine interface, the live engine, recogniser output
    decoding.
  - `ffi/` — settings and status codes behind the C interface, pipeline
    mode selection, what the worker does with each chunk, captions, the
    self-test typing effect, capture dumps.
  - `clock.rs`, `samples.rs`, `text.rs` — clock readings, sample copying,
    caption text building.
- `tests/` — executable tests of the library.
- `app/` — the runtime around the library: device capture, resampling,
  detector inference, the native recogniser, worker threads and the
  exported C functions.
