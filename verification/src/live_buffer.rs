//! The shared live-audio buffer: an append-only, growable sample store
//! bridging the capture side (producer) and the inference side (consumer).
//!
//! Samples are 16-bit PCM units at the recognizer's fixed rate; the
//! application shell quantizes device samples at this boundary.  The
//! buffer's protocol: the producer appends with [`LiveAudioBuffer::push`]
//! and finishes the stream with [`LiveAudioBuffer::mark_eof`]; the consumer
//! reads monotonically growing prefixes and decides with
//! [`LiveAudioBuffer::wait_for_data`] whether to proceed, wait, or leave.
//! The shell wraps one buffer in a single lock/condition pair and signals
//! on every append and on end-of-stream; all decisions about the content
//! are verified here.

use vstd::prelude::*;

verus! {

/// The recognizer's fixed sample rate.
pub const TARGET_SAMPLE_RATE: usize = 16000;

/// The live buffer's initial capacity: thirty seconds at the
/// recognizer's rate.
pub const INITIAL_LIVE_CAPACITY: usize = 16000 * 30;

/// How many samples the inference side waits for before it first calls
/// the engine: half a second at the recognizer's rate.
pub const MIN_LIVE_SAMPLES: usize = 16000 / 2;

/// A growable, append-only sample buffer with an end-of-stream flag.
pub struct LiveAudioBuffer {
    samples: Vec<i16>,
    capacity: usize,
    eof: bool,
    frozen: bool,
}

/// What the consumer should do, given the buffer state it observed.
#[derive(Debug, Clone, Copy, PartialEq, Eq, Structural)]
pub enum WaitOutcome {
    /// Enough samples are available.
    Ready,
    /// The stop signal was observed; leave without waiting for audio.
    Stopped,
    /// The producer marked end-of-stream; no more samples will come.
    EndOfStream,
    /// Not enough data yet and the stream is still live: wait again.
    KeepWaiting,
}

/// The capacity that doubling growth reaches: repeatedly double `cap`
/// (from at least 1) until it covers `needed`, falling back to `needed`
/// itself where doubling would overflow `usize`.
pub open spec fn grown_capacity(cap: int, needed: int) -> int
    decreases (if needed <= cap { 0int } else { needed - cap }),
{
    if needed <= cap {
        cap
    } else if cap < 1 {
        grown_capacity(1, needed)
    } else if cap > usize::MAX as int / 2 {
        needed
    } else {
        grown_capacity(2 * cap, needed)
    }
}

pub proof fn lemma_grown_capacity_bounds(cap: int, needed: int)
    ensures
        grown_capacity(cap, needed) >= needed,
        grown_capacity(cap, needed) >= cap,
    decreases (if needed <= cap { 0int } else { needed - cap }),
{
    if needed <= cap {
    } else if cap < 1 {
        lemma_grown_capacity_bounds(1, needed);
    } else if cap > usize::MAX as int / 2 {
    } else {
        lemma_grown_capacity_bounds(2 * cap, needed);
    }
}

/// The concatenation of a sequence of chunks.
pub open spec fn concat_chunks(chunks: Seq<Seq<i16>>) -> Seq<i16>
    decreases chunks.len(),
{
    if chunks.len() == 0 {
        Seq::empty()
    } else {
        chunks[0] + concat_chunks(chunks.drop_first())
    }
}

/// The buffer contents after pushing each chunk in order onto `init`,
/// the step being exactly what [`LiveAudioBuffer::push`] ensures.
pub open spec fn contents_after_pushes(init: Seq<i16>, chunks: Seq<Seq<i16>>) -> Seq<i16>
    decreases chunks.len(),
{
    if chunks.len() == 0 {
        init
    } else {
        contents_after_pushes(init + chunks[0], chunks.drop_first())
    }
}

/// For every sequence of `push` calls, the buffer holds exactly the
/// concatenation of the pushed chunks, in push order — so a consumer that
/// reads the final contents observes every pushed sample exactly once and
/// in order, however the pushes and reads interleave.
pub proof fn lemma_consumer_observes_pushes(init: Seq<i16>, chunks: Seq<Seq<i16>>)
    ensures
        contents_after_pushes(init, chunks) == init + concat_chunks(chunks),
    decreases chunks.len(),
{
    if chunks.len() == 0 {
        assert(init + Seq::<i16>::empty() =~= init);
    } else {
        lemma_consumer_observes_pushes(init + chunks[0], chunks.drop_first());
        assert((init + chunks[0]) + concat_chunks(chunks.drop_first()) =~= init + (chunks[0]
            + concat_chunks(chunks.drop_first())));
    }
}

/// What the consumer should do: data first, then the stop signal, then
/// end-of-stream, else wait.
pub open spec fn wait_outcome_spec(n_samples: int, eof: bool, min_samples: int, stop: bool)
    -> WaitOutcome {
    if n_samples >= min_samples {
        WaitOutcome::Ready
    } else if stop {
        WaitOutcome::Stopped
    } else if eof {
        WaitOutcome::EndOfStream
    } else {
        WaitOutcome::KeepWaiting
    }
}

/// Stopping does not depend on further audio arriving: once the stop
/// signal is visible the consumer's wait decision never asks to wait
/// again, whatever the buffer holds — and the same once the producer has
/// marked end-of-stream.  The worker loops run one bounded-interval wait
/// per decision, so after the stop flag is observed they terminate
/// without any more samples.
pub proof fn lemma_stop_never_waits(n_samples: int, eof: bool, min_samples: int)
    ensures
        wait_outcome_spec(n_samples, eof, min_samples, true) != WaitOutcome::KeepWaiting,
        eof ==> wait_outcome_spec(n_samples, eof, min_samples, false)
            != WaitOutcome::KeepWaiting,
{
}

impl View for LiveAudioBuffer {
    type V = Seq<i16>;

    closed spec fn view(&self) -> Seq<i16> {
        self.samples@
    }
}

impl LiveAudioBuffer {
    /// The modeled storage capacity, in samples.
    pub closed spec fn spec_capacity(&self) -> int {
        self.capacity as int
    }

    /// Whether end-of-stream has been marked.
    pub closed spec fn spec_eof(&self) -> bool {
        self.eof
    }

    /// Whether the buffer stopped accepting samples (growth-failure policy).
    pub closed spec fn spec_frozen(&self) -> bool {
        self.frozen
    }

    /// The buffer invariant: the logical length never exceeds the capacity.
    pub open spec fn wf(&self) -> bool {
        self@.len() <= self.spec_capacity()
    }

    /// A fresh buffer: empty, live, with the given initial capacity.
    pub fn new(initial_capacity: usize) -> (r: Self)
        ensures
            r.wf(),
            r@ == Seq::<i16>::empty(),
            r.spec_capacity() == initial_capacity,
            !r.spec_eof(),
            !r.spec_frozen(),
    {
        LiveAudioBuffer { samples: Vec::new(), capacity: initial_capacity, eof: false, frozen: false }
    }

    /// The logical number of samples.
    pub fn len(&self) -> (r: usize)
        ensures
            r == self@.len(),
    {
        self.samples.len()
    }

    pub fn is_eof(&self) -> (r: bool)
        ensures
            r == self.spec_eof(),
    {
        self.eof
    }

    pub fn is_frozen(&self) -> (r: bool)
        ensures
            r == self.spec_frozen(),
    {
        self.frozen
    }

    /// Producer side: append the chunk, doubling the capacity when the new
    /// length exceeds it.  A frozen buffer accepts nothing and reports so.
    /// Existing samples are never changed, the capacity never shrinks, and
    /// afterwards the length still fits the capacity.
    pub fn push(&mut self, chunk: &[i16]) -> (accepted: bool)
        requires
            old(self).wf(),
            old(self)@.len() + chunk@.len() <= usize::MAX,
        ensures
            final(self).wf(),
            accepted == !old(self).spec_frozen(),
            final(self).spec_eof() == old(self).spec_eof(),
            final(self).spec_frozen() == old(self).spec_frozen(),
            final(self).spec_capacity() >= old(self).spec_capacity(),
            old(self).spec_frozen() ==> final(self)@ == old(self)@ && final(self).spec_capacity()
                == old(self).spec_capacity(),
            !old(self).spec_frozen() ==> final(self)@ == old(self)@ + chunk@
                && final(self).spec_capacity() == grown_capacity(
                old(self).spec_capacity(),
                old(self)@.len() + chunk@.len() as int,
            ),
    {
        if self.frozen {
            return false;
        }
        let needed: usize = self.samples.len() + chunk.len();
        proof {
            lemma_grown_capacity_bounds(self.capacity as int, needed as int);
        }
        while self.capacity < needed
            invariant
                needed <= usize::MAX,
                grown_capacity(self.capacity as int, needed as int) == grown_capacity(
                    old(self).spec_capacity(),
                    needed as int,
                ),
                self.capacity >= old(self).spec_capacity(),
                self@ == old(self)@,
                self.eof == old(self).spec_eof(),
                self.frozen == old(self).spec_frozen(),
            decreases (if needed <= self.capacity { 0int } else { needed - self.capacity }),
        {
            if self.capacity < 1 {
                self.capacity = 1;
            } else if self.capacity > usize::MAX / 2 {
                self.capacity = needed;
            } else {
                self.capacity = 2 * self.capacity;
            }
        }
        let mut i: usize = 0;
        while i < chunk.len()
            invariant
                i <= chunk@.len(),
                self@ == old(self)@ + chunk@.subrange(0, i as int),
                self.capacity == grown_capacity(old(self).spec_capacity(), needed as int),
                needed == old(self)@.len() + chunk@.len(),
                self.capacity >= old(self).spec_capacity(),
                self.capacity >= needed,
                self.eof == old(self).spec_eof(),
                self.frozen == old(self).spec_frozen(),
            decreases chunk@.len() - i,
        {
            let s = chunk[i];
            self.samples.push(s);
            proof {
                assert(self@ =~= old(self)@ + chunk@.subrange(0, i + 1));
            }
            i += 1;
        }
        proof {
            assert(chunk@.subrange(0, chunk@.len() as int) =~= chunk@);
        }
        true
    }

    /// Producer side, growth-failure policy: stop accepting further samples
    /// without touching the ones already stored.  The capture side invokes
    /// this when storage cannot grow, and surfaces the condition to the
    /// caller when the session stops.
    pub fn freeze(&mut self)
        requires
            old(self).wf(),
        ensures
            final(self).wf(),
            final(self)@ == old(self)@,
            final(self).spec_capacity() == old(self).spec_capacity(),
            final(self).spec_eof() == old(self).spec_eof(),
            final(self).spec_frozen(),
    {
        self.frozen = true;
    }

    /// Producer side: mark end-of-stream.  The shell signals the consumer's
    /// condition variable right after, under the same lock.
    pub fn mark_eof(&mut self)
        requires
            old(self).wf(),
        ensures
            final(self).wf(),
            final(self)@ == old(self)@,
            final(self).spec_capacity() == old(self).spec_capacity(),
            final(self).spec_frozen() == old(self).spec_frozen(),
            final(self).spec_eof(),
    {
        self.eof = true;
    }

    /// Consumer side: copy out every sample from `start` on.  Reading never
    /// changes the buffer, so a consumer that tracks how far it has read
    /// observes each sample exactly once.
    pub fn read_from(&self, start: usize) -> (out: Vec<i16>)
        requires
            start <= self@.len(),
        ensures
            out@ == self@.subrange(start as int, self@.len() as int),
    {
        let n = self.samples.len();
        let mut out: Vec<i16> = Vec::new();
        let mut i: usize = start;
        while i < n
            invariant
                start <= i <= n,
                n == self@.len(),
                out@ == self@.subrange(start as int, i as int),
            decreases n - i,
        {
            out.push(self.samples[i]);
            proof {
                assert(out@ =~= self@.subrange(start as int, i + 1));
            }
            i += 1;
        }
        proof {
            assert(out@ =~= self@.subrange(start as int, n as int));
        }
        out
    }

    /// Consumer side: decide what to do with the observed state.  Never
    /// answers `KeepWaiting` once the stop signal or end-of-stream is
    /// visible, so the consumer's wait loop cannot depend on further audio
    /// arriving.
    pub fn wait_for_data(&self, min_samples: usize, stop_requested: bool) -> (r: WaitOutcome)
        ensures
            r == wait_outcome_spec(
                self@.len() as int,
                self.spec_eof(),
                min_samples as int,
                stop_requested,
            ),
            stop_requested ==> r != WaitOutcome::KeepWaiting,
            self.spec_eof() ==> r != WaitOutcome::KeepWaiting,
    {
        if self.samples.len() >= min_samples {
            WaitOutcome::Ready
        } else if stop_requested {
            WaitOutcome::Stopped
        } else if self.eof {
            WaitOutcome::EndOfStream
        } else {
            WaitOutcome::KeepWaiting
        }
    }
}

} // verus!
