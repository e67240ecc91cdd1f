//! The streaming-session core: stop signal, accumulated token text,
//! captured audio error, and the decision that turns the two worker
//! threads' outcomes into the session's final result.
//!
//! The application shell spawns the capture and inference threads, holds
//! this core under one lock, and routes every engine token through
//! [`StreamingHandle::append_token`] — under that single lock, so each
//! token is reflected in the accumulated text atomically with the
//! caller's callback, in emission order.  `stop` is the single
//! cancellation entry point: the shell sets the stop signal, joins the
//! capture thread and then the inference thread, and hands both outcomes
//! to [`StreamingHandle::stop`], which alone decides what the caller sees.

use vstd::prelude::*;
use vstd::string::StringExecFns;
use crate::errors::CoreError;

verus! {

/// What joining a worker thread yielded: its value, or the fact that it
/// panicked.  A panic in a worker is converted into a typed error at the
/// join boundary, never propagated as a crash.
#[derive(Debug, PartialEq, Eq)]
pub enum ThreadOutcome<T> {
    Completed(T),
    Panicked,
}

/// Control state of one streaming transcription session.
pub struct StreamingHandle {
    stop_requested: bool,
    accumulated_text: String,
    audio_error: Option<CoreError>,
}

/// A failed stop: the error that ended the session, together with
/// whatever text had accumulated by then — partial text is never
/// silently discarded on the error path.
#[derive(Debug, PartialEq, Eq)]
pub struct StopFailure {
    pub error: CoreError,
    pub partial_text: String,
}

/// The result `stop` owes for each pair of thread outcomes, given the
/// text accumulated so far: a capture failure wins over everything, a
/// panic becomes a typed error, otherwise the inference thread's own
/// result is passed through — and every failure carries the accumulated
/// text as context.
pub open spec fn stop_result_spec(
    accumulated: Seq<char>,
    audio: ThreadOutcome<Result<(), CoreError>>,
    inference: ThreadOutcome<Result<String, CoreError>>,
    r: Result<String, StopFailure>,
) -> bool {
    match audio {
        ThreadOutcome::Panicked => r matches Err(f) && f.error matches CoreError::Transcription(m)
            && m@ == "Audio thread panicked"@ && f.partial_text@ == accumulated,
        ThreadOutcome::Completed(a) => match a {
            Err(e) => r matches Err(f) && f.error == e && f.partial_text@ == accumulated,
            Ok(_) => match inference {
                ThreadOutcome::Panicked => r matches Err(f) && f.error matches
                    CoreError::Transcription(m) && m@ == "Inference thread panicked"@
                    && f.partial_text@ == accumulated,
                ThreadOutcome::Completed(res) => match res {
                    Ok(t) => r == Ok::<String, StopFailure>(t),
                    Err(e) => r matches Err(f) && f.error == e && f.partial_text@ == accumulated,
                },
            },
        },
    }
}

impl StreamingHandle {
    /// The text accumulated from the tokens emitted so far.
    pub closed spec fn spec_text(&self) -> Seq<char> {
        self.accumulated_text@
    }

    /// Whether the stop signal has been raised.
    pub closed spec fn spec_stop_requested(&self) -> bool {
        self.stop_requested
    }

    /// The capture failure recorded by the audio side, if any.
    pub closed spec fn spec_audio_error(&self) -> Option<CoreError> {
        self.audio_error
    }

    /// A fresh session: live, with no text and no captured error.
    pub fn new() -> (r: Self)
        ensures
            !r.spec_stop_requested(),
            r.spec_text() == Seq::<char>::empty(),
            r.spec_audio_error() is None,
    {
        StreamingHandle {
            stop_requested: false,
            accumulated_text: String::new(),
            audio_error: None,
        }
    }

    /// Append one emitted token to the accumulated text.  The shell calls
    /// this under the session lock together with the caller's callback, so
    /// no caller can observe the callback for a token before the
    /// accumulated text reflects every earlier one.
    pub fn append_token(&mut self, token: &str)
        ensures
            final(self).spec_text() == old(self).spec_text() + token@,
            final(self).spec_stop_requested() == old(self).spec_stop_requested(),
            final(self).spec_audio_error() == old(self).spec_audio_error(),
    {
        self.accumulated_text.append(token);
    }

    /// Non-blocking snapshot of the accumulated text; safe before, during
    /// and after the stop.
    pub fn current_text(&self) -> (r: String)
        ensures
            r@ == self.spec_text(),
    {
        self.accumulated_text.clone()
    }

    /// Whether the session still runs, i.e. the stop signal has not been
    /// raised.  Threads may still be winding down; a caller that needs
    /// full completion calls `stop`.
    pub fn is_running(&self) -> (r: bool)
        ensures
            r == !self.spec_stop_requested(),
    {
        !self.stop_requested
    }

    /// Raise the stop signal.  Raising it again changes nothing.
    pub fn request_stop(&mut self)
        ensures
            final(self).spec_stop_requested(),
            final(self).spec_text() == old(self).spec_text(),
            final(self).spec_audio_error() == old(self).spec_audio_error(),
    {
        self.stop_requested = true;
    }

    /// Record the capture failure the audio side encountered, for callers
    /// that inspect the session after an error.
    pub fn record_audio_error(&mut self, e: CoreError)
        ensures
            final(self).spec_audio_error() == Some(e),
            final(self).spec_text() == old(self).spec_text(),
            final(self).spec_stop_requested() == old(self).spec_stop_requested(),
    {
        self.audio_error = Some(e);
    }

    /// Whether the audio side recorded a capture failure.
    pub fn has_audio_error(&self) -> (r: bool)
        ensures
            r == (self.spec_audio_error() is Some),
    {
        self.audio_error.is_some()
    }

    /// Decide the session's final result from the joined thread outcomes.
    /// The capture thread's failure is surfaced even when the inference
    /// thread returned a transcript; a panic in either worker becomes a
    /// typed error; and every failure still carries the text accumulated
    /// so far, so partial transcripts are never silently discarded.
    pub fn stop(
        self,
        audio: ThreadOutcome<Result<(), CoreError>>,
        inference: ThreadOutcome<Result<String, CoreError>>,
    ) -> (r: Result<String, StopFailure>)
        ensures
            stop_result_spec(self.spec_text(), audio, inference, r),
    {
        let accumulated = self.accumulated_text;
        match audio {
            ThreadOutcome::Panicked => {
                return Err(
                    StopFailure {
                        error: CoreError::Transcription(String::from_str("Audio thread panicked")),
                        partial_text: accumulated,
                    },
                );
            }
            ThreadOutcome::Completed(a) => {
                if let Err(e) = a {
                    return Err(StopFailure { error: e, partial_text: accumulated });
                }
            }
        }
        match inference {
            ThreadOutcome::Panicked => Err(
                StopFailure {
                    error: CoreError::Transcription(String::from_str("Inference thread panicked")),
                    partial_text: accumulated,
                },
            ),
            ThreadOutcome::Completed(res) => match res {
                Ok(t) => Ok(t),
                Err(e) => Err(StopFailure { error: e, partial_text: accumulated }),
            },
        }
    }
}

/// The concatenation of a sequence of token texts.
pub open spec fn concat_tokens(tokens: Seq<Seq<char>>) -> Seq<char>
    decreases tokens.len(),
{
    if tokens.len() == 0 {
        Seq::empty()
    } else {
        tokens[0] + concat_tokens(tokens.drop_first())
    }
}

/// The accumulated text after appending each token in order onto `init`,
/// the step being exactly what [`StreamingHandle::append_token`] ensures.
pub open spec fn text_after_tokens(init: Seq<char>, tokens: Seq<Seq<char>>) -> Seq<char>
    decreases tokens.len(),
{
    if tokens.len() == 0 {
        init
    } else {
        text_after_tokens(init + tokens[0], tokens.drop_first())
    }
}

/// Tokens are reflected in emission order: after any sequence of
/// `append_token` calls, the accumulated text is exactly the concatenation
/// of the emitted tokens, none reordered, lost or duplicated.
pub proof fn lemma_tokens_in_emission_order(init: Seq<char>, tokens: Seq<Seq<char>>)
    ensures
        text_after_tokens(init, tokens) == init + concat_tokens(tokens),
    decreases tokens.len(),
{
    if tokens.len() == 0 {
        assert(init + Seq::<char>::empty() =~= init);
    } else {
        lemma_tokens_in_emission_order(init + tokens[0], tokens.drop_first());
        assert((init + tokens[0]) + concat_tokens(tokens.drop_first()) =~= init + (tokens[0]
            + concat_tokens(tokens.drop_first())));
    }
}

/// When no error occurred — the capture thread finished cleanly and the
/// inference thread completed with the engine's final text, which the live
/// mode assembles from the very tokens the session accumulated — the `Ok`
/// value of `stop` is identical to what `current_text` reports.
pub proof fn lemma_stop_text_matches_current_text(
    h: StreamingHandle,
    text: String,
    r: Result<String, StopFailure>,
)
    requires
        text@ == h.spec_text(),
        stop_result_spec(
            h.spec_text(),
            ThreadOutcome::Completed(Ok(())),
            ThreadOutcome::Completed(Ok(text)),
            r,
        ),
    ensures
        r matches Ok(t) && t@ == h.spec_text(),
{
}

/// Partial text is never silently discarded: whatever pair of thread
/// outcomes ends the session with an error, the failure carries exactly
/// the text the session had accumulated.
pub proof fn lemma_stop_failure_keeps_partial_text(
    h: StreamingHandle,
    audio: ThreadOutcome<Result<(), CoreError>>,
    inference: ThreadOutcome<Result<String, CoreError>>,
    r: Result<String, StopFailure>,
)
    requires
        stop_result_spec(h.spec_text(), audio, inference, r),
    ensures
        r matches Err(f) ==> f.partial_text@ == h.spec_text(),
{
}

} // verus!
