//! Batch transcription: the retry schedule of the remote recognizer and
//! the state of the local one.
//!
//! The remote path sends captured WAV audio to a speech-to-text service
//! and retries rate limiting, server errors and transport failures with
//! exponential backoff.  The HTTP round trip lives in the application
//! shell; every decision — how each response is classified, what is
//! retried, which error the caller sees — is verified here.  The local
//! path tracks whether the native recognizer has been initialized and
//! prepares engine-ready samples from WAV bytes.

use vstd::prelude::*;
use vstd::string::StringExecFns;
use vstd::arithmetic::power2::pow2;
use crate::errors::CoreError;
use crate::textops::{dec_digits, is_blank, trimmed};

verus! {

/// What one attempt against the remote recognizer yielded, as the
/// application shell reports it: a response with its status and body, a
/// response whose body could not be read, or a transport failure.
#[derive(Debug, PartialEq, Eq)]
pub enum HttpAttemptOutcome {
    Response { status: u16, body: String },
    BodyFailure(String),
    NetworkFailure(String),
}

/// What the caller must do after one observed outcome.
#[derive(Debug, PartialEq, Eq)]
pub enum GroqStep {
    Done(Result<String, CoreError>),
    Backoff(u64),
}

/// The limit of the remote recognizer's retry schedule.
pub const GROQ_MAX_ATTEMPTS: u32 = 3;

/// The step the remote recognizer's schedule owes for the outcome of
/// attempt number `attempt` (counted from zero): a 200 response ends the
/// run with its trimmed body, or with `EmptyResponse` if that is blank; a
/// failure to read the body ends it as an HTTP error; rate limiting and
/// server errors back off `2^attempt` seconds while attempts remain — no
/// backoff after the final attempt, which ends the run with the
/// retries-exceeded API error; any other status ends the run as an API
/// error naming it; a transport failure likewise backs off unless this
/// was the final attempt, which ends the run as an HTTP error.
pub open spec fn groq_step_spec(attempt: int, outcome: HttpAttemptOutcome, r: GroqStep) -> bool {
    match outcome {
        HttpAttemptOutcome::Response { status, body } => if status == 200 {
            if is_blank(body@) {
                r == GroqStep::Done(Err::<String, CoreError>(CoreError::EmptyResponse))
            } else {
                r matches GroqStep::Done(res) && res matches Ok(t) && t@ == trimmed(body@)
            }
        } else if status == 429 || (500 <= status && status <= 599) {
            if attempt + 1 < GROQ_MAX_ATTEMPTS {
                r matches GroqStep::Backoff(b) && b == pow2(attempt as nat)
            } else {
                r matches GroqStep::Done(res) && res matches Err(e) && e matches CoreError::Api(m)
                    && m@ == "Groq API retries exceeded"@
            }
        } else {
            r matches GroqStep::Done(res) && res matches Err(e) && e matches CoreError::Api(m)
                && m@ == "Groq API error: HTTP "@ + dec_digits(status as int)
        },
        HttpAttemptOutcome::BodyFailure(e) => r == GroqStep::Done(
            Err::<String, CoreError>(CoreError::Http(e)),
        ),
        HttpAttemptOutcome::NetworkFailure(e) => if attempt + 1 < GROQ_MAX_ATTEMPTS {
            r matches GroqStep::Backoff(b) && b == pow2(attempt as nat)
        } else {
            r == GroqStep::Done(Err::<String, CoreError>(CoreError::Http(e)))
        },
    }
}

/// The retry schedule of the remote recognizer: up to three attempts.
pub struct GroqRetry {
    attempts_made: u32,
}

impl GroqRetry {
    pub closed spec fn spec_attempts_made(&self) -> int {
        self.attempts_made as int
    }

    pub open spec fn wf(&self) -> bool {
        0 <= self.spec_attempts_made() <= GROQ_MAX_ATTEMPTS
    }

    pub open spec fn spec_can_attempt(&self) -> bool {
        self.spec_attempts_made() < GROQ_MAX_ATTEMPTS
    }

    pub fn new() -> (r: Self)
        ensures
            r.wf(),
            r.spec_attempts_made() == 0,
    {
        GroqRetry { attempts_made: 0 }
    }

    pub fn can_attempt(&self) -> (r: bool)
        ensures
            r == self.spec_can_attempt(),
    {
        self.attempts_made < GROQ_MAX_ATTEMPTS
    }

    /// Observe the outcome of the next attempt and decide the caller's
    /// step, exactly as [`groq_step_spec`] describes.
    pub fn observe(&mut self, outcome: HttpAttemptOutcome) -> (r: GroqStep)
        requires
            old(self).wf(),
            old(self).spec_can_attempt(),
        ensures
            final(self).wf(),
            final(self).spec_attempts_made() == old(self).spec_attempts_made() + 1,
            groq_step_spec(old(self).spec_attempts_made(), outcome, r),
    {
        let attempt = self.attempts_made;
        self.attempts_made = self.attempts_made + 1;
        match outcome {
            HttpAttemptOutcome::Response { status, body } => {
                if status == 200 {
                    if crate::textops::str_is_blank(body.as_str()) {
                        GroqStep::Done(Err(CoreError::EmptyResponse))
                    } else {
                        GroqStep::Done(Ok(crate::textops::trim_str(body.as_str())))
                    }
                } else if status == 429 || (500 <= status && status <= 599) {
                    if attempt + 1 < GROQ_MAX_ATTEMPTS {
                        GroqStep::Backoff(crate::retry::exp2(attempt))
                    } else {
                        GroqStep::Done(
                            Err(CoreError::Api(String::from_str("Groq API retries exceeded"))),
                        )
                    }
                } else {
                    let mut m = String::from_str("Groq API error: HTTP ");
                    m.append(crate::textops::u64_to_string(status as u64).as_str());
                    GroqStep::Done(Err(CoreError::Api(m)))
                }
            }
            HttpAttemptOutcome::BodyFailure(e) => GroqStep::Done(Err(CoreError::Http(e))),
            HttpAttemptOutcome::NetworkFailure(e) => {
                if attempt + 1 < GROQ_MAX_ATTEMPTS {
                    GroqStep::Backoff(crate::retry::exp2(attempt))
                } else {
                    GroqStep::Done(Err(CoreError::Http(e)))
                }
            }
        }
    }

}

/// The schedule always ends a run by itself: the step for the final
/// attempt is a `Done`, never a backoff, whatever the outcome — so a
/// caller that sleeps only on `Backoff` never sleeps after the final
/// attempt.
pub proof fn lemma_groq_final_attempt_never_backs_off(outcome: HttpAttemptOutcome, r: GroqStep)
    requires
        groq_step_spec(GROQ_MAX_ATTEMPTS - 1, outcome, r),
    ensures
        r is Done,
{
}

/// The state of the local recognizer: whether a model has been loaded.
/// The application shell keeps the native engine handle beside it; this
/// registry owns every decision about it.
pub struct LocalAsrRegistry {
    initialized: bool,
}

impl LocalAsrRegistry {
    pub closed spec fn spec_initialized(&self) -> bool {
        self.initialized
    }

    /// No model is loaded yet.
    pub fn new() -> (r: Self)
        ensures
            !r.spec_initialized(),
    {
        LocalAsrRegistry { initialized: false }
    }

    /// Record that a model was loaded.  Initializing twice is a
    /// configuration error and changes nothing.
    pub fn init_local_asr(&mut self) -> (r: Result<(), CoreError>)
        ensures
            final(self).spec_initialized(),
            old(self).spec_initialized() ==> (r matches Err(e) && e matches CoreError::Config(m)
                && m@ == "Local ASR already initialized"@),
            !old(self).spec_initialized() ==> r is Ok,
    {
        if self.initialized {
            return Err(CoreError::Config(String::from_str("Local ASR already initialized")));
        }
        self.initialized = true;
        Ok(())
    }

    /// Whether the local recognizer is ready to transcribe.
    pub fn is_local_asr_available(&self) -> (r: bool)
        ensures
            r == self.spec_initialized(),
    {
        self.initialized
    }

    /// Prepare a local transcription: refuse when no model is loaded,
    /// else decode the WAV bytes into the mono 16 kHz samples the engine
    /// consumes.  The engine call itself happens outside; it turns these
    /// samples into the transcript.
    pub fn prepare_local_transcription(&self, wav_bytes: &Vec<u8>) -> (r: Result<
        Vec<i16>,
        CoreError,
    >)
        ensures
            !self.spec_initialized() ==> (r matches Err(e) && e matches CoreError::Config(m) && m@
                == "Local ASR not initialized"@),
            self.spec_initialized() ==> crate::wav::decode_result_spec(wav_bytes@, r),
    {
        if !self.initialized {
            return Err(CoreError::Config(String::from_str("Local ASR not initialized")));
        }
        crate::wav::decode_wav_to_samples(wav_bytes)
    }
}

} // verus!
