//! Decisions of the native recognition-engine bridge.
//!
//! The engine itself is an opaque native capability the application shell
//! drives: load a model, force a language, transcribe a sample array, run
//! the live mode over a shared buffer.  Each native call answers with a
//! status or a nullable result; what those answers mean — which typed
//! error each failure becomes, when a language code is acceptable, how
//! the single token-callback slot behaves — is decided here, so a failed
//! native handle surfaces as an error and never as a panic.

use vstd::prelude::*;
use vstd::string::StringExecFns;
use crate::errors::CoreError;

verus! {

/// Whether a string holds an interior NUL, which no C string can carry.
pub open spec fn has_nul(s: Seq<char>) -> bool {
    exists|i: int| 0 <= i < s.len() && s[i] == '\0'
}

/// The native call a language setting requires: none when no language is
/// forced, else one call with the code.
#[derive(Debug, PartialEq, Eq)]
pub enum LanguageAction {
    NoCall,
    Force(String),
}

/// Decide the native call for an optional forced language.  A code with
/// an interior NUL cannot cross the C boundary and is rejected as a
/// configuration error.
pub fn set_language_plan(language: Option<&str>) -> (r: Result<LanguageAction, CoreError>)
    ensures
        match language {
            None => r == Ok::<LanguageAction, CoreError>(LanguageAction::NoCall),
            Some(l) => if has_nul(l@) {
                r matches Err(e) && e matches CoreError::Config(m) && m@
                    == "Invalid language code"@
            } else {
                r matches Ok(a) && a matches LanguageAction::Force(c) && c@ == l@
            },
        },
{
    match language {
        None => Ok(LanguageAction::NoCall),
        Some(l) => {
            let n: usize = l.unicode_len();
            let mut i: usize = 0;
            while i < n
                invariant
                    language == Some(l),
                    i <= n,
                    n == l@.len(),
                    forall|j: int| 0 <= j < i ==> l@[j] != '\0',
                decreases n - i,
            {
                if l.get_char(i) == '\0' {
                    return Err(CoreError::Config(String::from_str("Invalid language code")));
                }
                i += 1;
            }
            Ok(LanguageAction::Force(l.to_owned()))
        }
    }
}

/// Interpret the status the native language call returned: zero is
/// success, anything else rejects the code.
pub fn set_language_outcome(language: &str, status: i32) -> (r: Result<(), CoreError>)
    ensures
        status == 0 ==> r is Ok,
        status != 0 ==> (r matches Err(e) && e matches CoreError::Config(m) && m@
            == "Failed to set language: "@ + language@),
{
    if status == 0 {
        Ok(())
    } else {
        let mut m = String::from_str("Failed to set language: ");
        m.append(language);
        Err(CoreError::Config(m))
    }
}

/// Interpret the native model load: a null context means the model could
/// not be loaded.
pub fn engine_load_outcome(loaded: bool) -> (r: Result<(), CoreError>)
    ensures
        loaded ==> r is Ok,
        !loaded ==> (r matches Err(e) && e matches CoreError::Config(m) && m@
            == "Failed to load Qwen3-ASR model"@),
{
    if loaded {
        Ok(())
    } else {
        Err(CoreError::Config(String::from_str("Failed to load Qwen3-ASR model")))
    }
}

/// Interpret a batch transcription's nullable result: text, or failure.
pub fn transcription_outcome(text: Option<String>) -> (r: Result<String, CoreError>)
    ensures
        match text {
            Some(t) => r == Ok::<String, CoreError>(t),
            None => r matches Err(e) && e matches CoreError::Transcription(m) && m@
                == "Transcription failed"@,
        },
{
    match text {
        Some(t) => Ok(t),
        None => Err(CoreError::Transcription(String::from_str("Transcription failed"))),
    }
}

/// Interpret a streaming transcription's nullable result.
pub fn stream_transcription_outcome(text: Option<String>) -> (r: Result<String, CoreError>)
    ensures
        match text {
            Some(t) => r == Ok::<String, CoreError>(t),
            None => r matches Err(e) && e matches CoreError::Transcription(m) && m@
                == "Streaming transcription failed"@,
        },
{
    match text {
        Some(t) => Ok(t),
        None => Err(CoreError::Transcription(String::from_str("Streaming transcription failed"))),
    }
}

/// Interpret a live streaming transcription's nullable result.
pub fn live_transcription_outcome(text: Option<String>) -> (r: Result<String, CoreError>)
    ensures
        match text {
            Some(t) => r == Ok::<String, CoreError>(t),
            None => r matches Err(e) && e matches CoreError::Transcription(m) && m@
                == "Live streaming transcription failed"@,
        },
{
    match text {
        Some(t) => Ok(t),
        None => Err(
            CoreError::Transcription(String::from_str("Live streaming transcription failed")),
        ),
    }
}

/// The engine's single token-callback slot: at most one callback is
/// registered at a time.  Registering releases and replaces any previous
/// callback; clearing releases it.  The shell registers the session's
/// accumulator here before the live call and clears the slot after the
/// native call has returned, never before, so no callback outlives a
/// call that might invoke it.
pub struct CallbackSlot {
    active: bool,
}

impl CallbackSlot {
    /// Whether a callback is registered.
    pub closed spec fn spec_active(&self) -> bool {
        self.active
    }

    /// An empty slot.
    pub fn new() -> (r: Self)
        ensures
            !r.spec_active(),
    {
        CallbackSlot { active: false }
    }

    /// Register a callback, replacing any previous one; afterwards
    /// exactly this one is active.
    pub fn set(&mut self)
        ensures
            final(self).spec_active(),
    {
        self.active = true;
    }

    /// Release the registered callback, if any; afterwards none is
    /// active, so releasing twice cannot double-free.
    pub fn clear(&mut self)
        ensures
            !final(self).spec_active(),
    {
        self.active = false;
    }

    pub fn is_active(&self) -> (r: bool)
        ensures
            r == self.spec_active(),
    {
        self.active
    }
}

} // verus!
