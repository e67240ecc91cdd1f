//! The batch transcription pipeline's decisions: which recognizer a
//! request uses, and how a transcript becomes the pipeline's result.
//!
//! The recognizers themselves — the remote service and the native engine
//! — run in the application shell; it asks these functions which to run
//! and wraps the transcript they return.

use vstd::prelude::*;
use vstd::string::StringExecFns;
use crate::errors::CoreError;

verus! {

/// What one pipeline run yields.  Polishing happens on the host side, so
/// both fields carry the raw transcript.
#[derive(Debug, PartialEq, Eq)]
pub struct PipelineResult {
    pub raw_text: String,
    pub polished_text: String,
}

/// The available recognizers.
#[derive(Debug, Clone, Copy, PartialEq, Eq, Structural)]
pub enum AsrProvider {
    Groq,
    Local,
}

/// Choose the recognizer for a plain batch request: the local engine when
/// no remote key is configured and a local model is loaded, otherwise the
/// remote service.  The application shell runs the chosen recognizer on
/// the WAV bytes and wraps its transcript with
/// [`pipeline_result_from_raw`].
pub fn process_wav_bytes(groq_api_key: &str, local_asr_available: bool) -> (r: AsrProvider)
    ensures
        r == (if groq_api_key@.len() == 0 && local_asr_available {
            AsrProvider::Local
        } else {
            AsrProvider::Groq
        }),
{
    if groq_api_key.is_empty() && local_asr_available {
        AsrProvider::Local
    } else {
        AsrProvider::Groq
    }
}

/// Validate an explicit recognizer choice: the remote service needs an
/// API key, the local engine needs nothing here (a missing model surfaces
/// when the transcription is prepared).
pub fn process_wav_bytes_with_provider(provider: AsrProvider, groq_api_key: Option<&str>) -> (r:
    Result<AsrProvider, CoreError>)
    ensures
        provider == AsrProvider::Local ==> r == Ok::<AsrProvider, CoreError>(AsrProvider::Local),
        provider == AsrProvider::Groq && groq_api_key is Some ==> r == Ok::<
            AsrProvider,
            CoreError,
        >(AsrProvider::Groq),
        provider == AsrProvider::Groq && groq_api_key is None ==> (r matches Err(e) && e matches
            CoreError::Config(m) && m@ == "Groq API key required for remote ASR"@),
{
    match provider {
        AsrProvider::Local => Ok(AsrProvider::Local),
        AsrProvider::Groq => match groq_api_key {
            Some(_) => Ok(AsrProvider::Groq),
            None => Err(
                CoreError::Config(String::from_str("Groq API key required for remote ASR")),
            ),
        },
    }
}

/// Wrap a transcript as the pipeline's result: the raw text is returned
/// unpolished in both fields.
pub fn pipeline_result_from_raw(raw: String) -> (r: PipelineResult)
    ensures
        r.raw_text@ == raw@,
        r.polished_text@ == raw@,
{
    let copy = raw.clone();
    PipelineResult { raw_text: copy, polished_text: raw }
}

} // verus!
