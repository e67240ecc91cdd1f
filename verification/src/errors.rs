//! The library's error type.
//!
//! Each variant corresponds to one failure class of the system: device and
//! capture failures, audio processing, network and API failures, engine
//! configuration, and transcription itself.  `message` renders the
//! user-visible text; its exact content is part of the contract.

use vstd::prelude::*;
use vstd::string::StringExecFns;

verus! {

/// Failure classes of the capture/transcription pipeline.
#[derive(Debug, Clone, PartialEq, Eq)]
pub enum CoreError {
    /// No usable audio input device.
    AudioDeviceUnavailable,
    /// A recording was started while one is already active.
    RecordingAlreadyActive,
    /// A recording was stopped while none is active.
    RecordingNotActive,
    /// The capture side failed; the detail says how.
    AudioCapture(String),
    /// Sample processing (decoding, resampling, encoding) failed.
    AudioProcessing(String),
    /// The HTTP transport failed before a response was classified.
    Http(String),
    /// The remote service answered with a non-retryable error.
    Api(String),
    /// A payload could not be serialized or deserialized.
    Serialization(String),
    /// The remote service answered successfully but with no content.
    EmptyResponse,
    /// The recognition engine failed to produce a transcript.
    Transcription(String),
    /// Engine or session configuration was rejected.
    Config(String),
}

/// The rendered message of each error variant.
pub open spec fn error_text(e: CoreError) -> Seq<char> {
    match e {
        CoreError::AudioDeviceUnavailable => "Audio device not available"@,
        CoreError::RecordingAlreadyActive => "Recording already active"@,
        CoreError::RecordingNotActive => "Recording not active"@,
        CoreError::AudioCapture(d) => "Audio capture failed: "@ + d@,
        CoreError::AudioProcessing(d) => "Audio processing failed: "@ + d@,
        CoreError::Http(d) => "HTTP error: "@ + d@,
        CoreError::Api(d) => "API error: "@ + d@,
        CoreError::Serialization(d) => "Serialization error: "@ + d@,
        CoreError::EmptyResponse => "Unexpected empty response"@,
        CoreError::Transcription(d) => "Transcription error: "@ + d@,
        CoreError::Config(d) => "Configuration error: "@ + d@,
    }
}

impl CoreError {
    /// Render the error as its user-visible message.
    pub fn message(&self) -> (r: String)
        ensures
            r@ == error_text(*self),
    {
        match self {
            CoreError::AudioDeviceUnavailable => String::from_str("Audio device not available"),
            CoreError::RecordingAlreadyActive => String::from_str("Recording already active"),
            CoreError::RecordingNotActive => String::from_str("Recording not active"),
            CoreError::AudioCapture(d) => {
                let mut r = String::from_str("Audio capture failed: ");
                r.append(d.as_str());
                r
            }
            CoreError::AudioProcessing(d) => {
                let mut r = String::from_str("Audio processing failed: ");
                r.append(d.as_str());
                r
            }
            CoreError::Http(d) => {
                let mut r = String::from_str("HTTP error: ");
                r.append(d.as_str());
                r
            }
            CoreError::Api(d) => {
                let mut r = String::from_str("API error: ");
                r.append(d.as_str());
                r
            }
            CoreError::Serialization(d) => {
                let mut r = String::from_str("Serialization error: ");
                r.append(d.as_str());
                r
            }
            CoreError::EmptyResponse => String::from_str("Unexpected empty response"),
            CoreError::Transcription(d) => {
                let mut r = String::from_str("Transcription error: ");
                r.append(d.as_str());
                r
            }
            CoreError::Config(d) => {
                let mut r = String::from_str("Configuration error: ");
                r.append(d.as_str());
                r
            }
        }
    }
}

} // verus!
