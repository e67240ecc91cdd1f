//! Verified core of a push-to-talk transcription tool.
//!
//! The library contains the logic of the system: the shared live-audio
//! buffer protocol, the streaming-session lifecycle, the retry policy for
//! network operations, the resampler, the WAV container codec, and the
//! prompt construction for text polishing.  Device capture, HTTP transport,
//! and the native recognition engine live in the application shell, which
//! drives the decision functions defined here.

pub mod audio;
pub mod engine;
pub mod errors;
pub mod live_buffer;
pub mod pipeline;
pub mod polish;
pub mod registry;
pub mod retry;
pub mod session;
pub mod textops;
pub mod transcribe;
pub mod wav;

pub use audio::resample_linear;
pub use errors::CoreError;
pub use live_buffer::LiveAudioBuffer;
pub use pipeline::process_wav_bytes;
pub use pipeline::process_wav_bytes_with_provider;
pub use pipeline::AsrProvider;
pub use pipeline::PipelineResult;
pub use polish::build_context_section;
pub use polish::build_prompt;
pub use registry::SessionRegistry;
pub use retry::is_retryable_status;
pub use retry::HttpResult;
pub use session::StreamingHandle;
pub use session::ThreadOutcome;
pub use transcribe::LocalAsrRegistry;
pub use wav::decode_wav_to_samples;
pub use wav::wav_bytes_from_samples;
pub use textops::format_duration;
pub use textops::mask_secret;
