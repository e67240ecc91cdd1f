use diy_typeless_core::errors::CoreError;
use diy_typeless_core::pipeline::{
    pipeline_result_from_raw, process_wav_bytes, process_wav_bytes_with_provider, AsrProvider,
};
use diy_typeless_core::transcribe::{GroqRetry, GroqStep, HttpAttemptOutcome, LocalAsrRegistry};
use diy_typeless_core::wav::wav_bytes_from_samples;

fn response(status: u16, body: &str) -> HttpAttemptOutcome {
    HttpAttemptOutcome::Response { status, body: body.to_string() }
}

#[test]
fn groq_success_returns_the_trimmed_body() {
    let mut schedule = GroqRetry::new();
    let step = schedule.observe(response(200, "  hello there \n"));
    assert_eq!(step, GroqStep::Done(Ok("hello there".to_string())));
}

#[test]
fn groq_blank_body_is_an_empty_response() {
    let mut schedule = GroqRetry::new();
    let step = schedule.observe(response(200, "   "));
    assert_eq!(step, GroqStep::Done(Err(CoreError::EmptyResponse)));
}

#[test]
fn groq_rate_limiting_backs_off_until_exhausted() {
    let mut schedule = GroqRetry::new();
    assert_eq!(schedule.observe(response(429, "")), GroqStep::Backoff(1));
    assert_eq!(schedule.observe(response(503, "")), GroqStep::Backoff(2));
    // no backoff after the final attempt: it ends the run directly
    assert_eq!(
        schedule.observe(response(500, "")),
        GroqStep::Done(Err(CoreError::Api("Groq API retries exceeded".to_string())))
    );
    assert!(!schedule.can_attempt());
}

#[test]
fn groq_client_errors_fail_immediately_naming_the_status() {
    let mut schedule = GroqRetry::new();
    let step = schedule.observe(response(404, ""));
    assert_eq!(
        step,
        GroqStep::Done(Err(CoreError::Api("Groq API error: HTTP 404".to_string())))
    );
}

#[test]
fn groq_network_failures_retry_except_on_the_final_attempt() {
    let mut schedule = GroqRetry::new();
    assert_eq!(
        schedule.observe(HttpAttemptOutcome::NetworkFailure("timed out".to_string())),
        GroqStep::Backoff(1)
    );
    assert_eq!(
        schedule.observe(HttpAttemptOutcome::NetworkFailure("timed out".to_string())),
        GroqStep::Backoff(2)
    );
    assert_eq!(
        schedule.observe(HttpAttemptOutcome::NetworkFailure("timed out".to_string())),
        GroqStep::Done(Err(CoreError::Http("timed out".to_string())))
    );
}

#[test]
fn groq_body_read_failures_fail_immediately() {
    let mut schedule = GroqRetry::new();
    let step = schedule.observe(HttpAttemptOutcome::BodyFailure("connection reset".to_string()));
    assert_eq!(
        step,
        GroqStep::Done(Err(CoreError::Http("connection reset".to_string())))
    );
}

#[test]
fn local_asr_initializes_exactly_once() {
    let mut registry = LocalAsrRegistry::new();
    assert!(!registry.is_local_asr_available());
    assert!(registry.init_local_asr().is_ok());
    assert!(registry.is_local_asr_available());
    assert_eq!(
        registry.init_local_asr(),
        Err(CoreError::Config("Local ASR already initialized".to_string()))
    );
}

#[test]
fn local_transcription_requires_an_initialized_model() {
    let registry = LocalAsrRegistry::new();
    let wav = wav_bytes_from_samples(&vec![1, 2, 3]).expect("encodes");
    assert_eq!(
        registry.prepare_local_transcription(&wav),
        Err(CoreError::Config("Local ASR not initialized".to_string()))
    );
}

#[test]
fn local_transcription_prepares_the_decoded_samples() {
    let mut registry = LocalAsrRegistry::new();
    registry.init_local_asr().expect("first init");
    let wav = wav_bytes_from_samples(&vec![1, 2, 3]).expect("encodes");
    assert_eq!(registry.prepare_local_transcription(&wav), Ok(vec![1, 2, 3]));
}

#[test]
fn plain_pipeline_prefers_local_only_without_a_key() {
    assert_eq!(process_wav_bytes("", true), AsrProvider::Local);
    assert_eq!(process_wav_bytes("", false), AsrProvider::Groq);
    assert_eq!(process_wav_bytes("key", true), AsrProvider::Groq);
    assert_eq!(process_wav_bytes("key", false), AsrProvider::Groq);
}

#[test]
fn explicit_provider_needs_a_key_only_for_the_remote_service() {
    assert_eq!(
        process_wav_bytes_with_provider(AsrProvider::Local, None),
        Ok(AsrProvider::Local)
    );
    assert_eq!(
        process_wav_bytes_with_provider(AsrProvider::Groq, Some("key")),
        Ok(AsrProvider::Groq)
    );
    assert_eq!(
        process_wav_bytes_with_provider(AsrProvider::Groq, None),
        Err(CoreError::Config("Groq API key required for remote ASR".to_string()))
    );
}

#[test]
fn pipeline_result_carries_the_raw_text_twice() {
    let result = pipeline_result_from_raw("spoken words".to_string());
    assert_eq!(result.raw_text, "spoken words");
    assert_eq!(result.polished_text, "spoken words");
}
