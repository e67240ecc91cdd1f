use diy_typeless_core::engine::{
    engine_load_outcome, live_transcription_outcome, set_language_outcome, set_language_plan,
    transcription_outcome, CallbackSlot, LanguageAction,
};
use diy_typeless_core::errors::CoreError;
use diy_typeless_core::polish::{classify_llm_response, classify_polish_response, llm_error_from_message, LlmAttemptOutcome};
use diy_typeless_core::retry::HttpResult;
use diy_typeless_core::textops::{format_duration, mask_secret};

#[test]
fn format_duration_renders_two_decimals() {
    assert_eq!(format_duration(0), "0.00s");
    assert_eq!(format_duration(1500), "1.50s");
    assert_eq!(format_duration(61230), "61.23s");
    assert_eq!(format_duration(999), "1.00s");
}

#[test]
fn mask_secret_keeps_only_the_edges() {
    assert_eq!(mask_secret("short"), "***");
    assert_eq!(mask_secret("12345678"), "***");
    assert_eq!(mask_secret("123456789"), "1234...6789");
    assert_eq!(mask_secret("sk-abcdefghijklmnop"), "sk-a...mnop");
}

#[test]
fn error_messages_name_each_failure() {
    assert_eq!(
        CoreError::AudioDeviceUnavailable.message(),
        "Audio device not available"
    );
    assert_eq!(
        CoreError::AudioCapture("no mic".to_string()).message(),
        "Audio capture failed: no mic"
    );
    assert_eq!(
        CoreError::RecordingAlreadyActive.message(),
        "Recording already active"
    );
    assert_eq!(
        CoreError::RecordingNotActive.message(),
        "Recording not active"
    );
    assert_eq!(
        CoreError::Serialization("bad payload".to_string()).message(),
        "Serialization error: bad payload"
    );
    assert_eq!(
        CoreError::Http("timed out".to_string()).message(),
        "HTTP error: timed out"
    );
    assert_eq!(CoreError::EmptyResponse.message(), "Unexpected empty response");
    assert_eq!(
        CoreError::Api("Groq API error: HTTP 404".to_string()).message(),
        "API error: Groq API error: HTTP 404"
    );
}

#[test]
fn polish_classification_covers_each_outcome() {
    assert_eq!(
        classify_polish_response(LlmAttemptOutcome::ResponseText(Some("  polished  ".to_string()))),
        HttpResult::Success("polished".to_string())
    );
    assert_eq!(
        classify_polish_response(LlmAttemptOutcome::ResponseText(Some("   ".to_string()))),
        HttpResult::NonRetryable("Empty response".to_string())
    );
    assert_eq!(
        classify_polish_response(LlmAttemptOutcome::ResponseText(None)),
        HttpResult::NonRetryable("Empty response".to_string())
    );
    assert_eq!(
        classify_polish_response(LlmAttemptOutcome::ParseFailure("bad json".to_string())),
        HttpResult::NonRetryable("bad json".to_string())
    );
    assert_eq!(
        classify_polish_response(LlmAttemptOutcome::HttpStatus(503)),
        HttpResult::Retryable
    );
    assert_eq!(
        classify_polish_response(LlmAttemptOutcome::HttpStatus(404)),
        HttpResult::NonRetryable("Gemini API error: HTTP 404".to_string())
    );
    assert_eq!(
        classify_polish_response(LlmAttemptOutcome::NetworkFailure),
        HttpResult::Retryable
    );
}

#[test]
fn llm_classification_accepts_blank_text() {
    // the generic processor trims but does not reject a blank answer
    assert_eq!(
        classify_llm_response(LlmAttemptOutcome::ResponseText(Some("   ".to_string()))),
        HttpResult::Success(String::new())
    );
    assert_eq!(
        classify_llm_response(LlmAttemptOutcome::ResponseText(None)),
        HttpResult::NonRetryable("Empty response".to_string())
    );
}

#[test]
fn llm_failure_messages_map_onto_typed_errors() {
    assert_eq!(
        llm_error_from_message("Empty response".to_string()),
        CoreError::EmptyResponse
    );
    assert_eq!(
        llm_error_from_message("Gemini API error: HTTP 418".to_string()),
        CoreError::Api("Gemini API error: HTTP 418".to_string())
    );
    assert_eq!(
        llm_error_from_message("Gemini API: retries exceeded".to_string()),
        CoreError::Http("Gemini API: retries exceeded".to_string())
    );
}

#[test]
fn engine_outcomes_become_typed_errors_never_panics() {
    assert!(engine_load_outcome(true).is_ok());
    assert_eq!(
        engine_load_outcome(false),
        Err(CoreError::Config("Failed to load Qwen3-ASR model".to_string()))
    );
    assert_eq!(
        transcription_outcome(Some("text".to_string())),
        Ok("text".to_string())
    );
    assert_eq!(
        transcription_outcome(None),
        Err(CoreError::Transcription("Transcription failed".to_string()))
    );
    assert_eq!(
        live_transcription_outcome(None),
        Err(CoreError::Transcription("Live streaming transcription failed".to_string()))
    );
}

#[test]
fn language_setting_plans_and_interprets_the_native_call() {
    assert_eq!(set_language_plan(None), Ok(LanguageAction::NoCall));
    assert_eq!(
        set_language_plan(Some("en")),
        Ok(LanguageAction::Force("en".to_string()))
    );
    assert_eq!(
        set_language_plan(Some("e\0n")),
        Err(CoreError::Config("Invalid language code".to_string()))
    );
    assert!(set_language_outcome("en", 0).is_ok());
    assert_eq!(
        set_language_outcome("xx", -1),
        Err(CoreError::Config("Failed to set language: xx".to_string()))
    );
}

#[test]
fn callback_slot_holds_at_most_one_callback() {
    let mut slot = CallbackSlot::new();
    assert!(!slot.is_active());
    slot.set();
    assert!(slot.is_active());
    slot.set();
    assert!(slot.is_active());
    slot.clear();
    assert!(!slot.is_active());
    slot.clear();
    assert!(!slot.is_active());
}
