use diy_typeless_core::errors::CoreError;
use diy_typeless_core::live_buffer::{LiveAudioBuffer, WaitOutcome, MIN_LIVE_SAMPLES};
use diy_typeless_core::registry::SessionRegistry;
use diy_typeless_core::session::{StopFailure, StreamingHandle, ThreadOutcome};

#[test]
fn test_streaming_handle_creation() {
    // This is a basic sanity test - full integration tests require the model
    // Just verify the types compile correctly
    let handle = StreamingHandle::new();
    assert!(handle.is_running());
}

/// A stand-in for the native engine: it consumes the live buffer chunk by
/// chunk until end-of-stream, emitting one token per chunk into the
/// session, and returns the text assembled from the very same tokens.
struct FakeEngine {
    tokens: Vec<String>,
    consumed: usize,
    emitted: usize,
}

impl FakeEngine {
    fn new(tokens: Vec<&str>) -> FakeEngine {
        FakeEngine {
            tokens: tokens.into_iter().map(|t| t.to_string()).collect(),
            consumed: 0,
            emitted: 0,
        }
    }

    /// One poll of the engine's live loop: read what arrived since the
    /// last poll and emit the next token for it.
    fn poll(&mut self, buffer: &LiveAudioBuffer, session: &mut StreamingHandle) -> bool {
        match buffer.wait_for_data(1 + self.consumed, false) {
            WaitOutcome::Ready => {
                let fresh = buffer.read_from(self.consumed);
                self.consumed += fresh.len();
                if self.emitted < self.tokens.len() {
                    session.append_token(&self.tokens[self.emitted]);
                    self.emitted += 1;
                }
                true
            }
            WaitOutcome::EndOfStream => false,
            WaitOutcome::Stopped => false,
            WaitOutcome::KeepWaiting => true,
        }
    }

    fn final_text(&self) -> String {
        self.tokens[..self.emitted].concat()
    }
}

#[test]
fn scenario_fake_engine_streams_three_tokens() {
    let mut buffer = LiveAudioBuffer::new(8);
    let mut session = StreamingHandle::new();
    let mut engine = FakeEngine::new(vec!["a", "b", "c"]);

    // three chunks arrive one at a time; the engine emits one token each
    buffer.push(&[1, 2]);
    engine.poll(&buffer, &mut session);
    assert_eq!(session.current_text(), "a");

    buffer.push(&[3, 4]);
    engine.poll(&buffer, &mut session);
    // mid-stream after two tokens
    assert_eq!(session.current_text(), "ab");

    buffer.push(&[5, 6]);
    engine.poll(&buffer, &mut session);
    buffer.mark_eof();
    assert!(!engine.poll(&buffer, &mut session));

    let final_text = engine.final_text();
    assert_eq!(final_text, "abc");
    let result = session.stop(
        ThreadOutcome::Completed(Ok(())),
        ThreadOutcome::Completed(Ok(final_text)),
    );
    assert_eq!(result, Ok("abc".to_string()));
}

#[test]
fn consumer_observes_exactly_the_pushed_samples_in_order() {
    let mut buffer = LiveAudioBuffer::new(2);
    let chunks: Vec<Vec<i16>> = vec![vec![1, 2, 3], vec![], vec![4], vec![5, 6]];
    for chunk in &chunks {
        assert!(buffer.push(chunk));
    }
    buffer.mark_eof();
    let observed = buffer.read_from(0);
    let expected: Vec<i16> = chunks.concat();
    assert_eq!(observed, expected);
}

#[test]
fn consumer_reading_incrementally_loses_and_duplicates_nothing() {
    let mut buffer = LiveAudioBuffer::new(1);
    let mut observed: Vec<i16> = Vec::new();
    let mut consumed: usize = 0;
    for chunk in [vec![10, 20], vec![30], vec![40, 50, 60]] {
        buffer.push(&chunk);
        let fresh = buffer.read_from(consumed);
        consumed += fresh.len();
        observed.extend_from_slice(&fresh);
    }
    assert_eq!(observed, vec![10, 20, 30, 40, 50, 60]);
}

#[test]
fn capacity_grows_by_doubling_and_covers_the_length() {
    let mut buffer = LiveAudioBuffer::new(4);
    buffer.push(&[0; 3]);
    assert_eq!(buffer.len(), 3);
    // within the initial capacity nothing grows
    buffer.push(&[0; 1]);
    assert_eq!(buffer.len(), 4);
    // exceeding it doubles: 4 -> 8
    buffer.push(&[0; 1]);
    assert_eq!(buffer.len(), 5);
    // far past it doubles repeatedly: 8 -> 16 -> 32
    buffer.push(&[0; 20]);
    assert_eq!(buffer.len(), 25);
}

#[test]
fn frozen_buffer_accepts_nothing_but_keeps_its_samples() {
    let mut buffer = LiveAudioBuffer::new(4);
    buffer.push(&[7, 8]);
    buffer.freeze();
    assert!(!buffer.push(&[9]));
    assert_eq!(buffer.read_from(0), vec![7, 8]);
}

#[test]
fn wait_decision_never_waits_once_stop_or_eof_is_visible() {
    let mut buffer = LiveAudioBuffer::new(4);
    // no data, stream live: the consumer may wait
    assert_eq!(buffer.wait_for_data(MIN_LIVE_SAMPLES, false), WaitOutcome::KeepWaiting);
    // the stop signal ends the wait without any audio arriving
    assert_eq!(buffer.wait_for_data(MIN_LIVE_SAMPLES, true), WaitOutcome::Stopped);
    // so does end-of-stream
    buffer.mark_eof();
    assert_eq!(buffer.wait_for_data(MIN_LIVE_SAMPLES, false), WaitOutcome::EndOfStream);
    // with enough data the consumer proceeds
    let mut live = LiveAudioBuffer::new(4);
    live.push(&[1, 2, 3]);
    assert_eq!(live.wait_for_data(2, false), WaitOutcome::Ready);
}

#[test]
fn current_text_after_stop_matches_the_ok_value() {
    let mut session = StreamingHandle::new();
    session.append_token("hello ");
    session.append_token("world");
    let snapshot = session.current_text();
    session.request_stop();
    assert!(!session.is_running());
    let result = session.stop(
        ThreadOutcome::Completed(Ok(())),
        ThreadOutcome::Completed(Ok(snapshot.clone())),
    );
    assert_eq!(result, Ok(snapshot));
}

#[test]
fn capture_failure_wins_over_a_partial_transcript() {
    let mut session = StreamingHandle::new();
    session.append_token("partial");
    let partial = session.current_text();
    session.record_audio_error(CoreError::AudioCapture("device gone".to_string()));
    assert!(session.has_audio_error());
    assert_eq!(partial, "partial");
    let result = session.stop(
        ThreadOutcome::Completed(Err(CoreError::AudioCapture("device gone".to_string()))),
        ThreadOutcome::Completed(Ok("partial".to_string())),
    );
    // the capture failure is surfaced, with the partial text as context
    assert_eq!(
        result,
        Err(StopFailure {
            error: CoreError::AudioCapture("device gone".to_string()),
            partial_text: "partial".to_string(),
        })
    );
}

#[test]
fn worker_panics_become_typed_errors() {
    let session = StreamingHandle::new();
    let result = session.stop(
        ThreadOutcome::Panicked,
        ThreadOutcome::Completed(Ok(String::new())),
    );
    assert_eq!(
        result,
        Err(StopFailure {
            error: CoreError::Transcription("Audio thread panicked".to_string()),
            partial_text: String::new(),
        })
    );
    let mut session = StreamingHandle::new();
    session.append_token("so far");
    let result = session.stop(
        ThreadOutcome::Completed(Ok(())),
        ThreadOutcome::Panicked,
    );
    assert_eq!(
        result,
        Err(StopFailure {
            error: CoreError::Transcription("Inference thread panicked".to_string()),
            partial_text: "so far".to_string(),
        })
    );
}

#[test]
fn session_ids_are_monotonic_and_stopped_sessions_leave_the_registry() {
    let mut registry = SessionRegistry::new();
    let first = registry.start_streaming_session(StreamingHandle::new());
    let second = registry.start_streaming_session(StreamingHandle::new());
    assert!(first < second);

    assert!(registry.is_streaming_session_active(first));
    assert_eq!(registry.get_streaming_text(first), "");

    let mut handle = registry.remove_session(first).expect("session exists");
    handle.request_stop();
    let _ = handle.stop(
        ThreadOutcome::Completed(Ok(())),
        ThreadOutcome::Completed(Ok(String::new())),
    );

    assert!(!registry.is_streaming_session_active(first));
    assert!(registry.is_streaming_session_active(second));
    let missing = registry.remove_session(first);
    assert_eq!(
        missing.map(|_| ()),
        Err(CoreError::Transcription("Streaming session not found".to_string()))
    );
}

#[test]
fn registry_tracks_each_sessions_text() {
    let mut registry = SessionRegistry::new();
    let mut a = StreamingHandle::new();
    a.append_token("first");
    let mut b = StreamingHandle::new();
    b.append_token("second");
    let id_a = registry.start_streaming_session(a);
    let id_b = registry.start_streaming_session(b);
    assert_eq!(registry.get_streaming_text(id_a), "first");
    assert_eq!(registry.get_streaming_text(id_b), "second");
    assert_eq!(registry.get_streaming_text(9999), "");
}
