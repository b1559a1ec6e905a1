//! Tests of the lifecycle state machine: the single-flight guard, the
//! start/stop/encode/transcribe sequence, and the no-op paths.

use openvoice::lifecycle::{
    LifecycleAction, LifecycleEvent, LifecycleManager, RecordingState, StepResult,
};
use openvoice::recorder::{SampleFormat, StreamSettings};

fn assert_silent(r: &StepResult) {
    assert!(r.events.is_empty());
    assert!(r.action.is_none());
}

fn settings() -> StreamSettings {
    StreamSettings { format: SampleFormat::Float32, sample_rate: 44100, channels: 1 }
}

#[test]
fn request_stop_while_idle_is_a_no_op_and_emits_no_events() {
    let mut mgr = LifecycleManager::new();
    assert_eq!(mgr.state(), RecordingState::Idle);
    let r = mgr.request_stop();
    assert_silent(&r);
    assert_eq!(mgr.state(), RecordingState::Idle);
}

#[test]
fn toggle_without_credential_surfaces_configuration() {
    let mut mgr = LifecycleManager::new();
    let r = mgr.toggle("");
    assert!(r.events.is_empty());
    assert!(matches!(r.action, Some(LifecycleAction::ShowConfiguration)));
    assert_eq!(mgr.state(), RecordingState::Idle);
}

#[test]
fn a_full_session_runs_start_stop_encode_transcribe() {
    let mut mgr = LifecycleManager::new();

    let r = mgr.toggle("key");
    assert_eq!(r.events, vec![LifecycleEvent::CaptureStarted]);
    assert!(matches!(r.action, Some(LifecycleAction::SpawnCaptureWorker)));
    assert_eq!(mgr.state(), RecordingState::Capturing);

    // The worker opens the stream and feeds blocks.
    mgr.worker_prepare(Some(settings())).expect("valid settings must be accepted");
    mgr.worker_stream_live();
    assert!(mgr.is_recording());
    mgr.append_block(&vec![100; 4410]);

    let r = mgr.toggle("key");
    assert_eq!(r.events, vec![LifecycleEvent::CaptureStopped]);
    assert!(matches!(r.action, Some(LifecycleAction::FinalizeAfterDrain)));
    assert_eq!(mgr.state(), RecordingState::Finalizing);
    assert!(!mgr.is_recording());

    // While the pipeline is busy, toggles are ignored.
    let r = mgr.toggle("key");
    assert_silent(&r);
    assert_eq!(mgr.state(), RecordingState::Finalizing);

    let r = mgr.finalize_and_dispatch();
    assert_eq!(r.events, vec![LifecycleEvent::TranscriptionStarted]);
    let payload = match r.action {
        Some(LifecycleAction::Transcribe(p)) => p,
        _ => panic!("expected a transcription dispatch"),
    };
    assert!(payload.wav.len() > 44);
    assert!(!payload.text.is_empty());
    assert_eq!(mgr.state(), RecordingState::Transcribing);

    // Still busy: a toggle cannot start a second session.
    let r = mgr.toggle("key");
    assert_silent(&r);

    let r = mgr.complete_transcription(Ok("hello world".to_string()));
    assert_eq!(
        r.events,
        vec![LifecycleEvent::TranscriptionComplete("hello world".to_string())]
    );
    match r.action {
        Some(LifecycleAction::CopyToClipboard(t)) => assert_eq!(t, "hello world"),
        _ => panic!("expected a clipboard write"),
    }
    assert_eq!(mgr.state(), RecordingState::Idle);
}

#[test]
fn an_empty_capture_surfaces_the_error_and_returns_to_idle() {
    let mut mgr = LifecycleManager::new();
    mgr.toggle("key");
    mgr.worker_prepare(Some(settings())).unwrap();
    mgr.worker_stream_live();
    mgr.request_stop();
    let r = mgr.finalize_and_dispatch();
    assert_eq!(
        r.events,
        vec![LifecycleEvent::TranscriptionError("No audio recorded".to_string())]
    );
    assert!(r.action.is_none());
    assert_eq!(mgr.state(), RecordingState::Idle);
}

#[test]
fn a_transcription_failure_surfaces_the_error_and_returns_to_idle() {
    let mut mgr = LifecycleManager::new();
    mgr.toggle("key");
    mgr.worker_prepare(Some(settings())).unwrap();
    mgr.worker_stream_live();
    mgr.append_block(&vec![1; 100]);
    mgr.request_stop();
    mgr.finalize_and_dispatch();
    let r = mgr.complete_transcription(Err("quota exceeded".to_string()));
    assert_eq!(
        r.events,
        vec![LifecycleEvent::TranscriptionError("quota exceeded".to_string())]
    );
    assert!(r.action.is_none());
    assert_eq!(mgr.state(), RecordingState::Idle);
}

#[test]
fn a_failed_stream_start_falls_back_to_idle() {
    let mut mgr = LifecycleManager::new();
    mgr.toggle("key");
    assert_eq!(mgr.state(), RecordingState::Capturing);
    // The worker could not open the stream.
    mgr.capture_failed();
    assert_eq!(mgr.state(), RecordingState::Idle);
    assert!(!mgr.is_recording());
    // The next toggle can start again.
    let r = mgr.toggle("key");
    assert_eq!(r.events, vec![LifecycleEvent::CaptureStarted]);
}

#[test]
fn completion_operations_out_of_place_are_ignored() {
    let mut mgr = LifecycleManager::new();
    assert_silent(&mgr.finalize_and_dispatch());
    assert_silent(&mgr.complete_transcription(Ok("stray".to_string())));
    assert_eq!(mgr.state(), RecordingState::Idle);
}
