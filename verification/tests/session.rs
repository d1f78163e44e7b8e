use whispering::session::{
    busy_message, capture_failed, hide_after_delay, injection_error_message, model_load_failed,
    model_loaded, model_loading, recording_started, recording_stopped, report_error,
    short_message, shortcut_toggles, show_success, start_decision, stop_failed, take_toggle_action,
    transcriber_missing, transcription_outcome, typing_finished, typing_started, Overlay,
    RecordingState, RuntimePhase, RuntimeStatus, ShortcutEvent, StartDecision, ToggleAction,
    TranscriptionOutcome,
};
use whispering::status::OverlayKind;

const ALL_PHASES: [RuntimePhase; 6] = [
    RuntimePhase::Idle,
    RuntimePhase::LoadingModel,
    RuntimePhase::Recording,
    RuntimePhase::Transcribing,
    RuntimePhase::Typing,
    RuntimePhase::Error,
];

fn shown(overlay: &Overlay) -> Option<(OverlayKind, String)> {
    match overlay {
        Overlay::Show(kind, message) => Some((*kind, message.clone())),
        Overlay::Hide => None,
    }
}

#[test]
fn busy_message_identifies_non_recordable_phases() {
    assert_eq!(
        busy_message(RuntimePhase::LoadingModel),
        Some("Model is still loading")
    );
    assert_eq!(
        busy_message(RuntimePhase::Transcribing),
        Some("Transcribing")
    );
    assert_eq!(busy_message(RuntimePhase::Typing), Some("Typing"));
}

#[test]
fn busy_message_allows_idle_recording_and_error_phases() {
    assert_eq!(busy_message(RuntimePhase::Idle), None);
    assert_eq!(busy_message(RuntimePhase::Recording), None);
    assert_eq!(busy_message(RuntimePhase::Error), None);
}

#[test]
fn short_message_preserves_short_text() {
    assert_eq!(short_message("model failed"), "model failed");
}

#[test]
fn short_message_truncates_long_text() {
    let message = "a".repeat(73);
    assert_eq!(short_message(&message), format!("{}...", "a".repeat(72)));
}

#[test]
fn short_message_keeps_exactly_the_limit() {
    let message = "b".repeat(72);
    assert_eq!(short_message(&message), message);
}

#[test]
fn short_message_counts_characters_not_bytes() {
    let message = "é".repeat(80);
    let short = short_message(&message);
    assert_eq!(short, format!("{}...", "é".repeat(72)));
    assert_eq!(short.chars().count(), 75);
}

#[test]
fn short_message_is_idempotent() {
    let message = "x".repeat(200);
    let once = short_message(&message);
    assert_eq!(short_message(&once), once);
}

#[test]
fn toggle_item_enabled_exactly_when_not_busy() {
    for phase in ALL_PHASES {
        assert_eq!(phase.menu_enabled(), busy_message(phase).is_none());
        if phase.models_enabled() {
            assert!(phase.menu_enabled());
        }
    }
}

#[test]
fn menu_labels_follow_phase() {
    assert_eq!(RuntimePhase::Idle.menu_label(), "Start Recording");
    assert_eq!(RuntimePhase::LoadingModel.menu_label(), "Loading Model...");
    assert_eq!(RuntimePhase::Recording.menu_label(), "Stop Recording");
    assert_eq!(RuntimePhase::Transcribing.menu_label(), "Transcribing...");
    assert_eq!(RuntimePhase::Typing.menu_label(), "Typing...");
    assert_eq!(RuntimePhase::Error.menu_label(), "Error");
    assert!(RuntimePhase::Idle.models_enabled());
    assert!(RuntimePhase::Error.models_enabled());
    assert!(!RuntimePhase::Recording.models_enabled());
}

#[test]
fn toggle_stops_a_running_capture_then_starts_anew() {
    let mut recording = RecordingState::Recording(7u32);
    match take_toggle_action(&mut recording) {
        ToggleAction::Stop(capture) => assert_eq!(capture, 7),
        ToggleAction::Start => panic!("a running capture must be stopped"),
    }
    assert!(matches!(recording, RecordingState::Idle));
    assert!(matches!(
        take_toggle_action(&mut recording),
        ToggleAction::Start
    ));
}

#[test]
fn started_capture_is_kept_and_shown() {
    let mut recording = RecordingState::Idle;
    let mut status = RuntimeStatus::new();
    status.phase = RuntimePhase::Idle;
    let overlay = recording_started(&mut recording, &mut status, "capture");
    assert!(matches!(recording, RecordingState::Recording("capture")));
    assert_eq!(status.phase, RuntimePhase::Recording);
    assert_eq!(shown(&overlay), Some((OverlayKind::Mic, "Recording".to_string())));
    match take_toggle_action(&mut recording) {
        ToggleAction::Stop(c) => assert_eq!(c, "capture"),
        ToggleAction::Start => panic!("expected stop"),
    }
}

#[test]
fn start_is_refused_while_busy_or_without_model() {
    assert!(matches!(
        start_decision(RuntimePhase::LoadingModel, true),
        StartDecision::Busy("Model is still loading")
    ));
    assert!(matches!(
        start_decision(RuntimePhase::Typing, false),
        StartDecision::Busy("Typing")
    ));
    assert!(matches!(
        start_decision(RuntimePhase::Idle, false),
        StartDecision::ModelUnavailable("Whisper model is not available")
    ));
    assert!(matches!(
        start_decision(RuntimePhase::Error, true),
        StartDecision::Capture
    ));
    assert!(matches!(
        start_decision(RuntimePhase::Idle, true),
        StartDecision::Capture
    ));
}

#[test]
fn report_error_records_message_and_shows_it_short() {
    let mut status = RuntimeStatus::new();
    let long = format!("Transcription failed: {}", "z".repeat(100));
    let overlay = report_error(&mut status, long.clone());
    assert_eq!(status.phase, RuntimePhase::Error);
    assert_eq!(status.last_error.as_deref(), Some(long.as_str()));
    assert_eq!(
        shown(&overlay),
        Some((OverlayKind::Error, short_message(&long)))
    );
    assert!(busy_message(status.phase).is_none());
}

#[test]
fn success_clears_the_error() {
    let mut status = RuntimeStatus::new();
    report_error(&mut status, "boom".to_string());
    let overlay = show_success(&mut status, "Typed");
    assert_eq!(status.phase, RuntimePhase::Idle);
    assert_eq!(status.last_error, None);
    assert_eq!(shown(&overlay), Some((OverlayKind::Success, "Typed".to_string())));
}

#[test]
fn phase_steps_keep_the_last_error() {
    let mut status = RuntimeStatus::new();
    assert_eq!(status.phase, RuntimePhase::LoadingModel);
    report_error(&mut status, "old".to_string());
    let overlay = recording_stopped(&mut status);
    assert_eq!(status.phase, RuntimePhase::Transcribing);
    assert_eq!(status.last_error.as_deref(), Some("old"));
    assert_eq!(shown(&overlay), Some((OverlayKind::Spinner, "Transcribing".to_string())));
    let overlay = typing_started(&mut status);
    assert_eq!(status.phase, RuntimePhase::Typing);
    assert_eq!(shown(&overlay), Some((OverlayKind::Spinner, "Typing".to_string())));
    let overlay = model_loading(&mut status);
    assert_eq!(status.phase, RuntimePhase::LoadingModel);
    assert_eq!(shown(&overlay), Some((OverlayKind::Spinner, "Loading model".to_string())));
    assert_eq!(status.last_error.as_deref(), Some("old"));
    let overlay = model_loaded(&mut status);
    assert_eq!(status.phase, RuntimePhase::Idle);
    assert_eq!(status.last_error, None);
    assert!(shown(&overlay).is_none());
}

#[test]
fn failure_messages_name_their_cause() {
    let mut status = RuntimeStatus::new();
    capture_failed(&mut status, "device busy");
    assert_eq!(
        status.last_error.as_deref(),
        Some("Failed to start recording: device busy")
    );
    stop_failed(&mut status, "stream closed");
    assert_eq!(
        status.last_error.as_deref(),
        Some("Failed to stop audio capture: stream closed")
    );
    model_load_failed(&mut status, "/m/ggml.bin", "bad magic");
    assert_eq!(
        status.last_error.as_deref(),
        Some("Could not load model /m/ggml.bin: bad magic")
    );
    transcriber_missing(&mut status);
    assert_eq!(
        status.last_error.as_deref(),
        Some("Model not loaded yet; recording was not transcribed")
    );
    assert_eq!(status.phase, RuntimePhase::Error);
}

#[test]
fn transcription_outcomes() {
    assert!(matches!(
        transcription_outcome(Ok("hello".to_string())),
        TranscriptionOutcome::Type(t) if t == "hello"
    ));
    assert!(matches!(
        transcription_outcome(Ok(String::new())),
        TranscriptionOutcome::Fail(m) if m == "No speech detected"
    ));
    assert!(matches!(
        transcription_outcome(Err("oom".to_string())),
        TranscriptionOutcome::Fail(m) if m == "Transcription failed: oom"
    ));
}

#[test]
fn typing_outcomes() {
    let mut status = RuntimeStatus::new();
    let overlay = typing_finished(&mut status, Ok(()), Some("/c/t.txt".to_string()));
    assert_eq!(status.phase, RuntimePhase::Idle);
    assert_eq!(shown(&overlay), Some((OverlayKind::Success, "Typed".to_string())));

    typing_finished(&mut status, Ok(()), None);
    assert_eq!(status.phase, RuntimePhase::Error);
    assert_eq!(
        status.last_error.as_deref(),
        Some("Transcription was typed, but recovery save failed")
    );

    typing_finished(&mut status, Err("no access".to_string()), Some("/c/t.txt".to_string()));
    assert_eq!(
        status.last_error.as_deref(),
        Some("Failed to inject text: no access. Transcript was saved to /c/t.txt.")
    );

    typing_finished(&mut status, Err("no access".to_string()), None);
    assert_eq!(
        status.last_error.as_deref(),
        Some("Failed to inject text: no access.")
    );
    assert_eq!(
        injection_error_message("e", &Some("p".to_string())),
        "Failed to inject text: e. Transcript was saved to p."
    );
}

#[test]
fn overlays_hide_only_while_still_current() {
    assert!(hide_after_delay(RuntimePhase::Idle, RuntimePhase::Idle));
    assert!(!hide_after_delay(RuntimePhase::Recording, RuntimePhase::Idle));
    assert!(hide_after_delay(RuntimePhase::Error, RuntimePhase::Error));
    assert!(!hide_after_delay(RuntimePhase::Idle, RuntimePhase::Error));
}

#[test]
fn only_a_press_toggles() {
    assert!(shortcut_toggles(ShortcutEvent::Pressed));
    assert!(!shortcut_toggles(ShortcutEvent::Released));
}
