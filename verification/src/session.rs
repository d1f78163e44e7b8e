//! The recording session: the phases the app goes through, the status the tray
//! and overlay show, and the decisions taken at each step of
//! record -> transcribe -> type.
//!
//! The app holds the audio capture and the transcriber; these functions decide
//! what happens to them and what the user sees.
use vstd::prelude::*;

use crate::status::OverlayKind;
use crate::text::{concat2, concat3};

verus! {

/// Where the app is in its work.
#[derive(Clone, Copy, Debug, PartialEq, Eq, Structural)]
pub enum RuntimePhase {
    Idle,
    LoadingModel,
    Recording,
    Transcribing,
    Typing,
    Error,
}

impl RuntimePhase {
    /// The label of the tray's toggle item in this phase.
    pub open spec fn spec_menu_label(self) -> Seq<char> {
        match self {
            RuntimePhase::Idle => "Start Recording"@,
            RuntimePhase::LoadingModel => "Loading Model..."@,
            RuntimePhase::Recording => "Stop Recording"@,
            RuntimePhase::Transcribing => "Transcribing..."@,
            RuntimePhase::Typing => "Typing..."@,
            RuntimePhase::Error => "Error"@,
        }
    }

    pub fn menu_label(self) -> (label: &'static str)
        ensures
            label@ == self.spec_menu_label(),
    {
        match self {
            RuntimePhase::Idle => "Start Recording",
            RuntimePhase::LoadingModel => "Loading Model...",
            RuntimePhase::Recording => "Stop Recording",
            RuntimePhase::Transcribing => "Transcribing...",
            RuntimePhase::Typing => "Typing...",
            RuntimePhase::Error => "Error",
        }
    }

    /// The toggle item can be clicked when idle, recording or after an error.
    pub open spec fn spec_menu_enabled(self) -> bool {
        self is Idle || self is Recording || self is Error
    }

    pub fn menu_enabled(self) -> (enabled: bool)
        ensures
            enabled == self.spec_menu_enabled(),
    {
        match self {
            RuntimePhase::Idle | RuntimePhase::Recording | RuntimePhase::Error => true,
            _ => false,
        }
    }

    /// Models can be switched only when nothing is in progress.
    pub open spec fn spec_models_enabled(self) -> bool {
        self is Idle || self is Error
    }

    pub fn models_enabled(self) -> (enabled: bool)
        ensures
            enabled == self.spec_models_enabled(),
    {
        match self {
            RuntimePhase::Idle | RuntimePhase::Error => true,
            _ => false,
        }
    }
}

/// Why a recording cannot start in this phase, if it cannot.
pub open spec fn spec_busy_message(phase: RuntimePhase) -> Option<Seq<char>> {
    match phase {
        RuntimePhase::LoadingModel => Some("Model is still loading"@),
        RuntimePhase::Transcribing => Some("Transcribing"@),
        RuntimePhase::Typing => Some("Typing"@),
        _ => None,
    }
}

pub fn busy_message(phase: RuntimePhase) -> (message: Option<&'static str>)
    ensures
        message matches Some(m) ==> spec_busy_message(phase) == Some(m@),
        message is None ==> spec_busy_message(phase) is None,
{
    match phase {
        RuntimePhase::LoadingModel => Some("Model is still loading"),
        RuntimePhase::Transcribing => Some("Transcribing"),
        RuntimePhase::Typing => Some("Typing"),
        RuntimePhase::Idle | RuntimePhase::Recording | RuntimePhase::Error => None,
    }
}

/// The tray's toggle item is enabled in exactly the phases where pressing it is not
/// answered with a busy message.
pub proof fn lemma_toggle_enabled_iff_not_busy(phase: RuntimePhase)
    ensures
        phase.spec_menu_enabled() <==> spec_busy_message(phase) is None,
{
}

/// Whenever models can be switched, recording can be toggled too.
pub proof fn lemma_models_enabled_implies_toggle_enabled(phase: RuntimePhase)
    ensures
        phase.spec_models_enabled() ==> phase.spec_menu_enabled(),
{
}

/// The longest message, in characters, that the overlay shows uncut.
pub open spec fn short_message_limit() -> nat {
    72
}

/// A message cut to fit the overlay: messages longer than the limit keep their
/// first 72 characters followed by `...`.
pub open spec fn spec_short_message(message: Seq<char>) -> Seq<char> {
    if message.len() <= short_message_limit() {
        message
    } else {
        message.subrange(0, short_message_limit() as int) + "..."@
    }
}

pub fn short_message(message: &str) -> (short: String)
    ensures
        short@ == spec_short_message(message@),
{
    let len: usize = message.unicode_len();
    if len <= 72 {
        message.to_owned()
    } else {
        concat2(message.substring_char(0, 72), "...")
    }
}

/// Cutting a message twice cuts it as once, and a cut message has at most 75 characters.
pub proof fn lemma_short_message_idempotent(message: Seq<char>)
    ensures
        spec_short_message(spec_short_message(message)) == spec_short_message(message),
        spec_short_message(message).len() <= short_message_limit() + 3,
        spec_short_message(message).subrange(0, short_message_limit() as int) =~= message.subrange(
            0,
            short_message_limit() as int,
        ) || message.len() <= short_message_limit(),
{
    reveal_strlit("...");
    if message.len() > short_message_limit() {
        let once = spec_short_message(message);
        assert(once.len() == 75);
        assert(once.subrange(0, 72) =~= message.subrange(0, 72));
    }
}

/// What the tray and overlay report.
pub struct RuntimeStatus {
    pub phase: RuntimePhase,
    pub last_error: Option<String>,
}

impl RuntimeStatus {
    /// The status at startup: the model is loading and nothing has failed.
    pub fn new() -> (status: Self)
        ensures
            status.phase == RuntimePhase::LoadingModel,
            status.last_error is None,
    {
        RuntimeStatus { phase: RuntimePhase::LoadingModel, last_error: None }
    }
}

/// What the status overlay should do after a change of status.
pub enum Overlay {
    Show(OverlayKind, String),
    Hide,
}

impl Overlay {
    /// The overlay shows `kind` with `message`.
    pub open spec fn shows(self, kind: OverlayKind, message: Seq<char>) -> bool {
        self matches Overlay::Show(k, m) && k == kind && m@ == message
    }
}

/// Moves to `phase`, clearing the last error when asked; the overlay shows the given
/// kind and message, or hides when none is given.
pub fn set_phase(
    status: &mut RuntimeStatus,
    phase: RuntimePhase,
    overlay: Option<(OverlayKind, &str)>,
    clear_error: bool,
) -> (shown: Overlay)
    ensures
        final(status).phase == phase,
        final(status).last_error == (if clear_error {
            None
        } else {
            old(status).last_error
        }),
        match overlay {
            Some((kind, message)) => shown.shows(kind, message@),
            None => shown is Hide,
        },
{
    status.phase = phase;
    if clear_error {
        status.last_error = None;
    }
    match overlay {
        Some((kind, message)) => Overlay::Show(kind, message.to_owned()),
        None => Overlay::Hide,
    }
}

/// Records a failure: the phase becomes `Error`, the message is kept as the last
/// error, and the overlay shows it cut to size.
pub fn report_error(status: &mut RuntimeStatus, message: String) -> (shown: Overlay)
    ensures
        final(status).phase == RuntimePhase::Error,
        final(status).last_error == Some(message),
        shown.shows(OverlayKind::Error, spec_short_message(message@)),
{
    let short = short_message(message.as_str());
    status.phase = RuntimePhase::Error;
    status.last_error = Some(message);
    Overlay::Show(OverlayKind::Error, short)
}

/// Records a success: back to `Idle` with no error, the overlay shows the message.
pub fn show_success(status: &mut RuntimeStatus, message: &str) -> (shown: Overlay)
    ensures
        final(status).phase == RuntimePhase::Idle,
        final(status).last_error is None,
        shown.shows(OverlayKind::Success, message@),
{
    set_phase(status, RuntimePhase::Idle, Some((OverlayKind::Success, message)), true)
}

/// How long a success message stays up, in milliseconds.
pub const SUCCESS_OVERLAY_MILLIS: u64 = 900;

/// How long an error message stays up, in milliseconds.
pub const ERROR_OVERLAY_MILLIS: u64 = 6000;

/// A timer that hides the overlay unless the app has left the phase it was shown in.
#[derive(Clone, Copy, Debug, PartialEq, Eq, Structural)]
pub struct HideTimer {
    pub after_millis: u64,
    pub shown_in: RuntimePhase,
}

/// Which overlays hide by themselves: a success after 900 ms (shown when idle), an
/// error after 6 s (shown in the error phase); every other overlay stays until the
/// next status change replaces it.
pub fn hide_timer(shown: &Overlay) -> (timer: Option<HideTimer>)
    ensures
        match *shown {
            Overlay::Show(OverlayKind::Success, _) => timer == Some(
                HideTimer { after_millis: 900, shown_in: RuntimePhase::Idle },
            ),
            Overlay::Show(OverlayKind::Error, _) => timer == Some(
                HideTimer { after_millis: 6000, shown_in: RuntimePhase::Error },
            ),
            _ => timer is None,
        },
{
    match shown {
        Overlay::Show(OverlayKind::Success, _) => Some(
            HideTimer { after_millis: SUCCESS_OVERLAY_MILLIS, shown_in: RuntimePhase::Idle },
        ),
        Overlay::Show(OverlayKind::Error, _) => Some(
            HideTimer { after_millis: ERROR_OVERLAY_MILLIS, shown_in: RuntimePhase::Error },
        ),
        _ => None,
    }
}

/// After its delay, an overlay shown in phase `shown_in` is hidden only if the app
/// is still in that phase (a newer status owns the overlay otherwise).
pub fn hide_after_delay(current: RuntimePhase, shown_in: RuntimePhase) -> (hide: bool)
    ensures
        hide == (current == shown_in),
{
    current == shown_in
}

/// Whether audio is being captured, and the capture if so.
pub enum RecordingState<C> {
    Idle,
    Recording(C),
}

/// What a press of the shortcut (or the toggle item) does.
pub enum ToggleAction<C> {
    Start,
    Stop(C),
}

/// What pressing the shortcut does in a recording state.
pub open spec fn spec_toggle_action<C>(state: RecordingState<C>) -> ToggleAction<C> {
    match state {
        RecordingState::Idle => ToggleAction::Start,
        RecordingState::Recording(c) => ToggleAction::Stop(c),
    }
}

/// Takes the capture out of the recording state: a running capture is to be stopped,
/// otherwise a recording is to be started. The state is `Idle` afterwards either way.
pub fn take_toggle_action<C>(recording: &mut RecordingState<C>) -> (action: ToggleAction<C>)
    ensures
        *final(recording) is Idle,
        action == spec_toggle_action(*old(recording)),
{
    let mut taken = RecordingState::Idle;
    std::mem::swap(&mut taken, recording);
    match taken {
        RecordingState::Idle => ToggleAction::Start,
        RecordingState::Recording(capture) => ToggleAction::Stop(capture),
    }
}

/// The capture that `recording_started` keeps is the one the next press hands back
/// to be stopped, and after any press the following one starts a new recording.
pub proof fn lemma_toggle_alternates<C>(capture: C)
    ensures
        spec_toggle_action(RecordingState::Recording(capture)) == ToggleAction::Stop(capture),
        spec_toggle_action(RecordingState::<C>::Idle) is Start,
{
}

/// What happened to the shortcut's keys in a global hotkey event.
#[derive(Clone, Copy, Debug, PartialEq, Eq, Structural)]
pub enum ShortcutEvent {
    Pressed,
    Released,
}

/// A recording toggles when the shortcut is pressed, not when it is released.
pub fn shortcut_toggles(event: ShortcutEvent) -> (toggles: bool)
    ensures
        toggles == (event == ShortcutEvent::Pressed),
{
    match event {
        ShortcutEvent::Pressed => true,
        ShortcutEvent::Released => false,
    }
}

/// What to do when a recording is asked for.
pub enum StartDecision {
    /// Something is in progress: show this message and do nothing else.
    Busy(&'static str),
    /// No model is loaded: report this error.
    ModelUnavailable(&'static str),
    /// Open the microphone.
    Capture,
}

/// Decides whether a recording may start: not while busy, and not without a model.
pub fn start_decision(phase: RuntimePhase, transcriber_loaded: bool) -> (decision: StartDecision)
    ensures
        match spec_busy_message(phase) {
            Some(busy) => decision matches StartDecision::Busy(m) && m@ == busy,
            None => if transcriber_loaded {
                decision is Capture
            } else {
                decision matches StartDecision::ModelUnavailable(m) && m@
                    == "Whisper model is not available"@
            },
        },
{
    match busy_message(phase) {
        Some(message) => StartDecision::Busy(message),
        None => {
            if transcriber_loaded {
                StartDecision::Capture
            } else {
                StartDecision::ModelUnavailable("Whisper model is not available")
            }
        },
    }
}

/// After a failure has been reported, a new recording may start as soon as a model is loaded.
pub proof fn lemma_error_allows_recording()
    ensures
        spec_busy_message(RuntimePhase::Error) is None,
        RuntimePhase::Error.spec_menu_enabled(),
{
}

/// The capture is running: keep it, and show the microphone overlay.
pub fn recording_started<C>(
    recording: &mut RecordingState<C>,
    status: &mut RuntimeStatus,
    capture: C,
) -> (shown: Overlay)
    ensures
        *final(recording) == RecordingState::Recording(capture),
        final(status).phase == RuntimePhase::Recording,
        final(status).last_error == old(status).last_error,
        shown.shows(OverlayKind::Mic, "Recording"@),
{
    *recording = RecordingState::Recording(capture);
    set_phase(status, RuntimePhase::Recording, Some((OverlayKind::Mic, "Recording")), false)
}

/// The microphone could not be opened.
pub fn capture_failed(status: &mut RuntimeStatus, error: &str) -> (shown: Overlay)
    ensures
        final(status).phase == RuntimePhase::Error,
        final(status).last_error matches Some(m) && m@ == "Failed to start recording: "@ + error@,
        shown.shows(
            OverlayKind::Error,
            spec_short_message("Failed to start recording: "@ + error@),
        ),
{
    report_error(status, concat2("Failed to start recording: ", error))
}

/// The recording was stopped: transcription begins.
pub fn recording_stopped(status: &mut RuntimeStatus) -> (shown: Overlay)
    ensures
        final(status).phase == RuntimePhase::Transcribing,
        final(status).last_error == old(status).last_error,
        shown.shows(OverlayKind::Spinner, "Transcribing"@),
{
    set_phase(status, RuntimePhase::Transcribing, Some((OverlayKind::Spinner, "Transcribing")), false)
}

/// The captured audio could not be collected.
pub fn stop_failed(status: &mut RuntimeStatus, error: &str) -> (shown: Overlay)
    ensures
        final(status).phase == RuntimePhase::Error,
        final(status).last_error matches Some(m) && m@ == "Failed to stop audio capture: "@
            + error@,
        shown.shows(
            OverlayKind::Error,
            spec_short_message("Failed to stop audio capture: "@ + error@),
        ),
{
    report_error(status, concat2("Failed to stop audio capture: ", error))
}

/// A model starts loading: the transcriber is gone until it is ready.
pub fn model_loading(status: &mut RuntimeStatus) -> (shown: Overlay)
    ensures
        final(status).phase == RuntimePhase::LoadingModel,
        final(status).last_error == old(status).last_error,
        shown.shows(OverlayKind::Spinner, "Loading model"@),
{
    set_phase(status, RuntimePhase::LoadingModel, Some((OverlayKind::Spinner, "Loading model")), false)
}

/// The model is ready: idle, with no error, overlay hidden.
pub fn model_loaded(status: &mut RuntimeStatus) -> (shown: Overlay)
    ensures
        final(status).phase == RuntimePhase::Idle,
        final(status).last_error is None,
        shown is Hide,
{
    set_phase(status, RuntimePhase::Idle, None, true)
}

/// The model at `model_path` could not be loaded.
pub fn model_load_failed(status: &mut RuntimeStatus, model_path: &str, error: &str) -> (shown:
    Overlay)
    ensures
        final(status).phase == RuntimePhase::Error,
        final(status).last_error matches Some(m) && m@ == "Could not load model "@ + model_path@
            + ": "@ + error@,
        shown.shows(
            OverlayKind::Error,
            spec_short_message("Could not load model "@ + model_path@ + ": "@ + error@),
        ),
{
    let head = concat3("Could not load model ", model_path, ": ");
    report_error(status, concat2(head.as_str(), error))
}

/// A recording ended while no model was loaded.
pub fn transcriber_missing(status: &mut RuntimeStatus) -> (shown: Overlay)
    ensures
        final(status).phase == RuntimePhase::Error,
        final(status).last_error matches Some(m) && m@
            == "Model not loaded yet; recording was not transcribed"@,
        shown.shows(
            OverlayKind::Error,
            spec_short_message("Model not loaded yet; recording was not transcribed"@),
        ),
{
    report_error(status, "Model not loaded yet; recording was not transcribed".to_owned())
}

/// What a transcription leads to.
pub enum TranscriptionOutcome {
    /// Save and type this text.
    Type(String),
    /// Report this error.
    Fail(String),
}

/// Non-empty text is typed; empty text means no speech; a failed transcription is reported.
pub fn transcription_outcome(result: Result<String, String>) -> (outcome: TranscriptionOutcome)
    ensures
        match result {
            Ok(text) => if text@.len() > 0 {
                outcome matches TranscriptionOutcome::Type(t) && t@ == text@
            } else {
                outcome matches TranscriptionOutcome::Fail(m) && m@ == "No speech detected"@
            },
            Err(e) => outcome matches TranscriptionOutcome::Fail(m) && m@ == "Transcription failed: "@
                + e@,
        },
{
    match result {
        Ok(text) => {
            if text.as_str().unicode_len() > 0 {
                TranscriptionOutcome::Type(text)
            } else {
                TranscriptionOutcome::Fail("No speech detected".to_owned())
            }
        },
        Err(e) => TranscriptionOutcome::Fail(concat2("Transcription failed: ", e.as_str())),
    }
}

/// Typing begins.
pub fn typing_started(status: &mut RuntimeStatus) -> (shown: Overlay)
    ensures
        final(status).phase == RuntimePhase::Typing,
        final(status).last_error == old(status).last_error,
        shown.shows(OverlayKind::Spinner, "Typing"@),
{
    set_phase(status, RuntimePhase::Typing, Some((OverlayKind::Spinner, "Typing")), false)
}

/// The message for text that could not be typed, pointing at the saved copy if there is one.
pub open spec fn spec_injection_error(error: Seq<char>, saved_path: Option<Seq<char>>) -> Seq<
    char,
> {
    "Failed to inject text: "@ + error + "."@ + match saved_path {
        Some(p) => " Transcript was saved to "@ + p + "."@,
        None => Seq::<char>::empty(),
    }
}

/// Builds the message for text that could not be typed.
pub fn injection_error_message(error: &str, saved_path: &Option<String>) -> (message: String)
    ensures
        message@ == spec_injection_error(
            error@,
            match saved_path {
                Some(p) => Some(p@),
                None => None,
            },
        ),
{
    let mut message = concat3("Failed to inject text: ", error, ".");
    match saved_path {
        Some(p) => {
            let recovery = concat3(" Transcript was saved to ", p.as_str(), ".");
            message.append(recovery.as_str());
        },
        None => {
            assert(message@ =~= message@ + Seq::<char>::empty());
        },
    }
    message
}

/// Ends a dictation after typing: success only when the text was typed and its
/// recovery copy saved; otherwise the failure is reported.
pub fn typing_finished(
    status: &mut RuntimeStatus,
    typed: Result<(), String>,
    saved_path: Option<String>,
) -> (shown: Overlay)
    ensures
        match typed {
            Ok(()) => if saved_path is Some {
                &&& final(status).phase == RuntimePhase::Idle
                &&& final(status).last_error is None
                &&& shown.shows(OverlayKind::Success, "Typed"@)
            } else {
                &&& final(status).phase == RuntimePhase::Error
                &&& final(status).last_error matches Some(m) && m@
                    == "Transcription was typed, but recovery save failed"@
                &&& shown.shows(
                    OverlayKind::Error,
                    spec_short_message("Transcription was typed, but recovery save failed"@),
                )
            },
            Err(e) => {
                &&& final(status).phase == RuntimePhase::Error
                &&& final(status).last_error matches Some(m) && m@ == spec_injection_error(
                    e@,
                    match saved_path {
                        Some(p) => Some(p@),
                        None => None,
                    },
                )
                &&& shown.shows(
                    OverlayKind::Error,
                    spec_short_message(
                        spec_injection_error(
                            e@,
                            match saved_path {
                                Some(p) => Some(p@),
                                None => None,
                            },
                        ),
                    ),
                )
            },
        },
{
    match typed {
        Ok(()) => {
            if saved_path.is_some() {
                show_success(status, "Typed")
            } else {
                report_error(status, "Transcription was typed, but recovery save failed".to_owned())
            }
        },
        Err(e) => {
            let message = injection_error_message(e.as_str(), &saved_path);
            report_error(status, message)
        },
    }
}

} // verus!
