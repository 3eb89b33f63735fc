use whis_desktop::errors::ToggleError;
use whis_desktop::machine::{
    transcription_plan, AppState, AudioPayload, RecordingState, ToggleRoute, TranscribePlan,
};
use whis_desktop::settings::Settings;

fn settings_with_key(key: Option<&str>) -> Settings {
    Settings { shortcut: String::from("Ctrl+Shift+R"), openai_api_key: key.map(String::from) }
}

#[test]
fn fresh_state_is_idle_and_routes_to_start() {
    let s = AppState::new(Settings::default());
    assert_eq!(s.state, RecordingState::Idle);
    assert!(!s.recorder_present);
    assert!(s.api_key.is_none());
    assert!(s.portal_shortcut.is_none());
    assert!(s.portal_bind_error.is_none());
    assert_eq!(s.route_toggle(), ToggleRoute::StartCapture);
}

#[test]
fn toggle_cycle_idle_recording_processing_idle() {
    let mut s = AppState::new(settings_with_key(Some("sk-test")));
    assert_eq!(s.route_toggle(), ToggleRoute::StartCapture);
    assert_eq!(s.ensure_credential(None), Ok(()));
    assert_eq!(s.begin_recording(true), Ok(()));
    assert_eq!(s.state, RecordingState::Recording);
    assert!(s.recorder_present);

    assert_eq!(s.route_toggle(), ToggleRoute::StopAndTranscribe);
    assert_eq!(s.begin_processing(), Ok(()));
    assert_eq!(s.state, RecordingState::Processing);
    assert!(!s.recorder_present);

    // The re-entrancy guard: a toggle seen now is ignored.
    assert_eq!(s.route_toggle(), ToggleRoute::Ignore);

    s.complete_processing();
    assert_eq!(s.state, RecordingState::Idle);
    assert_eq!(s.route_toggle(), ToggleRoute::StartCapture);
}

#[test]
fn failed_capture_leaves_state_idle() {
    let mut s = AppState::new(settings_with_key(Some("sk-test")));
    assert_eq!(s.ensure_credential(None), Ok(()));
    assert_eq!(s.begin_recording(false), Err(ToggleError::DeviceUnavailable));
    assert_eq!(s.state, RecordingState::Idle);
    assert!(!s.recorder_present);
}

#[test]
fn missing_audio_handle_aborts_to_idle() {
    // Failure injection: the handle is gone when the stop transition
    // tries to take it.
    let mut s = AppState {
        state: RecordingState::Recording,
        recorder_present: false,
        api_key: None,
        settings: Settings::default(),
        portal_shortcut: None,
        portal_bind_error: None,
    };
    assert_eq!(s.begin_processing(), Err(ToggleError::NoActiveRecording));
    assert_eq!(s.state, RecordingState::Idle);
}

#[test]
fn credential_prefers_cache_then_settings_then_environment() {
    let mut s = AppState::new(settings_with_key(Some("sk-settings")));
    s.api_key = Some(String::from("sk-cached"));
    assert_eq!(s.ensure_credential(Some(String::from("sk-env"))), Ok(()));
    assert_eq!(s.api_key.as_deref(), Some("sk-cached"));

    let mut s = AppState::new(settings_with_key(Some("sk-settings")));
    assert_eq!(s.ensure_credential(Some(String::from("sk-env"))), Ok(()));
    assert_eq!(s.api_key.as_deref(), Some("sk-settings"));

    let mut s = AppState::new(settings_with_key(None));
    assert_eq!(s.ensure_credential(Some(String::from("sk-env"))), Ok(()));
    assert_eq!(s.api_key.as_deref(), Some("sk-env"));
}

#[test]
fn missing_credential_aborts_processing_to_idle() {
    let mut s = AppState::new(settings_with_key(None));
    assert_eq!(s.ensure_credential(None), Err(ToggleError::MissingCredential));
    assert_eq!(s.state, RecordingState::Idle);

    let mut s = AppState {
        state: RecordingState::Processing,
        recorder_present: false,
        api_key: None,
        settings: settings_with_key(None),
        portal_shortcut: None,
        portal_bind_error: None,
    };
    assert_eq!(s.credential_for_processing(None), Err(ToggleError::MissingCredential));
    assert_eq!(s.state, RecordingState::Idle);
}

#[test]
fn credential_for_processing_hands_out_the_key() {
    let mut s = AppState {
        state: RecordingState::Processing,
        recorder_present: false,
        api_key: None,
        settings: settings_with_key(Some("sk-settings")),
        portal_shortcut: None,
        portal_bind_error: None,
    };
    assert_eq!(s.credential_for_processing(None), Ok(String::from("sk-settings")));
    assert_eq!(s.state, RecordingState::Processing);
}

#[test]
fn single_payload_is_one_shot_chunks_fan_out() {
    assert_eq!(transcription_plan(&AudioPayload::Single(vec![1, 2, 3])), TranscribePlan::OneShot);
    assert_eq!(
        transcription_plan(&AudioPayload::Chunked(vec![vec![1], vec![2]])),
        TranscribePlan::FanOut
    );
}
