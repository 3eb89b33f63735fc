use whis_desktop::backend::ShortcutBackend;
use whis_desktop::errors::{ShortcutError, ToggleError};
use whis_desktop::machine::{AppState, RecordingState};
use whis_desktop::portal::{pick_portal_shortcut, pick_toggle_trigger, should_dispatch_activation};
use whis_desktop::settings::Settings;
use whis_desktop::ui::{
    record_menu_enabled, record_menu_label, save_settings_response, status_response, tray_tooltip,
};

#[test]
fn status_response_reports_state_and_credential() {
    let r = status_response(RecordingState::Idle, false, false, false);
    assert_eq!(r.state, "Idle");
    assert!(!r.config_valid);
    let r = status_response(RecordingState::Recording, false, true, false);
    assert_eq!(r.state, "Recording");
    assert!(r.config_valid);
    let r = status_response(RecordingState::Processing, false, false, true);
    assert_eq!(r.state, "Processing");
    assert!(r.config_valid);
}

#[test]
fn tray_labels_follow_the_state() {
    assert_eq!(record_menu_label(RecordingState::Idle), "Start Recording");
    assert_eq!(record_menu_label(RecordingState::Recording), "Stop Recording");
    assert_eq!(record_menu_label(RecordingState::Processing), "Processing...");
    assert!(record_menu_enabled(RecordingState::Idle));
    assert!(record_menu_enabled(RecordingState::Recording));
    assert!(!record_menu_enabled(RecordingState::Processing));
    assert_eq!(tray_tooltip(RecordingState::Idle), "Whis - Click to record");
    assert_eq!(tray_tooltip(RecordingState::Recording), "Whis - Recording... Click to stop");
    assert_eq!(tray_tooltip(RecordingState::Processing), "Whis - Processing...");
}

#[test]
fn save_response_unchanged_shortcut_needs_nothing() {
    let r = save_settings_response(false, ShortcutBackend::CLIFallback, Ok(()));
    assert!(!r.expect("ok").needs_restart);
}

#[test]
fn save_response_portal_and_cli_need_restart() {
    let r = save_settings_response(true, ShortcutBackend::PortalGlobalShortcuts, Ok(()));
    assert!(r.expect("ok").needs_restart);
    let r = save_settings_response(true, ShortcutBackend::CLIFallback, Ok(()));
    assert!(r.expect("ok").needs_restart);
}

#[test]
fn save_response_native_reregisters_live() {
    let r = save_settings_response(true, ShortcutBackend::TauriPlugin, Ok(()));
    assert!(!r.expect("ok").needs_restart);
    let r =
        save_settings_response(true, ShortcutBackend::TauriPlugin, Err(ShortcutError::InvalidShortcut));
    assert!(matches!(r, Err(ShortcutError::InvalidShortcut)));
}

#[test]
fn dconf_value_is_published_and_protocol_truth_overwrites() {
    let mut s = AppState::new(Settings::default());
    s.apply_dconf_shortcut(Some(String::from("Ctrl+Alt+M")));
    assert_eq!(s.portal_shortcut.as_deref(), Some("Ctrl+Alt+M"));

    // The protocol's non-empty trigger wins over the database value.
    s.apply_bind_response(String::from("Ctrl+Shift+R"));
    assert_eq!(s.portal_shortcut.as_deref(), Some("Ctrl+Shift+R"));

    // An empty trigger changes nothing.
    s.apply_bind_response(String::new());
    assert_eq!(s.portal_shortcut.as_deref(), Some("Ctrl+Shift+R"));

    // An absent database value changes nothing either.
    s.apply_dconf_shortcut(None);
    assert_eq!(s.portal_shortcut.as_deref(), Some("Ctrl+Shift+R"));
}

#[test]
fn bind_failure_is_recorded_but_keeps_the_display_value() {
    let mut s = AppState::new(Settings::default());
    s.apply_dconf_shortcut(Some(String::from("Ctrl+Alt+M")));
    s.record_bind_failure(String::from("rejected by a prior registration"));
    assert_eq!(s.portal_shortcut.as_deref(), Some("Ctrl+Alt+M"));
    assert_eq!(s.portal_bind_error.as_deref(), Some("rejected by a prior registration"));
}

#[test]
fn cached_portal_shortcut_wins_over_dconf() {
    assert_eq!(
        pick_portal_shortcut(Some(String::from("A")), Some(String::from("B"))).as_deref(),
        Some("A")
    );
    assert_eq!(pick_portal_shortcut(None, Some(String::from("B"))).as_deref(), Some("B"));
    assert_eq!(pick_portal_shortcut(None, None), None);
}

#[test]
fn activation_dispatch_filters_on_the_identifier() {
    assert!(should_dispatch_activation("toggle-recording"));
    assert!(!should_dispatch_activation("other-shortcut"));
    assert!(!should_dispatch_activation(""));
}

#[test]
fn listed_trigger_is_found_by_identifier() {
    let list = vec![
        (String::from("other"), String::from("Super+O")),
        (String::from("toggle-recording"), String::from("Ctrl+Alt+M")),
    ];
    assert_eq!(pick_toggle_trigger(&list).as_deref(), Some("Ctrl+Alt+M"));
    let list = vec![(String::from("other"), String::from("Super+O"))];
    assert_eq!(pick_toggle_trigger(&list), None);
}

#[test]
fn error_messages_are_stable() {
    assert_eq!(ShortcutError::InvalidShortcut.message(), "invalid shortcut");
    assert_eq!(
        ShortcutError::UnsupportedProtocolVersion(1).message(),
        "configuring shortcuts requires protocol version 2"
    );
    assert_eq!(ToggleError::DeviceUnavailable.message(), "audio device unavailable");
    assert_eq!(ToggleError::MissingCredential.message(), "no API key configured");
    assert_eq!(ToggleError::NoActiveRecording.message(), "no active recording");
}
