//! What the UI surfaces read from the machine: the status response, the
//! tray labels for each state, and the response of a settings save.

use vstd::prelude::*;
use vstd::string::StringExecFns;

use crate::backend::ShortcutBackend;
use crate::errors::ShortcutError;
use crate::machine::RecordingState;

verus! {

/// The status the UI polls.
pub struct StatusResponse {
    pub state: String,
    pub config_valid: bool,
}

/// What a settings save tells the UI to do next.
pub struct SaveSettingsResponse {
    pub needs_restart: bool,
}

/// The label of a recording state.
pub open spec fn spec_state_label(s: RecordingState) -> Seq<char> {
    match s {
        RecordingState::Idle => "Idle"@,
        RecordingState::Recording => "Recording"@,
        RecordingState::Processing => "Processing"@,
    }
}

/// Builds the status response: the state's label, and whether a
/// credential is available from any of its three sources.
pub fn status_response(
    state: RecordingState,
    config_loaded: bool,
    settings_key_present: bool,
    env_key_present: bool,
) -> (r: StatusResponse)
    ensures
        r.state@ == spec_state_label(state),
        r.config_valid == (config_loaded || settings_key_present || env_key_present),
{
    let label = match state {
        RecordingState::Idle => String::from_str("Idle"),
        RecordingState::Recording => String::from_str("Recording"),
        RecordingState::Processing => String::from_str("Processing"),
    };
    StatusResponse {
        state: label,
        config_valid: config_loaded || settings_key_present || env_key_present,
    }
}

/// The record menu entry's text for each state.
pub fn record_menu_label(state: RecordingState) -> (r: String)
    ensures
        state is Idle ==> r@ == "Start Recording"@,
        state is Recording ==> r@ == "Stop Recording"@,
        state is Processing ==> r@ == "Processing..."@,
{
    match state {
        RecordingState::Idle => String::from_str("Start Recording"),
        RecordingState::Recording => String::from_str("Stop Recording"),
        RecordingState::Processing => String::from_str("Processing..."),
    }
}

/// The record menu entry is enabled except while processing.
pub fn record_menu_enabled(state: RecordingState) -> (r: bool)
    ensures
        r == (state != RecordingState::Processing),
{
    match state {
        RecordingState::Processing => false,
        _ => true,
    }
}

/// The tray tooltip for each state.
pub fn tray_tooltip(state: RecordingState) -> (r: String)
    ensures
        state is Idle ==> r@ == "Whis - Click to record"@,
        state is Recording ==> r@ == "Whis - Recording... Click to stop"@,
        state is Processing ==> r@ == "Whis - Processing..."@,
{
    match state {
        RecordingState::Idle => String::from_str("Whis - Click to record"),
        RecordingState::Recording => String::from_str("Whis - Recording... Click to stop"),
        RecordingState::Processing => String::from_str("Whis - Processing..."),
    }
}

/// The outcome of a settings save: an unchanged shortcut needs nothing;
/// a changed one is re-registered live under the in-process backend (a
/// failed re-registration surfaces its error) and needs a restart under
/// every other backend.
pub fn save_settings_response(
    shortcut_changed: bool,
    backend: ShortcutBackend,
    reregister: Result<(), ShortcutError>,
) -> (r: Result<SaveSettingsResponse, ShortcutError>)
    ensures
        !shortcut_changed ==> (r matches Result::Ok(resp) && !resp.needs_restart),
        shortcut_changed && backend != ShortcutBackend::TauriPlugin ==> (r matches Result::Ok(resp)
            && resp.needs_restart),
        shortcut_changed && backend == ShortcutBackend::TauriPlugin ==> (match reregister {
            Result::Ok(()) => r matches Result::Ok(resp) && !resp.needs_restart,
            Result::Err(e) => r == Result::<SaveSettingsResponse, ShortcutError>::Err(e),
        }),
{
    if !shortcut_changed {
        Result::Ok(SaveSettingsResponse { needs_restart: false })
    } else {
        match backend {
            ShortcutBackend::TauriPlugin => match reregister {
                Result::Ok(()) => Result::Ok(SaveSettingsResponse { needs_restart: false }),
                Result::Err(e) => Result::Err(e),
            },
            _ => Result::Ok(SaveSettingsResponse { needs_restart: true }),
        }
    }
}

} // verus!
