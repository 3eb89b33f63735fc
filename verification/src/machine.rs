//! The toggle dispatcher's recording state machine: the strict
//! `Idle -> Recording -> Processing -> Idle` cycle, the single audio
//! handle that is moved (never copied) out of the state, and the
//! credential resolution of the processing step. Every trigger surface
//! funnels into these steps; a toggle seen in `Processing` is ignored.

use vstd::prelude::*;

use crate::errors::ToggleError;
use crate::settings::{clone_opt_key, opt_key_view, Settings};

verus! {

/// The process-wide recording lifecycle value.
#[derive(Debug, Clone, Copy, PartialEq, Eq, Structural)]
pub enum RecordingState {
    Idle,
    Recording,
    Processing,
}

/// What one toggle request must do, given the current state.
#[derive(Debug, Clone, Copy, PartialEq, Eq, Structural)]
pub enum ToggleRoute {
    /// `Idle`: acquire audio capture and start recording.
    StartCapture,
    /// `Recording`: stop the capture and transcribe it.
    StopAndTranscribe,
    /// `Processing`: the re-entrancy guard; do nothing.
    Ignore,
}

/// The aggregate state that every backend and the dispatcher share.
/// The audio handle itself lives outside this model; `recorder_present`
/// says whether the state currently owns it.
pub struct AppState {
    pub state: RecordingState,
    pub recorder_present: bool,
    pub api_key: Option<String>,
    pub settings: Settings,
    pub portal_shortcut: Option<String>,
    pub portal_bind_error: Option<String>,
}

/// The mathematical view of the fields the state machine drives.
pub struct MachineView {
    pub state: RecordingState,
    pub recorder_present: bool,
    pub api_key: Option<Seq<char>>,
    pub settings_key: Option<Seq<char>>,
}

impl AppState {
    /// The state-machine view of this aggregate.
    pub open spec fn model(&self) -> MachineView {
        MachineView {
            state: self.state,
            recorder_present: self.recorder_present,
            api_key: opt_key_view(self.api_key),
            settings_key: opt_key_view(self.settings.openai_api_key),
        }
    }
}

/// The state owns the audio handle exactly while it is recording.
pub open spec fn wf(v: MachineView) -> bool {
    v.recorder_present <==> v.state is Recording
}

/// Which action a toggle takes in each state.
pub open spec fn spec_route(s: RecordingState) -> ToggleRoute {
    match s {
        RecordingState::Idle => ToggleRoute::StartCapture,
        RecordingState::Recording => ToggleRoute::StopAndTranscribe,
        RecordingState::Processing => ToggleRoute::Ignore,
    }
}

/// The first credential available, in precedence order: the cached one,
/// then the stored settings value, then the ambient environment value.
pub open spec fn spec_resolve_credential(
    cached: Option<Seq<char>>,
    settings_key: Option<Seq<char>>,
    env_key: Option<Seq<char>>,
) -> Option<Seq<char>> {
    if cached is Some {
        cached
    } else if settings_key is Some {
        settings_key
    } else {
        env_key
    }
}

/// Credential resolution and caching, as a step on the view: the cache
/// takes the resolved value; the step succeeds when one was available.
pub open spec fn spec_ensure_credential(v: MachineView, env_key: Option<Seq<char>>) -> (
    MachineView,
    Result<(), ToggleError>,
) {
    let resolved = spec_resolve_credential(v.api_key, v.settings_key, env_key);
    (
        MachineView { api_key: resolved, ..v },
        if resolved is Some {
            Result::Ok(())
        } else {
            Result::Err(ToggleError::MissingCredential)
        },
    )
}

/// The start transition: on a successful capture the state moves to
/// `Recording` and owns the handle; on failure nothing changes and the
/// failure is reported.
pub open spec fn spec_begin_recording(v: MachineView, capture_ok: bool) -> (MachineView, Result<
    (),
    ToggleError,
>) {
    if capture_ok {
        (
            MachineView { state: RecordingState::Recording, recorder_present: true, ..v },
            Result::Ok(()),
        )
    } else {
        (v, Result::Err(ToggleError::DeviceUnavailable))
    }
}

/// The stop transition's first step: the state becomes `Processing`
/// before any blocking work, and the audio handle is taken. A missing
/// handle is a logic error; it aborts the transition back to `Idle`.
pub open spec fn spec_begin_processing(v: MachineView) -> (MachineView, Result<(), ToggleError>) {
    if v.recorder_present {
        (
            MachineView { state: RecordingState::Processing, recorder_present: false, ..v },
            Result::Ok(()),
        )
    } else {
        (
            MachineView { state: RecordingState::Idle, ..v },
            Result::Err(ToggleError::NoActiveRecording),
        )
    }
}

/// Credential resolution inside the processing path: failure aborts the
/// transition back to `Idle`.
pub open spec fn spec_credential_for_processing(v: MachineView, env_key: Option<Seq<char>>) -> (
    MachineView,
    Result<Seq<char>, ToggleError>,
) {
    let resolved = spec_resolve_credential(v.api_key, v.settings_key, env_key);
    match resolved {
        Option::Some(k) => (MachineView { api_key: resolved, ..v }, Result::Ok(k)),
        Option::None => (
            MachineView { state: RecordingState::Idle, ..v },
            Result::Err(ToggleError::MissingCredential),
        ),
    }
}

/// The end of the processing path: whatever happened, the state returns
/// to `Idle` so the machine can never stay stuck in `Processing`.
pub open spec fn spec_complete_processing(v: MachineView) -> MachineView {
    MachineView { state: RecordingState::Idle, ..v }
}

impl AppState {
    /// A fresh aggregate: idle, no audio handle, no cached credential,
    /// no portal binding knowledge, the given persisted settings.
    pub fn new(settings: Settings) -> (r: AppState)
        ensures
            r.state is Idle,
            !r.recorder_present,
            r.api_key is None,
            r.settings.shortcut@ == settings.shortcut@,
            opt_key_view(r.settings.openai_api_key) == opt_key_view(settings.openai_api_key),
            r.portal_shortcut is None,
            r.portal_bind_error is None,
            wf(r.model()),
    {
        AppState {
            state: RecordingState::Idle,
            recorder_present: false,
            api_key: Option::None,
            settings,
            portal_shortcut: Option::None,
            portal_bind_error: Option::None,
        }
    }

    /// Routes one toggle request by the current state alone.
    pub fn route_toggle(&self) -> (r: ToggleRoute)
        ensures
            r == spec_route(self.state),
    {
        match self.state {
            RecordingState::Idle => ToggleRoute::StartCapture,
            RecordingState::Recording => ToggleRoute::StopAndTranscribe,
            RecordingState::Processing => ToggleRoute::Ignore,
        }
    }

    /// Resolves and caches the credential before work that needs it. The
    /// cached value wins, then the stored settings, then the environment
    /// value; with none present the step fails and nothing changes.
    pub fn ensure_credential(&mut self, env_key: Option<String>) -> (r: Result<(), ToggleError>)
        ensures
            (final(self).model(), r) == spec_ensure_credential(
                old(self).model(),
                opt_key_view(env_key),
            ),
            final(self).settings.shortcut@ == old(self).settings.shortcut@,
            final(self).portal_shortcut == old(self).portal_shortcut,
            final(self).portal_bind_error == old(self).portal_bind_error,
    {
        if self.api_key.is_none() {
            let from_settings = clone_opt_key(&self.settings.openai_api_key);
            let resolved = match from_settings {
                Option::Some(k) => Option::Some(k),
                Option::None => env_key,
            };
            self.api_key = resolved;
        }
        if self.api_key.is_some() {
            Result::Ok(())
        } else {
            Result::Err(ToggleError::MissingCredential)
        }
    }

    /// Applies the outcome of the capture acquisition to the machine.
    pub fn begin_recording(&mut self, capture_ok: bool) -> (r: Result<(), ToggleError>)
        requires
            old(self).state is Idle,
        ensures
            (final(self).model(), r) == spec_begin_recording(old(self).model(), capture_ok),
            final(self).settings.shortcut@ == old(self).settings.shortcut@,
            final(self).api_key == old(self).api_key,
            final(self).portal_shortcut == old(self).portal_shortcut,
            final(self).portal_bind_error == old(self).portal_bind_error,
    {
        if capture_ok {
            self.recorder_present = true;
            self.state = RecordingState::Recording;
            Result::Ok(())
        } else {
            Result::Err(ToggleError::DeviceUnavailable)
        }
    }

    /// Enters `Processing` and takes the audio handle out of the state,
    /// so no other context can observe or re-take it. A missing handle
    /// aborts the transition back to `Idle`.
    pub fn begin_processing(&mut self) -> (r: Result<(), ToggleError>)
        requires
            old(self).state is Recording,
        ensures
            (final(self).model(), r) == spec_begin_processing(old(self).model()),
            final(self).settings.shortcut@ == old(self).settings.shortcut@,
            final(self).api_key == old(self).api_key,
            final(self).portal_shortcut == old(self).portal_shortcut,
            final(self).portal_bind_error == old(self).portal_bind_error,
    {
        if self.recorder_present {
            self.state = RecordingState::Processing;
            self.recorder_present = false;
            Result::Ok(())
        } else {
            self.state = RecordingState::Idle;
            Result::Err(ToggleError::NoActiveRecording)
        }
    }

    /// Hands out the credential for the transcription call; with none
    /// resolvable the processing transition aborts back to `Idle`.
    pub fn credential_for_processing(&mut self, env_key: Option<String>) -> (r: Result<
        String,
        ToggleError,
    >)
        requires
            old(self).state is Processing,
        ensures
            final(self).model() == spec_credential_for_processing(
                old(self).model(),
                opt_key_view(env_key),
            ).0,
            r matches Result::Ok(k) ==> spec_credential_for_processing(
                old(self).model(),
                opt_key_view(env_key),
            ).1 == Result::<Seq<char>, ToggleError>::Ok(k@),
            r matches Result::Err(e) ==> spec_credential_for_processing(
                old(self).model(),
                opt_key_view(env_key),
            ).1 == Result::<Seq<char>, ToggleError>::Err(e),
            final(self).settings.shortcut@ == old(self).settings.shortcut@,
            final(self).portal_shortcut == old(self).portal_shortcut,
            final(self).portal_bind_error == old(self).portal_bind_error,
    {
        let r = self.ensure_credential(env_key);
        match r {
            Result::Ok(()) => {
                let key = clone_opt_key(&self.api_key);
                match key {
                    Option::Some(k) => Result::Ok(k),
                    Option::None => {
                        proof {
                            assert(false);
                        }
                        Result::Err(ToggleError::MissingCredential)
                    },
                }
            },
            Result::Err(_) => {
                self.state = RecordingState::Idle;
                Result::Err(ToggleError::MissingCredential)
            },
        }
    }

    /// Leaves `Processing` for `Idle`, successful or not.
    pub fn complete_processing(&mut self)
        requires
            old(self).state is Processing,
        ensures
            final(self).model() == spec_complete_processing(old(self).model()),
            final(self).settings.shortcut@ == old(self).settings.shortcut@,
            final(self).api_key == old(self).api_key,
            final(self).portal_shortcut == old(self).portal_shortcut,
            final(self).portal_bind_error == old(self).portal_bind_error,
    {
        self.state = RecordingState::Idle;
    }
}

/// What finalizing a capture produced: one payload, or a sequence of
/// chunk payloads (the audio collaborator decides which).
pub enum AudioPayload {
    Single(Vec<u8>),
    Chunked(Vec<Vec<u8>>),
}

/// How the transcription collaborator is invoked.
#[derive(Debug, Clone, Copy, PartialEq, Eq, Structural)]
pub enum TranscribePlan {
    /// A single payload uses one blocking-style call.
    OneShot,
    /// A chunk sequence fans out in parallel and concatenates in order.
    FanOut,
}

/// Chooses the transcription dispatch for a finalized capture.
pub fn transcription_plan(payload: &AudioPayload) -> (r: TranscribePlan)
    ensures
        payload is Single <==> r is OneShot,
        payload is Chunked <==> r is FanOut,
{
    match payload {
        AudioPayload::Single(_) => TranscribePlan::OneShot,
        AudioPayload::Chunked(_) => TranscribePlan::FanOut,
    }
}

/// The outside collaborators' outcomes during one toggle: the ambient
/// credential lookup, whether exclusive capture could be acquired,
/// whether finalizing the capture produced a payload, and whether the
/// transcription call succeeded.
pub struct ToggleOutcomes {
    pub env_key: Option<Seq<char>>,
    pub capture_ok: bool,
    pub finalize_ok: bool,
    pub transcribe_ok: bool,
}

/// How often each outside collaborator was invoked during one toggle.
pub struct ToggleEffects {
    pub capture_starts: nat,
    pub transcribe_calls: nat,
    pub clipboard_writes: nat,
}

/// No collaborator was invoked.
pub open spec fn no_effects() -> ToggleEffects {
    ToggleEffects { capture_starts: 0, transcribe_calls: 0, clipboard_writes: 0 }
}

/// One full toggle, as the dispatcher drives it: the route is chosen by
/// the state alone; the start path resolves the credential and then
/// attempts capture; the stop path enters `Processing`, takes the
/// handle, finalizes the capture, resolves the credential, transcribes,
/// publishes, and ends at `Idle` whatever failed along the way.
pub open spec fn spec_toggle(v: MachineView, io: ToggleOutcomes) -> (MachineView, ToggleEffects) {
    match spec_route(v.state) {
        ToggleRoute::Ignore => (v, no_effects()),
        ToggleRoute::StartCapture => {
            let (v1, cred) = spec_ensure_credential(v, io.env_key);
            if cred is Err {
                (v1, no_effects())
            } else {
                let (v2, started) = spec_begin_recording(v1, io.capture_ok);
                (v2, ToggleEffects { capture_starts: 1, transcribe_calls: 0, clipboard_writes: 0 })
            }
        },
        ToggleRoute::StopAndTranscribe => {
            let (v1, taken) = spec_begin_processing(v);
            if taken is Err {
                (v1, no_effects())
            } else if !io.finalize_ok {
                (spec_complete_processing(v1), no_effects())
            } else {
                let (v2, cred) = spec_credential_for_processing(v1, io.env_key);
                if cred is Err {
                    (v2, no_effects())
                } else if !io.transcribe_ok {
                    (
                        spec_complete_processing(v2),
                        ToggleEffects {
                            capture_starts: 0,
                            transcribe_calls: 1,
                            clipboard_writes: 0,
                        },
                    )
                } else {
                    (
                        spec_complete_processing(v2),
                        ToggleEffects {
                            capture_starts: 0,
                            transcribe_calls: 1,
                            clipboard_writes: 1,
                        },
                    )
                }
            }
        },
    }
}

/// From `Idle`, one toggle whose capture succeeds yields `Recording`;
/// the next toggle enters `Processing` (before any blocking work) and
/// ends at `Idle`, having transcribed and published exactly once.
pub proof fn lemma_toggle_cycle(v: MachineView, io1: ToggleOutcomes, io2: ToggleOutcomes)
    requires
        wf(v),
        v.state is Idle,
        spec_resolve_credential(v.api_key, v.settings_key, io1.env_key) is Some,
        io1.capture_ok,
        io2.finalize_ok,
        io2.transcribe_ok,
    ensures
        spec_toggle(v, io1).0.state is Recording,
        spec_toggle(v, io1).1 == (ToggleEffects {
            capture_starts: 1 as nat,
            transcribe_calls: 0 as nat,
            clipboard_writes: 0 as nat,
        }),
        spec_begin_processing(spec_toggle(v, io1).0).0.state is Processing,
        spec_toggle(spec_toggle(v, io1).0, io2).0.state is Idle,
        spec_toggle(spec_toggle(v, io1).0, io2).1 == (ToggleEffects {
            capture_starts: 0 as nat,
            transcribe_calls: 1 as nat,
            clipboard_writes: 1 as nat,
        }),
{
}

/// A toggle that arrives while the machine is `Processing` leaves the
/// state unchanged and invokes no collaborator at all: no capture, no
/// second transcription, no second clipboard write.
pub proof fn lemma_toggle_in_processing_is_noop(v: MachineView, io: ToggleOutcomes)
    requires
        v.state is Processing,
    ensures
        spec_toggle(v, io) == (v, no_effects()),
{
}

/// If the audio-handle take fails on the way from `Recording` to
/// `Processing`, the machine ends at `Idle` and neither the
/// transcription nor the clipboard collaborator is invoked.
pub proof fn lemma_failed_handle_take_aborts(v: MachineView, io: ToggleOutcomes)
    requires
        v.state is Recording,
        !v.recorder_present,
    ensures
        spec_toggle(v, io).0.state is Idle,
        spec_toggle(v, io).1 == no_effects(),
{
}

/// A toggle preserves the handle-ownership invariant, whatever the
/// collaborators did.
pub proof fn lemma_toggle_preserves_wf(v: MachineView, io: ToggleOutcomes)
    requires
        wf(v),
    ensures
        wf(spec_toggle(v, io).0),
{
}

} // verus!
