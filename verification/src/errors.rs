//! Error taxonomy of the shortcut and recording subsystem. Every failure
//! either steps down to a less capable backend or returns the recording
//! state machine to `Idle`; none is retried automatically.

use vstd::prelude::*;
use vstd::string::StringExecFns;

verus! {

/// Failures of the shortcut backends and of the IPC roles.
#[derive(Clone, Copy, Debug, PartialEq, Eq, Structural)]
pub enum ShortcutError {
    /// The shortcut string could not be parsed; nothing was registered.
    InvalidShortcut,
    /// The configuration dialog needs protocol version 2 or later; the
    /// field holds the version that is actually available.
    UnsupportedProtocolVersion(u32),
    /// The protocol transport call for binding failed.
    ProtocolBindFailed,
    /// The protocol answered, but rejected the binding.
    ProtocolBindRejected,
    /// The sender found no running instance listening on the endpoint.
    IpcConnectFailed,
    /// The listener could not bind its endpoint; IPC stays unavailable.
    SocketBindFailed,
}

/// Failures that abort an in-flight recording transition.
#[derive(Clone, Copy, Debug, PartialEq, Eq, Structural)]
pub enum ToggleError {
    /// Exclusive audio capture could not be acquired; state stays `Idle`.
    DeviceUnavailable,
    /// No credential in cache, settings or environment; transition aborts.
    MissingCredential,
    /// The audio handle was absent when the transition tried to take it.
    NoActiveRecording,
    /// The transcription collaborator failed.
    TranscriptionFailed,
    /// The publish sink (clipboard) rejected the text.
    PublishFailed,
}

impl ShortcutError {
    /// The caller-facing description of this error.
    pub fn message(&self) -> (r: String)
        ensures
            self is InvalidShortcut ==> r@ == "invalid shortcut"@,
            self is UnsupportedProtocolVersion ==> r@ == "configuring shortcuts requires protocol version 2"@,
            self is ProtocolBindFailed ==> r@ == "shortcut protocol bind failed"@,
            self is ProtocolBindRejected ==> r@ == "shortcut protocol bind rejected"@,
            self is IpcConnectFailed ==> r@ == "could not connect to running instance"@,
            self is SocketBindFailed ==> r@ == "failed to create IPC socket"@,
    {
        match self {
            ShortcutError::InvalidShortcut => String::from_str("invalid shortcut"),
            ShortcutError::UnsupportedProtocolVersion(_) => String::from_str(
                "configuring shortcuts requires protocol version 2",
            ),
            ShortcutError::ProtocolBindFailed => String::from_str("shortcut protocol bind failed"),
            ShortcutError::ProtocolBindRejected => String::from_str(
                "shortcut protocol bind rejected",
            ),
            ShortcutError::IpcConnectFailed => String::from_str(
                "could not connect to running instance",
            ),
            ShortcutError::SocketBindFailed => String::from_str("failed to create IPC socket"),
        }
    }
}

impl ToggleError {
    /// The caller-facing description of this error.
    pub fn message(&self) -> (r: String)
        ensures
            self is DeviceUnavailable ==> r@ == "audio device unavailable"@,
            self is MissingCredential ==> r@ == "no API key configured"@,
            self is NoActiveRecording ==> r@ == "no active recording"@,
            self is TranscriptionFailed ==> r@ == "transcription failed"@,
            self is PublishFailed ==> r@ == "failed to copy text to clipboard"@,
    {
        match self {
            ToggleError::DeviceUnavailable => String::from_str("audio device unavailable"),
            ToggleError::MissingCredential => String::from_str("no API key configured"),
            ToggleError::NoActiveRecording => String::from_str("no active recording"),
            ToggleError::TranscriptionFailed => String::from_str("transcription failed"),
            ToggleError::PublishFailed => String::from_str("failed to copy text to clipboard"),
        }
    }
}

} // verus!
