//! Desktop voice-capture triggering: backend arbitration for global
//! shortcuts, shortcut-string conversion, IPC toggle commands, and the
//! recording state machine that serializes every trigger surface.

pub mod backend;
pub mod chord;
pub mod dconf;
pub mod errors;
pub mod ipc;
pub mod machine;
pub mod portal;
pub mod settings;
pub mod text;
pub mod ui;

use vstd::prelude::*;

verus! {

/// Chars of the shortcut identifier under which the toggle binding is stored.
pub open spec fn toggle_shortcut_id() -> Seq<char> {
    "toggle-recording"@
}

} // verus!
