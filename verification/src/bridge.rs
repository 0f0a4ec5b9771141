//! The bridge between the address bar and the embedded surface: address
//! submissions go in, the hotkey comes out.

use vstd::prelude::*;
use crate::canonical::{canonical_with, canonicalize_with};
use crate::lifecycle::{Coordinator, Phase};

verus! {

/// What the host does for a submitted address: show `target` in the address
/// bar, and load it in the surface if `load` is set.
#[derive(Debug, PartialEq, Eq)]
pub struct Navigation {
    pub target: String,
    pub load: bool,
}

/// The message by which the embedded content reports the hotkey.
pub const HOTKEY_MESSAGE: &'static str = "focus-address";

/// The injected script up to the hotkey message.
pub const SCRIPT_HEAD: &'static str =
    "window.addEventListener('keydown', function (event) { if ((event.ctrlKey || event.metaKey) && (event.key === 'l' || event.key === 'L')) { event.preventDefault(); window.ipc.postMessage('";

/// The injected script after the hotkey message.
pub const SCRIPT_TAIL: &'static str = "'); } }, true);";

/// The script to inject into the embedded content: on Ctrl+L or Cmd+L it
/// sends the hotkey message to the host.
pub fn init_script() -> (script: String)
    ensures
        script@ == SCRIPT_HEAD@ + HOTKEY_MESSAGE@ + SCRIPT_TAIL@,
{
    let mut script = String::from_str(SCRIPT_HEAD);
    script.append(HOTKEY_MESSAGE);
    script.append(SCRIPT_TAIL);
    script
}

impl<S> Coordinator<S> {
    /// The user submitted `typed` in the address bar. The address bar shows
    /// the target at once; the surface loads it only if it exists.
    pub fn on_go(&self, typed: &str) -> (navigation: Navigation)
        ensures
            navigation.target@ == canonical_with(typed@, self.config().search_prefix@),
            navigation.load == (self@.phase == Phase::Ready),
    {
        let target = canonicalize_with(typed, self.config().search_prefix.as_str());
        Navigation { target, load: self.is_ready() }
    }

    /// The embedded content sent `message`. Returns whether the host is to
    /// reveal and focus the address overlay; the address itself is left as
    /// it is.
    pub fn on_content_message(&self, message: &str) -> (reveal: bool)
        ensures
            reveal == (self@.phase == Phase::Ready && message@ == HOTKEY_MESSAGE@),
    {
        self.is_ready() && String::from_str(message) == String::from_str(HOTKEY_MESSAGE)
    }
}

} // verus!
