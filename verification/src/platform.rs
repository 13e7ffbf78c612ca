//! Optional host-owned platform capabilities such as detached windows.

use vstd::prelude::*;

use crate::ids::PaneId;

verus! {

/// Runtime-relevant window capabilities.
#[derive(Clone, Copy, Debug, PartialEq, Eq, Structural)]
pub struct WindowCapabilities {
    pub detached_windows: bool,
}

/// Why a pane could not be detached into its own window.
#[derive(Clone, Debug, PartialEq, Eq)]
pub enum DetachError {
    Unavailable,
    Refused(String),
}

impl DetachError {
    /// Human-readable explanation of the error.
    pub fn message(&self) -> (r: String)
        ensures
            r@ == match *self {
                DetachError::Unavailable => "detached windows are unavailable on this platform"@,
                DetachError::Refused(reason) => "detach refused: "@ + reason@,
            },
    {
        match self {
            DetachError::Unavailable => String::from_str("detached windows are unavailable on this platform"),
            DetachError::Refused(reason) => {
                let mut s = String::from_str("detach refused: ");
                s.append(reason.as_str());
                s
            },
        }
    }
}

/// Optional host-owned desktop capability that may open a second OS window
/// for a pane's content.
pub trait DetachedWindowService {
    fn detach(&self, pane: &PaneId) -> Result<(), DetachError>;
}

/// The portable default: detaching is never available.
#[derive(Clone, Copy, Debug, Default)]
pub struct UnavailableDetachedWindows;

impl DetachedWindowService for UnavailableDetachedWindows {
    fn detach(&self, pane: &PaneId) -> (r: Result<(), DetachError>)
        ensures
            r == Err::<(), DetachError>(DetachError::Unavailable),
    {
        Err(DetachError::Unavailable)
    }
}

} // verus!
