//! Pointer-to-pane focus policies.

use vstd::prelude::*;

verus! {

/// How pointer interaction changes the focused pane.
#[derive(Clone, Copy, Debug, PartialEq, Eq, Structural)]
pub enum PaneFocusBehavior {
    /// Focus follows the pointer as it enters panes.
    Hover,
    /// Focus changes on pointer press and remains until another focus request.
    Click,
}

impl Default for PaneFocusBehavior {
    /// Hover is the compatibility default.
    fn default() -> (r: Self)
        ensures
            r == PaneFocusBehavior::Hover,
    {
        PaneFocusBehavior::Hover
    }
}

} // verus!
