//! Typed docking payloads: what a drag carries and where it may land.

use vstd::prelude::*;

use crate::ids::{ActivityId, DropEdge, PaneId};

verus! {

/// The operation represented by a dock drag.
#[derive(Clone, Debug, PartialEq, Eq)]
pub enum DockPayload {
    /// Relocate an existing pane.
    Pane(PaneId),
    /// Create a new pane whose selected activity is this activity.
    NewActivity(ActivityId),
}

/// Whether dropping `payload` on the pane `destination` targets the pane being moved.
pub open spec fn self_drop(payload: DockPayload, destination: Seq<char>) -> bool {
    match payload {
        DockPayload::Pane(p) => p@ == destination,
        DockPayload::NewActivity(_) => false,
    }
}

impl DockPayload {
    /// Returns the source pane for a pane relocation.
    pub fn pane(&self) -> (r: Option<&PaneId>)
        ensures
            match *self {
                DockPayload::Pane(p) => r == Some(&p),
                DockPayload::NewActivity(_) => r is None,
            },
    {
        match self {
            DockPayload::Pane(pane) => Some(pane),
            DockPayload::NewActivity(_) => None,
        }
    }

    /// Returns the requested activity for a new-pane drag.
    pub fn activity(&self) -> (r: Option<&ActivityId>)
        ensures
            match *self {
                DockPayload::Pane(_) => r is None,
                DockPayload::NewActivity(a) => r == Some(&a),
            },
    {
        match self {
            DockPayload::Pane(_) => None,
            DockPayload::NewActivity(activity) => Some(activity),
        }
    }

    /// Whether a drop on `destination` would target the pane being moved.
    pub fn is_self_drop(&self, destination: &PaneId) -> (r: bool)
        ensures
            r == self_drop(*self, destination@),
    {
        match self {
            DockPayload::Pane(pane) => pane.0 == destination.0,
            DockPayload::NewActivity(_) => false,
        }
    }

    /// Returns whether `destination` is not the source pane.
    pub fn can_drop_on(&self, destination: &PaneId) -> (r: bool)
        ensures
            r == !self_drop(*self, destination@),
    {
        !self.is_self_drop(destination)
    }
}

/// Typed state placed in a frontend's native drag system.
#[derive(Clone, Debug, PartialEq, Eq)]
pub struct DockDrag {
    /// Portable operation carried by the frontend's drag object.
    pub payload: DockPayload,
}

impl DockDrag {
    /// Creates a drag that relocates `pane`.
    pub fn pane(pane: PaneId) -> (r: Self)
        ensures
            r.payload == DockPayload::Pane(pane),
    {
        DockDrag { payload: DockPayload::Pane(pane) }
    }

    /// Creates a drag that requests a new pane for `activity`.
    pub fn new_activity(activity: ActivityId) -> (r: Self)
        ensures
            r.payload == DockPayload::NewActivity(activity),
    {
        DockDrag { payload: DockPayload::NewActivity(activity) }
    }

    /// Returns whether dropping here would target the relocated source pane.
    pub fn is_self_drop(&self, destination: &PaneId) -> (r: bool)
        ensures
            r == self_drop(self.payload, destination@),
    {
        self.payload.is_self_drop(destination)
    }

    /// Returns whether the drag can target `destination` under self-drop rules.
    pub fn can_drop_on(&self, destination: &PaneId) -> (r: bool)
        ensures
            r == !self_drop(self.payload, destination@),
    {
        self.payload.can_drop_on(destination)
    }
}

/// The resolved pane and zone currently under a dock drag.
#[derive(Clone, Debug, PartialEq, Eq)]
pub struct DockHover {
    /// Pane currently beneath the pointer.
    pub destination: PaneId,
    /// Five-zone docking region within the destination.
    pub edge: DropEdge,
}

impl DockHover {
    /// Returns whether `drag` may be dropped on this hover's destination.
    pub fn accepts(&self, drag: &DockDrag) -> (r: bool)
        ensures
            r == !self_drop(drag.payload, self.destination@),
    {
        drag.can_drop_on(&self.destination)
    }
}

/// A new-activity drag has no source pane, so every destination accepts it;
/// a pane drag is refused exactly by its own pane.
pub proof fn lemma_self_drop_rules(payload: DockPayload, destination: Seq<char>)
    ensures
        payload is NewActivity ==> !self_drop(payload, destination),
        payload matches DockPayload::Pane(p) ==> (self_drop(payload, destination) <==> p@
            == destination),
{
}

} // verus!
