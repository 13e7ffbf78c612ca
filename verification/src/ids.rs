//! Stable identities and small geometric vocabularies shared by every module.

use vstd::prelude::*;

verus! {

/// Stable, host-assigned identity of one pane leaf.
#[derive(Clone, Debug, PartialEq, Eq, Hash, PartialOrd, Ord)]
pub struct PaneId(pub String);

/// Stable identity of an activity definition.
#[derive(Clone, Debug, PartialEq, Eq, Hash, PartialOrd, Ord)]
pub struct ActivityId(pub String);

/// Stable identity of an activity category.
#[derive(Clone, Debug, PartialEq, Eq, Hash, PartialOrd, Ord)]
pub struct CategoryId(pub String);

/// Stable identity of a workspace.
#[derive(Clone, Debug, PartialEq, Eq, Hash, PartialOrd, Ord)]
pub struct WorkspaceId(pub String);

impl View for PaneId {
    type V = Seq<char>;

    open spec fn view(&self) -> Seq<char> {
        self.0@
    }
}

impl View for ActivityId {
    type V = Seq<char>;

    open spec fn view(&self) -> Seq<char> {
        self.0@
    }
}

impl View for CategoryId {
    type V = Seq<char>;

    open spec fn view(&self) -> Seq<char> {
        self.0@
    }
}

impl View for WorkspaceId {
    type V = Seq<char>;

    open spec fn view(&self) -> Seq<char> {
        self.0@
    }
}

impl PaneId {
    /// Wraps an identity string verbatim.
    pub fn new(id: &str) -> (r: Self)
        ensures
            r@ == id@,
    {
        PaneId(String::from_str(id))
    }

    /// Copies the identity, keeping its exact spelling.
    pub fn duplicate(&self) -> (r: Self)
        ensures
            r@ == self@,
    {
        PaneId(self.0.clone())
    }
}

impl ActivityId {
    /// Wraps an identity string verbatim.
    pub fn new(id: &str) -> (r: Self)
        ensures
            r@ == id@,
    {
        ActivityId(String::from_str(id))
    }

    /// Copies the identity, keeping its exact spelling.
    pub fn duplicate(&self) -> (r: Self)
        ensures
            r@ == self@,
    {
        ActivityId(self.0.clone())
    }
}

impl CategoryId {
    /// Wraps an identity string verbatim.
    pub fn new(id: &str) -> (r: Self)
        ensures
            r@ == id@,
    {
        CategoryId(String::from_str(id))
    }

    /// Copies the identity, keeping its exact spelling.
    pub fn duplicate(&self) -> (r: Self)
        ensures
            r@ == self@,
    {
        CategoryId(self.0.clone())
    }
}

impl WorkspaceId {
    /// Wraps an identity string verbatim.
    pub fn new(id: &str) -> (r: Self)
        ensures
            r@ == id@,
    {
        WorkspaceId(String::from_str(id))
    }

    /// Copies the identity, keeping its exact spelling.
    pub fn duplicate(&self) -> (r: Self)
        ensures
            r@ == self@,
    {
        WorkspaceId(self.0.clone())
    }
}

/// Compares two strings by their characters.
pub fn same_text(a: &String, b: &String) -> (r: bool)
    ensures
        r == (a@ == b@),
{
    *a == *b
}

/// Axis of a split: `Horizontal` places children left/right, `Vertical` top/bottom.
#[derive(Clone, Copy, Debug, PartialEq, Eq, Hash, Structural)]
pub enum SplitDirection {
    Horizontal,
    Vertical,
}

/// Screen-space direction used by focus-relative commands.
#[derive(Clone, Copy, Debug, PartialEq, Eq, Hash, Structural)]
pub enum PaneDirection {
    Left,
    Right,
    Up,
    Down,
}

/// Whole-tree layouts understood by layout commands.
#[derive(Clone, Copy, Debug, PartialEq, Eq, Hash, Structural)]
pub enum PaneLayout {
    EvenHorizontal,
    EvenVertical,
    MainHorizontal,
    MainVertical,
    Tiled,
}

/// Direction in which leaves rotate through the existing layout slots.
#[derive(Clone, Copy, Debug, PartialEq, Eq, Hash, Structural)]
pub enum PaneRotation {
    Forward,
    Backward,
}

/// One of the five docking zones of a destination pane.
#[derive(Clone, Copy, Debug, PartialEq, Eq, Hash, Structural)]
pub enum DropEdge {
    Left,
    Right,
    Top,
    Bottom,
    Center,
}

/// The five-zone docking rule over the strict quarter bands a pointer lies
/// in: the left and right bands win in the corners, then the top and bottom
/// bands, and a pointer in no band docks at the center.
pub open spec fn zone_of(in_left: bool, in_right: bool, in_top: bool, in_bottom: bool) -> DropEdge {
    if in_left {
        DropEdge::Left
    } else if in_right {
        DropEdge::Right
    } else if in_top {
        DropEdge::Top
    } else if in_bottom {
        DropEdge::Bottom
    } else {
        DropEdge::Center
    }
}

impl DropEdge {
    /// Chooses the docking zone from the quarter bands the pointer lies in:
    /// `in_left` for `x < 1/4`, `in_right` for `x > 3/4`, and likewise
    /// `in_top`/`in_bottom` for `y`, all strict.
    pub fn from_bands(in_left: bool, in_right: bool, in_top: bool, in_bottom: bool) -> (r: DropEdge)
        ensures
            r == zone_of(in_left, in_right, in_top, in_bottom),
    {
        if in_left {
            DropEdge::Left
        } else if in_right {
            DropEdge::Right
        } else if in_top {
            DropEdge::Top
        } else if in_bottom {
            DropEdge::Bottom
        } else {
            DropEdge::Center
        }
    }
}

/// A pointer docks at an edge exactly when it lies in that edge's band and in
/// no band that takes priority; it docks at the center exactly when it lies in
/// no band.
pub proof fn lemma_zone_priority(in_left: bool, in_right: bool, in_top: bool, in_bottom: bool)
    ensures
        (zone_of(in_left, in_right, in_top, in_bottom) == DropEdge::Left) == in_left,
        (zone_of(in_left, in_right, in_top, in_bottom) == DropEdge::Right) == (!in_left && in_right),
        (zone_of(in_left, in_right, in_top, in_bottom) == DropEdge::Top) == (!in_left && !in_right && in_top),
        (zone_of(in_left, in_right, in_top, in_bottom) == DropEdge::Bottom) == (!in_left && !in_right && !in_top
            && in_bottom),
        (zone_of(in_left, in_right, in_top, in_bottom) == DropEdge::Center) == (!in_left && !in_right && !in_top
            && !in_bottom),
{
}

} // verus!
