//! Portable accessibility metadata derived from pane, activity and workspace state.

use vstd::prelude::*;

use crate::ids::{ActivityId, CategoryId, DropEdge, PaneId, SplitDirection, WorkspaceId};
use crate::text::{append_decimal, decimal, join, join_strings, texts};

verus! {

/// The semantic role of an element in a pane workspace.
#[derive(Clone, Copy, Debug, PartialEq, Eq, Structural)]
pub enum MullionAccessibilityRole {
    /// A pane which contains one active activity.
    Pane,
    /// An activity that can be selected for display in a pane.
    Activity,
    /// An expandable group of activities.
    ActivityCategory,
    /// A handle that adjusts the relative sizes of two pane groups.
    SplitHandle,
    /// A docking destination shown while a pane is being moved.
    DropTarget,
    /// A selectable workspace in a collection of workspaces.
    Workspace,
    /// A control that closes a pane.
    CloseButton,
    /// A control used to drag and dock a pane.
    DragHandle,
}

/// Common interactive state of an accessible element.
#[derive(Clone, Copy, Debug, PartialEq, Eq, Structural)]
pub struct MullionAccessibilityState {
    /// Whether this element currently holds keyboard focus.
    pub focused: bool,
    /// Whether this element is the selected item in its containing collection.
    pub selected: bool,
    /// The expansion state, or `None` when expansion does not apply.
    pub expanded: Option<bool>,
    /// Whether this element is the current active target or mode.
    pub active: bool,
    /// Whether interaction with this element is unavailable.
    pub disabled: bool,
}

pub open spec fn no_state() -> MullionAccessibilityState {
    MullionAccessibilityState { focused: false, selected: false, expanded: None, active: false, disabled: false }
}

impl Default for MullionAccessibilityState {
    /// No state asserted.
    fn default() -> (r: Self)
        ensures
            r == no_state(),
    {
        MullionAccessibilityState { focused: false, selected: false, expanded: None, active: false, disabled: false }
    }
}

pub open spec fn word_if(flag: bool, word: Seq<char>) -> Seq<Seq<char>> {
    if flag {
        seq![word]
    } else {
        Seq::empty()
    }
}

/// The asserted states, in field order.
pub open spec fn state_words(s: MullionAccessibilityState) -> Seq<Seq<char>> {
    word_if(s.focused, "focused"@) + word_if(s.selected, "selected"@) + match s.expanded {
        Some(true) => seq!["expanded"@],
        Some(false) => seq!["collapsed"@],
        None => Seq::empty(),
    } + word_if(s.active, "active"@) + word_if(s.disabled, "disabled"@)
}

/// Comma-separated asserted states, or `available` when none is asserted.
pub open spec fn state_description(s: MullionAccessibilityState) -> Seq<char> {
    if state_words(s).len() == 0 {
        "available"@
    } else {
        join(state_words(s), ", "@)
    }
}

fn push_word(parts: &mut Vec<String>, word: &str)
    ensures
        texts(final(parts)@) == texts(old(parts)@).push(word@),
{
    let ghost before = parts@;
    parts.push(String::from_str(word));
    assert(texts(parts@) =~= texts(before).push(word@));
}

impl MullionAccessibilityState {
    /// A human-readable, comma-separated summary of the asserted state.
    pub fn description(self) -> (r: String)
        ensures
            r@ == state_description(self),
    {
        let mut parts: Vec<String> = Vec::new();
        let ghost mut acc: Seq<Seq<char>> = Seq::empty();
        assert(texts(parts@) =~= acc);
        if self.focused {
            push_word(&mut parts, "focused");
        }
        proof {
            acc = word_if(self.focused, "focused"@);
        }
        assert(texts(parts@) =~= acc);
        if self.selected {
            push_word(&mut parts, "selected");
        }
        proof {
            acc = acc + word_if(self.selected, "selected"@);
        }
        assert(texts(parts@) =~= acc);
        match self.expanded {
            Some(true) => push_word(&mut parts, "expanded"),
            Some(false) => push_word(&mut parts, "collapsed"),
            None => {},
        }
        proof {
            acc = acc + match self.expanded {
                Some(true) => seq!["expanded"@],
                Some(false) => seq!["collapsed"@],
                None => Seq::empty(),
            };
        }
        assert(texts(parts@) =~= acc);
        if self.active {
            push_word(&mut parts, "active");
        }
        proof {
            acc = acc + word_if(self.active, "active"@);
        }
        assert(texts(parts@) =~= acc);
        if self.disabled {
            push_word(&mut parts, "disabled");
        }
        proof {
            acc = acc + word_if(self.disabled, "disabled"@);
        }
        assert(texts(parts@) =~= state_words(self));
        if parts.len() == 0 {
            String::from_str("available")
        } else {
            join_strings(&parts, ", ")
        }
    }
}

/// Portable accessibility metadata for one UI element.
#[derive(Clone, Debug, PartialEq, Eq)]
pub struct MullionAccessibilityNode {
    /// The element's portable semantic role.
    pub role: MullionAccessibilityRole,
    /// Stable domain identity when the represented object has one.
    pub id: Option<String>,
    /// The short, user-facing accessible name of the element.
    pub label: String,
    /// Additional user-facing context about the element or its action.
    pub description: String,
    /// The element's current interactive state.
    pub state: MullionAccessibilityState,
}

pub open spec fn id_text(id: Option<String>) -> Option<Seq<char>> {
    match id {
        Some(s) => Some(s@),
        None => None,
    }
}

pub open spec fn edge_word(edge: DropEdge) -> Seq<char> {
    match edge {
        DropEdge::Top => "top"@,
        DropEdge::Bottom => "bottom"@,
        DropEdge::Left => "left"@,
        DropEdge::Right => "right"@,
        DropEdge::Center => "center"@,
    }
}

pub open spec fn pane_description(id: Seq<char>, activity_name: Option<Seq<char>>, zoomed: bool) -> Seq<char> {
    (match activity_name {
        Some(a) => a + " in pane "@ + id,
        None => "Pane "@ + id,
    }) + (if zoomed {
        ", zoomed"@
    } else {
        Seq::empty()
    })
}

pub open spec fn opt_str(o: Option<&str>) -> Option<Seq<char>> {
    match o {
        Some(s) => Some(s@),
        None => None,
    }
}

fn ordinal_of(prefix: &str, index: usize, count: usize) -> (r: String)
    requires
        index < usize::MAX,
    ensures
        r@ == prefix@ + decimal(index as nat + 1) + " of "@ + decimal(count as nat),
{
    let mut s = String::from_str(prefix);
    append_decimal(&mut s, index + 1);
    s.append(" of ");
    append_decimal(&mut s, count);
    s
}

impl MullionAccessibilityNode {
    /// Returns the human-readable summary produced by this node's state.
    pub fn state_description(&self) -> (r: String)
        ensures
            r@ == state_description(self.state),
    {
        self.state.description()
    }

    /// Describes the pane at zero-based `index` of `count`; `zoomed` annotates
    /// the description and marks the pane active.
    pub fn pane(
        id: &PaneId,
        index: usize,
        count: usize,
        activity_name: Option<&str>,
        focused: bool,
        zoomed: bool,
    ) -> (r: Self)
        requires
            index < usize::MAX,
        ensures
            r.role == MullionAccessibilityRole::Pane,
            id_text(r.id) == Some(id@),
            r.label@ == "Pane "@ + decimal(index as nat + 1) + " of "@ + decimal(count as nat),
            r.description@ == pane_description(id@, opt_str(activity_name), zoomed),
            r.state == (MullionAccessibilityState { focused, active: zoomed, ..no_state() }),
    {
        let label = ordinal_of("Pane ", index, count);
        let mut description = match activity_name {
            Some(activity) => {
                let mut d = String::from_str(activity);
                d.append(" in pane ");
                d.append(id.0.as_str());
                d
            },
            None => {
                let mut d = String::from_str("Pane ");
                d.append(id.0.as_str());
                d
            },
        };
        let ghost base = description@;
        if zoomed {
            description.append(", zoomed");
        }
        assert(description@ =~= pane_description(id@, opt_str(activity_name), zoomed));
        MullionAccessibilityNode {
            role: MullionAccessibilityRole::Pane,
            id: Some(id.0.clone()),
            label,
            description,
            state: MullionAccessibilityState { focused, active: zoomed, ..MullionAccessibilityState::default() },
        }
    }

    /// Describes a split handle whose first pane group uses `percent` percent
    /// of the split; `disabled` reports whether the handle can resize now.
    /// The host rounds the split ratio to a whole percent.
    pub fn split(direction: SplitDirection, percent: u8, disabled: bool) -> (r: Self)
        ensures
            r.role == MullionAccessibilityRole::SplitHandle,
            r.id is None,
            r.label@ == "Resize "@ + (match direction {
                SplitDirection::Horizontal => "horizontal"@,
                SplitDirection::Vertical => "vertical"@,
            }) + " pane split"@,
            r.description@ == "First pane group uses "@ + decimal(percent as nat) + " percent"@,
            r.state == (MullionAccessibilityState { disabled, ..no_state() }),
    {
        let axis = match direction {
            SplitDirection::Horizontal => "horizontal",
            SplitDirection::Vertical => "vertical",
        };
        let mut label = String::from_str("Resize ");
        label.append(axis);
        label.append(" pane split");
        let mut description = String::from_str("First pane group uses ");
        append_decimal(&mut description, percent as usize);
        description.append(" percent");
        MullionAccessibilityNode {
            role: MullionAccessibilityRole::SplitHandle,
            id: None,
            label,
            description,
            state: MullionAccessibilityState { disabled, ..MullionAccessibilityState::default() },
        }
    }

    /// Describes an activity selector; `selected` marks the activity shown in its pane.
    pub fn activity(id: &ActivityId, name: &str, selected: bool) -> (r: Self)
        ensures
            r.role == MullionAccessibilityRole::Activity,
            id_text(r.id) == Some(id@),
            r.label@ == name@,
            r.description@ == (if selected {
                "Current pane activity"@
            } else {
                "Switch to this pane activity"@
            }),
            r.state == (MullionAccessibilityState { selected, ..no_state() }),
    {
        MullionAccessibilityNode {
            role: MullionAccessibilityRole::Activity,
            id: Some(id.0.clone()),
            label: String::from_str(name),
            description: if selected {
                String::from_str("Current pane activity")
            } else {
                String::from_str("Switch to this pane activity")
            },
            state: MullionAccessibilityState { selected, ..MullionAccessibilityState::default() },
        }
    }

    /// Describes an expandable activity category; expansion is always explicit.
    pub fn category(id: &CategoryId, name: &str, expanded: bool) -> (r: Self)
        ensures
            r.role == MullionAccessibilityRole::ActivityCategory,
            id_text(r.id) == Some(id@),
            r.label@ == name@ + " activities"@,
            r.description@ == (if expanded {
                "Activity category is expanded"@
            } else {
                "Activity category is collapsed"@
            }),
            r.state == (MullionAccessibilityState { expanded: Some(expanded), ..no_state() }),
    {
        let mut label = String::from_str(name);
        label.append(" activities");
        MullionAccessibilityNode {
            role: MullionAccessibilityRole::ActivityCategory,
            id: Some(id.0.clone()),
            label,
            description: if expanded {
                String::from_str("Activity category is expanded")
            } else {
                String::from_str("Activity category is collapsed")
            },
            state: MullionAccessibilityState { expanded: Some(expanded), ..MullionAccessibilityState::default() },
        }
    }

    /// Describes a docking target at `edge`; the center moves content into the
    /// pane, every other edge creates a split.
    pub fn drop_target(edge: DropEdge, active: bool) -> (r: Self)
        ensures
            r.role == MullionAccessibilityRole::DropTarget,
            r.id is None,
            r.label@ == "Dock at "@ + edge_word(edge),
            r.description@ == (if edge == DropEdge::Center {
                "Move into this pane"@
            } else {
                "Create a split at the "@ + edge_word(edge) + " edge"@
            }),
            r.state == (MullionAccessibilityState { active, ..no_state() }),
    {
        let word = match edge {
            DropEdge::Top => "top",
            DropEdge::Bottom => "bottom",
            DropEdge::Left => "left",
            DropEdge::Right => "right",
            DropEdge::Center => "center",
        };
        let mut label = String::from_str("Dock at ");
        label.append(word);
        let description = match edge {
            DropEdge::Center => String::from_str("Move into this pane"),
            _ => {
                let mut d = String::from_str("Create a split at the ");
                d.append(word);
                d.append(" edge");
                d
            },
        };
        MullionAccessibilityNode {
            role: MullionAccessibilityRole::DropTarget,
            id: None,
            label,
            description,
            state: MullionAccessibilityState { active, ..MullionAccessibilityState::default() },
        }
    }

    /// Describes the control that closes the pane `id`.
    pub fn close_pane(id: &PaneId) -> (r: Self)
        ensures
            r.role == MullionAccessibilityRole::CloseButton,
            id_text(r.id) == Some(id@),
            r.label@ == "Close pane "@ + id@,
            r.description@ == "Close this pane"@,
            r.state == no_state(),
    {
        let mut label = String::from_str("Close pane ");
        label.append(id.0.as_str());
        MullionAccessibilityNode {
            role: MullionAccessibilityRole::CloseButton,
            id: Some(id.0.clone()),
            label,
            description: String::from_str("Close this pane"),
            state: MullionAccessibilityState::default(),
        }
    }

    /// Describes the drag handle used to move and dock the pane `id`.
    pub fn drag_handle(id: &PaneId) -> (r: Self)
        ensures
            r.role == MullionAccessibilityRole::DragHandle,
            id_text(r.id) == Some(id@),
            r.label@ == "Move pane "@ + id@,
            r.description@ == "Drag to dock this pane in another location"@,
            r.state == no_state(),
    {
        let mut label = String::from_str("Move pane ");
        label.append(id.0.as_str());
        MullionAccessibilityNode {
            role: MullionAccessibilityRole::DragHandle,
            id: Some(id.0.clone()),
            label,
            description: String::from_str("Drag to dock this pane in another location"),
            state: MullionAccessibilityState::default(),
        }
    }

    /// Describes the workspace at zero-based `index` of `count`; an active
    /// workspace is both selected and active.
    pub fn workspace(id: &WorkspaceId, name: &str, index: usize, count: usize, active: bool) -> (r: Self)
        requires
            index < usize::MAX,
        ensures
            r.role == MullionAccessibilityRole::Workspace,
            id_text(r.id) == Some(id@),
            r.label@ == name@,
            r.description@ == "Workspace "@ + decimal(index as nat + 1) + " of "@ + decimal(count as nat),
            r.state == (MullionAccessibilityState { selected: active, active, ..no_state() }),
    {
        MullionAccessibilityNode {
            role: MullionAccessibilityRole::Workspace,
            id: Some(id.0.clone()),
            label: String::from_str(name),
            description: ordinal_of("Workspace ", index, count),
            state: MullionAccessibilityState { selected: active, active, ..MullionAccessibilityState::default() },
        }
    }
}

} // verus!
