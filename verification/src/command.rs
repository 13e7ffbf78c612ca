//! Portable pane commands, their stable metadata, and their errors.

use vstd::prelude::*;

use crate::ids::{PaneDirection, PaneLayout, PaneRotation, SplitDirection};
use crate::text::{append_decimal, decimal};

verus! {

/// Focus-relative command understood by every frontend.
#[derive(Clone, Copy, Debug, PartialEq, Eq, Hash, Structural)]
pub enum PaneCommand {
    Focus(PaneDirection),
    FocusNext,
    FocusPrevious,
    FocusFirst,
    FocusLast,
    FocusIndex(usize),
    Split(SplitDirection),
    Close,
    Move(PaneDirection),
    Swap(PaneDirection),
    SwapNext,
    SwapPrevious,
    Resize(PaneDirection),
    SetParentSplitDirection(SplitDirection),
    ToggleParentSplitDirection,
    Balance,
    Rotate(PaneRotation),
    ApplyLayout(PaneLayout),
    ToggleZoom,
}

/// Palette group of a command.
#[derive(Clone, Copy, Debug, PartialEq, Eq, Hash, Structural)]
pub enum PaneCommandGroup {
    Focus,
    Pane,
    Arrange,
    Resize,
    Layout,
    View,
}

/// Why a pane command could not be applied.
#[derive(Clone, Copy, Debug, PartialEq, Eq, Hash, Structural)]
pub enum PaneCommandError {
    NoFocusedPane,
    NoNeighbor,
    SplitUnavailable,
    SplitRefused,
    CannotCloseLastPane,
    InvalidPaneIndex,
    NotApplicable,
}

/// Outcome of executing a pane command.
pub type PaneCommandResult = Result<(), PaneCommandError>;

// ---------------------------------------------------------------- specifications

pub open spec fn direction_slug(d: PaneDirection) -> Seq<char> {
    match d {
        PaneDirection::Left => "left"@,
        PaneDirection::Right => "right"@,
        PaneDirection::Up => "up"@,
        PaneDirection::Down => "down"@,
    }
}

pub open spec fn direction_label(d: PaneDirection) -> Seq<char> {
    match d {
        PaneDirection::Left => "Left"@,
        PaneDirection::Right => "Right"@,
        PaneDirection::Up => "Up"@,
        PaneDirection::Down => "Down"@,
    }
}

pub open spec fn split_slug(d: SplitDirection) -> Seq<char> {
    match d {
        SplitDirection::Horizontal => "horizontal"@,
        SplitDirection::Vertical => "vertical"@,
    }
}

pub open spec fn layout_slug_spec(l: PaneLayout) -> Seq<char> {
    match l {
        PaneLayout::EvenHorizontal => "even-horizontal"@,
        PaneLayout::EvenVertical => "even-vertical"@,
        PaneLayout::MainHorizontal => "main-horizontal"@,
        PaneLayout::MainVertical => "main-vertical"@,
        PaneLayout::Tiled => "tiled"@,
    }
}

pub open spec fn layout_label_spec(l: PaneLayout) -> Seq<char> {
    match l {
        PaneLayout::EvenHorizontal => "Even Horizontal"@,
        PaneLayout::EvenVertical => "Even Vertical"@,
        PaneLayout::MainHorizontal => "Main Horizontal"@,
        PaneLayout::MainVertical => "Main Vertical"@,
        PaneLayout::Tiled => "Tiled"@,
    }
}

/// The stable registry id of a command.
pub open spec fn command_id(c: PaneCommand) -> Seq<char> {
    match c {
        PaneCommand::Focus(d) => "mullion.focus."@ + direction_slug(d),
        PaneCommand::FocusNext => "mullion.focus.next"@,
        PaneCommand::FocusPrevious => "mullion.focus.previous"@,
        PaneCommand::FocusFirst => "mullion.focus.first"@,
        PaneCommand::FocusLast => "mullion.focus.last"@,
        PaneCommand::FocusIndex(i) => "mullion.focus.index."@ + decimal(i as nat),
        PaneCommand::Split(d) => "mullion.split."@ + split_slug(d),
        PaneCommand::Close => "mullion.close"@,
        PaneCommand::Move(d) => "mullion.move."@ + direction_slug(d),
        PaneCommand::Swap(d) => "mullion.swap."@ + direction_slug(d),
        PaneCommand::SwapNext => "mullion.swap.next"@,
        PaneCommand::SwapPrevious => "mullion.swap.previous"@,
        PaneCommand::Resize(d) => "mullion.resize."@ + direction_slug(d),
        PaneCommand::SetParentSplitDirection(d) => "mullion.parent-split."@ + split_slug(d),
        PaneCommand::ToggleParentSplitDirection => "mullion.parent-split.toggle"@,
        PaneCommand::Balance => "mullion.layout.balance"@,
        PaneCommand::Rotate(PaneRotation::Forward) => "mullion.rotate.forward"@,
        PaneCommand::Rotate(PaneRotation::Backward) => "mullion.rotate.backward"@,
        PaneCommand::ApplyLayout(l) => "mullion.layout."@ + layout_slug_spec(l),
        PaneCommand::ToggleZoom => "mullion.zoom.toggle"@,
    }
}

/// The user-facing name of a command.
pub open spec fn command_name(c: PaneCommand) -> Seq<char> {
    match c {
        PaneCommand::Focus(d) => "Focus Pane "@ + direction_label(d),
        PaneCommand::FocusNext => "Focus Next Pane"@,
        PaneCommand::FocusPrevious => "Focus Previous Pane"@,
        PaneCommand::FocusFirst => "Focus First Pane"@,
        PaneCommand::FocusLast => "Focus Last Pane"@,
        PaneCommand::FocusIndex(i) => "Focus Pane "@ + decimal(i as nat + 1),
        PaneCommand::Split(SplitDirection::Horizontal) => "Split Pane Left/Right"@,
        PaneCommand::Split(SplitDirection::Vertical) => "Split Pane Top/Bottom"@,
        PaneCommand::Close => "Close Focused Pane"@,
        PaneCommand::Move(d) => "Move Pane "@ + direction_label(d),
        PaneCommand::Swap(d) => "Swap with Pane "@ + direction_label(d),
        PaneCommand::SwapNext => "Swap with Next Pane"@,
        PaneCommand::SwapPrevious => "Swap with Previous Pane"@,
        PaneCommand::Resize(d) => "Grow Pane "@ + direction_label(d),
        PaneCommand::SetParentSplitDirection(SplitDirection::Horizontal) => "Set Parent Split Left/Right"@,
        PaneCommand::SetParentSplitDirection(SplitDirection::Vertical) => "Set Parent Split Top/Bottom"@,
        PaneCommand::ToggleParentSplitDirection => "Toggle Parent Split Direction"@,
        PaneCommand::Balance => "Balance Pane Splits"@,
        PaneCommand::Rotate(PaneRotation::Forward) => "Rotate Panes Forward"@,
        PaneCommand::Rotate(PaneRotation::Backward) => "Rotate Panes Backward"@,
        PaneCommand::ApplyLayout(l) => "Apply "@ + layout_label_spec(l) + " Layout"@,
        PaneCommand::ToggleZoom => "Toggle Focused Pane Zoom"@,
    }
}

/// The palette group of a command.
pub open spec fn command_group(c: PaneCommand) -> PaneCommandGroup {
    match c {
        PaneCommand::Focus(_) | PaneCommand::FocusNext | PaneCommand::FocusPrevious
        | PaneCommand::FocusFirst | PaneCommand::FocusLast | PaneCommand::FocusIndex(_) => PaneCommandGroup::Focus,
        PaneCommand::Split(_) | PaneCommand::Close => PaneCommandGroup::Pane,
        PaneCommand::Move(_) | PaneCommand::Swap(_) | PaneCommand::SwapNext
        | PaneCommand::SwapPrevious | PaneCommand::Rotate(_) => PaneCommandGroup::Arrange,
        PaneCommand::Resize(_) => PaneCommandGroup::Resize,
        PaneCommand::SetParentSplitDirection(_) | PaneCommand::ToggleParentSplitDirection
        | PaneCommand::Balance | PaneCommand::ApplyLayout(_) => PaneCommandGroup::Layout,
        PaneCommand::ToggleZoom => PaneCommandGroup::View,
    }
}

/// The one-line description of a command.
pub open spec fn command_description(c: PaneCommand) -> Seq<char> {
    match c {
        PaneCommand::Focus(_) => "Focus the nearest pane in this direction"@,
        PaneCommand::FocusNext | PaneCommand::FocusPrevious => "Cycle focus through the pane layout"@,
        PaneCommand::FocusFirst | PaneCommand::FocusLast | PaneCommand::FocusIndex(_) => "Focus a pane by layout order"@,
        PaneCommand::Split(_) => "Create and focus a pane beside the focused pane"@,
        PaneCommand::Close => "Close the focused pane and focus an adjacent pane"@,
        PaneCommand::Move(_) => "Move the focused pane beside its directional neighbor"@,
        PaneCommand::Swap(_) | PaneCommand::SwapNext | PaneCommand::SwapPrevious => "Exchange panes without changing the split topology"@,
        PaneCommand::Resize(_) => "Grow the focused pane toward its nearest boundary"@,
        PaneCommand::SetParentSplitDirection(_) => "Set the focused pane's parent split axis"@,
        PaneCommand::ToggleParentSplitDirection => "Flip the focused pane's parent split axis"@,
        PaneCommand::Balance => "Reset every split ratio to an equal half"@,
        PaneCommand::Rotate(_) => "Rotate panes through the existing layout slots"@,
        PaneCommand::ApplyLayout(_) => "Rebuild the split topology using a standard layout"@,
        PaneCommand::ToggleZoom => "Temporarily fill Mullion with the focused pane"@,
    }
}

pub open spec fn group_label_spec(g: PaneCommandGroup) -> Seq<char> {
    match g {
        PaneCommandGroup::Focus => "Mullion · Focus"@,
        PaneCommandGroup::Pane => "Mullion · Pane"@,
        PaneCommandGroup::Arrange => "Mullion · Arrange"@,
        PaneCommandGroup::Resize => "Mullion · Resize"@,
        PaneCommandGroup::Layout => "Mullion · Layout"@,
        PaneCommandGroup::View => "Mullion · View"@,
    }
}

/// Every static command in catalog order; `FocusIndex` is dynamic and absent.
pub open spec fn command_catalog() -> Seq<PaneCommand> {
    seq![
        PaneCommand::Focus(PaneDirection::Left),
        PaneCommand::Focus(PaneDirection::Right),
        PaneCommand::Focus(PaneDirection::Up),
        PaneCommand::Focus(PaneDirection::Down),
        PaneCommand::FocusNext,
        PaneCommand::FocusPrevious,
        PaneCommand::FocusFirst,
        PaneCommand::FocusLast,
        PaneCommand::Split(SplitDirection::Horizontal),
        PaneCommand::Split(SplitDirection::Vertical),
        PaneCommand::Close,
        PaneCommand::Move(PaneDirection::Left),
        PaneCommand::Move(PaneDirection::Right),
        PaneCommand::Move(PaneDirection::Up),
        PaneCommand::Move(PaneDirection::Down),
        PaneCommand::Swap(PaneDirection::Left),
        PaneCommand::Swap(PaneDirection::Right),
        PaneCommand::Swap(PaneDirection::Up),
        PaneCommand::Swap(PaneDirection::Down),
        PaneCommand::SwapNext,
        PaneCommand::SwapPrevious,
        PaneCommand::Resize(PaneDirection::Left),
        PaneCommand::Resize(PaneDirection::Right),
        PaneCommand::Resize(PaneDirection::Up),
        PaneCommand::Resize(PaneDirection::Down),
        PaneCommand::SetParentSplitDirection(SplitDirection::Horizontal),
        PaneCommand::SetParentSplitDirection(SplitDirection::Vertical),
        PaneCommand::ToggleParentSplitDirection,
        PaneCommand::Balance,
        PaneCommand::Rotate(PaneRotation::Forward),
        PaneCommand::Rotate(PaneRotation::Backward),
        PaneCommand::ApplyLayout(PaneLayout::EvenHorizontal),
        PaneCommand::ApplyLayout(PaneLayout::EvenVertical),
        PaneCommand::ApplyLayout(PaneLayout::MainHorizontal),
        PaneCommand::ApplyLayout(PaneLayout::MainVertical),
        PaneCommand::ApplyLayout(PaneLayout::Tiled),
        PaneCommand::ToggleZoom,
    ]
}

/// Whether a command's displayed ordinal fits in a `usize`.
pub open spec fn command_nameable(c: PaneCommand) -> bool {
    match c {
        PaneCommand::FocusIndex(i) => i < usize::MAX,
        _ => true,
    }
}

/// No catalog command is the dynamic `FocusIndex`, so every one has a name.
pub proof fn lemma_catalog_commands_nameable()
    ensures
        forall|i: int| 0 <= i < command_catalog().len() ==> !(#[trigger] command_catalog()[i] is FocusIndex),
        forall|i: int| 0 <= i < command_catalog().len() ==> command_nameable(#[trigger] command_catalog()[i]),
{
}

// ---------------------------------------------------------------- executable code

pub fn pane_direction_slug(direction: PaneDirection) -> (r: &'static str)
    ensures
        r@ == direction_slug(direction),
{
    match direction {
        PaneDirection::Left => "left",
        PaneDirection::Right => "right",
        PaneDirection::Up => "up",
        PaneDirection::Down => "down",
    }
}

pub fn pane_direction_label(direction: PaneDirection) -> (r: &'static str)
    ensures
        r@ == direction_label(direction),
{
    match direction {
        PaneDirection::Left => "Left",
        PaneDirection::Right => "Right",
        PaneDirection::Up => "Up",
        PaneDirection::Down => "Down",
    }
}

pub fn split_direction_slug(direction: SplitDirection) -> (r: &'static str)
    ensures
        r@ == split_slug(direction),
{
    match direction {
        SplitDirection::Horizontal => "horizontal",
        SplitDirection::Vertical => "vertical",
    }
}

pub fn layout_slug(layout: PaneLayout) -> (r: &'static str)
    ensures
        r@ == layout_slug_spec(layout),
{
    match layout {
        PaneLayout::EvenHorizontal => "even-horizontal",
        PaneLayout::EvenVertical => "even-vertical",
        PaneLayout::MainHorizontal => "main-horizontal",
        PaneLayout::MainVertical => "main-vertical",
        PaneLayout::Tiled => "tiled",
    }
}

pub fn layout_label(layout: PaneLayout) -> (r: &'static str)
    ensures
        r@ == layout_label_spec(layout),
{
    match layout {
        PaneLayout::EvenHorizontal => "Even Horizontal",
        PaneLayout::EvenVertical => "Even Vertical",
        PaneLayout::MainHorizontal => "Main Horizontal",
        PaneLayout::MainVertical => "Main Vertical",
        PaneLayout::Tiled => "Tiled",
    }
}

fn joined(prefix: &str, suffix: &str) -> (r: String)
    ensures
        r@ == prefix@ + suffix@,
{
    let mut s = String::from_str(prefix);
    s.append(suffix);
    s
}

impl PaneCommand {
    /// Static command catalog used by keymaps and command-palette adapters.
    /// `FocusIndex` is dynamic and therefore omitted.
    pub fn catalog() -> (r: Vec<PaneCommand>)
        ensures
            r@ == command_catalog(),
    {
        let r = vec![
            PaneCommand::Focus(PaneDirection::Left),
            PaneCommand::Focus(PaneDirection::Right),
            PaneCommand::Focus(PaneDirection::Up),
            PaneCommand::Focus(PaneDirection::Down),
            PaneCommand::FocusNext,
            PaneCommand::FocusPrevious,
            PaneCommand::FocusFirst,
            PaneCommand::FocusLast,
            PaneCommand::Split(SplitDirection::Horizontal),
            PaneCommand::Split(SplitDirection::Vertical),
            PaneCommand::Close,
            PaneCommand::Move(PaneDirection::Left),
            PaneCommand::Move(PaneDirection::Right),
            PaneCommand::Move(PaneDirection::Up),
            PaneCommand::Move(PaneDirection::Down),
            PaneCommand::Swap(PaneDirection::Left),
            PaneCommand::Swap(PaneDirection::Right),
            PaneCommand::Swap(PaneDirection::Up),
            PaneCommand::Swap(PaneDirection::Down),
            PaneCommand::SwapNext,
            PaneCommand::SwapPrevious,
            PaneCommand::Resize(PaneDirection::Left),
            PaneCommand::Resize(PaneDirection::Right),
            PaneCommand::Resize(PaneDirection::Up),
            PaneCommand::Resize(PaneDirection::Down),
            PaneCommand::SetParentSplitDirection(SplitDirection::Horizontal),
            PaneCommand::SetParentSplitDirection(SplitDirection::Vertical),
            PaneCommand::ToggleParentSplitDirection,
            PaneCommand::Balance,
            PaneCommand::Rotate(PaneRotation::Forward),
            PaneCommand::Rotate(PaneRotation::Backward),
            PaneCommand::ApplyLayout(PaneLayout::EvenHorizontal),
            PaneCommand::ApplyLayout(PaneLayout::EvenVertical),
            PaneCommand::ApplyLayout(PaneLayout::MainHorizontal),
            PaneCommand::ApplyLayout(PaneLayout::MainVertical),
            PaneCommand::ApplyLayout(PaneLayout::Tiled),
            PaneCommand::ToggleZoom,
        ];
        assert(r@ =~= command_catalog());
        r
    }

    /// Stable id suitable for command registries.
    pub fn id(self) -> (r: String)
        ensures
            r@ == command_id(self),
    {
        match self {
            PaneCommand::Focus(d) => joined("mullion.focus.", pane_direction_slug(d)),
            PaneCommand::FocusNext => String::from_str("mullion.focus.next"),
            PaneCommand::FocusPrevious => String::from_str("mullion.focus.previous"),
            PaneCommand::FocusFirst => String::from_str("mullion.focus.first"),
            PaneCommand::FocusLast => String::from_str("mullion.focus.last"),
            PaneCommand::FocusIndex(i) => {
                let mut s = String::from_str("mullion.focus.index.");
                append_decimal(&mut s, i);
                s
            },
            PaneCommand::Split(d) => joined("mullion.split.", split_direction_slug(d)),
            PaneCommand::Close => String::from_str("mullion.close"),
            PaneCommand::Move(d) => joined("mullion.move.", pane_direction_slug(d)),
            PaneCommand::Swap(d) => joined("mullion.swap.", pane_direction_slug(d)),
            PaneCommand::SwapNext => String::from_str("mullion.swap.next"),
            PaneCommand::SwapPrevious => String::from_str("mullion.swap.previous"),
            PaneCommand::Resize(d) => joined("mullion.resize.", pane_direction_slug(d)),
            PaneCommand::SetParentSplitDirection(d) => joined(
                "mullion.parent-split.",
                split_direction_slug(d),
            ),
            PaneCommand::ToggleParentSplitDirection => String::from_str(
                "mullion.parent-split.toggle",
            ),
            PaneCommand::Balance => String::from_str("mullion.layout.balance"),
            PaneCommand::Rotate(PaneRotation::Forward) => String::from_str("mullion.rotate.forward"),
            PaneCommand::Rotate(PaneRotation::Backward) => String::from_str(
                "mullion.rotate.backward",
            ),
            PaneCommand::ApplyLayout(l) => joined("mullion.layout.", layout_slug(l)),
            PaneCommand::ToggleZoom => String::from_str("mullion.zoom.toggle"),
        }
    }

    /// User-facing command name.
    pub fn name(self) -> (r: String)
        requires
            command_nameable(self),
        ensures
            r@ == command_name(self),
    {
        match self {
            PaneCommand::Focus(d) => joined("Focus Pane ", pane_direction_label(d)),
            PaneCommand::FocusNext => String::from_str("Focus Next Pane"),
            PaneCommand::FocusPrevious => String::from_str("Focus Previous Pane"),
            PaneCommand::FocusFirst => String::from_str("Focus First Pane"),
            PaneCommand::FocusLast => String::from_str("Focus Last Pane"),
            PaneCommand::FocusIndex(i) => {
                let mut s = String::from_str("Focus Pane ");
                append_decimal(&mut s, i + 1);
                s
            },
            PaneCommand::Split(SplitDirection::Horizontal) => String::from_str(
                "Split Pane Left/Right",
            ),
            PaneCommand::Split(SplitDirection::Vertical) => String::from_str(
                "Split Pane Top/Bottom",
            ),
            PaneCommand::Close => String::from_str("Close Focused Pane"),
            PaneCommand::Move(d) => joined("Move Pane ", pane_direction_label(d)),
            PaneCommand::Swap(d) => joined("Swap with Pane ", pane_direction_label(d)),
            PaneCommand::SwapNext => String::from_str("Swap with Next Pane"),
            PaneCommand::SwapPrevious => String::from_str("Swap with Previous Pane"),
            PaneCommand::Resize(d) => joined("Grow Pane ", pane_direction_label(d)),
            PaneCommand::SetParentSplitDirection(SplitDirection::Horizontal) => String::from_str(
                "Set Parent Split Left/Right",
            ),
            PaneCommand::SetParentSplitDirection(SplitDirection::Vertical) => String::from_str(
                "Set Parent Split Top/Bottom",
            ),
            PaneCommand::ToggleParentSplitDirection => String::from_str(
                "Toggle Parent Split Direction",
            ),
            PaneCommand::Balance => String::from_str("Balance Pane Splits"),
            PaneCommand::Rotate(PaneRotation::Forward) => String::from_str("Rotate Panes Forward"),
            PaneCommand::Rotate(PaneRotation::Backward) => String::from_str(
                "Rotate Panes Backward",
            ),
            PaneCommand::ApplyLayout(l) => {
                let mut s = joined("Apply ", layout_label(l));
                s.append(" Layout");
                s
            },
            PaneCommand::ToggleZoom => String::from_str("Toggle Focused Pane Zoom"),
        }
    }

    /// Palette group of the command.
    pub fn group(self) -> (r: PaneCommandGroup)
        ensures
            r == command_group(self),
    {
        match self {
            PaneCommand::Focus(_) | PaneCommand::FocusNext | PaneCommand::FocusPrevious
            | PaneCommand::FocusFirst | PaneCommand::FocusLast | PaneCommand::FocusIndex(
                _,
            ) => PaneCommandGroup::Focus,
            PaneCommand::Split(_) | PaneCommand::Close => PaneCommandGroup::Pane,
            PaneCommand::Move(_) | PaneCommand::Swap(_) | PaneCommand::SwapNext
            | PaneCommand::SwapPrevious | PaneCommand::Rotate(_) => PaneCommandGroup::Arrange,
            PaneCommand::Resize(_) => PaneCommandGroup::Resize,
            PaneCommand::SetParentSplitDirection(_) | PaneCommand::ToggleParentSplitDirection
            | PaneCommand::Balance | PaneCommand::ApplyLayout(_) => PaneCommandGroup::Layout,
            PaneCommand::ToggleZoom => PaneCommandGroup::View,
        }
    }

    /// One-line description of the command.
    pub fn description(self) -> (r: &'static str)
        ensures
            r@ == command_description(self),
    {
        match self {
            PaneCommand::Focus(_) => "Focus the nearest pane in this direction",
            PaneCommand::FocusNext | PaneCommand::FocusPrevious => "Cycle focus through the pane layout",
            PaneCommand::FocusFirst | PaneCommand::FocusLast | PaneCommand::FocusIndex(_) => "Focus a pane by layout order",
            PaneCommand::Split(_) => "Create and focus a pane beside the focused pane",
            PaneCommand::Close => "Close the focused pane and focus an adjacent pane",
            PaneCommand::Move(_) => "Move the focused pane beside its directional neighbor",
            PaneCommand::Swap(_) | PaneCommand::SwapNext | PaneCommand::SwapPrevious => "Exchange panes without changing the split topology",
            PaneCommand::Resize(_) => "Grow the focused pane toward its nearest boundary",
            PaneCommand::SetParentSplitDirection(_) => "Set the focused pane's parent split axis",
            PaneCommand::ToggleParentSplitDirection => "Flip the focused pane's parent split axis",
            PaneCommand::Balance => "Reset every split ratio to an equal half",
            PaneCommand::Rotate(_) => "Rotate panes through the existing layout slots",
            PaneCommand::ApplyLayout(_) => "Rebuild the split topology using a standard layout",
            PaneCommand::ToggleZoom => "Temporarily fill Mullion with the focused pane",
        }
    }
}

impl PaneCommandGroup {
    /// Palette section label of the group.
    pub fn label(self) -> (r: &'static str)
        ensures
            r@ == group_label_spec(self),
    {
        match self {
            PaneCommandGroup::Focus => "Mullion · Focus",
            PaneCommandGroup::Pane => "Mullion · Pane",
            PaneCommandGroup::Arrange => "Mullion · Arrange",
            PaneCommandGroup::Resize => "Mullion · Resize",
            PaneCommandGroup::Layout => "Mullion · Layout",
            PaneCommandGroup::View => "Mullion · View",
        }
    }
}

pub open spec fn command_error_message(e: PaneCommandError) -> Seq<char> {
    match e {
        PaneCommandError::NoFocusedPane => "the layout has no focused pane"@,
        PaneCommandError::NoNeighbor => "there is no pane in that direction"@,
        PaneCommandError::SplitUnavailable => "no split-pane factory is configured"@,
        PaneCommandError::SplitRefused => "the split-pane factory refused the split"@,
        PaneCommandError::CannotCloseLastPane => "the last pane cannot be closed"@,
        PaneCommandError::InvalidPaneIndex => "there is no pane at that index"@,
        PaneCommandError::NotApplicable => "the command does not apply to this layout"@,
    }
}

impl PaneCommandError {
    /// Human-readable explanation of the error.
    pub fn message(self) -> (r: &'static str)
        ensures
            r@ == command_error_message(self),
    {
        match self {
            PaneCommandError::NoFocusedPane => "the layout has no focused pane",
            PaneCommandError::NoNeighbor => "there is no pane in that direction",
            PaneCommandError::SplitUnavailable => "no split-pane factory is configured",
            PaneCommandError::SplitRefused => "the split-pane factory refused the split",
            PaneCommandError::CannotCloseLastPane => "the last pane cannot be closed",
            PaneCommandError::InvalidPaneIndex => "there is no pane at that index",
            PaneCommandError::NotApplicable => "the command does not apply to this layout",
        }
    }
}

} // verus!
