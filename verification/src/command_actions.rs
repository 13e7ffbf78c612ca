//! Actions that dispatch pane commands, and the portable part of compiling a
//! keymap into key bindings.
//!
//! Persisted references and palette entries use the command's registry id;
//! action names are an integration detail of the view layer.

use vstd::prelude::*;

use crate::command::{command_id, PaneCommand};
use crate::ids::{PaneDirection, PaneLayout, PaneRotation, SplitDirection};
use crate::keybindings::{gpui_sequence, MullionKeymap};

verus! {

/// The key context installed around pane content.
pub const MULLION_KEY_CONTEXT: &'static str = "Mullion";

/// Parameterized action for the dynamic, zero-based `FocusIndex` command.
#[derive(Clone, Copy, Debug, PartialEq, Eq, Hash, Structural)]
pub struct FocusPane {
    /// Zero-based target in depth-first pane layout order.
    pub index: usize,
}

/// A GPUI action registered in the `mullion` namespace, one per static
/// command plus the parameterized [`FocusPane`].
#[derive(Clone, Copy, Debug, PartialEq, Eq, Hash, Structural)]
pub enum MullionAction {
    FocusLeft,
    FocusRight,
    FocusUp,
    FocusDown,
    FocusNext,
    FocusPrevious,
    FocusFirst,
    FocusLast,
    FocusPane(FocusPane),
    SplitPaneHorizontal,
    SplitPaneVertical,
    ClosePane,
    MovePaneLeft,
    MovePaneRight,
    MovePaneUp,
    MovePaneDown,
    SwapPaneLeft,
    SwapPaneRight,
    SwapPaneUp,
    SwapPaneDown,
    SwapPaneNext,
    SwapPanePrevious,
    ResizePaneLeft,
    ResizePaneRight,
    ResizePaneUp,
    ResizePaneDown,
    SetParentSplitHorizontal,
    SetParentSplitVertical,
    ToggleParentSplitDirection,
    BalancePanes,
    RotatePanesForward,
    RotatePanesBackward,
    ApplyEvenHorizontalLayout,
    ApplyEvenVerticalLayout,
    ApplyMainHorizontalLayout,
    ApplyMainVerticalLayout,
    ApplyTiledLayout,
    ToggleZoom,
}

/// The action that dispatches a command.
pub open spec fn action_of(c: PaneCommand) -> MullionAction {
    match c {
        PaneCommand::Focus(PaneDirection::Left) => MullionAction::FocusLeft,
        PaneCommand::Focus(PaneDirection::Right) => MullionAction::FocusRight,
        PaneCommand::Focus(PaneDirection::Up) => MullionAction::FocusUp,
        PaneCommand::Focus(PaneDirection::Down) => MullionAction::FocusDown,
        PaneCommand::FocusNext => MullionAction::FocusNext,
        PaneCommand::FocusPrevious => MullionAction::FocusPrevious,
        PaneCommand::FocusFirst => MullionAction::FocusFirst,
        PaneCommand::FocusLast => MullionAction::FocusLast,
        PaneCommand::FocusIndex(index) => MullionAction::FocusPane(FocusPane { index }),
        PaneCommand::Split(SplitDirection::Horizontal) => MullionAction::SplitPaneHorizontal,
        PaneCommand::Split(SplitDirection::Vertical) => MullionAction::SplitPaneVertical,
        PaneCommand::Close => MullionAction::ClosePane,
        PaneCommand::Move(PaneDirection::Left) => MullionAction::MovePaneLeft,
        PaneCommand::Move(PaneDirection::Right) => MullionAction::MovePaneRight,
        PaneCommand::Move(PaneDirection::Up) => MullionAction::MovePaneUp,
        PaneCommand::Move(PaneDirection::Down) => MullionAction::MovePaneDown,
        PaneCommand::Swap(PaneDirection::Left) => MullionAction::SwapPaneLeft,
        PaneCommand::Swap(PaneDirection::Right) => MullionAction::SwapPaneRight,
        PaneCommand::Swap(PaneDirection::Up) => MullionAction::SwapPaneUp,
        PaneCommand::Swap(PaneDirection::Down) => MullionAction::SwapPaneDown,
        PaneCommand::SwapNext => MullionAction::SwapPaneNext,
        PaneCommand::SwapPrevious => MullionAction::SwapPanePrevious,
        PaneCommand::Resize(PaneDirection::Left) => MullionAction::ResizePaneLeft,
        PaneCommand::Resize(PaneDirection::Right) => MullionAction::ResizePaneRight,
        PaneCommand::Resize(PaneDirection::Up) => MullionAction::ResizePaneUp,
        PaneCommand::Resize(PaneDirection::Down) => MullionAction::ResizePaneDown,
        PaneCommand::SetParentSplitDirection(SplitDirection::Horizontal) => MullionAction::SetParentSplitHorizontal,
        PaneCommand::SetParentSplitDirection(SplitDirection::Vertical) => MullionAction::SetParentSplitVertical,
        PaneCommand::ToggleParentSplitDirection => MullionAction::ToggleParentSplitDirection,
        PaneCommand::Balance => MullionAction::BalancePanes,
        PaneCommand::Rotate(PaneRotation::Forward) => MullionAction::RotatePanesForward,
        PaneCommand::Rotate(PaneRotation::Backward) => MullionAction::RotatePanesBackward,
        PaneCommand::ApplyLayout(PaneLayout::EvenHorizontal) => MullionAction::ApplyEvenHorizontalLayout,
        PaneCommand::ApplyLayout(PaneLayout::EvenVertical) => MullionAction::ApplyEvenVerticalLayout,
        PaneCommand::ApplyLayout(PaneLayout::MainHorizontal) => MullionAction::ApplyMainHorizontalLayout,
        PaneCommand::ApplyLayout(PaneLayout::MainVertical) => MullionAction::ApplyMainVerticalLayout,
        PaneCommand::ApplyLayout(PaneLayout::Tiled) => MullionAction::ApplyTiledLayout,
        PaneCommand::ToggleZoom => MullionAction::ToggleZoom,
    }
}

/// The command an action dispatches.
pub open spec fn command_of(a: MullionAction) -> PaneCommand {
    match a {
        MullionAction::FocusLeft => PaneCommand::Focus(PaneDirection::Left),
        MullionAction::FocusRight => PaneCommand::Focus(PaneDirection::Right),
        MullionAction::FocusUp => PaneCommand::Focus(PaneDirection::Up),
        MullionAction::FocusDown => PaneCommand::Focus(PaneDirection::Down),
        MullionAction::FocusNext => PaneCommand::FocusNext,
        MullionAction::FocusPrevious => PaneCommand::FocusPrevious,
        MullionAction::FocusFirst => PaneCommand::FocusFirst,
        MullionAction::FocusLast => PaneCommand::FocusLast,
        MullionAction::FocusPane(f) => PaneCommand::FocusIndex(f.index),
        MullionAction::SplitPaneHorizontal => PaneCommand::Split(SplitDirection::Horizontal),
        MullionAction::SplitPaneVertical => PaneCommand::Split(SplitDirection::Vertical),
        MullionAction::ClosePane => PaneCommand::Close,
        MullionAction::MovePaneLeft => PaneCommand::Move(PaneDirection::Left),
        MullionAction::MovePaneRight => PaneCommand::Move(PaneDirection::Right),
        MullionAction::MovePaneUp => PaneCommand::Move(PaneDirection::Up),
        MullionAction::MovePaneDown => PaneCommand::Move(PaneDirection::Down),
        MullionAction::SwapPaneLeft => PaneCommand::Swap(PaneDirection::Left),
        MullionAction::SwapPaneRight => PaneCommand::Swap(PaneDirection::Right),
        MullionAction::SwapPaneUp => PaneCommand::Swap(PaneDirection::Up),
        MullionAction::SwapPaneDown => PaneCommand::Swap(PaneDirection::Down),
        MullionAction::SwapPaneNext => PaneCommand::SwapNext,
        MullionAction::SwapPanePrevious => PaneCommand::SwapPrevious,
        MullionAction::ResizePaneLeft => PaneCommand::Resize(PaneDirection::Left),
        MullionAction::ResizePaneRight => PaneCommand::Resize(PaneDirection::Right),
        MullionAction::ResizePaneUp => PaneCommand::Resize(PaneDirection::Up),
        MullionAction::ResizePaneDown => PaneCommand::Resize(PaneDirection::Down),
        MullionAction::SetParentSplitHorizontal => PaneCommand::SetParentSplitDirection(SplitDirection::Horizontal),
        MullionAction::SetParentSplitVertical => PaneCommand::SetParentSplitDirection(SplitDirection::Vertical),
        MullionAction::ToggleParentSplitDirection => PaneCommand::ToggleParentSplitDirection,
        MullionAction::BalancePanes => PaneCommand::Balance,
        MullionAction::RotatePanesForward => PaneCommand::Rotate(PaneRotation::Forward),
        MullionAction::RotatePanesBackward => PaneCommand::Rotate(PaneRotation::Backward),
        MullionAction::ApplyEvenHorizontalLayout => PaneCommand::ApplyLayout(PaneLayout::EvenHorizontal),
        MullionAction::ApplyEvenVerticalLayout => PaneCommand::ApplyLayout(PaneLayout::EvenVertical),
        MullionAction::ApplyMainHorizontalLayout => PaneCommand::ApplyLayout(PaneLayout::MainHorizontal),
        MullionAction::ApplyMainVerticalLayout => PaneCommand::ApplyLayout(PaneLayout::MainVertical),
        MullionAction::ApplyTiledLayout => PaneCommand::ApplyLayout(PaneLayout::Tiled),
        MullionAction::ToggleZoom => PaneCommand::ToggleZoom,
    }
}

/// The registered action name, `mullion::` followed by the action type.
pub open spec fn action_name(a: MullionAction) -> Seq<char> {
    match a {
        MullionAction::FocusLeft => "mullion::FocusLeft"@,
        MullionAction::FocusRight => "mullion::FocusRight"@,
        MullionAction::FocusUp => "mullion::FocusUp"@,
        MullionAction::FocusDown => "mullion::FocusDown"@,
        MullionAction::FocusNext => "mullion::FocusNext"@,
        MullionAction::FocusPrevious => "mullion::FocusPrevious"@,
        MullionAction::FocusFirst => "mullion::FocusFirst"@,
        MullionAction::FocusLast => "mullion::FocusLast"@,
        MullionAction::FocusPane(_) => "mullion::FocusPane"@,
        MullionAction::SplitPaneHorizontal => "mullion::SplitPaneHorizontal"@,
        MullionAction::SplitPaneVertical => "mullion::SplitPaneVertical"@,
        MullionAction::ClosePane => "mullion::ClosePane"@,
        MullionAction::MovePaneLeft => "mullion::MovePaneLeft"@,
        MullionAction::MovePaneRight => "mullion::MovePaneRight"@,
        MullionAction::MovePaneUp => "mullion::MovePaneUp"@,
        MullionAction::MovePaneDown => "mullion::MovePaneDown"@,
        MullionAction::SwapPaneLeft => "mullion::SwapPaneLeft"@,
        MullionAction::SwapPaneRight => "mullion::SwapPaneRight"@,
        MullionAction::SwapPaneUp => "mullion::SwapPaneUp"@,
        MullionAction::SwapPaneDown => "mullion::SwapPaneDown"@,
        MullionAction::SwapPaneNext => "mullion::SwapPaneNext"@,
        MullionAction::SwapPanePrevious => "mullion::SwapPanePrevious"@,
        MullionAction::ResizePaneLeft => "mullion::ResizePaneLeft"@,
        MullionAction::ResizePaneRight => "mullion::ResizePaneRight"@,
        MullionAction::ResizePaneUp => "mullion::ResizePaneUp"@,
        MullionAction::ResizePaneDown => "mullion::ResizePaneDown"@,
        MullionAction::SetParentSplitHorizontal => "mullion::SetParentSplitHorizontal"@,
        MullionAction::SetParentSplitVertical => "mullion::SetParentSplitVertical"@,
        MullionAction::ToggleParentSplitDirection => "mullion::ToggleParentSplitDirection"@,
        MullionAction::BalancePanes => "mullion::BalancePanes"@,
        MullionAction::RotatePanesForward => "mullion::RotatePanesForward"@,
        MullionAction::RotatePanesBackward => "mullion::RotatePanesBackward"@,
        MullionAction::ApplyEvenHorizontalLayout => "mullion::ApplyEvenHorizontalLayout"@,
        MullionAction::ApplyEvenVerticalLayout => "mullion::ApplyEvenVerticalLayout"@,
        MullionAction::ApplyMainHorizontalLayout => "mullion::ApplyMainHorizontalLayout"@,
        MullionAction::ApplyMainVerticalLayout => "mullion::ApplyMainVerticalLayout"@,
        MullionAction::ApplyTiledLayout => "mullion::ApplyTiledLayout"@,
        MullionAction::ToggleZoom => "mullion::ToggleZoom"@,
    }
}

/// Converts a portable pane command into the action dispatched by views.
///
/// Static commands map to unit actions; `FocusIndex` maps to a [`FocusPane`]
/// carrying its index.
pub fn action_for_command(command: PaneCommand) -> (r: MullionAction)
    ensures
        r == action_of(command),
{
    match command {
        PaneCommand::Focus(PaneDirection::Left) => MullionAction::FocusLeft,
        PaneCommand::Focus(PaneDirection::Right) => MullionAction::FocusRight,
        PaneCommand::Focus(PaneDirection::Up) => MullionAction::FocusUp,
        PaneCommand::Focus(PaneDirection::Down) => MullionAction::FocusDown,
        PaneCommand::FocusNext => MullionAction::FocusNext,
        PaneCommand::FocusPrevious => MullionAction::FocusPrevious,
        PaneCommand::FocusFirst => MullionAction::FocusFirst,
        PaneCommand::FocusLast => MullionAction::FocusLast,
        PaneCommand::FocusIndex(index) => MullionAction::FocusPane(FocusPane { index }),
        PaneCommand::Split(SplitDirection::Horizontal) => MullionAction::SplitPaneHorizontal,
        PaneCommand::Split(SplitDirection::Vertical) => MullionAction::SplitPaneVertical,
        PaneCommand::Close => MullionAction::ClosePane,
        PaneCommand::Move(PaneDirection::Left) => MullionAction::MovePaneLeft,
        PaneCommand::Move(PaneDirection::Right) => MullionAction::MovePaneRight,
        PaneCommand::Move(PaneDirection::Up) => MullionAction::MovePaneUp,
        PaneCommand::Move(PaneDirection::Down) => MullionAction::MovePaneDown,
        PaneCommand::Swap(PaneDirection::Left) => MullionAction::SwapPaneLeft,
        PaneCommand::Swap(PaneDirection::Right) => MullionAction::SwapPaneRight,
        PaneCommand::Swap(PaneDirection::Up) => MullionAction::SwapPaneUp,
        PaneCommand::Swap(PaneDirection::Down) => MullionAction::SwapPaneDown,
        PaneCommand::SwapNext => MullionAction::SwapPaneNext,
        PaneCommand::SwapPrevious => MullionAction::SwapPanePrevious,
        PaneCommand::Resize(PaneDirection::Left) => MullionAction::ResizePaneLeft,
        PaneCommand::Resize(PaneDirection::Right) => MullionAction::ResizePaneRight,
        PaneCommand::Resize(PaneDirection::Up) => MullionAction::ResizePaneUp,
        PaneCommand::Resize(PaneDirection::Down) => MullionAction::ResizePaneDown,
        PaneCommand::SetParentSplitDirection(SplitDirection::Horizontal) => MullionAction::SetParentSplitHorizontal,
        PaneCommand::SetParentSplitDirection(SplitDirection::Vertical) => MullionAction::SetParentSplitVertical,
        PaneCommand::ToggleParentSplitDirection => MullionAction::ToggleParentSplitDirection,
        PaneCommand::Balance => MullionAction::BalancePanes,
        PaneCommand::Rotate(PaneRotation::Forward) => MullionAction::RotatePanesForward,
        PaneCommand::Rotate(PaneRotation::Backward) => MullionAction::RotatePanesBackward,
        PaneCommand::ApplyLayout(PaneLayout::EvenHorizontal) => MullionAction::ApplyEvenHorizontalLayout,
        PaneCommand::ApplyLayout(PaneLayout::EvenVertical) => MullionAction::ApplyEvenVerticalLayout,
        PaneCommand::ApplyLayout(PaneLayout::MainHorizontal) => MullionAction::ApplyMainHorizontalLayout,
        PaneCommand::ApplyLayout(PaneLayout::MainVertical) => MullionAction::ApplyMainVerticalLayout,
        PaneCommand::ApplyLayout(PaneLayout::Tiled) => MullionAction::ApplyTiledLayout,
        PaneCommand::ToggleZoom => MullionAction::ToggleZoom,
    }
}

/// Recovers the portable command represented by a Mullion action.
pub fn command_for_action(action: MullionAction) -> (r: PaneCommand)
    ensures
        r == command_of(action),
{
    match action {
        MullionAction::FocusLeft => PaneCommand::Focus(PaneDirection::Left),
        MullionAction::FocusRight => PaneCommand::Focus(PaneDirection::Right),
        MullionAction::FocusUp => PaneCommand::Focus(PaneDirection::Up),
        MullionAction::FocusDown => PaneCommand::Focus(PaneDirection::Down),
        MullionAction::FocusNext => PaneCommand::FocusNext,
        MullionAction::FocusPrevious => PaneCommand::FocusPrevious,
        MullionAction::FocusFirst => PaneCommand::FocusFirst,
        MullionAction::FocusLast => PaneCommand::FocusLast,
        MullionAction::FocusPane(f) => PaneCommand::FocusIndex(f.index),
        MullionAction::SplitPaneHorizontal => PaneCommand::Split(SplitDirection::Horizontal),
        MullionAction::SplitPaneVertical => PaneCommand::Split(SplitDirection::Vertical),
        MullionAction::ClosePane => PaneCommand::Close,
        MullionAction::MovePaneLeft => PaneCommand::Move(PaneDirection::Left),
        MullionAction::MovePaneRight => PaneCommand::Move(PaneDirection::Right),
        MullionAction::MovePaneUp => PaneCommand::Move(PaneDirection::Up),
        MullionAction::MovePaneDown => PaneCommand::Move(PaneDirection::Down),
        MullionAction::SwapPaneLeft => PaneCommand::Swap(PaneDirection::Left),
        MullionAction::SwapPaneRight => PaneCommand::Swap(PaneDirection::Right),
        MullionAction::SwapPaneUp => PaneCommand::Swap(PaneDirection::Up),
        MullionAction::SwapPaneDown => PaneCommand::Swap(PaneDirection::Down),
        MullionAction::SwapPaneNext => PaneCommand::SwapNext,
        MullionAction::SwapPanePrevious => PaneCommand::SwapPrevious,
        MullionAction::ResizePaneLeft => PaneCommand::Resize(PaneDirection::Left),
        MullionAction::ResizePaneRight => PaneCommand::Resize(PaneDirection::Right),
        MullionAction::ResizePaneUp => PaneCommand::Resize(PaneDirection::Up),
        MullionAction::ResizePaneDown => PaneCommand::Resize(PaneDirection::Down),
        MullionAction::SetParentSplitHorizontal => PaneCommand::SetParentSplitDirection(SplitDirection::Horizontal),
        MullionAction::SetParentSplitVertical => PaneCommand::SetParentSplitDirection(SplitDirection::Vertical),
        MullionAction::ToggleParentSplitDirection => PaneCommand::ToggleParentSplitDirection,
        MullionAction::BalancePanes => PaneCommand::Balance,
        MullionAction::RotatePanesForward => PaneCommand::Rotate(PaneRotation::Forward),
        MullionAction::RotatePanesBackward => PaneCommand::Rotate(PaneRotation::Backward),
        MullionAction::ApplyEvenHorizontalLayout => PaneCommand::ApplyLayout(PaneLayout::EvenHorizontal),
        MullionAction::ApplyEvenVerticalLayout => PaneCommand::ApplyLayout(PaneLayout::EvenVertical),
        MullionAction::ApplyMainHorizontalLayout => PaneCommand::ApplyLayout(PaneLayout::MainHorizontal),
        MullionAction::ApplyMainVerticalLayout => PaneCommand::ApplyLayout(PaneLayout::MainVertical),
        MullionAction::ApplyTiledLayout => PaneCommand::ApplyLayout(PaneLayout::Tiled),
        MullionAction::ToggleZoom => PaneCommand::ToggleZoom,
    }
}

impl MullionAction {
    /// The name under which the action is registered.
    pub fn name(self) -> (r: &'static str)
        ensures
            r@ == action_name(self),
    {
        match self {
            MullionAction::FocusLeft => "mullion::FocusLeft",
            MullionAction::FocusRight => "mullion::FocusRight",
            MullionAction::FocusUp => "mullion::FocusUp",
            MullionAction::FocusDown => "mullion::FocusDown",
            MullionAction::FocusNext => "mullion::FocusNext",
            MullionAction::FocusPrevious => "mullion::FocusPrevious",
            MullionAction::FocusFirst => "mullion::FocusFirst",
            MullionAction::FocusLast => "mullion::FocusLast",
            MullionAction::FocusPane(_) => "mullion::FocusPane",
            MullionAction::SplitPaneHorizontal => "mullion::SplitPaneHorizontal",
            MullionAction::SplitPaneVertical => "mullion::SplitPaneVertical",
            MullionAction::ClosePane => "mullion::ClosePane",
            MullionAction::MovePaneLeft => "mullion::MovePaneLeft",
            MullionAction::MovePaneRight => "mullion::MovePaneRight",
            MullionAction::MovePaneUp => "mullion::MovePaneUp",
            MullionAction::MovePaneDown => "mullion::MovePaneDown",
            MullionAction::SwapPaneLeft => "mullion::SwapPaneLeft",
            MullionAction::SwapPaneRight => "mullion::SwapPaneRight",
            MullionAction::SwapPaneUp => "mullion::SwapPaneUp",
            MullionAction::SwapPaneDown => "mullion::SwapPaneDown",
            MullionAction::SwapPaneNext => "mullion::SwapPaneNext",
            MullionAction::SwapPanePrevious => "mullion::SwapPanePrevious",
            MullionAction::ResizePaneLeft => "mullion::ResizePaneLeft",
            MullionAction::ResizePaneRight => "mullion::ResizePaneRight",
            MullionAction::ResizePaneUp => "mullion::ResizePaneUp",
            MullionAction::ResizePaneDown => "mullion::ResizePaneDown",
            MullionAction::SetParentSplitHorizontal => "mullion::SetParentSplitHorizontal",
            MullionAction::SetParentSplitVertical => "mullion::SetParentSplitVertical",
            MullionAction::ToggleParentSplitDirection => "mullion::ToggleParentSplitDirection",
            MullionAction::BalancePanes => "mullion::BalancePanes",
            MullionAction::RotatePanesForward => "mullion::RotatePanesForward",
            MullionAction::RotatePanesBackward => "mullion::RotatePanesBackward",
            MullionAction::ApplyEvenHorizontalLayout => "mullion::ApplyEvenHorizontalLayout",
            MullionAction::ApplyEvenVerticalLayout => "mullion::ApplyEvenVerticalLayout",
            MullionAction::ApplyMainHorizontalLayout => "mullion::ApplyMainHorizontalLayout",
            MullionAction::ApplyMainVerticalLayout => "mullion::ApplyMainVerticalLayout",
            MullionAction::ApplyTiledLayout => "mullion::ApplyTiledLayout",
            MullionAction::ToggleZoom => "mullion::ToggleZoom",
        }
    }
}

/// Every command is recovered from its action, and every action from its
/// command: the two mappings are inverse bijections.
pub proof fn lemma_action_round_trip(c: PaneCommand, a: MullionAction)
    ensures
        command_of(action_of(c)) == c,
        action_of(command_of(a)) == a,
        action_of(c) == a <==> command_of(a) == c,
{
}

/// Distinct commands dispatch distinct actions.
pub proof fn lemma_actions_distinct(c: PaneCommand, d: PaneCommand)
    ensures
        c != d ==> action_of(c) != action_of(d),
{
    lemma_action_round_trip(c, action_of(c));
    lemma_action_round_trip(d, action_of(d));
}

/// Every action type is registered under its own name: two actions share a
/// name only when they are the same action or both carry a pane index.
pub proof fn lemma_action_names_distinct(a: MullionAction, b: MullionAction)
    ensures
        action_name(a) == action_name(b) ==> a == b || (a is FocusPane && b is FocusPane),
{
    reveal_strlit("mullion::ApplyEvenHorizontalLayout");
    reveal_strlit("mullion::ApplyEvenVerticalLayout");
    reveal_strlit("mullion::ApplyMainHorizontalLayout");
    reveal_strlit("mullion::ApplyMainVerticalLayout");
    reveal_strlit("mullion::ApplyTiledLayout");
    reveal_strlit("mullion::BalancePanes");
    reveal_strlit("mullion::ClosePane");
    reveal_strlit("mullion::FocusDown");
    reveal_strlit("mullion::FocusFirst");
    reveal_strlit("mullion::FocusLast");
    reveal_strlit("mullion::FocusLeft");
    reveal_strlit("mullion::FocusNext");
    reveal_strlit("mullion::FocusPane");
    reveal_strlit("mullion::FocusPrevious");
    reveal_strlit("mullion::FocusRight");
    reveal_strlit("mullion::FocusUp");
    reveal_strlit("mullion::MovePaneDown");
    reveal_strlit("mullion::MovePaneLeft");
    reveal_strlit("mullion::MovePaneRight");
    reveal_strlit("mullion::MovePaneUp");
    reveal_strlit("mullion::ResizePaneDown");
    reveal_strlit("mullion::ResizePaneLeft");
    reveal_strlit("mullion::ResizePaneRight");
    reveal_strlit("mullion::ResizePaneUp");
    reveal_strlit("mullion::RotatePanesBackward");
    reveal_strlit("mullion::RotatePanesForward");
    reveal_strlit("mullion::SetParentSplitHorizontal");
    reveal_strlit("mullion::SetParentSplitVertical");
    reveal_strlit("mullion::SplitPaneHorizontal");
    reveal_strlit("mullion::SplitPaneVertical");
    reveal_strlit("mullion::SwapPaneDown");
    reveal_strlit("mullion::SwapPaneLeft");
    reveal_strlit("mullion::SwapPaneNext");
    reveal_strlit("mullion::SwapPanePrevious");
    reveal_strlit("mullion::SwapPaneRight");
    reveal_strlit("mullion::SwapPaneUp");
    reveal_strlit("mullion::ToggleParentSplitDirection");
    reveal_strlit("mullion::ToggleZoom");
    if action_name(a) == action_name(b) {
        assert(action_name(a).len() == action_name(b).len());
        assert(action_name(a)[9] == action_name(b)[9]);
        assert(action_name(a)[10] == action_name(b)[10]);
        assert(action_name(a)[11] == action_name(b)[11]);
        assert(action_name(a)[12] == action_name(b)[12]);
        assert(action_name(a)[13] == action_name(b)[13]);
        assert(action_name(a)[14] == action_name(b)[14]);
        assert(action_name(a)[15] == action_name(b)[15]);
        assert(action_name(a)[16] == action_name(b)[16]);
        assert(action_name(a)[17] == action_name(b)[17]);
        assert(action_name(a)[18] == action_name(b)[18]);
        assert(action_name(a)[19] == action_name(b)[19]);
    }
}

/// The registry id of the command an action dispatches, spelled out;
/// `FocusPane`'s id depends on its index and is left empty here.
pub open spec fn action_registry_id(a: MullionAction) -> Seq<char> {
    match a {
        MullionAction::FocusLeft => "mullion.focus.left"@,
        MullionAction::FocusRight => "mullion.focus.right"@,
        MullionAction::FocusUp => "mullion.focus.up"@,
        MullionAction::FocusDown => "mullion.focus.down"@,
        MullionAction::FocusNext => "mullion.focus.next"@,
        MullionAction::FocusPrevious => "mullion.focus.previous"@,
        MullionAction::FocusFirst => "mullion.focus.first"@,
        MullionAction::FocusLast => "mullion.focus.last"@,
        MullionAction::SplitPaneHorizontal => "mullion.split.horizontal"@,
        MullionAction::SplitPaneVertical => "mullion.split.vertical"@,
        MullionAction::ClosePane => "mullion.close"@,
        MullionAction::MovePaneLeft => "mullion.move.left"@,
        MullionAction::MovePaneRight => "mullion.move.right"@,
        MullionAction::MovePaneUp => "mullion.move.up"@,
        MullionAction::MovePaneDown => "mullion.move.down"@,
        MullionAction::SwapPaneLeft => "mullion.swap.left"@,
        MullionAction::SwapPaneRight => "mullion.swap.right"@,
        MullionAction::SwapPaneUp => "mullion.swap.up"@,
        MullionAction::SwapPaneDown => "mullion.swap.down"@,
        MullionAction::SwapPaneNext => "mullion.swap.next"@,
        MullionAction::SwapPanePrevious => "mullion.swap.previous"@,
        MullionAction::ResizePaneLeft => "mullion.resize.left"@,
        MullionAction::ResizePaneRight => "mullion.resize.right"@,
        MullionAction::ResizePaneUp => "mullion.resize.up"@,
        MullionAction::ResizePaneDown => "mullion.resize.down"@,
        MullionAction::SetParentSplitHorizontal => "mullion.parent-split.horizontal"@,
        MullionAction::SetParentSplitVertical => "mullion.parent-split.vertical"@,
        MullionAction::ToggleParentSplitDirection => "mullion.parent-split.toggle"@,
        MullionAction::BalancePanes => "mullion.layout.balance"@,
        MullionAction::RotatePanesForward => "mullion.rotate.forward"@,
        MullionAction::RotatePanesBackward => "mullion.rotate.backward"@,
        MullionAction::ApplyEvenHorizontalLayout => "mullion.layout.even-horizontal"@,
        MullionAction::ApplyEvenVerticalLayout => "mullion.layout.even-vertical"@,
        MullionAction::ApplyMainHorizontalLayout => "mullion.layout.main-horizontal"@,
        MullionAction::ApplyMainVerticalLayout => "mullion.layout.main-vertical"@,
        MullionAction::ApplyTiledLayout => "mullion.layout.tiled"@,
        MullionAction::ToggleZoom => "mullion.zoom.toggle"@,
        MullionAction::FocusPane(_) => Seq::empty(),
    }
}

proof fn lemma_registry_id_spelled(c: PaneCommand)
    requires
        !(c is FocusIndex),
    ensures
        command_id(c) == action_registry_id(action_of(c)),
{
    reveal_strlit("left");
    reveal_strlit("right");
    reveal_strlit("up");
    reveal_strlit("down");
    reveal_strlit("horizontal");
    reveal_strlit("vertical");
    reveal_strlit("even-horizontal");
    reveal_strlit("even-vertical");
    reveal_strlit("main-horizontal");
    reveal_strlit("main-vertical");
    reveal_strlit("tiled");
    reveal_strlit("mullion.focus.");
    reveal_strlit("mullion.focus.next");
    reveal_strlit("mullion.focus.previous");
    reveal_strlit("mullion.focus.first");
    reveal_strlit("mullion.focus.last");
    reveal_strlit("mullion.focus.index.");
    reveal_strlit("mullion.split.");
    reveal_strlit("mullion.close");
    reveal_strlit("mullion.move.");
    reveal_strlit("mullion.swap.");
    reveal_strlit("mullion.swap.next");
    reveal_strlit("mullion.swap.previous");
    reveal_strlit("mullion.resize.");
    reveal_strlit("mullion.parent-split.");
    reveal_strlit("mullion.parent-split.toggle");
    reveal_strlit("mullion.layout.balance");
    reveal_strlit("mullion.rotate.forward");
    reveal_strlit("mullion.rotate.backward");
    reveal_strlit("mullion.layout.");
    reveal_strlit("mullion.zoom.toggle");
    match c {
        PaneCommand::Focus(PaneDirection::Left) => {
            reveal_strlit("mullion.focus.left");
            assert(action_registry_id(action_of(c)) == "mullion.focus.left"@);
            assert(command_id(c) =~= "mullion.focus.left"@);
        },
        PaneCommand::Focus(PaneDirection::Right) => {
            reveal_strlit("mullion.focus.right");
            assert(action_registry_id(action_of(c)) == "mullion.focus.right"@);
            assert(command_id(c) =~= "mullion.focus.right"@);
        },
        PaneCommand::Focus(PaneDirection::Up) => {
            reveal_strlit("mullion.focus.up");
            assert(action_registry_id(action_of(c)) == "mullion.focus.up"@);
            assert(command_id(c) =~= "mullion.focus.up"@);
        },
        PaneCommand::Focus(PaneDirection::Down) => {
            reveal_strlit("mullion.focus.down");
            assert(action_registry_id(action_of(c)) == "mullion.focus.down"@);
            assert(command_id(c) =~= "mullion.focus.down"@);
        },
        PaneCommand::FocusNext => {
            reveal_strlit("mullion.focus.next");
            assert(action_registry_id(action_of(c)) == "mullion.focus.next"@);
            assert(command_id(c) =~= "mullion.focus.next"@);
        },
        PaneCommand::FocusPrevious => {
            reveal_strlit("mullion.focus.previous");
            assert(action_registry_id(action_of(c)) == "mullion.focus.previous"@);
            assert(command_id(c) =~= "mullion.focus.previous"@);
        },
        PaneCommand::FocusFirst => {
            reveal_strlit("mullion.focus.first");
            assert(action_registry_id(action_of(c)) == "mullion.focus.first"@);
            assert(command_id(c) =~= "mullion.focus.first"@);
        },
        PaneCommand::FocusLast => {
            reveal_strlit("mullion.focus.last");
            assert(action_registry_id(action_of(c)) == "mullion.focus.last"@);
            assert(command_id(c) =~= "mullion.focus.last"@);
        },
        PaneCommand::Split(SplitDirection::Horizontal) => {
            reveal_strlit("mullion.split.horizontal");
            assert(action_registry_id(action_of(c)) == "mullion.split.horizontal"@);
            assert(command_id(c) =~= "mullion.split.horizontal"@);
        },
        PaneCommand::Split(SplitDirection::Vertical) => {
            reveal_strlit("mullion.split.vertical");
            assert(action_registry_id(action_of(c)) == "mullion.split.vertical"@);
            assert(command_id(c) =~= "mullion.split.vertical"@);
        },
        PaneCommand::Close => {
            reveal_strlit("mullion.close");
            assert(action_registry_id(action_of(c)) == "mullion.close"@);
            assert(command_id(c) =~= "mullion.close"@);
        },
        PaneCommand::Move(PaneDirection::Left) => {
            reveal_strlit("mullion.move.left");
            assert(action_registry_id(action_of(c)) == "mullion.move.left"@);
            assert(command_id(c) =~= "mullion.move.left"@);
        },
        PaneCommand::Move(PaneDirection::Right) => {
            reveal_strlit("mullion.move.right");
            assert(action_registry_id(action_of(c)) == "mullion.move.right"@);
            assert(command_id(c) =~= "mullion.move.right"@);
        },
        PaneCommand::Move(PaneDirection::Up) => {
            reveal_strlit("mullion.move.up");
            assert(action_registry_id(action_of(c)) == "mullion.move.up"@);
            assert(command_id(c) =~= "mullion.move.up"@);
        },
        PaneCommand::Move(PaneDirection::Down) => {
            reveal_strlit("mullion.move.down");
            assert(action_registry_id(action_of(c)) == "mullion.move.down"@);
            assert(command_id(c) =~= "mullion.move.down"@);
        },
        PaneCommand::Swap(PaneDirection::Left) => {
            reveal_strlit("mullion.swap.left");
            assert(action_registry_id(action_of(c)) == "mullion.swap.left"@);
            assert(command_id(c) =~= "mullion.swap.left"@);
        },
        PaneCommand::Swap(PaneDirection::Right) => {
            reveal_strlit("mullion.swap.right");
            assert(action_registry_id(action_of(c)) == "mullion.swap.right"@);
            assert(command_id(c) =~= "mullion.swap.right"@);
        },
        PaneCommand::Swap(PaneDirection::Up) => {
            reveal_strlit("mullion.swap.up");
            assert(action_registry_id(action_of(c)) == "mullion.swap.up"@);
            assert(command_id(c) =~= "mullion.swap.up"@);
        },
        PaneCommand::Swap(PaneDirection::Down) => {
            reveal_strlit("mullion.swap.down");
            assert(action_registry_id(action_of(c)) == "mullion.swap.down"@);
            assert(command_id(c) =~= "mullion.swap.down"@);
        },
        PaneCommand::SwapNext => {
            reveal_strlit("mullion.swap.next");
            assert(action_registry_id(action_of(c)) == "mullion.swap.next"@);
            assert(command_id(c) =~= "mullion.swap.next"@);
        },
        PaneCommand::SwapPrevious => {
            reveal_strlit("mullion.swap.previous");
            assert(action_registry_id(action_of(c)) == "mullion.swap.previous"@);
            assert(command_id(c) =~= "mullion.swap.previous"@);
        },
        PaneCommand::Resize(PaneDirection::Left) => {
            reveal_strlit("mullion.resize.left");
            assert(action_registry_id(action_of(c)) == "mullion.resize.left"@);
            assert(command_id(c) =~= "mullion.resize.left"@);
        },
        PaneCommand::Resize(PaneDirection::Right) => {
            reveal_strlit("mullion.resize.right");
            assert(action_registry_id(action_of(c)) == "mullion.resize.right"@);
            assert(command_id(c) =~= "mullion.resize.right"@);
        },
        PaneCommand::Resize(PaneDirection::Up) => {
            reveal_strlit("mullion.resize.up");
            assert(action_registry_id(action_of(c)) == "mullion.resize.up"@);
            assert(command_id(c) =~= "mullion.resize.up"@);
        },
        PaneCommand::Resize(PaneDirection::Down) => {
            reveal_strlit("mullion.resize.down");
            assert(action_registry_id(action_of(c)) == "mullion.resize.down"@);
            assert(command_id(c) =~= "mullion.resize.down"@);
        },
        PaneCommand::SetParentSplitDirection(SplitDirection::Horizontal) => {
            reveal_strlit("mullion.parent-split.horizontal");
            assert(action_registry_id(action_of(c)) == "mullion.parent-split.horizontal"@);
            assert(command_id(c) =~= "mullion.parent-split.horizontal"@);
        },
        PaneCommand::SetParentSplitDirection(SplitDirection::Vertical) => {
            reveal_strlit("mullion.parent-split.vertical");
            assert(action_registry_id(action_of(c)) == "mullion.parent-split.vertical"@);
            assert(command_id(c) =~= "mullion.parent-split.vertical"@);
        },
        PaneCommand::ToggleParentSplitDirection => {
            reveal_strlit("mullion.parent-split.toggle");
            assert(action_registry_id(action_of(c)) == "mullion.parent-split.toggle"@);
            assert(command_id(c) =~= "mullion.parent-split.toggle"@);
        },
        PaneCommand::Balance => {
            reveal_strlit("mullion.layout.balance");
            assert(action_registry_id(action_of(c)) == "mullion.layout.balance"@);
            assert(command_id(c) =~= "mullion.layout.balance"@);
        },
        PaneCommand::Rotate(PaneRotation::Forward) => {
            reveal_strlit("mullion.rotate.forward");
            assert(action_registry_id(action_of(c)) == "mullion.rotate.forward"@);
            assert(command_id(c) =~= "mullion.rotate.forward"@);
        },
        PaneCommand::Rotate(PaneRotation::Backward) => {
            reveal_strlit("mullion.rotate.backward");
            assert(action_registry_id(action_of(c)) == "mullion.rotate.backward"@);
            assert(command_id(c) =~= "mullion.rotate.backward"@);
        },
        PaneCommand::ApplyLayout(PaneLayout::EvenHorizontal) => {
            reveal_strlit("mullion.layout.even-horizontal");
            assert(action_registry_id(action_of(c)) == "mullion.layout.even-horizontal"@);
            assert(command_id(c) =~= "mullion.layout.even-horizontal"@);
        },
        PaneCommand::ApplyLayout(PaneLayout::EvenVertical) => {
            reveal_strlit("mullion.layout.even-vertical");
            assert(action_registry_id(action_of(c)) == "mullion.layout.even-vertical"@);
            assert(command_id(c) =~= "mullion.layout.even-vertical"@);
        },
        PaneCommand::ApplyLayout(PaneLayout::MainHorizontal) => {
            reveal_strlit("mullion.layout.main-horizontal");
            assert(action_registry_id(action_of(c)) == "mullion.layout.main-horizontal"@);
            assert(command_id(c) =~= "mullion.layout.main-horizontal"@);
        },
        PaneCommand::ApplyLayout(PaneLayout::MainVertical) => {
            reveal_strlit("mullion.layout.main-vertical");
            assert(action_registry_id(action_of(c)) == "mullion.layout.main-vertical"@);
            assert(command_id(c) =~= "mullion.layout.main-vertical"@);
        },
        PaneCommand::ApplyLayout(PaneLayout::Tiled) => {
            reveal_strlit("mullion.layout.tiled");
            assert(action_registry_id(action_of(c)) == "mullion.layout.tiled"@);
            assert(command_id(c) =~= "mullion.layout.tiled"@);
        },
        PaneCommand::ToggleZoom => {
            reveal_strlit("mullion.zoom.toggle");
            assert(action_registry_id(action_of(c)) == "mullion.zoom.toggle"@);
            assert(command_id(c) =~= "mullion.zoom.toggle"@);
        },
        PaneCommand::FocusIndex(_) => {},
    }
}

proof fn lemma_registry_ids_spelled_distinct(a: MullionAction, b: MullionAction)
    requires
        !(a is FocusPane),
        !(b is FocusPane),
    ensures
        action_registry_id(a) == action_registry_id(b) ==> a == b,
{
    reveal_strlit("mullion.focus.left");
    reveal_strlit("mullion.focus.right");
    reveal_strlit("mullion.focus.up");
    reveal_strlit("mullion.focus.down");
    reveal_strlit("mullion.focus.next");
    reveal_strlit("mullion.focus.previous");
    reveal_strlit("mullion.focus.first");
    reveal_strlit("mullion.focus.last");
    reveal_strlit("mullion.split.horizontal");
    reveal_strlit("mullion.split.vertical");
    reveal_strlit("mullion.close");
    reveal_strlit("mullion.move.left");
    reveal_strlit("mullion.move.right");
    reveal_strlit("mullion.move.up");
    reveal_strlit("mullion.move.down");
    reveal_strlit("mullion.swap.left");
    reveal_strlit("mullion.swap.right");
    reveal_strlit("mullion.swap.up");
    reveal_strlit("mullion.swap.down");
    reveal_strlit("mullion.swap.next");
    reveal_strlit("mullion.swap.previous");
    reveal_strlit("mullion.resize.left");
    reveal_strlit("mullion.resize.right");
    reveal_strlit("mullion.resize.up");
    reveal_strlit("mullion.resize.down");
    reveal_strlit("mullion.parent-split.horizontal");
    reveal_strlit("mullion.parent-split.vertical");
    reveal_strlit("mullion.parent-split.toggle");
    reveal_strlit("mullion.layout.balance");
    reveal_strlit("mullion.rotate.forward");
    reveal_strlit("mullion.rotate.backward");
    reveal_strlit("mullion.layout.even-horizontal");
    reveal_strlit("mullion.layout.even-vertical");
    reveal_strlit("mullion.layout.main-horizontal");
    reveal_strlit("mullion.layout.main-vertical");
    reveal_strlit("mullion.layout.tiled");
    reveal_strlit("mullion.zoom.toggle");
    if action_registry_id(a) == action_registry_id(b) {
        assert(action_registry_id(a).len() == action_registry_id(b).len());
        assert(action_registry_id(a)[8] == action_registry_id(b)[8]);
        assert(action_registry_id(a)[9] == action_registry_id(b)[9]);
        assert(action_registry_id(a)[10] == action_registry_id(b)[10]);
        assert(action_registry_id(a)[11] == action_registry_id(b)[11]);
        assert(action_registry_id(a)[12] == action_registry_id(b)[12]);
        assert(action_registry_id(a)[13] == action_registry_id(b)[13]);
        assert(action_registry_id(a)[14] == action_registry_id(b)[14]);
        assert(action_registry_id(a)[15] == action_registry_id(b)[15]);
    }
}

/// Static commands have pairwise distinct registry ids.
pub proof fn lemma_static_command_ids_distinct(c: PaneCommand, d: PaneCommand)
    requires
        !(c is FocusIndex),
        !(d is FocusIndex),
    ensures
        command_id(c) == command_id(d) ==> c == d,
{
    lemma_registry_id_spelled(c);
    lemma_registry_id_spelled(d);
    lemma_registry_ids_spelled_distinct(action_of(c), action_of(d));
    lemma_action_round_trip(c, action_of(c));
    lemma_action_round_trip(d, action_of(d));
}

/// Stable persisted reference for a command: its registry id, not an action name.
pub fn action_reference_id(command: PaneCommand) -> (r: String)
    ensures
        r@ == command_id(command),
{
    command.id()
}

/// The context predicate under which a keymap's bindings are registered:
/// `context` itself when the keymap captures editable targets, else
/// `(context) && !MullionEditable`, so pane shortcuts leave text input alone.
pub open spec fn binding_context(captures_editable: bool, context: Seq<char>) -> Seq<char> {
    if captures_editable {
        context
    } else {
        "("@ + context + ") && !MullionEditable"@
    }
}

/// A keymap lowered to key bindings: one context predicate, and one
/// normalized key sequence with its action per binding, in keymap order.
pub struct CompiledKeymap {
    /// Context predicate source for every binding.
    pub context: String,
    /// Normalized key sequences and the actions they dispatch.
    pub bindings: Vec<(String, MullionAction)>,
}

/// Compiles a portable keymap into binding sources under an explicit context.
///
/// Each normalized sequence is paired with [`action_for_command`]; parsing the
/// predicate and the key sequences is left to the view layer.
pub fn compile_keymap(keymap: &MullionKeymap, context: &str) -> (r: CompiledKeymap)
    ensures
        r.context@ == binding_context(!keymap@.ignore_editable_targets, context@),
        r.bindings@.len() == keymap@.bindings.len(),
        forall|i: int|
            0 <= i < r.bindings@.len() ==> (#[trigger] r.bindings@[i]).0@ == gpui_sequence(
                keymap@.prefix,
                keymap@.bindings[i].sequence,
            ) && r.bindings@[i].1 == action_of(keymap@.bindings[i].command),
{
    let compiled_context = if keymap.captures_editable_targets() {
        String::from_str(context)
    } else {
        let mut c = String::from_str("(");
        c.append(context);
        c.append(") && !MullionEditable");
        c
    };
    let sequences = keymap.normalized_sequences();
    let n = sequences.len();
    let mut bindings: Vec<(String, MullionAction)> = Vec::new();
    for i in 0..n
        invariant
            n == sequences@.len(),
            n == keymap@.bindings.len(),
            bindings@.len() == i,
            forall|k: int|
                0 <= k < sequences@.len() ==> (#[trigger] sequences@[k]).0@ == gpui_sequence(
                    keymap@.prefix,
                    keymap@.bindings[k].sequence,
                ) && sequences@[k].1 == keymap@.bindings[k].command,
            forall|k: int|
                0 <= k < i ==> (#[trigger] bindings@[k]).0@ == gpui_sequence(
                    keymap@.prefix,
                    keymap@.bindings[k].sequence,
                ) && bindings@[k].1 == action_of(keymap@.bindings[k].command),
    {
        let sequence = sequences[i].0.clone();
        let action = action_for_command(sequences[i].1);
        bindings.push((sequence, action));
    }
    CompiledKeymap { context: compiled_context, bindings }
}

} // verus!
