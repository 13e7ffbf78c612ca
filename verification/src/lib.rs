//! Verified portable core of a split-pane workspace: stable identities, pane
//! commands and their actions, keymaps, activity catalogs and bars, palette
//! entries, docking payloads, accessibility metadata, and overlay stacks.

/// Stable identities and small geometric vocabularies.
pub mod ids;
/// Character-level helpers: decimal rendering, joining, and case folding.
pub mod text;
/// Portable pane commands, metadata, and errors.
pub mod command;
/// Actions that dispatch pane commands, and portable keymap compilation.
pub mod command_actions;
/// Keymaps, key chords, and normalized key sequences.
pub mod keybindings;
/// Activity-bar placement, behavior, expansion, and hover policy.
pub mod activity_bar;
/// Identity and lifecycle bookkeeping of cached per-pane activity instances.
pub mod activity;
/// Validated recursive activity catalogs and per-pane projections.
pub mod activity_catalog;
/// Command-palette entries and invocation metadata.
pub mod palette;
/// Typed pane/activity docking payloads.
pub mod drag;
/// Semantic accessibility metadata.
pub mod accessibility;
/// Optional host-owned platform capabilities such as detached windows.
pub mod platform;
/// Pointer-to-pane focus policies.
pub mod focus;
/// Persistable preferences and setting descriptors.
pub mod settings;
/// Observable changes reported to hosts.
pub mod events;
/// Persistable theme policy.
pub mod theme;
/// Window-level overlay policy and stacks.
pub mod overlay;

pub use accessibility::{MullionAccessibilityNode, MullionAccessibilityRole, MullionAccessibilityState};
pub use activity::{ActivityCache, ActivityCacheKey, ActivityFactoryRegistry, CachedActivity};
pub use activity_bar::{
    chevron_rotation, ActivityBarAxis, ActivityBarBehavior, ActivityBarConfig, ActivityBarEdge,
    ActivityBarHoverIntent, ActivityBarHoverState, ActivityBarMode, ActivityExpansionState,
    HoverGeneration, PaneControl,
};
pub use activity_catalog::{
    Activity, ActivityCatalog, ActivityCatalogGroup, ActivityCatalogValidationError, ActivityCategory,
    ActivityNode, ActivityProjection, CategoryChrome, VisibleActivity, VisibleActivityNode,
    VisibleCategory,
};
pub use command::{
    layout_label, layout_slug, pane_direction_label, pane_direction_slug, split_direction_slug,
    PaneCommand, PaneCommandError, PaneCommandGroup,
};
pub use command_actions::{
    action_for_command, action_reference_id, command_for_action, compile_keymap, CompiledKeymap,
    FocusPane, MullionAction, MULLION_KEY_CONTEXT,
};
pub use drag::{DockDrag, DockHover, DockPayload};
pub use events::WorkspaceChanged;
pub use focus::PaneFocusBehavior;
pub use ids::{
    same_text, ActivityId, CategoryId, DropEdge, PaneDirection, PaneId, PaneLayout, PaneRotation,
    SplitDirection, WorkspaceId,
};
pub use keybindings::{normalize_key, KeyChord, KeySequenceMatch, KeyStroke, MullionKeyBinding, MullionKeymap};
pub use overlay::{
    check_policy, OverlayAlignment, OverlayEntry, OverlayError, OverlayId, OverlayMutation,
    OverlayPlacement, OverlayStack, OverlayTier,
};
pub use palette::{
    activity_palette_entries, focus_index_palette_entries, mullion_palette_entries,
    pane_command_palette_entries, PaletteEntry, PaletteInvocation, PaletteInvocationError,
};
pub use platform::{DetachError, DetachedWindowService, UnavailableDetachedWindows, WindowCapabilities};
pub use settings::{
    focus_behavior_options, focus_behavior_setting_description, focus_behavior_setting_label,
    MullionSettingOption, MullionSettingsConfig, FOCUS_BEHAVIOR_SETTING_ID,
};
pub use theme::MullionThemeMode;
