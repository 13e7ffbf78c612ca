//! Persistable preferences and the descriptor metadata of typed settings.

use vstd::prelude::*;

use crate::focus::PaneFocusBehavior;

verus! {

/// Stable identifier used by host settings registries.
pub const FOCUS_BEHAVIOR_SETTING_ID: &'static str = "mullion.focus_behavior";

/// One allowed value in a typed setting.
#[derive(Clone, Copy, Debug, PartialEq, Eq)]
pub struct MullionSettingOption<T> {
    value: T,
    label: &'static str,
    description: &'static str,
}

impl<T> MullionSettingOption<T> {
    /// The option's typed value.
    pub closed spec fn spec_value(&self) -> T {
        self.value
    }

    /// The option's short user-facing name.
    pub closed spec fn spec_label(&self) -> Seq<char> {
        self.label@
    }

    /// The option's user-facing explanation.
    pub closed spec fn spec_description(&self) -> Seq<char> {
        self.description@
    }

    /// Creates an option with its typed value and static user-facing metadata.
    pub fn new(value: T, label: &'static str, description: &'static str) -> (r: Self)
        ensures
            r.spec_value() == value,
            r.spec_label() == label@,
            r.spec_description() == description@,
    {
        MullionSettingOption { value, label, description }
    }

    /// Returns the typed value selected by this option.
    pub fn value(&self) -> (r: &T)
        ensures
            *r == self.spec_value(),
    {
        &self.value
    }

    /// Returns the short user-facing name shown for this option.
    pub fn label(&self) -> (r: &'static str)
        ensures
            r@ == self.spec_label(),
    {
        self.label
    }

    /// Returns the user-facing explanation of this option's behavior.
    pub fn description(&self) -> (r: &'static str)
        ensures
            r@ == self.spec_description(),
    {
        self.description
    }
}

/// Display name of the pane focus behavior setting.
pub fn focus_behavior_setting_label() -> (r: &'static str)
    ensures
        r@ == "Pane focus behavior"@,
{
    "Pane focus behavior"
}

/// Explanation of what the pane focus behavior setting controls.
pub fn focus_behavior_setting_description() -> (r: &'static str)
    ensures
        r@ == "Choose whether pointer hover or click changes the focused pane."@,
{
    "Choose whether pointer hover or click changes the focused pane."
}

/// Every value offered by the pane focus behavior setting, in display order:
/// click, then hover, each with a label and a nonempty explanation.
pub fn focus_behavior_options() -> (r: Vec<MullionSettingOption<PaneFocusBehavior>>)
    ensures
        r@.len() == 2,
        r@[0].spec_value() == PaneFocusBehavior::Click,
        r@[0].spec_label() == "Click"@,
        r@[0].spec_description() == "Focus a pane when it is clicked and keep focus there."@,
        r@[1].spec_value() == PaneFocusBehavior::Hover,
        r@[1].spec_label() == "Hover"@,
        r@[1].spec_description() == "Move focus whenever the pointer enters another pane."@,
{
    let mut r: Vec<MullionSettingOption<PaneFocusBehavior>> = Vec::new();
    r.push(
        MullionSettingOption::new(
            PaneFocusBehavior::Click,
            "Click",
            "Focus a pane when it is clicked and keep focus there.",
        ),
    );
    r.push(
        MullionSettingOption::new(
            PaneFocusBehavior::Hover,
            "Hover",
            "Move focus whenever the pointer enters another pane.",
        ),
    );
    r
}

/// Persistable preferences.
#[derive(Clone, Copy, Debug, PartialEq, Eq, Structural)]
pub struct MullionSettingsConfig {
    /// Controls whether clicking or pointer hover transfers focus between panes.
    pub focus_behavior: PaneFocusBehavior,
}

impl Default for MullionSettingsConfig {
    /// Hover focus, the compatibility default.
    fn default() -> (r: Self)
        ensures
            r.focus_behavior == PaneFocusBehavior::Hover,
    {
        MullionSettingsConfig { focus_behavior: PaneFocusBehavior::Hover }
    }
}

} // verus!
