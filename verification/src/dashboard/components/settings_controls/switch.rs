//! The control for a setting that can be switched off.

use vstd::prelude::*;
use crate::dashboard::components::settings_controls::boolean::on_off_text;
use crate::dashboard::components::settings_controls::schema::SchemaNode;
use crate::dashboard::components::settings_controls::{buildable, built, set_single_value, switch_node, NestingInfo, SettingControl};
use crate::request::{sets_value, DashboardRequest, PathSegment, PathSegmentView, SettingValue, SettingValueView};

verus! {

/// The state of the control for a switch.
#[derive(Debug, PartialEq, Eq)]
pub struct Control {
    pub nesting_info: NestingInfo,
    pub default_enabled: bool,
    pub default_string: String,
    /// The control for what the switch holds while it is on.
    pub control: Box<SettingControl>,
}

impl Control {
    /// The control for a switch at the place `nesting_info`, with the
    /// control for what the switch holds.
    pub fn new(nesting_info: NestingInfo, default_enabled: bool, schema_content: SchemaNode) -> (control:
        Self)
        requires
            buildable(nesting_info@, switch_node(default_enabled, schema_content)),
        ensures
            built(
                SettingControl::Switch(control),
                nesting_info@,
                switch_node(default_enabled, schema_content),
            ),
    {
        Self::build(&nesting_info, default_enabled, &schema_content)
    }

    /// The same, reading the content where it lies.
    pub(crate) fn build(
        nesting_info: &NestingInfo,
        default_enabled: bool,
        schema_content: &SchemaNode,
    ) -> (control: Self)
        requires
            buildable(nesting_info@, switch_node(default_enabled, *schema_content)),
        ensures
            built(
                SettingControl::Switch(control),
                nesting_info@,
                switch_node(default_enabled, *schema_content),
            ),
        decreases *schema_content, 1int,
    {
        let default_string = on_off_text(default_enabled);

        let control = {
            let child = nesting_info.child("content");

            SettingControl::build(&child, schema_content)
        };

        Control {
            nesting_info: nesting_info.clone(),
            default_enabled,
            default_string,
            control: Box::new(control),
        }
    }

    /// The request that switches the setting on or off.
    pub fn request(&self, enabled: bool) -> (request: Option<DashboardRequest>)
        ensures
            request matches Some(r) && sets_value(
                r,
                self.nesting_info@.path.push(PathSegmentView::Name("enabled"@)),
                SettingValueView::Bool(enabled),
            ),
    {
        set_single_value(
            &self.nesting_info,
            PathSegment::Name("enabled".to_string()),
            SettingValue::Bool(enabled),
        )
    }

    /// Whether the reset button is live: whether `enabled` is not the
    /// default.
    pub fn can_reset(&self, enabled: bool) -> (live: bool)
        ensures
            live == (enabled != self.default_enabled),
    {
        enabled != self.default_enabled
    }

    /// The request that the reset button stands for.
    pub fn reset_request(&self) -> (request: Option<DashboardRequest>)
        ensures
            request matches Some(r) && sets_value(
                r,
                self.nesting_info@.path.push(PathSegmentView::Name("enabled"@)),
                SettingValueView::Bool(self.default_enabled),
            ),
    {
        self.request(self.default_enabled)
    }
}

} // verus!
