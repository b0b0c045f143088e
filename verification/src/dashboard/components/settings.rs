//! The settings tab: the session's settings as a tree of values, and the
//! tree of controls that shows and edits them.

use vstd::prelude::*;
use crate::dashboard::components::settings_controls::schema::SchemaNode;
use crate::dashboard::components::settings_controls::{buildable, built, NestingInfo, NestingView, SettingControl};
use crate::request::{PathSegment, PathSegmentView};

verus! {

/// A JSON value of `serde_json`. The tab keeps the settings in one and
/// hands it to whoever draws the controls; it never looks inside.
#[verifier::external_type_specification]
#[verifier::external_body]
pub struct ExJsonValue(serde_json::Value);

/// The place of the settings in the session: directly under
/// `session_settings`, not indented.
pub open spec fn settings_root() -> NestingView {
    NestingView {
        path: seq![PathSegmentView::Name("session_settings"@)],
        indentation_level: 0,
    }
}

/// The state of the settings tab.
#[derive(Debug)]
pub struct SettingsTab {
    /// What tells the grid of this tab from any other on the screen.
    pub advanced_grid_id: usize,
    /// The settings of the session, as last received.
    pub session_settings_json: serde_json::Value,
    /// The control of the whole settings tree.
    pub root_control: SettingControl,
}

impl SettingsTab {
    /// A tab for settings of the shape `schema`, which shows
    /// `session_settings_json` until the session arrives.
    pub fn new(advanced_grid_id: usize, session_settings_json: serde_json::Value, schema: SchemaNode) -> (tab:
        Self)
        requires
            buildable(settings_root(), schema),
        ensures
            tab.advanced_grid_id == advanced_grid_id,
            tab.session_settings_json == session_settings_json,
            built(tab.root_control, settings_root(), schema),
    {
        let mut path: Vec<PathSegment> = Vec::new();
        path.push(PathSegment::Name("session_settings".to_string()));
        let nesting_info = NestingInfo { path, indentation_level: 0 };
        assert(nesting_info@.path =~= settings_root().path);

        Self {
            advanced_grid_id,
            session_settings_json,
            root_control: SettingControl::new(nesting_info, schema),
        }
    }

    /// Takes over the settings of a session that arrived. The controls stay
    /// as they are.
    pub fn update_session(&mut self, session_settings_json: serde_json::Value)
        ensures
            final(self).session_settings_json == session_settings_json,
            final(self).advanced_grid_id == old(self).advanced_grid_id,
            final(self).root_control == old(self).root_control,
    {
        self.session_settings_json = session_settings_json;
    }
}

} // verus!
