//! The control for a flag.

use vstd::prelude::*;
use crate::dashboard::components::settings_controls::{set_own_value, NestingInfo};
use crate::request::{sets_value, DashboardRequest, SettingValue, SettingValueView};

verus! {

/// The word that shows a flag's value.
pub open spec fn on_off(enabled: bool) -> Seq<char> {
    if enabled {
        "ON"@
    } else {
        "OFF"@
    }
}

/// The word that shows a flag's value.
pub fn on_off_text(enabled: bool) -> (word: String)
    ensures
        word@ == on_off(enabled),
{
    if enabled {
        "ON".to_string()
    } else {
        "OFF".to_string()
    }
}

/// The state of the control for a flag.
#[derive(Debug, PartialEq, Eq)]
pub struct Control {
    pub nesting_info: NestingInfo,
    pub default: bool,
    pub default_string: String,
}

impl Control {
    pub fn new(nesting_info: NestingInfo, default: bool) -> (control: Self)
        ensures
            control.nesting_info == nesting_info,
            control.default == default,
            control.default_string@ == on_off(default),
    {
        Self { nesting_info, default, default_string: on_off_text(default) }
    }

    /// The request that sets the flag.
    pub fn request(&self, value: bool) -> (request: DashboardRequest)
        ensures
            sets_value(request, self.nesting_info@.path, SettingValueView::Bool(value)),
    {
        set_own_value(&self.nesting_info, SettingValue::Bool(value))
    }

    /// The request that the reset button stands for.
    pub fn reset_request(&self) -> (request: DashboardRequest)
        ensures
            sets_value(request, self.nesting_info@.path, SettingValueView::Bool(self.default)),
    {
        set_own_value(&self.nesting_info, SettingValue::Bool(self.default))
    }
}

} // verus!
