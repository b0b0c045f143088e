//! The control for a text.

use vstd::prelude::*;
use vstd::string::StringExecFns;
use crate::dashboard::components::settings_controls::{set_own_value, NestingInfo};
use crate::request::{sets_value, DashboardRequest, SettingValue, SettingValueView};

verus! {

/// `text` between double quotes, as the tooltip of the reset button shows
/// the default.
pub open spec fn quoted(text: Seq<char>) -> Seq<char> {
    "\""@ + text + "\""@
}

/// `text` between double quotes.
pub fn quote(text: &str) -> (out: String)
    ensures
        out@ == quoted(text@),
{
    let mut out = "\"".to_string();
    out.append(text);
    out.append("\"");
    out
}

/// The state of the control for a text.
///
/// While the text field has the focus, the user types into `temp_value`;
/// the session is only changed when the focus leaves the field.
#[derive(Debug, PartialEq, Eq)]
pub struct Control {
    pub nesting_info: NestingInfo,
    pub temp_value: Option<String>,
    pub default: String,
    pub default_string: String,
}

impl Control {
    pub fn new(nesting_info: NestingInfo, default: String) -> (control: Self)
        ensures
            control.nesting_info == nesting_info,
            control.temp_value is None,
            control.default == default,
            control.default_string@ == quoted(default@),
    {
        let default_string = quote(default.as_str());
        Self { nesting_info, temp_value: None, default, default_string }
    }

    /// The field got the focus while it showed `text`: typing starts from
    /// there.
    pub fn focus_gained(&mut self, text: &String)
        ensures
            final(self).temp_value matches Some(t) && t@ == text@,
            final(self).nesting_info == old(self).nesting_info,
            final(self).default == old(self).default,
            final(self).default_string == old(self).default_string,
    {
        self.temp_value = Some(text.clone());
    }

    /// The field lost the focus. If the user was typing, what was typed
    /// becomes the text: it is returned, with the request that sets it in
    /// the session.
    pub fn focus_lost(&mut self) -> (change: Option<(DashboardRequest, String)>)
        ensures
            final(self).temp_value is None,
            final(self).nesting_info == old(self).nesting_info,
            final(self).default == old(self).default,
            final(self).default_string == old(self).default_string,
            change is Some <==> old(self).temp_value is Some,
            change matches Some(c) ==> c.1 == old(self).temp_value->0 && sets_value(
                c.0,
                old(self).nesting_info@.path,
                SettingValueView::Text(c.1@),
            ),
    {
        match self.temp_value.take() {
            Some(typed) => {
                let request = set_own_value(&self.nesting_info, SettingValue::Text(typed.clone()));
                Some((request, typed))
            },
            None => None,
        }
    }

    /// Whether the reset button is live: whether `text` is not the default.
    pub fn can_reset(&self, text: &String) -> (live: bool)
        ensures
            live == (text@ != self.default@),
    {
        !(*text == self.default)
    }

    /// The request that the reset button stands for.
    pub fn reset_request(&self) -> (request: DashboardRequest)
        ensures
            sets_value(request, self.nesting_info@.path, SettingValueView::Text(self.default@)),
    {
        set_own_value(&self.nesting_info, SettingValue::Text(self.default.clone()))
    }
}

} // verus!
