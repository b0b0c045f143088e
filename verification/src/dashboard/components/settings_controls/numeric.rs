//! The control for a number.
//!
//! A number is held as the text that spells it in JSON. Two numbers count
//! as the same when they are spelled alike.

use std::str::FromStr;
use vstd::prelude::*;
use crate::dashboard::components::settings_controls::schema::NumericGuiType;
use crate::dashboard::components::settings_controls::text::{quote, quoted};
use crate::dashboard::components::settings_controls::{set_own_value, NestingInfo};
use crate::request::{sets_value, DashboardRequest, SettingValue, SettingValueView};

verus! {

/// The JSON number that `text` spells, in the spelling that `serde_json`
/// gives it, or `None` where `text` spells no JSON number.
pub uninterp spec fn number_spelling(text: Seq<char>) -> Option<Seq<char>>;

/// Reads `text` as a JSON number and writes that number out again. This is
/// `serde_json::Number::from_str`, which takes the whole of `text` as one
/// number or fails, followed by the number's `to_string`.
#[verifier::external_body]
pub(crate) fn parse_number(text: &str) -> (spelling: Option<String>)
    ensures
        spelling is Some <==> number_spelling(text@) is Some,
        spelling matches Some(s) ==> number_spelling(text@) == Some(s@),
{
    match serde_json::Number::from_str(text) {
        Ok(number) => Some(number.to_string()),
        Err(_) => None,
    }
}

/// The state of the control for a number.
///
/// While the text field has the focus, the user types into
/// `editing_value`; when the focus leaves the field, what was typed is
/// taken over if it spells a number, and dropped if not.
#[derive(Debug, PartialEq, Eq)]
pub struct Control {
    pub nesting_info: NestingInfo,
    /// The number of the session as last seen.
    pub prev_value: String,
    /// The text of the field while it has no focus.
    pub prev_string_value: String,
    pub editing_value: Option<String>,
    pub default: String,
    pub default_string: String,
    pub gui: NumericGuiType,
}

pub struct ControlView {
    pub prev_value: Seq<char>,
    pub prev_string_value: Seq<char>,
    pub editing_value: Option<Seq<char>>,
    pub default: Seq<char>,
    pub default_string: Seq<char>,
    pub gui: NumericGuiType,
}

impl View for Control {
    type V = ControlView;

    open spec fn view(&self) -> ControlView {
        ControlView {
            prev_value: self.prev_value@,
            prev_string_value: self.prev_string_value@,
            editing_value: match self.editing_value {
                Some(text) => Some(text@),
                None => None,
            },
            default: self.default@,
            default_string: self.default_string@,
            gui: self.gui,
        }
    }
}

/// The control as it is made for a default spelled `default`, which spells
/// the number `number`.
pub open spec fn fresh(default: Seq<char>, number: Seq<char>, gui: Option<NumericGuiType>) -> ControlView {
    ControlView {
        prev_value: "0"@,
        prev_string_value: ""@,
        editing_value: None,
        default: number,
        default_string: quoted(default),
        gui: match gui {
            Some(shown) => shown,
            None => NumericGuiType::TextBox,
        },
    }
}

impl Control {
    /// The control for a number whose default is written `default`. It is
    /// shown as a text box unless `gui` says otherwise.
    pub fn new(nesting_info: NestingInfo, default: &str, gui: Option<NumericGuiType>) -> (control:
        Self)
        requires
            number_spelling(default@) is Some,
        ensures
            control.nesting_info == nesting_info,
            control@ == fresh(default@, number_spelling(default@)->0, gui),
    {
        Self {
            nesting_info,
            prev_value: "0".to_string(),
            prev_string_value: "".to_string(),
            editing_value: None,
            default: parse_number(default).unwrap(),
            default_string: quote(default),
            gui: match gui {
                Some(shown) => shown,
                None => NumericGuiType::TextBox,
            },
        }
    }

    /// The control for a number whose default is written `default`, or
    /// nothing where `default` spells no number.
    pub fn try_new(nesting_info: NestingInfo, default: &str, gui: Option<NumericGuiType>) -> (made:
        Option<Self>)
        ensures
            made is Some <==> number_spelling(default@) is Some,
            made matches Some(control) ==> control.nesting_info == nesting_info && control@
                == fresh(default@, number_spelling(default@)->0, gui),
    {
        match parse_number(default) {
            Some(_) => Some(Self::new(nesting_info, default, gui)),
            None => None,
        }
    }

    /// Takes note of the number that the session holds now. While it is
    /// the number last seen, nothing changes; otherwise the field shows it.
    pub fn sync(&mut self, session_number: &String)
        ensures
            final(self).nesting_info == old(self).nesting_info,
            final(self)@ == if session_number@ != old(self)@.prev_value {
                ControlView {
                    prev_value: session_number@,
                    prev_string_value: session_number@,
                    ..old(self)@
                }
            } else {
                old(self)@
            },
    {
        if !(*session_number == self.prev_value) {
            self.prev_value = session_number.clone();
            self.prev_string_value = self.prev_value.clone();
        }
    }

    /// The field got the focus: typing starts from the text it shows.
    pub fn focus_gained(&mut self)
        ensures
            final(self).nesting_info == old(self).nesting_info,
            final(self)@ == (ControlView {
                editing_value: Some(old(self)@.prev_string_value),
                ..old(self)@
            }),
    {
        self.editing_value = Some(self.prev_string_value.clone());
    }

    /// The field lost the focus. If the user was typing and what was typed
    /// spells a number, that number is returned, with the request that sets
    /// it in the session. Typing is over either way.
    pub fn focus_lost(&mut self) -> (change: Option<(DashboardRequest, String)>)
        ensures
            final(self).nesting_info == old(self).nesting_info,
            final(self)@ == (ControlView { editing_value: None, ..old(self)@ }),
            change is Some <==> (old(self)@.editing_value matches Some(typed) && number_spelling(
                typed,
            ) is Some),
            change matches Some(c) ==> Some(c.1@) == number_spelling(
                old(self)@.editing_value->0,
            ) && sets_value(c.0, old(self).nesting_info@.path, SettingValueView::Number(c.1@)),
    {
        match self.editing_value.take() {
            Some(typed) => match parse_number(typed.as_str()) {
                Some(number) => {
                    let request = set_own_value(
                        &self.nesting_info,
                        SettingValue::Number(number.clone()),
                    );
                    Some((request, number))
                },
                None => None,
            },
            None => None,
        }
    }

    /// Whether the reset button is live: whether the session's number is
    /// not the default.
    pub fn can_reset(&self, session_number: &String) -> (live: bool)
        ensures
            live == (session_number@ != self@.default),
    {
        !(*session_number == self.default)
    }

    /// The request that the reset button stands for.
    pub fn reset_request(&self) -> (request: DashboardRequest)
        ensures
            sets_value(request, self.nesting_info@.path, SettingValueView::Number(self@.default)),
    {
        set_own_value(&self.nesting_info, SettingValue::Number(self.default.clone()))
    }
}

} // verus!
