//! The controls of the settings tab: one for each node of the settings
//! tree.

pub mod boolean;
pub mod choice;
pub mod numeric;
pub mod presets;
pub mod schema;
pub mod section;
pub mod switch;
pub mod text;

use vstd::prelude::*;
use crate::dashboard::components::settings_controls::boolean::on_off;
use crate::dashboard::components::settings_controls::schema::{lookup, string_for, strings_view, ChoiceControlType, NamedEntry, SchemaNode};
use crate::dashboard::components::settings_controls::text::quoted;
use crate::dashboard::DisplayStringView;
use crate::request::{clone_path, path_view, sets_value, DashboardRequest, PathSegment, PathSegmentView, SettingValue};

verus! {

/// Where in the settings tree a control sits.
#[derive(Debug, PartialEq, Eq)]
pub struct NestingInfo {
    /// The path from the root of the session to the control's value.
    pub path: Vec<PathSegment>,
    /// How far the control's label is moved to the right.
    pub indentation_level: usize,
}

pub struct NestingView {
    pub path: Seq<PathSegmentView>,
    pub indentation_level: usize,
}

impl View for NestingInfo {
    type V = NestingView;

    open spec fn view(&self) -> NestingView {
        NestingView { path: path_view(self.path@), indentation_level: self.indentation_level }
    }
}

impl Clone for NestingInfo {
    fn clone(&self) -> (copy: Self)
        ensures
            copy@ == self@,
    {
        NestingInfo { path: clone_path(&self.path), indentation_level: self.indentation_level }
    }
}

/// The control of one node of the settings tree.
#[derive(Debug, PartialEq, Eq)]
pub enum SettingControl {
    Section(section::Control),
    Choice(choice::Control),
    Switch(switch::Control),
    Boolean(boolean::Control),
    Text(text::Control),
    /// No control: the node is of a kind that has none.
    Empty,
}

/// The place one step further down the tree.
pub open spec fn nested(nesting: NestingView, step: PathSegmentView) -> NestingView {
    NestingView { path: nesting.path.push(step), ..nesting }
}

impl NestingInfo {
    /// The place one step further down the tree, under the name `name`.
    pub fn child(&self, name: &str) -> (child: NestingInfo)
        ensures
            child@ == nested(self@, PathSegmentView::Name(name@)),
    {
        let mut child = self.clone();
        let ghost before = path_view(child.path@);
        child.path.push(PathSegment::Name(name.to_string()));
        assert(path_view(child.path@) =~= before.push(PathSegmentView::Name(name@)));
        child
    }
}

/// The request to set the value found under `leaf` at the control's place.
pub fn set_single_value(nesting_info: &NestingInfo, leaf: PathSegment, new_value: SettingValue) -> (request:
    Option<DashboardRequest>)
    ensures
        request matches Some(r) && sets_value(r, nesting_info@.path.push(leaf@), new_value@),
{
    let mut path = clone_path(&nesting_info.path);
    let ghost before = path_view(path@);
    path.push(leaf);
    assert(path_view(path@) =~= before.push(leaf@));
    Some(DashboardRequest::SetSingleValue { path, new_value })
}

/// The request to set the value at the control's place itself.
pub fn set_own_value(nesting_info: &NestingInfo, new_value: SettingValue) -> (request:
    DashboardRequest)
    ensures
        sets_value(request, nesting_info@.path, new_value@),
{
    DashboardRequest::SetSingleValue { path: clone_path(&nesting_info.path), new_value }
}

/// The node for a choice.
pub open spec fn choice_node(
    default: String,
    variants: Vec<NamedEntry<Option<SchemaNode>>>,
    gui: Option<ChoiceControlType>,
) -> SchemaNode {
    SchemaNode::Choice { default, variants, gui }
}

/// The node for a switch.
pub open spec fn switch_node(default_enabled: bool, content: SchemaNode) -> SchemaNode {
    SchemaNode::Switch { default_enabled, content: Box::new(content) }
}

/// The place of a section's own rows: a section below the top level is
/// moved one step to the right.
pub open spec fn section_nesting(nesting: NestingView) -> NestingView {
    if nesting.path.len() > 1 {
        NestingView { indentation_level: (nesting.indentation_level + 1) as usize, ..nesting }
    } else {
        nesting
    }
}

/// The text of an entry for `key`, as a view.
pub open spec fn text_view(text: Option<String>) -> Option<Seq<char>> {
    match text {
        Some(t) => Some(t@),
        None => None,
    }
}

/// Whether controls can be made for `schema` at the place `nesting`: every
/// setting and variant can be given a name, and the indentation stays
/// within the machine's numbers.
pub open spec fn buildable(nesting: NestingView, schema: SchemaNode) -> bool
    decreases schema,
{
    match schema {
        SchemaNode::Section(entries) => {
            &&& nesting.path.len() > 1 ==> nesting.indentation_level < usize::MAX
            &&& forall|i: int|
                0 <= i < entries.len() ==> section::can_be_named(
                    (#[trigger] entries[i]).name@,
                    strings_view(entries[i].strings@),
                ) && buildable(
                    nested(section_nesting(nesting), PathSegmentView::Name(entries[i].name@)),
                    entries[i].content,
                )
        },
        SchemaNode::Choice { default, variants, gui } => {
            forall|i: int|
                0 <= i < variants.len() ==> choice::can_be_named(
                    (#[trigger] variants[i]).name@,
                    strings_view(variants[i].strings@),
                ) && (variants[i].content matches Some(inner) ==> buildable(
                    nested(nesting, PathSegmentView::Name(variants[i].name@)),
                    inner,
                ))
        },
        SchemaNode::Switch { default_enabled, content } => buildable(
            nested(nesting, PathSegmentView::Name("content"@)),
            *content,
        ),
        _ => true,
    }
}

/// Says that `control` is the control for `schema` at the place `nesting`.
///
/// - A section has one row for each of its settings, in order, named by
///   `section::display_name`, with the texts for `help` and `notice` and
///   the control for the setting, one step down the tree under the
///   setting's name.
/// - A choice has one label and one control for each of its variants, in
///   order; a variant that holds nothing has no control. It is shown as a
///   group of buttons unless the tree says otherwise.
/// - A switch has the control for what it holds, one step down the tree
///   under `content`.
/// - A flag and a text have their default and the text that shows it.
/// - Any other node has no control.
pub open spec fn built(control: SettingControl, nesting: NestingView, schema: SchemaNode) -> bool
    decreases schema,
{
    match schema {
        SchemaNode::Section(entries) => {
            &&& control matches SettingControl::Section(c)
            &&& c.nesting_info@ == section_nesting(nesting)
            &&& c.entries.len() == entries.len()
            &&& forall|i: int|
                0 <= i < entries.len() ==> {
                    &&& c.entries[i].id@ == DisplayStringView {
                        id: (#[trigger] entries[i]).name@,
                        display: section::display_name(
                            entries[i].name@,
                            strings_view(entries[i].strings@),
                        ),
                    }
                    &&& text_view(c.entries[i].help) == string_for(
                        strings_view(entries[i].strings@),
                        "help"@,
                    )
                    &&& text_view(c.entries[i].notice) == string_for(
                        strings_view(entries[i].strings@),
                        "notice"@,
                    )
                    &&& built(
                        c.entries[i].control,
                        nested(section_nesting(nesting), PathSegmentView::Name(entries[i].name@)),
                        entries[i].content,
                    )
                }
        },
        SchemaNode::Choice { default, variants, gui } => {
            &&& control matches SettingControl::Choice(c)
            &&& c.nesting_info@ == nesting
            &&& c.default_variant@ == default@
            &&& c.gui == match gui {
                Some(shown) => shown,
                None => ChoiceControlType::ButtonGroup,
            }
            &&& c.variant_labels.len() == variants.len()
            &&& c.variant_controls.len() == variants.len()
            &&& forall|i: int|
                0 <= i < variants.len() ==> {
                    &&& c.variant_labels[i]@ == DisplayStringView {
                        id: (#[trigger] variants[i]).name@,
                        display: choice::display_name(
                            variants[i].name@,
                            strings_view(variants[i].strings@),
                        ),
                    }
                    &&& c.variant_controls[i].0@ == variants[i].name@
                    &&& match variants[i].content {
                        Some(inner) => built(
                            c.variant_controls[i].1,
                            nested(nesting, PathSegmentView::Name(variants[i].name@)),
                            inner,
                        ),
                        None => c.variant_controls[i].1 is Empty,
                    }
                }
        },
        SchemaNode::Switch { default_enabled, content } => {
            &&& control matches SettingControl::Switch(c)
            &&& c.nesting_info@ == nesting
            &&& c.default_enabled == default_enabled
            &&& c.default_string@ == on_off(default_enabled)
            &&& built(*c.control, nested(nesting, PathSegmentView::Name("content"@)), *content)
        },
        SchemaNode::Boolean { default } => {
            &&& control matches SettingControl::Boolean(c)
            &&& c.nesting_info@ == nesting
            &&& c.default == default
            &&& c.default_string@ == on_off(default)
        },
        SchemaNode::Text { default } => {
            &&& control matches SettingControl::Text(c)
            &&& c.nesting_info@ == nesting
            &&& c.temp_value is None
            &&& c.default@ == default@
            &&& c.default_string@ == quoted(default@)
        },
        SchemaNode::Other => control is Empty,
    }
}

/// A copy of the text for `key`, if there is one.
pub(crate) fn text_for(strings: &Vec<(String, String)>, key: &str) -> (text: Option<String>)
    ensures
        text_view(text) == string_for(strings_view(strings@), key@),
{
    match lookup(strings, key) {
        Some(found) => Some(found.clone()),
        None => None,
    }
}

impl SettingControl {
    /// The control for `schema` at the place `nesting_info`, with the
    /// controls for all that `schema` holds.
    pub fn new(nesting_info: NestingInfo, schema: SchemaNode) -> (control: Self)
        requires
            buildable(nesting_info@, schema),
        ensures
            built(control, nesting_info@, schema),
    {
        Self::build(&nesting_info, &schema)
    }

    /// The same, reading `schema` where it lies.
    pub(crate) fn build(nesting_info: &NestingInfo, schema: &SchemaNode) -> (control: Self)
        requires
            buildable(nesting_info@, *schema),
        ensures
            built(control, nesting_info@, *schema),
        decreases *schema, 0int,
    {
        match schema {
            SchemaNode::Section(entries) => SettingControl::Section(
                section::Control::build(nesting_info, entries),
            ),
            SchemaNode::Choice { default, variants, gui } => SettingControl::Choice(
                choice::Control::build(nesting_info, default, variants, gui),
            ),
            SchemaNode::Switch { default_enabled, content } => SettingControl::Switch(
                switch::Control::build(nesting_info, *default_enabled, &**content),
            ),
            SchemaNode::Boolean { default } => SettingControl::Boolean(
                boolean::Control::new(nesting_info.clone(), *default),
            ),
            SchemaNode::Text { default } => SettingControl::Text(
                text::Control::new(nesting_info.clone(), default.clone()),
            ),
            SchemaNode::Other => SettingControl::Empty,
        }
    }
}

} // verus!
