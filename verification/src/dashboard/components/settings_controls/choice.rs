//! The control for a choice between variants.

use vstd::prelude::*;
use crate::dashboard::components::settings_controls::schema::{lookup, string_for, strings_view, ChoiceControlType, NamedEntry, SchemaNode};
use crate::dashboard::components::settings_controls::{buildable, built, choice_node, nested, set_single_value, NestingInfo, SettingControl};
use crate::dashboard::{DisplayString, DisplayStringView};
use crate::request::{sets_value, DashboardRequest, PathSegment, PathSegmentView, SettingValue, SettingValueView};
use crate::text::{ascii_lowercase, chars_of, string_from_chars, to_ascii_lowercase};

verus! {

/// `rest` in lower case, with a space before every letter that was in upper
/// case: `ighQuality` becomes `igh quality`.
pub open spec fn spaced_lowercase(rest: Seq<char>) -> Seq<char>
    decreases rest.len(),
{
    if rest.len() == 0 {
        Seq::empty()
    } else {
        let front = spaced_lowercase(rest.drop_last());
        let lower = ascii_lowercase(rest.last());
        if lower != rest.last() {
            front.push(' ').push(lower)
        } else {
            front.push(lower)
        }
    }
}

/// The name a variant is shown under: the text given for `display_name`,
/// or else the identifier taken apart into words.
pub open spec fn display_name(id: Seq<char>, strings: Seq<(Seq<char>, Seq<char>)>) -> Seq<char> {
    match string_for(strings, "display_name"@) {
        Some(name) => name,
        None => seq![id[0]] + spaced_lowercase(id.skip(1)),
    }
}

/// Whether a variant with this identifier and these texts can be given a
/// name: an identifier without characters needs a `display_name`.
pub open spec fn can_be_named(id: Seq<char>, strings: Seq<(Seq<char>, Seq<char>)>) -> bool {
    string_for(strings, "display_name"@) is Some || id.len() > 0
}

/// The name a variant is shown under.
pub fn get_display_name(id: &str, strings: &Vec<(String, String)>) -> (name: String)
    requires
        can_be_named(id@, strings_view(strings@)),
    ensures
        name@ == display_name(id@, strings_view(strings@)),
{
    match lookup(strings, "display_name") {
        Some(name) => name.clone(),
        None => {
            let chars = chars_of(id);
            let mut new_chars: Vec<char> = Vec::new();
            new_chars.push(chars[0]);
            let mut i: usize = 1;
            while i < chars.len()
                invariant
                    1 <= i <= chars.len(),
                    new_chars@ == seq![chars@[0]] + spaced_lowercase(chars@.subrange(1, i as int)),
                decreases chars.len() - i,
            {
                let c = chars[i];
                let new_c = to_ascii_lowercase(c);
                assert(chars@.subrange(1, i + 1).drop_last() =~= chars@.subrange(1, i as int));
                let ghost front = spaced_lowercase(chars@.subrange(1, i as int));
                if new_c != c {
                    new_chars.push(' ');
                }
                new_chars.push(new_c);
                assert(new_chars@ =~= seq![chars@[0]] + spaced_lowercase(
                    chars@.subrange(1, i + 1),
                ));
                i += 1;
            }
            assert(chars@.subrange(1, i as int) =~= chars@.skip(1));
            string_from_chars(&new_chars)
        },
    }
}

/// The state of the control for a choice.
#[derive(Debug, PartialEq, Eq)]
pub struct Control {
    pub nesting_info: NestingInfo,
    pub default_variant: String,
    /// The variants, in the order of the settings tree.
    pub variant_labels: Vec<DisplayString>,
    /// For each variant, by identifier and in the same order, the control
    /// for what the variant holds.
    pub variant_controls: Vec<(String, SettingControl)>,
    pub gui: ChoiceControlType,
}

impl Control {
    /// The control for a choice between these variants at the place
    /// `nesting_info`, with the controls for what the variants hold. The
    /// choice is shown as a group of buttons unless `gui` says otherwise.
    pub fn new(
        nesting_info: NestingInfo,
        default: String,
        schema_variants: Vec<NamedEntry<Option<SchemaNode>>>,
        gui: Option<ChoiceControlType>,
    ) -> (control: Self)
        requires
            buildable(nesting_info@, choice_node(default, schema_variants, gui)),
        ensures
            built(
                SettingControl::Choice(control),
                nesting_info@,
                choice_node(default, schema_variants, gui),
            ),
    {
        Self::build(&nesting_info, &default, &schema_variants, &gui)
    }

    /// The same, reading the variants where they lie.
    pub(crate) fn build(
        nesting_info: &NestingInfo,
        default: &String,
        schema_variants: &Vec<NamedEntry<Option<SchemaNode>>>,
        gui: &Option<ChoiceControlType>,
    ) -> (control: Self)
        requires
            buildable(nesting_info@, choice_node(*default, *schema_variants, *gui)),
        ensures
            built(
                SettingControl::Choice(control),
                nesting_info@,
                choice_node(*default, *schema_variants, *gui),
            ),
        decreases *schema_variants, 1int,
    {
        let ghost schema = choice_node(*default, *schema_variants, *gui);
        let mut variant_labels: Vec<DisplayString> = Vec::new();
        let mut variant_controls: Vec<(String, SettingControl)> = Vec::new();
        let mut i: usize = 0;
        while i < schema_variants.len()
            invariant
                i <= schema_variants.len(),
                schema == choice_node(*default, *schema_variants, *gui),
                buildable(nesting_info@, schema),
                variant_labels.len() == i,
                variant_controls.len() == i,
                forall|k: int|
                    0 <= k < i ==> {
                        &&& variant_labels[k]@ == DisplayStringView {
                            id: (#[trigger] schema_variants[k]).name@,
                            display: display_name(
                                schema_variants[k].name@,
                                strings_view(schema_variants[k].strings@),
                            ),
                        }
                        &&& variant_controls[k].0@ == schema_variants[k].name@
                        &&& match schema_variants[k].content {
                            Some(inner) => built(
                                variant_controls[k].1,
                                nested(
                                    nesting_info@,
                                    PathSegmentView::Name(schema_variants[k].name@),
                                ),
                                inner,
                            ),
                            None => variant_controls[k].1 is Empty,
                        }
                    },
            decreases schema_variants.len() - i,
        {
            let entry = &schema_variants[i];
            proof {
                let e = schema_variants[i as int];
                assert(*entry == e);
                assert(schema->Choice_variants == *schema_variants);
                assert(can_be_named(e.name@, strings_view(e.strings@)));
                assert(decreases_to!(*schema_variants => e));
                assert(decreases_to!(e => e.content));
                if let Some(inner) = e.content {
                    assert(decreases_to!(e.content => inner));
                }
            }
            variant_labels.push(
                DisplayString {
                    id: entry.name.clone(),
                    display: get_display_name(entry.name.as_str(), &entry.strings),
                },
            );
            let control = match &entry.content {
                Some(inner) => {
                    let child = nesting_info.child(entry.name.as_str());
                    SettingControl::build(&child, inner)
                },
                None => SettingControl::Empty,
            };
            variant_controls.push((entry.name.clone(), control));
            i += 1;
        }
        Control {
            nesting_info: nesting_info.clone(),
            default_variant: default.clone(),
            variant_labels,
            variant_controls,
            gui: match gui {
                Some(shown) => *shown,
                None => ChoiceControlType::ButtonGroup,
            },
        }
    }

    /// The request that a click on a variant stands for.
    pub fn variant_request(&self, variant: &String) -> (request: Option<DashboardRequest>)
        ensures
            request matches Some(r) && sets_value(
                r,
                self.nesting_info@.path.push(PathSegmentView::Name("variant"@)),
                SettingValueView::Text(variant@),
            ),
    {
        set_single_value(
            &self.nesting_info,
            PathSegment::Name("variant".to_string()),
            SettingValue::Text(variant.clone()),
        )
    }

    /// The control for what `variant` holds: that of the first variant
    /// with this identifier, if there is one.
    pub fn control_of(&self, variant: &String) -> (control: Option<&SettingControl>)
        ensures
            match control {
                Some(c) => exists|i: int|
                    0 <= i < self.variant_controls.len() && (
                    #[trigger] self.variant_controls[i]).0@ == variant@ && *c
                        == self.variant_controls[i].1,
                None => forall|i: int|
                    0 <= i < self.variant_controls.len() ==> (
                    #[trigger] self.variant_controls[i]).0@ != variant@,
            },
    {
        let mut i: usize = 0;
        while i < self.variant_controls.len()
            invariant
                i <= self.variant_controls.len(),
                forall|k: int| 0 <= k < i ==> (#[trigger] self.variant_controls[k]).0@ != variant@,
            decreases self.variant_controls.len() - i,
        {
            if self.variant_controls[i].0 == *variant {
                return Some(&self.variant_controls[i].1);
            }
            i += 1;
        }
        None
    }
}

} // verus!
