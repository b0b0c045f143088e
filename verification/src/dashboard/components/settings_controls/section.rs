//! The control for a section: a list of named settings.

use vstd::prelude::*;
use vstd::string::StringExecFns;
use crate::dashboard::components::settings_controls::schema::{lookup, string_for, strings_view, NamedEntry, SchemaNode};
use crate::dashboard::components::settings_controls::{buildable, built, nested, section_nesting, text_for, text_view, NestingInfo, SettingControl};
use crate::dashboard::{DisplayString, DisplayStringView};
use crate::request::PathSegmentView;
use crate::text::{chars_of, string_from_chars, uppercase, uppercase_of};

verus! {

/// `rest` with a space for every underscore.
pub open spec fn underscores_as_spaces(rest: Seq<char>) -> Seq<char> {
    rest.map_values(
        |c: char|
            if c == '_' {
                ' '
            } else {
                c
            },
    )
}

/// The name a setting is shown under: the text given for `display_name`,
/// or else the identifier with its first character in upper case and its
/// underscores as spaces.
pub open spec fn display_name(id: Seq<char>, strings: Seq<(Seq<char>, Seq<char>)>) -> Seq<char> {
    match string_for(strings, "display_name"@) {
        Some(name) => name,
        None => uppercase_of(id[0]) + underscores_as_spaces(id.skip(1)),
    }
}

/// Whether a setting with this identifier and these texts can be given a
/// name: an identifier without characters needs a `display_name`.
pub open spec fn can_be_named(id: Seq<char>, strings: Seq<(Seq<char>, Seq<char>)>) -> bool {
    string_for(strings, "display_name"@) is Some || id.len() > 0
}

/// The name a setting is shown under.
pub fn get_display_name(id: &str, strings: &Vec<(String, String)>) -> (name: String)
    requires
        can_be_named(id@, strings_view(strings@)),
    ensures
        name@ == display_name(id@, strings_view(strings@)),
{
    match lookup(strings, "display_name") {
        Some(name) => name.clone(),
        None => {
            let chars = chars_of(id);
            let mut rest: Vec<char> = Vec::new();
            let mut i: usize = 1;
            while i < chars.len()
                invariant
                    1 <= i <= chars.len(),
                    rest@ == underscores_as_spaces(chars@.subrange(1, i as int)),
                decreases chars.len() - i,
            {
                let c = chars[i];
                let ghost before = rest@;
                rest.push(
                    if c == '_' {
                        ' '
                    } else {
                        c
                    },
                );
                assert(rest@ =~= underscores_as_spaces(chars@.subrange(1, i + 1)));
                i += 1;
            }
            assert(chars@.subrange(1, i as int) =~= chars@.skip(1));
            let mut name = uppercase(chars[0]);
            name.append(string_from_chars(&rest).as_str());
            name
        },
    }
}

/// One row of a section.
#[derive(Debug, PartialEq, Eq)]
pub struct Entry {
    pub id: DisplayString,
    pub help: Option<String>,
    pub notice: Option<String>,
    pub control: SettingControl,
}

/// The state of the control for a section.
#[derive(Debug, PartialEq, Eq)]
pub struct Control {
    pub nesting_info: NestingInfo,
    pub entries: Vec<Entry>,
}

impl Control {
    /// The control for a section with these settings at the place
    /// `nesting_info`, with the controls for all the settings.
    pub fn new(nesting_info: NestingInfo, schema_entries: Vec<NamedEntry<SchemaNode>>) -> (control:
        Self)
        requires
            buildable(nesting_info@, SchemaNode::Section(schema_entries)),
        ensures
            built(
                SettingControl::Section(control),
                nesting_info@,
                SchemaNode::Section(schema_entries),
            ),
    {
        Self::build(&nesting_info, &schema_entries)
    }

    /// The same, reading the settings where they lie.
    pub(crate) fn build(nesting_info: &NestingInfo, schema_entries: &Vec<NamedEntry<SchemaNode>>) -> (control:
        Self)
        requires
            buildable(nesting_info@, SchemaNode::Section(*schema_entries)),
        ensures
            built(
                SettingControl::Section(control),
                nesting_info@,
                SchemaNode::Section(*schema_entries),
            ),
        decreases *schema_entries, 1int,
    {
        let ghost given = nesting_info@;
        let ghost schema = SchemaNode::Section(*schema_entries);
        let mut inner = nesting_info.clone();
        if inner.path.len() > 1 {
            inner.indentation_level += 1;
        }
        let mut entries: Vec<Entry> = Vec::new();
        let mut i: usize = 0;
        while i < schema_entries.len()
            invariant
                i <= schema_entries.len(),
                schema == SchemaNode::Section(*schema_entries),
                buildable(given, schema),
                inner@ == section_nesting(given),
                entries.len() == i,
                forall|k: int|
                    0 <= k < i ==> {
                        &&& entries[k].id@ == DisplayStringView {
                            id: (#[trigger] schema_entries[k]).name@,
                            display: display_name(
                                schema_entries[k].name@,
                                strings_view(schema_entries[k].strings@),
                            ),
                        }
                        &&& text_view(entries[k].help) == string_for(
                            strings_view(schema_entries[k].strings@),
                            "help"@,
                        )
                        &&& text_view(entries[k].notice) == string_for(
                            strings_view(schema_entries[k].strings@),
                            "notice"@,
                        )
                        &&& built(
                            entries[k].control,
                            nested(inner@, PathSegmentView::Name(schema_entries[k].name@)),
                            schema_entries[k].content,
                        )
                    },
            decreases schema_entries.len() - i,
        {
            let entry = &schema_entries[i];
            proof {
                let e = schema_entries[i as int];
                assert(*entry == e);
                assert(schema->Section_0 == *schema_entries);
                assert(can_be_named(e.name@, strings_view(e.strings@)));
                assert(decreases_to!(*schema_entries => e));
                assert(decreases_to!(e => e.content));
            }
            let id = entry.name.clone();
            let display = get_display_name(entry.name.as_str(), &entry.strings);
            let help = text_for(&entry.strings, "help");
            let notice = text_for(&entry.strings, "notice");
            let child = inner.child(entry.name.as_str());
            let control = SettingControl::build(&child, &entry.content);
            entries.push(Entry { id: DisplayString { id, display }, help, notice, control });
            i += 1;
        }
        Control { nesting_info: inner, entries }
    }
}

} // verus!
