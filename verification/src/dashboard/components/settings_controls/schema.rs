//! The shape of the settings, as the controls are built from it.

use vstd::prelude::*;

verus! {

/// How a choice is shown.
#[derive(Clone, Copy, Debug, PartialEq, Eq, Structural)]
pub enum ChoiceControlType {
    Dropdown,
    ButtonGroup,
}

/// How a number is shown.
#[derive(Clone, Copy, Debug, PartialEq, Eq, Structural)]
pub enum NumericGuiType {
    Slider,
    TextBox,
}

/// One named part of a section or choice, with the texts that go with it.
#[derive(Debug, PartialEq, Eq)]
pub struct NamedEntry<T> {
    pub name: String,
    /// Texts by key, such as `display_name`, `help` and `notice`. Where a
    /// key occurs twice, the first occurrence counts.
    pub strings: Vec<(String, String)>,
    pub content: T,
}

/// A node of the settings tree.
#[derive(Debug, PartialEq, Eq)]
pub enum SchemaNode {
    Section(Vec<NamedEntry<SchemaNode>>),
    Choice {
        default: String,
        variants: Vec<NamedEntry<Option<SchemaNode>>>,
        gui: Option<ChoiceControlType>,
    },
    Switch { default_enabled: bool, content: Box<SchemaNode> },
    Boolean { default: bool },
    Text { default: String },
    /// A node of any other kind. No control is made for it.
    Other,
}

/// The texts of an entry as pairs of key and text.
pub open spec fn strings_view(strings: Seq<(String, String)>) -> Seq<(Seq<char>, Seq<char>)> {
    strings.map_values(|pair: (String, String)| (pair.0@, pair.1@))
}

/// The text that goes with `key`: that of the first pair with this key.
pub open spec fn string_for(strings: Seq<(Seq<char>, Seq<char>)>, key: Seq<char>) -> Option<
    Seq<char>,
>
    decreases strings.len(),
{
    if strings.len() == 0 {
        None
    } else if strings[0].0 == key {
        Some(strings[0].1)
    } else {
        string_for(strings.drop_first(), key)
    }
}

/// The text that goes with `key`, if there is one.
pub fn lookup<'a>(strings: &'a Vec<(String, String)>, key: &str) -> (found: Option<&'a String>)
    ensures
        found is Some <==> string_for(strings_view(strings@), key@) is Some,
        found matches Some(text) ==> Some(text@) == string_for(strings_view(strings@), key@),
{
    let wanted = key.to_string();
    let ghost all = strings_view(strings@);
    let mut i: usize = 0;
    assert(all.skip(0) =~= all);
    while i < strings.len()
        invariant
            i <= strings.len(),
            wanted@ == key@,
            all == strings_view(strings@),
            string_for(all, key@) == string_for(all.skip(i as int), key@),
        decreases strings.len() - i,
    {
        assert(all.skip(i as int)[0] == all[i as int]);
        if strings[i].0 == wanted {
            return Some(&strings[i].1);
        }
        assert(all.skip(i as int).drop_first() =~= all.skip(i + 1));
        i += 1;
    }
    assert(all.skip(i as int).len() == 0);
    None
}

} // verus!
