//! Property lists as the `plist` crate reads them, and the mathematical
//! value that each stands for.

use vstd::prelude::*;
use crate::config::opt_text;

verus! {

/// `plist::Value`, seen through [`plist_view`].
#[verifier::external_type_specification]
#[verifier::external_body]
pub struct ExPlistValue(plist::Value);

/// `plist::Dictionary`, seen through [`plist_entries`].
#[verifier::external_type_specification]
#[verifier::external_body]
pub struct ExPlistDictionary(plist::Dictionary);

/// A property list value, as far as the library reads one.
pub enum PlistView {
    Text(Seq<char>),
    Array(Seq<PlistView>),
    Dictionary(Map<Seq<char>, PlistView>),
    /// A number, a date, a boolean, or data.
    Other,
}

impl PlistView {
    /// The entries of a value that is a dictionary.
    pub open spec fn entries(self) -> Option<Map<Seq<char>, PlistView>> {
        match self {
            PlistView::Dictionary(entries) => Some(entries),
            _ => None,
        }
    }

    /// The text of a value that is a string.
    pub open spec fn text(self) -> Option<Seq<char>> {
        match self {
            PlistView::Text(t) => Some(t),
            _ => None,
        }
    }

    /// The items of a value that is an array.
    pub open spec fn items(self) -> Option<Seq<PlistView>> {
        match self {
            PlistView::Array(items) => Some(items),
            _ => None,
        }
    }
}

/// The entry of a dictionary under a key.
pub open spec fn entry_of(entries: Map<Seq<char>, PlistView>, key: Seq<char>) -> Option<PlistView> {
    if entries.contains_key(key) {
        Some(entries[key])
    } else {
        None
    }
}

/// The text of the entry of a dictionary under a key, where that entry is a string.
pub open spec fn entry_text(entries: Map<Seq<char>, PlistView>, key: Seq<char>) -> Option<
    Seq<char>,
> {
    match entry_of(entries, key) {
        Some(v) => v.text(),
        None => None,
    }
}

/// The property list value that a `plist::Value` holds.
pub uninterp spec fn plist_view(value: plist::Value) -> PlistView;

/// The entries that a `plist::Dictionary` holds.
pub uninterp spec fn plist_entries(dict: plist::Dictionary) -> Map<Seq<char>, PlistView>;

/// The property list that the bytes of a file hold, in any of its
/// encodings; `None` where the bytes are no property list.
pub uninterp spec fn plist_parsed(bytes: Seq<u8>) -> Option<PlistView>;

/// The property list values that a sequence of `plist::Value` holds.
pub open spec fn plist_views(values: Seq<plist::Value>) -> Seq<PlistView> {
    Seq::new(values.len(), |i: int| plist_view(values[i]))
}

/// `plist::Value::from_reader` on the bytes of a file.
#[verifier::external_body]
pub(crate) fn parse(bytes: &Vec<u8>) -> (r: Option<plist::Value>)
    ensures
        match r {
            Some(v) => plist_parsed(bytes@) == Some(plist_view(v)),
            None => plist_parsed(bytes@) is None,
        },
{
    plist::Value::from_reader(std::io::Cursor::new(bytes.as_slice())).ok()
}

/// `plist::Value::as_dictionary`: the dictionary, and nothing for any other value.
#[verifier::external_body]
pub(crate) fn dictionary_of<'a>(value: &'a plist::Value) -> (r: Option<&'a plist::Dictionary>)
    ensures
        match r {
            Some(d) => plist_view(*value).entries() == Some(plist_entries(*d)),
            None => plist_view(*value).entries() is None,
        },
{
    value.as_dictionary()
}

/// `plist::Dictionary::get`: the entry under a key.
#[verifier::external_body]
pub(crate) fn entry<'a>(dict: &'a plist::Dictionary, key: &str) -> (r: Option<&'a plist::Value>)
    ensures
        match r {
            Some(v) => entry_of(plist_entries(*dict), key@) == Some(plist_view(*v)),
            None => entry_of(plist_entries(*dict), key@) is None,
        },
{
    dict.get(key)
}

/// `plist::Value::as_string`: the text of a string, and nothing for any other value.
#[verifier::external_body]
pub(crate) fn text_of(value: &plist::Value) -> (r: Option<String>)
    ensures
        opt_text(r) == plist_view(*value).text(),
{
    value.as_string().map(|s| s.to_string())
}

/// `plist::Value::as_array`: the items of an array, and nothing for any other value.
#[verifier::external_body]
pub(crate) fn items_of<'a>(value: &'a plist::Value) -> (r: Option<&'a Vec<plist::Value>>)
    ensures
        match r {
            Some(items) => plist_view(*value).items() == Some(plist_views(items@)),
            None => plist_view(*value).items() is None,
        },
{
    value.as_array()
}

/// The text of the entry of a dictionary under a key, where that entry is a string.
pub fn text_at(dict: &plist::Dictionary, key: &str) -> (r: Option<String>)
    ensures
        opt_text(r) == entry_text(plist_entries(*dict), key@),
{
    match entry(dict, key) {
        Some(v) => text_of(v),
        None => None,
    }
}

/// The dictionary that the bytes of a property list file hold.
pub open spec fn parsed_dictionary(bytes: Seq<u8>) -> Option<Map<Seq<char>, PlistView>> {
    match plist_parsed(bytes) {
        Some(v) => v.entries(),
        None => None,
    }
}

/// The label that a launch agent definition declares.
pub open spec fn declared_label(bytes: Seq<u8>) -> Option<Seq<char>> {
    match parsed_dictionary(bytes) {
        Some(d) => entry_text(d, "Label"@),
        None => None,
    }
}

/// The label that the launch agent definition with the given bytes declares.
pub fn parse_launchd_label(bytes: &Vec<u8>) -> (r: Option<String>)
    ensures
        opt_text(r) == declared_label(bytes@),
{
    let value = match parse(bytes) {
        Some(v) => v,
        None => {
            return None;
        },
    };
    match dictionary_of(&value) {
        Some(d) => text_at(d, "Label"),
        None => None,
    }
}

/// Whether one of the items is the given text.
pub open spec fn names_text(items: Seq<PlistView>, text: Seq<char>) -> bool {
    exists|i: int| 0 <= i < items.len() && (#[trigger] items[i]).text() == Some(text)
}

/// Whether a launch agent runs the given script: as its program, or as one
/// of its program arguments.
pub open spec fn agent_runs(dict: Map<Seq<char>, PlistView>, run_script: Seq<char>) -> bool {
    ||| entry_text(dict, "Program"@) == Some(run_script)
    ||| match entry_of(dict, "ProgramArguments"@) {
        Some(args) => match args.items() {
            Some(items) => names_text(items, run_script),
            None => false,
        },
        None => false,
    }
}

/// The label of a launch agent that runs the given script.
pub open spec fn label_for_script(bytes: Seq<u8>, run_script: Seq<char>) -> Option<Seq<char>> {
    match parsed_dictionary(bytes) {
        Some(d) => if entry_text(d, "Label"@) is Some && agent_runs(d, run_script) {
            entry_text(d, "Label"@)
        } else {
            None
        },
        None => None,
    }
}

fn any_is(items: &Vec<plist::Value>, text: &str) -> (r: bool)
    ensures
        r == names_text(plist_views(items@), text@),
{
    let ghost all = plist_views(items@);
    let mut i: usize = 0;
    while i < items.len()
        invariant
            i <= items.len(),
            all == plist_views(items@),
            forall|k: int| 0 <= k < i ==> (#[trigger] all[k]).text() != Some(text@),
        decreases items.len() - i,
    {
        assert(all[i as int] == plist_view(items@[i as int]));
        if let Some(t) = text_of(&items[i]) {
            if crate::text::str_eq(t.as_str(), text) {
                return true;
            }
        }
        i += 1;
    }
    false
}

/// The label of the launch agent with the given definition, if the agent
/// runs the given script.
pub fn parse_launchd_label_for_run_script(bytes: &Vec<u8>, run_script: &str) -> (r: Option<String>)
    ensures
        opt_text(r) == label_for_script(bytes@, run_script@),
{
    let value = match parse(bytes) {
        Some(v) => v,
        None => {
            return None;
        },
    };
    let dict = match dictionary_of(&value) {
        Some(d) => d,
        None => {
            return None;
        },
    };
    let label = match text_at(dict, "Label") {
        Some(l) => l,
        None => {
            return None;
        },
    };
    let by_program = match text_at(dict, "Program") {
        Some(p) => crate::text::str_eq(p.as_str(), run_script),
        None => false,
    };
    let by_argument = match entry(dict, "ProgramArguments") {
        Some(args) => match items_of(args) {
            Some(items) => any_is(items, run_script),
            None => false,
        },
        None => false,
    };
    if by_program || by_argument {
        Some(label)
    } else {
        None
    }
}

} // verus!
