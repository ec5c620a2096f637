//! The root element that a component renders, as plain values.

use vstd::prelude::*;

verus! {

/// What a component puts on its root element: the tag, the identifier handed
/// through from the properties, and the composed `class` attribute.
#[derive(Clone, Debug, PartialEq, Eq)]
pub struct Element {
    pub tag: String,
    pub id: Option<String>,
    pub class: String,
}

/// The fragment that an optional custom class contributes: its text, or the
/// empty fragment where none was given.
pub open spec fn custom_fragment(class: Option<String>) -> Seq<char> {
    match class {
        Some(text) => text@,
        None => Seq::empty(),
    }
}

/// A copy of an optional text.
pub fn clone_text(text: &Option<String>) -> (copy: Option<String>)
    ensures
        copy == *text,
{
    match text {
        Some(t) => Some(t.clone()),
        None => None,
    }
}

/// The text of an optional custom class, empty where none was given.
pub fn custom_class_text(class: &Option<String>) -> (text: &str)
    ensures
        text@ == custom_fragment(*class),
{
    proof {
        reveal_strlit("");
    }
    match class {
        Some(t) => t.as_str(),
        None => "",
    }
}

} // verus!
