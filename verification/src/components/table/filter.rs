use crate::components::text_input::TextInput;
use crate::text::{contains_text, lowercase, occurs_in, to_lowercase};
use vstd::prelude::*;

verus! {

/// The filter of a table page.
pub enum Filter {
    /// Every row is shown.
    Disabled,
    /// The user is typing the filter.
    Input(TextInput),
    /// The filter is set and no longer edited.
    Value(String),
}

impl Filter {
    /// Whether the user is typing the filter.
    pub fn is_input(&self) -> (b: bool)
        ensures
            b == (*self is Input),
    {
        matches!(self, Filter::Input(_))
    }

    /// Whether rows are filtered.
    pub fn is_active(&self) -> (b: bool)
        ensures
            b == !(*self is Disabled),
    {
        matches!(self, Filter::Input(_) | Filter::Value(_))
    }

    /// The text that rows are filtered by, if any.
    pub open spec fn text(&self) -> Option<Seq<char>> {
        match self {
            Filter::Disabled => None,
            Filter::Input(input) => Some(input@),
            Filter::Value(value) => Some(value@),
        }
    }
}

impl Default for Filter {
    fn default() -> (f: Self)
        ensures
            f is Disabled,
    {
        Filter::Disabled
    }
}

/// Whether `search` occurs in `value` when both are lower-cased.
pub open spec fn text_matches(value: Seq<char>, search: Seq<char>) -> bool {
    occurs_in(lowercase(search), lowercase(value))
}

/// Whether `search` occurs in `value`, letter case aside.
pub fn match_str(value: &str, search: &str) -> (b: bool)
    ensures
        b == text_matches(value@, search@),
{
    let value = to_lowercase(value);
    let search = to_lowercase(search);
    contains_text(value.as_str(), search.as_str())
}

/// How the rows of a table are matched against the filter.
pub trait FilterItems<T> {
    /// The row passes the filter `search`.
    spec fn passes(item: &T, search: Seq<char>) -> bool;

    /// Whether the row passes the filter `search`.
    fn matches(item: &T, search: &str) -> (b: bool)
        ensures
            b == Self::passes(item, search@),
    ;
}

} // verus!
