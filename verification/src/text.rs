//! Strings as sequences of characters.
//!
//! Contracts speak of a `String` by its view, a `Seq<char>`. These are the
//! views of strings that stand in an `Option` or in a `Vec`.

use vstd::prelude::*;

verus! {

/// The view of a string that may be missing.
pub open spec fn text_of(text: Option<String>) -> Option<Seq<char>> {
    match text {
        Some(string) => Some(string@),
        None => None,
    }
}

/// The views of a sequence of strings.
pub open spec fn texts(strings: Seq<String>) -> Seq<Seq<char>> {
    strings.map_values(|string: String| string@)
}

/// The views of a sequence of strings that may be missing.
pub open spec fn texts_of(strings: Seq<Option<String>>) -> Seq<Option<Seq<char>>> {
    strings.map_values(|string: Option<String>| text_of(string))
}

} // verus!
