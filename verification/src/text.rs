//! Strings as sequences of characters: the views that the contracts of this
//! crate are stated over.

use vstd::prelude::*;

verus! {

/// The views of a sequence of strings, in order.
pub open spec fn texts(strings: Seq<String>) -> Seq<Seq<char>> {
    strings.map_values(|s: String| s@)
}

/// The view of an optional string.
pub open spec fn optional_text(text: Option<String>) -> Option<Seq<char>> {
    match text {
        Some(text) => Some(text@),
        None => None,
    }
}

} // verus!
