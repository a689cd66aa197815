//! How lists of strings and of places are spoken of in contracts.

use vstd::prelude::*;

verus! {

/// The characters of each string.
pub open spec fn strings_view(strings: Seq<String>) -> Seq<Seq<char>> {
    Seq::new(strings.len(), |i: int| strings[i]@)
}

/// The places as numbers.
pub open spec fn places_view(places: Seq<usize>) -> Seq<int> {
    Seq::new(places.len(), |k: int| places[k] as int)
}

} // verus!
