//! The filter that the user chose.

use vstd::prelude::*;

verus! {

/// Holds the group by which the hosts are filtered; empty for no filter.
#[derive(Debug)]
pub struct Controls {
    filter: String,
}

impl View for Controls {
    type V = Seq<char>;

    /// The filter.
    closed spec fn view(&self) -> Seq<char> {
        self.filter@
    }
}

impl Controls {
    /// No filter.
    pub fn new() -> (controls: Controls)
        ensures
            controls@ == Seq::<char>::empty(),
    {
        Controls { filter: String::new() }
    }

    /// Replaces the filter.
    pub fn set_filter(&mut self, value: String)
        ensures
            final(self)@ == value@,
    {
        self.filter = value;
    }

    /// The filter.
    pub fn get_filter(&self) -> (filter: String)
        ensures
            filter@ == self@,
    {
        self.filter.clone()
    }
}

} // verus!
