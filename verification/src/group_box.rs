//! The grid of the groups.

use crate::settings::Environment;
use vstd::prelude::*;

verus! {

/// The grid of the groups: it has a fixed number of columns.
#[derive(Debug)]
pub struct GroupBox {
    cols: usize,
}

impl View for GroupBox {
    type V = nat;

    /// The number of columns.
    closed spec fn view(&self) -> nat {
        self.cols as nat
    }
}

impl GroupBox {
    /// A grid of `cols` columns.
    pub fn new(_env: &Environment, cols: usize) -> (group_box: GroupBox)
        ensures
            group_box@ == cols,
    {
        GroupBox { cols }
    }

    /// The number of columns.
    pub fn cols(&self) -> (cols: usize)
        ensures
            cols == self@,
    {
        self.cols
    }
}

} // verus!
