//! A filled rectangle of a given size.

use vstd::prelude::*;

verus! {

/// A rectangle: its width and its height.
#[derive(Default, Copy, Clone, Debug)]
pub struct Quad {
    pub width: i32,
    pub height: i32,
}

impl Quad {
    /// The rectangle without extent.
    pub fn new() -> (q: Quad)
        ensures
            q.width == 0,
            q.height == 0,
    {
        Quad { width: 0, height: 0 }
    }

    /// The same rectangle with another width.
    pub fn width(&self, width: i32) -> (q: Quad)
        ensures
            q.width == width,
            q.height == self.height,
    {
        Quad { width, height: self.height }
    }

    /// The same rectangle with another height.
    pub fn height(&self, height: i32) -> (q: Quad)
        ensures
            q.width == self.width,
            q.height == height,
    {
        Quad { width: self.width, height }
    }
}

/// The rectangle of this width and height.
pub fn quad(width: i32, height: i32) -> (q: Quad)
    ensures
        q.width == width,
        q.height == height,
{
    Quad { width, height }
}

} // verus!
