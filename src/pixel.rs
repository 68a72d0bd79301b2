use vstd::prelude::*;

verus! {

/// One computed result: the iteration count found for the pixel `(x, y)`.
#[derive(Clone, Copy, Debug, PartialEq, Eq)]
pub struct Pixel {
    pub x: u16,
    pub y: u16,
    pub iterations: u16,
}

impl Pixel {
    pub fn new(x: u16, y: u16, iterations: u16) -> (r: Self)
        ensures
            r.x == x,
            r.y == y,
            r.iterations == iterations,
    {
        Self { x, y, iterations }
    }

    pub fn x(&self) -> (r: u16)
        ensures
            r == self.x,
    {
        self.x
    }

    pub fn y(&self) -> (r: u16)
        ensures
            r == self.y,
    {
        self.y
    }

    pub fn iterations(&self) -> (r: u16)
        ensures
            r == self.iterations,
    {
        self.iterations
    }
}

} // verus!
