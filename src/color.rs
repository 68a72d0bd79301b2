use vstd::prelude::*;

use crate::params::MAX_ITERATIONS;

verus! {

/// The color schemes a session can draw with.
#[derive(Clone, Copy, Debug, PartialEq, Eq)]
pub enum ColorModelType {
    BlackWhite,
    HSVColor,
}

/// The inputs of a color mapping: a pixel's count and the budget it was
/// computed with.
pub struct ColorArgs {
    pub iterations: u16,
    pub max_iterations: u16,
}

impl ColorArgs {
    pub fn new(iterations: u16, max_iterations: u16) -> (r: Self)
        ensures
            r.iterations == iterations,
            r.max_iterations == max_iterations,
    {
        Self { iterations, max_iterations }
    }

    /// Whether the orbit left the escape radius before the budget ran out.
    pub fn escaped(&self) -> (r: bool)
        ensures
            r == (self.iterations < self.max_iterations),
    {
        self.iterations < self.max_iterations
    }
}

/// Gray-scale scheme: white for an immediate escape, black inside the set.
pub struct BlackWhite {
    max_iterations: u16,
}

impl BlackWhite {
    pub closed spec fn spec_max_iterations(&self) -> u16 {
        self.max_iterations
    }

    /// The scheme for the starting budget.
    pub fn new() -> (r: Self)
        ensures
            r.max_iterations() == MAX_ITERATIONS,
    {
        Self::new_with_max_iterations(MAX_ITERATIONS)
    }

    pub fn new_with_max_iterations(max_iterations: u16) -> (r: Self)
        ensures
            r.max_iterations() == max_iterations,
    {
        Self { max_iterations }
    }

    #[verifier::when_used_as_spec(spec_max_iterations)]
    pub fn max_iterations(&self) -> (r: u16)
        ensures
            r == self.max_iterations(),
    {
        self.max_iterations
    }
}

/// Hue scheme: the count picks a hue on the color wheel, black inside the set.
pub struct HSVColor {
    max_iterations: u16,
}

impl HSVColor {
    pub closed spec fn spec_max_iterations(&self) -> u16 {
        self.max_iterations
    }

    /// The scheme for the starting budget.
    pub fn new() -> (r: Self)
        ensures
            r.max_iterations() == MAX_ITERATIONS,
    {
        Self::new_with_max_iterations(MAX_ITERATIONS)
    }

    pub fn new_with_max_iterations(max_iterations: u16) -> (r: Self)
        ensures
            r.max_iterations() == max_iterations,
    {
        Self { max_iterations }
    }

    #[verifier::when_used_as_spec(spec_max_iterations)]
    pub fn max_iterations(&self) -> (r: u16)
        ensures
            r == self.max_iterations(),
    {
        self.max_iterations
    }
}

} // verus!
