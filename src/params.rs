use vstd::prelude::*;

verus! {

/// Iteration budget that a new view starts with.
pub const MAX_ITERATIONS: u16 = 40;

/// Lowest budget that halving the budget can reach.
pub const MIN_ITERATIONS: u16 = 10;

/// The two fractals the engine draws.
#[derive(Clone, Copy, Debug, PartialEq, Eq)]
pub enum FractalType {
    Mandelbrot,
    Buddahbrot,
}

/// The budget after one halving: half of `m`, but never under the floor.
pub open spec fn halved_budget(m: u16) -> u16 {
    if m / 2 < MIN_ITERATIONS {
        MIN_ITERATIONS
    } else {
        (m / 2) as u16
    }
}

/// The budget after `n` halvings, starting from `m`.
pub open spec fn halved_times(m: u16, n: nat) -> u16
    decreases n,
{
    if n == 0 {
        m
    } else {
        halved_budget(halved_times(m, (n - 1) as nat))
    }
}

/// The integer part of a view: its iteration budget, and whether the mode
/// lets the user zoom. The plane rectangle itself is kept by the caller.
pub struct Params {
    max_iterations: u16,
    support_zoom: bool,
}

/// Parameters of the escape-time view: the starting budget, with zoom.
pub fn get_mandelbrot_params() -> (r: Params)
    ensures
        r.max_iterations() == MAX_ITERATIONS,
        r.support_zoom(),
{
    Params { max_iterations: MAX_ITERATIONS, support_zoom: true }
}

/// Parameters for `fractal_type`: both start from the same budget, and only
/// the escape-time view can zoom.
pub fn get_params(fractal_type: &FractalType) -> (r: Params)
    ensures
        r.max_iterations() == MAX_ITERATIONS,
        r.support_zoom() == (*fractal_type == FractalType::Mandelbrot),
{
    match fractal_type {
        FractalType::Mandelbrot => get_mandelbrot_params(),
        FractalType::Buddahbrot => {
            let mut params = get_mandelbrot_params();
            params.support_zoom = false;
            params
        },
    }
}

impl Params {
    #[verifier::type_invariant]
    closed spec fn inv(&self) -> bool {
        self.max_iterations >= 1
    }

    pub closed spec fn spec_max_iterations(&self) -> u16 {
        self.max_iterations
    }

    pub closed spec fn spec_support_zoom(&self) -> bool {
        self.support_zoom
    }

    #[verifier::when_used_as_spec(spec_max_iterations)]
    pub fn max_iterations(&self) -> (r: u16)
        ensures
            r == self.max_iterations(),
            r >= 1,
    {
        proof {
            use_type_invariant(self);
        }
        self.max_iterations
    }

    #[verifier::when_used_as_spec(spec_support_zoom)]
    pub fn support_zoom(&self) -> (r: bool)
        ensures
            r == self.support_zoom(),
    {
        self.support_zoom
    }

    /// Doubles the budget; the doubled value must fit in a `u16`.
    pub fn increase_iterations(&mut self)
        requires
            old(self).max_iterations() <= u16::MAX / 2,
        ensures
            final(self).max_iterations() == 2 * old(self).max_iterations(),
            final(self).support_zoom() == old(self).support_zoom(),
    {
        proof {
            use_type_invariant(&*self);
        }
        self.max_iterations = self.max_iterations * 2;
    }

    /// Halves the budget, flooring it at `MIN_ITERATIONS`.
    pub fn decrease_iterations(&mut self)
        ensures
            final(self).max_iterations() == halved_budget(old(self).max_iterations()),
            final(self).support_zoom() == old(self).support_zoom(),
    {
        let halved = self.max_iterations / 2;
        if halved < MIN_ITERATIONS {
            self.max_iterations = MIN_ITERATIONS;
        } else {
            self.max_iterations = halved;
        }
    }
}

/// However often the budget is halved, it never falls under `MIN_ITERATIONS`
/// once halved at least once, nor at all when it starts at or above it.
pub proof fn lemma_halving_keeps_floor(m: u16, n: nat)
    requires
        n >= 1 || m >= MIN_ITERATIONS,
    ensures
        halved_times(m, n) >= MIN_ITERATIONS,
    decreases n,
{
    if n > 1 {
        lemma_halving_keeps_floor(m, (n - 1) as nat);
    }
}

} // verus!
