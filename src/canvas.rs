use vstd::prelude::*;

use crate::image::{zeroed, Image, ImageModel};
use crate::random::gen_below;

verus! {

/// Random starting points drawn in one density pass.
pub const DENSITY_TRIALS: u32 = 100000;

/// How a pass that wrote into a canvas ended.
#[derive(Clone, Copy, Debug, PartialEq, Eq, Structural)]
pub enum PassStatus {
    /// The canvas was still the one the pass started on: its result is in.
    Completed,
    /// The canvas was resized since the pass started: nothing was written.
    Aborted,
}

/// The image that a session draws into, with a generation counter that goes
/// up on every resize, so that work started before a resize is recognised as
/// stale and discarded.
pub struct Canvas {
    image: Image,
    generation: u64,
}

impl Canvas {
    pub closed spec fn spec_generation(&self) -> u64 {
        self.generation
    }

    /// What the canvas's image holds.
    pub closed spec fn model(&self) -> ImageModel {
        self.image@
    }

    /// A blank canvas of `width` by `height` pixels, at generation zero.
    pub fn new(width: u32, height: u32) -> (r: Canvas)
        requires
            width <= u16::MAX,
            height <= u16::MAX,
        ensures
            r.model() == zeroed(width as nat, height as nat),
            r.generation() == 0,
    {
        Canvas { image: Image::new(width, height), generation: 0 }
    }

    #[verifier::when_used_as_spec(spec_generation)]
    pub fn generation(&self) -> (r: u64)
        ensures
            r == self.generation(),
    {
        self.generation
    }

    pub fn image(&self) -> (r: &Image)
        ensures
            r@ == self.model(),
    {
        &self.image
    }

    pub fn dimensions(&self) -> (r: (u16, u16))
        ensures
            r.0 == self.model().width,
            r.1 == self.model().height,
    {
        self.image.dimensions()
    }

    /// The count stored for pixel `(x, y)`, which must lie in the grid.
    pub fn get_pixel_iterations(&self, x: u16, y: u16) -> (r: u16)
        requires
            self.model().contains(x as int, y as int),
        ensures
            r == self.model().at(x as int, y as int),
    {
        self.image.get_pixel_iterations(x, y)
    }

    /// Discards the image for a blank one of the new size and starts a new
    /// generation.
    pub fn resize(&mut self, new_width: u32, new_height: u32)
        requires
            new_width <= u16::MAX,
            new_height <= u16::MAX,
            old(self).generation() < u64::MAX,
        ensures
            final(self).model() == zeroed(new_width as nat, new_height as nat),
            final(self).generation() == old(self).generation() + 1,
    {
        self.generation = self.generation + 1;
        self.image = Image::new(new_width, new_height);
    }

    /// The starting pixels of a density pass: `trials` pixels drawn at
    /// random from the grid, none when the grid has no pixel.
    pub fn sample_pixels(&self, rng: &mut rand::rngs::ThreadRng, trials: u32) -> (r: Vec<(u16, u16)>)
        ensures
            self.model().width > 0 && self.model().height > 0 ==> r.len() == trials,
            self.model().width == 0 || self.model().height == 0 ==> r.len() == 0,
            forall|i: int|
                0 <= i < r.len() ==> self.model().contains(
                    #[trigger] r@[i].0 as int,
                    r@[i].1 as int,
                ),
    {
        let mut samples: Vec<(u16, u16)> = Vec::new();
        let (width, height) = self.image.dimensions();
        if width == 0 || height == 0 {
            return samples;
        }
        let mut k: u32 = 0;
        while k < trials
            invariant
                k <= trials,
                samples.len() == k,
                width == self.model().width,
                height == self.model().height,
                width > 0 && height > 0,
                forall|i: int|
                    0 <= i < samples.len() ==> self.model().contains(
                        #[trigger] samples@[i].0 as int,
                        samples@[i].1 as int,
                    ),
            decreases trials - k,
        {
            let x = gen_below(rng, width);
            let y = gen_below(rng, height);
            samples.push((x, y));
            k = k + 1;
        }
        samples
    }

    /// Adds the density of `points`, computed by a pass that started at
    /// `generation`, unless the canvas has been resized since.
    pub fn accumulate(&mut self, generation: u64, points: &Vec<(i64, i64)>) -> (r: PassStatus)
        ensures
            final(self).generation() == old(self).generation(),
            generation == old(self).generation() ==> r == PassStatus::Completed
                && final(self).model() == old(self).model().accumulated(points@),
            generation != old(self).generation() ==> r == PassStatus::Aborted
                && final(self).model() == old(self).model(),
    {
        if generation != self.generation {
            return PassStatus::Aborted;
        }
        self.image.accumulate(points);
        PassStatus::Completed
    }

    /// Stores row `y` of a pass that started at `generation`, unless the
    /// canvas has been resized since. For a current pass the row must lie in
    /// the grid and hold one count per column.
    pub fn store_row(&mut self, generation: u64, y: u16, row: &Vec<u16>) -> (r: PassStatus)
        requires
            generation == old(self).generation() ==> y < old(self).model().height && row.len()
                == old(self).model().width,
        ensures
            final(self).generation() == old(self).generation(),
            generation == old(self).generation() ==> r == PassStatus::Completed
                && final(self).model() == old(self).model().with_row(y as int, row@),
            generation != old(self).generation() ==> r == PassStatus::Aborted
                && final(self).model() == old(self).model(),
    {
        if generation != self.generation {
            return PassStatus::Aborted;
        }
        self.image.set_row(y, row);
        PassStatus::Completed
    }
}

/// A canvas just resized reads zero at every pixel of its new grid.
pub proof fn lemma_resized_canvas_reads_zero(c: Canvas, width: nat, height: nat, x: int, y: int)
    requires
        c.model() == zeroed(width, height),
        0 <= x < width,
        0 <= y < height,
    ensures
        c.model().at(x, y) == 0,
{
    crate::image::lemma_fresh_image_reads_zero(width, height, x, y);
}

} // verus!
