//! Compute engine for escape-time (Mandelbrot) and density (Buddhabrot)
//! fractals: the per-pixel iteration buffer, trajectory accumulation, the
//! iteration budget and the generation counter that retires stale work.
//!
//! Floating-point work (complex iteration, the pixel/plane mapping) is done
//! by the caller, which hands this crate integer pixel coordinates and counts.

mod canvas;
mod color;
mod image;
mod params;
mod pixel;
mod random;

pub use canvas::{lemma_resized_canvas_reads_zero, Canvas, PassStatus, DENSITY_TRIALS};
pub use color::{BlackWhite, ColorArgs, ColorModelType, HSVColor};
pub use image::{
    bumped, lemma_accumulation_never_decreases, lemma_fresh_image_reads_zero, saturating_hits,
    zeroed, Image, ImageModel, DENSITY_CEILING,
};
pub use pixel::Pixel;
pub use params::{
    get_mandelbrot_params, get_params, halved_budget, halved_times, lemma_halving_keeps_floor,
    FractalType, Params, MAX_ITERATIONS, MIN_ITERATIONS,
};
