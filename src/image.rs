use vstd::prelude::*;

use crate::pixel::Pixel;

verus! {

/// A density counter that has reached this value takes no further increments.
pub const DENSITY_CEILING: u16 = 60000;

/// What an image holds: its grid size and one count per pixel, stored row by
/// row, so that pixel `(x, y)` sits at `y * width + x`.
pub ghost struct ImageModel {
    pub width: nat,
    pub height: nat,
    pub counts: Seq<u16>,
}

impl ImageModel {
    pub open spec fn wf(self) -> bool {
        self.counts.len() == self.width * self.height
    }

    pub open spec fn contains(self, x: int, y: int) -> bool {
        0 <= x < self.width && 0 <= y < self.height
    }

    pub open spec fn index_of(self, x: int, y: int) -> int {
        y * self.width + x
    }

    pub open spec fn at(self, x: int, y: int) -> u16 {
        self.counts[self.index_of(x, y)]
    }

    /// The same grid with pixel `(x, y)` set to `v`.
    pub open spec fn with_pixel(self, x: int, y: int, v: u16) -> ImageModel {
        ImageModel { counts: self.counts.update(self.index_of(x, y), v), ..self }
    }

    /// The same grid with row `y` replaced by `row`.
    pub open spec fn with_row(self, y: int, row: Seq<u16>) -> ImageModel {
        ImageModel {
            counts: Seq::new(
                self.counts.len(),
                |i: int|
                    if y * self.width <= i < y * self.width + self.width {
                        row[i - y * self.width]
                    } else {
                        self.counts[i]
                    },
            ),
            ..self
        }
    }

    /// Whether the trajectory point `p` falls inside the grid on the slot `i`.
    pub open spec fn lands_on(self, p: (i64, i64), i: int) -> bool {
        self.contains(p.0 as int, p.1 as int) && self.index_of(p.0 as int, p.1 as int) == i
    }

    /// How many of `points` fall on the slot `i`.
    pub open spec fn hits(self, points: Seq<(i64, i64)>, i: int) -> nat
        decreases points.len(),
    {
        if points.len() == 0 {
            0
        } else {
            self.hits(points.drop_last(), i) + if self.lands_on(points.last(), i) {
                1nat
            } else {
                0nat
            }
        }
    }

    /// The grid after one saturating increment per point of `points` that
    /// falls inside it; points outside the grid are dropped.
    pub open spec fn accumulated(self, points: Seq<(i64, i64)>) -> ImageModel {
        ImageModel {
            counts: Seq::new(
                self.counts.len(),
                |i: int| saturating_hits(self.counts[i], self.hits(points, i)),
            ),
            ..self
        }
    }
}

/// A blank grid of `width` by `height` pixels.
pub open spec fn zeroed(width: nat, height: nat) -> ImageModel {
    ImageModel { width, height, counts: Seq::new(width * height, |i: int| 0u16) }
}

/// One density increment: a counter below the ceiling goes up by one, any
/// other stays where it is.
pub open spec fn bumped(v: u16) -> u16 {
    if v < DENSITY_CEILING {
        (v + 1) as u16
    } else {
        v
    }
}

/// The counter `v` after `n` density increments.
pub open spec fn saturating_hits(v: u16, n: nat) -> u16 {
    if v >= DENSITY_CEILING {
        v
    } else if v + n >= DENSITY_CEILING {
        DENSITY_CEILING
    } else {
        (v + n) as u16
    }
}

/// A dense grid of per-pixel iteration counts.
pub struct Image {
    width: u16,
    height: u16,
    iterations: Vec<u16>,
}

impl View for Image {
    type V = ImageModel;

    closed spec fn view(&self) -> ImageModel {
        ImageModel {
            width: self.width as nat,
            height: self.height as nat,
            counts: self.iterations@,
        }
    }
}

proof fn lemma_index_in_grid(width: nat, height: nat, x: int, y: int)
    requires
        0 <= x < width,
        0 <= y < height,
    ensures
        0 <= y * width + x < width * height,
{
    assert(0 <= y * width + x < width * height) by (nonlinear_arith)
        requires
            0 <= x < width,
            0 <= y < height,
    ;
}

proof fn lemma_saturating_hits_step(v: u16, n: nat)
    ensures
        saturating_hits(v, n + 1) == bumped(saturating_hits(v, n)),
{
}

/// Accumulating one more point changes at most the slot it lands on.
proof fn lemma_accumulated_push(m: ImageModel, points: Seq<(i64, i64)>, p: (i64, i64))
    requires
        m.wf(),
    ensures
        m.contains(p.0 as int, p.1 as int) ==> m.accumulated(points.push(p)) == m.accumulated(
            points,
        ).with_pixel(
            p.0 as int,
            p.1 as int,
            bumped(m.accumulated(points).at(p.0 as int, p.1 as int)),
        ),
        !m.contains(p.0 as int, p.1 as int) ==> m.accumulated(points.push(p)) == m.accumulated(
            points,
        ),
{
    let longer = points.push(p);
    assert(longer.drop_last() =~= points);
    assert forall|i: int| 0 <= i < m.counts.len() implies #[trigger] m.hits(longer, i) == m.hits(
        points,
        i,
    ) + if m.lands_on(p, i) {
        1nat
    } else {
        0nat
    } by {
        assert(longer.last() == p);
    }
    assert forall|i: int| 0 <= i < m.counts.len() implies saturating_hits(
        m.counts[i],
        #[trigger] m.hits(longer, i),
    ) == if m.lands_on(p, i) {
        bumped(saturating_hits(m.counts[i], m.hits(points, i)))
    } else {
        saturating_hits(m.counts[i], m.hits(points, i))
    } by {
        lemma_saturating_hits_step(m.counts[i], m.hits(points, i));
    }
    if m.contains(p.0 as int, p.1 as int) {
        lemma_index_in_grid(m.width, m.height, p.0 as int, p.1 as int);
        assert(m.accumulated(longer).counts =~= m.accumulated(points).with_pixel(
            p.0 as int,
            p.1 as int,
            bumped(m.accumulated(points).at(p.0 as int, p.1 as int)),
        ).counts);
    } else {
        assert(m.accumulated(longer).counts =~= m.accumulated(points).counts);
    }
}

/// A freshly allocated image reads zero at every pixel of its grid.
pub proof fn lemma_fresh_image_reads_zero(width: nat, height: nat, x: int, y: int)
    requires
        0 <= x < width,
        0 <= y < height,
    ensures
        zeroed(width, height).at(x, y) == 0,
{
    lemma_index_in_grid(width, height, x, y);
}

/// Density only grows: a second accumulation pass over the same image leaves
/// every counter at least where the first pass left it, and the first pass
/// leaves every counter at least where it was.
pub proof fn lemma_accumulation_never_decreases(
    m: ImageModel,
    first: Seq<(i64, i64)>,
    second: Seq<(i64, i64)>,
)
    ensures
        forall|i: int|
            0 <= i < m.counts.len() ==> #[trigger] m.accumulated(first).counts[i] >= m.counts[i],
        forall|i: int|
            0 <= i < m.counts.len() ==> #[trigger] m.accumulated(first).accumulated(second).counts[i]
                >= m.accumulated(first).counts[i],
{
}

impl Image {
    #[verifier::type_invariant]
    closed spec fn inv(&self) -> bool {
        self@.wf()
    }

    /// A blank image of `width` by `height` pixels.
    pub fn new(width: u32, height: u32) -> (r: Image)
        requires
            width <= u16::MAX,
            height <= u16::MAX,
        ensures
            r@ == zeroed(width as nat, height as nat),
    {
        assert(width * height <= u16::MAX * u16::MAX) by (nonlinear_arith)
            requires
                width <= u16::MAX,
                height <= u16::MAX,
        ;
        let iterations: Vec<u16> = vec![0u16; (width * height) as usize];
        let r = Image { width: width as u16, height: height as u16, iterations };
        assert(r@.counts =~= zeroed(width as nat, height as nat).counts);
        r
    }

    pub fn width(&self) -> (r: u16)
        ensures
            r == self@.width,
    {
        self.width
    }

    pub fn height(&self) -> (r: u16)
        ensures
            r == self@.height,
    {
        self.height
    }

    pub fn dimensions(&self) -> (r: (u16, u16))
        ensures
            r.0 == self@.width,
            r.1 == self@.height,
    {
        (self.width, self.height)
    }

    /// Position of pixel `(x, y)` in the row-by-row storage.
    pub fn get_index(&self, x: u16, y: u16) -> (r: usize)
        ensures
            r == self@.index_of(x as int, y as int),
    {
        assert(y * self.width + x <= u16::MAX * u16::MAX + u16::MAX) by (nonlinear_arith)
            requires
                x <= u16::MAX,
                y <= u16::MAX,
                self.width <= u16::MAX,
        ;
        (y as u32 * self.width as u32 + x as u32) as usize
    }

    /// The count stored for pixel `(x, y)`, which must lie in the grid.
    pub fn get_pixel_iterations(&self, x: u16, y: u16) -> (r: u16)
        requires
            self@.contains(x as int, y as int),
        ensures
            r == self@.at(x as int, y as int),
    {
        proof {
            use_type_invariant(self);
            lemma_index_in_grid(self@.width, self@.height, x as int, y as int);
        }
        let index = self.get_index(x, y);
        self.iterations[index]
    }

    /// The count stored for pixel `(x, y)`, or `None` where the pixel lies
    /// outside the grid.
    pub fn try_get_pixel_iterations(&self, x: u16, y: u16) -> (r: Option<u16>)
        ensures
            self@.contains(x as int, y as int) ==> r == Some(self@.at(x as int, y as int)),
            !self@.contains(x as int, y as int) ==> r.is_none(),
    {
        if x < self.width && y < self.height {
            Some(self.get_pixel_iterations(x, y))
        } else {
            None
        }
    }

    /// Stores the count of `pixel`, which must lie in the grid.
    pub fn set_pixel_iterations(&mut self, pixel: &Pixel)
        requires
            old(self)@.contains(pixel.x as int, pixel.y as int),
        ensures
            final(self)@ == old(self)@.with_pixel(pixel.x as int, pixel.y as int, pixel.iterations),
    {
        proof {
            use_type_invariant(&*self);
            lemma_index_in_grid(self@.width, self@.height, pixel.x as int, pixel.y as int);
        }
        let index = self.get_index(pixel.x(), pixel.y());
        self.iterations[index] = pixel.iterations();
    }

    /// Adds one to the density counter of `pixel`. A pixel outside the grid
    /// is ignored, and a counter at the ceiling stays where it is.
    pub fn increment_pixel(&mut self, pixel: &Pixel)
        ensures
            old(self)@.contains(pixel.x as int, pixel.y as int) ==> final(self)@ == old(self)@.with_pixel(
                pixel.x as int,
                pixel.y as int,
                bumped(old(self)@.at(pixel.x as int, pixel.y as int)),
            ),
            !old(self)@.contains(pixel.x as int, pixel.y as int) ==> final(self)@ == old(self)@,
    {
        if pixel.x() < self.width && pixel.y() < self.height {
            proof {
                use_type_invariant(&*self);
                lemma_index_in_grid(self@.width, self@.height, pixel.x as int, pixel.y as int);
            }
            let index = self.get_index(pixel.x(), pixel.y());
            let v = self.iterations[index];
            if v < DENSITY_CEILING {
                self.iterations[index] = v + 1;
            } else {
                assert(self@.counts.update(index as int, v) =~= self@.counts);
            }
        }
    }

    /// Replaces row `y`, which must lie in the grid, by `row`, which must hold
    /// one count per column.
    pub fn set_row(&mut self, y: u16, row: &Vec<u16>)
        requires
            y < old(self)@.height,
            row.len() == old(self)@.width,
        ensures
            final(self)@ == old(self)@.with_row(y as int, row@),
    {
        proof {
            use_type_invariant(&*self);
        }
        let ghost start = y * self.width;
        let mut x: u16 = 0;
        while x < self.width
            invariant
                x <= self.width,
                y < self.height,
                row.len() == self.width,
                start == y * self.width,
                self.width == old(self).width,
                self.height == old(self).height,
                self@.wf(),
                self@.counts.len() == old(self)@.counts.len(),
                forall|i: int|
                    0 <= i < self@.counts.len() ==> #[trigger] self@.counts[i] == if start <= i < start
                        + x {
                        row@[i - start]
                    } else {
                        old(self)@.counts[i]
                    },
            decreases self.width - x,
        {
            proof {
                lemma_index_in_grid(self@.width, self@.height, x as int, y as int);
            }
            let index = self.get_index(x, y);
            self.iterations[index] = row[x as usize];
            x = x + 1;
        }
        assert(self@.counts =~= old(self)@.with_row(y as int, row@).counts);
    }

    /// Adds one density increment per point of `points` that falls inside the
    /// grid; points outside it are dropped.
    pub fn accumulate(&mut self, points: &Vec<(i64, i64)>)
        ensures
            final(self)@ == old(self)@.accumulated(points@),
    {
        proof {
            use_type_invariant(&*self);
            assert(points@.take(0) =~= Seq::<(i64, i64)>::empty());
            assert(old(self)@.accumulated(points@.take(0)).counts =~= old(self)@.counts);
        }
        let mut k: usize = 0;
        while k < points.len()
            invariant
                k <= points.len(),
                old(self)@.wf(),
                self@ == old(self)@.accumulated(points@.take(k as int)),
            decreases points.len() - k,
        {
            let (px, py) = points[k];
            proof {
                assert(points@.take(k + 1) =~= points@.take(k as int).push((px, py)));
                lemma_accumulated_push(old(self)@, points@.take(k as int), (px, py));
            }
            if 0 <= px && px < self.width as i64 && 0 <= py && py < self.height as i64 {
                self.increment_pixel(&Pixel::new(px as u16, py as u16, 0));
            }
            k = k + 1;
        }
        assert(points@.take(points.len() as int) =~= points@);
    }

    /// All counts, row by row.
    pub fn iterations(&self) -> (r: &[u16])
        ensures
            r@ == self@.counts,
    {
        self.iterations.as_slice()
    }
}

} // verus!
