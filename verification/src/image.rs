//! Image storage and per-pixel sample accumulation.
//!
//! Our convention is to begin counting at the bottom left corner, which we
//! denote (0, 0).

use vstd::prelude::*;

use crate::fixed::{Fx, sdiv, mag, tdiv, lemma_mag_mul, lemma_tdiv_monotone, SCALE, FX_MAX};
use crate::light::black_v;
use crate::vector::{Vec3, Color3, V3, v3_add};

verus! {

/// A pixel grid size.
#[derive(Clone, Copy, Debug, PartialEq, Eq, Structural)]
pub struct Resolution {
    pub width: u32,
    pub height: u32,
}

/// A pixel coordinate; (0, 0) is the bottom left corner.
#[derive(Clone, Copy, Debug, PartialEq, Eq, Structural)]
pub struct Pixel {
    pub x: u32,
    pub y: u32,
}

/// Walks every pixel of a resolution, a full row at a time, starting at
/// (0, 0).
#[derive(Clone, Copy, Debug)]
pub struct PixelIterator {
    pixel: Pixel,
    resolution: Resolution,
}

impl PixelIterator {
    /// The resolution being walked.
    pub closed spec fn res(&self) -> Resolution {
        self.resolution
    }

    /// How many pixels have been yielded so far.
    pub closed spec fn idx(&self) -> int {
        self.pixel.y * self.resolution.width + self.pixel.x
    }

    /// The iterator's cursor stays inside the grid (one row past the end
    /// when exhausted).
    pub closed spec fn wf(&self) -> bool {
        &&& self.resolution.width >= 1
        &&& self.pixel.x < self.resolution.width
        &&& self.pixel.y <= self.resolution.height
    }

    /// Starts walking a resolution's pixels at (0, 0).
    pub fn new(resolution: Resolution) -> (r: PixelIterator)
        requires
            resolution.width >= 1,
        ensures
            r.wf(),
            r.res() == resolution,
            r.idx() == 0,
    {
        PixelIterator { pixel: Pixel { x: 0, y: 0 }, resolution }
    }

    /// The next pixel in row-major order, or `None` once every pixel of the
    /// grid has been yielded.
    pub fn next(&mut self) -> (r: Option<Pixel>)
        requires
            old(self).wf(),
        ensures
            final(self).wf(),
            final(self).res() == old(self).res(),
            if old(self).idx() < old(self).res().width * old(self).res().height {
                &&& r matches Some(p) && p.y * old(self).res().width + p.x == old(self).idx()
                    && p.x < old(self).res().width && p.y < old(self).res().height
                &&& final(self).idx() == old(self).idx() + 1
            } else {
                r is None && final(self).idx() == old(self).idx()
            },
    {
        if self.pixel.y >= self.resolution.height {
            return None;
        }
        let current = self.pixel;
        proof {
            vstd::arithmetic::mul::lemma_mul_inequality(
                self.pixel.y as int + 1,
                self.resolution.height as int,
                self.resolution.width as int,
            );
            assert((self.pixel.y + 1) * self.resolution.width == self.pixel.y
                * self.resolution.width + self.resolution.width) by (nonlinear_arith);
        }
        if self.pixel.x + 1 < self.resolution.width {
            self.pixel = Pixel { x: self.pixel.x + 1, y: self.pixel.y };
        } else {
            self.pixel = Pixel { x: 0, y: self.pixel.y + 1 };
        }
        Some(current)
    }
}

/// Representation of an image: a grid of RGB pixel values.
pub struct Image {
    resolution: Resolution,
    pixels: Vec<Color3>,
}

impl Image {
    /// The pixel storage is exactly one color per grid cell.
    pub closed spec fn wf(&self) -> bool {
        self.pixels@.len() == self.resolution.width * self.resolution.height
    }

    /// The grid size.
    pub closed spec fn res(&self) -> Resolution {
        self.resolution
    }

    /// The color stored at (x, y).
    pub closed spec fn color_at(&self, x: int, y: int) -> V3 {
        self.pixels@[y * self.resolution.width + x]@
    }

    /// Create a new image with every pixel initialized to black.
    pub fn new(resolution: Resolution) -> (r: Image)
        requires
            resolution.width * resolution.height <= usize::MAX,
        ensures
            r.wf(),
            r.res() == resolution,
            forall|x: int, y: int|
                0 <= x < resolution.width && 0 <= y < resolution.height ==> #[trigger] r.color_at(
                    x,
                    y,
                ) == black_v(),
    {
        let count: usize = (resolution.width as usize) * (resolution.height as usize);
        let mut pixels: Vec<Color3> = Vec::new();
        let mut k: usize = 0;
        while k < count
            invariant
                k <= count,
                pixels@.len() == k,
                forall|j: int| 0 <= j < k ==> #[trigger] pixels@[j]@ == black_v(),
            decreases count - k,
        {
            pixels.push(Vec3::origin());
            k = k + 1;
        }
        let img = Image { resolution, pixels };
        proof {
            assert forall|x: int, y: int|
                0 <= x < resolution.width && 0 <= y < resolution.height
                implies #[trigger] img.color_at(x, y) == black_v() by {
                img.lemma_index_bijection(x, y);
            }
        }
        img
    }

    /// Whether (x, y) addresses a grid cell.
    pub open spec fn in_bounds(&self, x: int, y: int) -> bool {
        0 <= x < self.res().width && 0 <= y < self.res().height
    }

    /// The grid size, as a value.
    pub fn get_resolution(&self) -> (r: Resolution)
        ensures
            r == self.res(),
    {
        self.resolution
    }

    /// Set the pixel (x, y) to color.  Recall that (0, 0) is the bottom
    /// left.
    pub fn set_pixel_color(&mut self, pixel: &Pixel, color: Color3)
        requires
            old(self).wf(),
            old(self).in_bounds(pixel.x as int, pixel.y as int),
        ensures
            final(self).wf(),
            final(self).res() == old(self).res(),
            final(self).color_at(pixel.x as int, pixel.y as int) == color@,
            forall|x: int, y: int|
                old(self).in_bounds(x, y) && !(x == pixel.x && y == pixel.y)
                    ==> #[trigger] final(self).color_at(x, y) == old(self).color_at(x, y),
    {
        proof {
            self.lemma_index_bijection(pixel.x as int, pixel.y as int);
        }
        let len: usize = self.pixels.len();
        let k: usize = (pixel.y as usize) * (self.resolution.width as usize) + (pixel.x as usize);
        self.pixels.set(k, color);
        proof {
            assert forall|x: int, y: int|
                old(self).in_bounds(x, y) && !(x == pixel.x && y == pixel.y)
                    implies #[trigger] self.color_at(x, y) == old(self).color_at(x, y) by {
                old(self).lemma_index_bijection(x, y);
                if y * self.resolution.width + x == k {
                    assert((y - pixel.y) * self.resolution.width == y * self.resolution.width
                        - pixel.y * self.resolution.width) by (nonlinear_arith);
                    if y != pixel.y {
                        assert(mag((y - pixel.y) * self.resolution.width)
                            >= self.resolution.width) by (nonlinear_arith)
                            requires
                                y != pixel.y,
                                self.resolution.width >= 1,
                        ;
                    }
                }
            }
        }
    }

    /// Every in-bounds coordinate addresses a distinct storage cell.
    proof fn lemma_index_bijection(&self, x: int, y: int)
        requires
            self.wf(),
            self.in_bounds(x, y),
        ensures
            0 <= y * self.res().width + x < self.pixels@.len(),
    {
        vstd::arithmetic::mul::lemma_mul_inequality(
            y + 1,
            self.resolution.height as int,
            self.resolution.width as int,
        );
        assert((y + 1) * self.resolution.width == y * self.resolution.width
            + self.resolution.width) by (nonlinear_arith);
        vstd::arithmetic::mul::lemma_mul_nonnegative(y, self.resolution.width as int);
    }

    /// The color stored at a pixel.
    pub fn get_pixel_color(&self, pixel: &Pixel) -> (r: Color3)
        requires
            self.wf(),
            self.in_bounds(pixel.x as int, pixel.y as int),
        ensures
            r@ == self.color_at(pixel.x as int, pixel.y as int),
    {
        proof {
            self.lemma_index_bijection(pixel.x as int, pixel.y as int);
        }
        let len: usize = self.pixels.len();
        let k: usize = (pixel.y as usize) * (self.resolution.width as usize) + (pixel.x as usize);
        self.pixels[k]
    }
}

/// Dividing a color channel by a sample count, on views: each channel is a
/// fixed-point division by the count.
pub open spec fn channel_avg(c: int, n: int) -> int {
    sdiv(c, n * SCALE)
}

/// Averaging a color by a sample count, on views.
pub open spec fn color_avg(c: V3, n: int) -> V3 {
    V3 { x: channel_avg(c.x, n), y: channel_avg(c.y, n), z: channel_avg(c.z, n) }
}

/// An accumulator pairing a pixel grid with a running sample count.
pub struct ImageBuffer {
    image: Image,
    samples: usize,
}

impl ImageBuffer {
    /// The underlying grid is well-formed.
    pub closed spec fn wf(&self) -> bool {
        self.image.wf()
    }

    /// The grid size.
    pub closed spec fn res(&self) -> Resolution {
        self.image.res()
    }

    /// The accumulated (not yet averaged) color at (x, y).
    pub closed spec fn accum_at(&self, x: int, y: int) -> V3 {
        self.image.color_at(x, y)
    }

    /// The running sample count.
    pub closed spec fn samples(&self) -> int {
        self.samples as int
    }

    /// A fresh accumulator: zero samples, all-black grid.
    pub fn new(resolution: Resolution) -> (r: ImageBuffer)
        requires
            resolution.width * resolution.height <= usize::MAX,
        ensures
            r.wf(),
            r.res() == resolution,
            r.samples() == 0,
            forall|x: int, y: int|
                0 <= x < resolution.width && 0 <= y < resolution.height ==> #[trigger] r.accum_at(
                    x,
                    y,
                ) == black_v(),
    {
        ImageBuffer { image: Image::new(resolution), samples: 0 }
    }

    /// The number of samples accumulated so far.
    pub fn num_samples(&self) -> (r: usize)
        ensures
            r == self.samples(),
    {
        self.samples
    }

    /// Adds one sample image: every pixel accumulates, and the sample count
    /// grows by one.
    pub fn add_sample(&mut self, image: Image)
        requires
            old(self).wf(),
            image.wf(),
            image.res() == old(self).res(),
            old(self).samples() < usize::MAX,
        ensures
            final(self).wf(),
            final(self).res() == old(self).res(),
            final(self).samples() == old(self).samples() + 1,
            forall|x: int, y: int|
                0 <= x < old(self).res().width && 0 <= y < old(self).res().height
                    ==> #[trigger] final(self).accum_at(x, y) == v3_add(
                    old(self).accum_at(x, y),
                    image.color_at(x, y),
                ),
    {
        let resolution = self.image.get_resolution();
        self.samples = self.samples + 1;
        let mut y: u32 = 0;
        while y < resolution.height
            invariant
                self.wf(),
                self.res() == resolution,
                self.samples == old(self).samples + 1,
                image.wf(),
                image.res() == resolution,
                y <= resolution.height,
                forall|xx: int, yy: int|
                    0 <= xx < resolution.width && 0 <= yy < y ==> #[trigger] self.accum_at(xx, yy)
                        == v3_add(old(self).accum_at(xx, yy), image.color_at(xx, yy)),
                forall|xx: int, yy: int|
                    0 <= xx < resolution.width && y <= yy < resolution.height
                        ==> #[trigger] self.accum_at(xx, yy) == old(self).accum_at(xx, yy),
            decreases resolution.height - y,
        {
            let mut x: u32 = 0;
            while x < resolution.width
                invariant
                    self.wf(),
                    self.res() == resolution,
                    self.samples == old(self).samples + 1,
                    image.wf(),
                    image.res() == resolution,
                    y < resolution.height,
                    x <= resolution.width,
                    forall|xx: int, yy: int|
                        0 <= xx < resolution.width && 0 <= yy < y ==> #[trigger] self.accum_at(
                            xx,
                            yy,
                        ) == v3_add(old(self).accum_at(xx, yy), image.color_at(xx, yy)),
                    forall|xx: int|
                        0 <= xx < x ==> #[trigger] self.accum_at(xx, y as int) == v3_add(
                            old(self).accum_at(xx, y as int),
                            image.color_at(xx, y as int),
                        ),
                    forall|xx: int|
                        x <= xx < resolution.width ==> #[trigger] self.accum_at(xx, y as int)
                            == old(self).accum_at(xx, y as int),
                    forall|xx: int, yy: int|
                        0 <= xx < resolution.width && y < yy < resolution.height
                            ==> #[trigger] self.accum_at(xx, yy) == old(self).accum_at(xx, yy),
                decreases resolution.width - x,
            {
                let pixel = Pixel { x, y };
                let accumulated = self.image.get_pixel_color(&pixel).add(
                    image.get_pixel_color(&pixel),
                );
                let ghost prev = *self;
                self.image.set_pixel_color(&pixel, accumulated);
                proof {
                    assert(accumulated@ == v3_add(
                        prev.accum_at(x as int, y as int),
                        image.color_at(x as int, y as int),
                    ));
                    assert(prev.accum_at(x as int, y as int) == old(self).accum_at(
                        x as int,
                        y as int,
                    ));
                    assert forall|xx: int, yy: int|
                        0 <= xx < resolution.width && 0 <= yy < resolution.height && !(xx
                            == x as int && yy == y as int) implies #[trigger] self.accum_at(xx, yy)
                        == prev.accum_at(xx, yy) by {}
                }
                x = x + 1;
            }
            y = y + 1;
        }
    }

    /// The unweighted arithmetic mean of the accumulated samples: every
    /// pixel's accumulated color divided by the sample count.
    pub fn average_samples(&self) -> (r: Image)
        requires
            self.wf(),
            self.res().width * self.res().height <= usize::MAX,
            1 <= self.samples() <= 0x40000000000,
        ensures
            r.wf(),
            r.res() == self.res(),
            forall|x: int, y: int|
                0 <= x < self.res().width && 0 <= y < self.res().height ==> #[trigger] r.color_at(
                    x,
                    y,
                ) == color_avg(self.accum_at(x, y), self.samples()),
    {
        let resolution = self.image.get_resolution();
        let divisor = Fx::from_i64(self.samples as i64);
        let mut to_return = Image::new(resolution);
        let mut y: u32 = 0;
        while y < resolution.height
            invariant
                self.wf(),
                self.res() == resolution,
                1 <= self.samples() <= 0x40000000000,
                divisor@ == self.samples() * SCALE,
                to_return.wf(),
                to_return.res() == resolution,
                y <= resolution.height,
                forall|xx: int, yy: int|
                    0 <= xx < resolution.width && 0 <= yy < y ==> #[trigger] to_return.color_at(
                        xx,
                        yy,
                    ) == color_avg(self.accum_at(xx, yy), self.samples()),
            decreases resolution.height - y,
        {
            let mut x: u32 = 0;
            while x < resolution.width
                invariant
                    self.wf(),
                    self.res() == resolution,
                    1 <= self.samples() <= 0x40000000000,
                    divisor@ == self.samples() * SCALE,
                    to_return.wf(),
                    to_return.res() == resolution,
                    y < resolution.height,
                    x <= resolution.width,
                    forall|xx: int, yy: int|
                        0 <= xx < resolution.width && 0 <= yy < y
                            ==> #[trigger] to_return.color_at(xx, yy) == color_avg(
                            self.accum_at(xx, yy),
                            self.samples(),
                        ),
                    forall|xx: int|
                        0 <= xx < x ==> #[trigger] to_return.color_at(xx, y as int) == color_avg(
                            self.accum_at(xx, y as int),
                            self.samples(),
                        ),
                decreases resolution.width - x,
            {
                let pixel = Pixel { x, y };
                let c = self.image.get_pixel_color(&pixel);
                let averaged = Vec3::new(c.x.div(divisor), c.y.div(divisor), c.z.div(divisor));
                to_return.set_pixel_color(&pixel, averaged);
                x = x + 1;
            }
            y = y + 1;
        }
        to_return
    }
}

/// The accumulated color after `n` additions of the same sample color onto a
/// black pixel.
pub open spec fn v3_sum_n(c: V3, n: int) -> V3
    decreases n,
{
    if n <= 0 {
        black_v()
    } else {
        v3_add(v3_sum_n(c, n - 1), c)
    }
}

/// The accumulated color after adding each color of a sequence, in order,
/// onto a black pixel.
pub open spec fn v3_seq_sum(cs: Seq<V3>) -> V3
    decreases cs.len(),
{
    if cs.len() == 0 {
        black_v()
    } else {
        v3_add(v3_seq_sum(cs.drop_last()), cs.last())
    }
}

/// Appending one color to a sequence adds it onto the running sum.
pub proof fn lemma_v3_seq_sum_push(cs: Seq<V3>, c: V3)
    ensures
        v3_seq_sum(cs.push(c)) == v3_add(v3_seq_sum(cs), c),
{
    assert(cs.push(c).drop_last() =~= cs);
    assert(cs.push(c).last() == c);
}

/// Summing `n` copies of a color is exact componentwise multiplication while
/// nothing saturates.
proof fn lemma_v3_sum_n_exact(c: V3, n: int)
    requires
        0 <= n,
        n * mag(c.x) <= FX_MAX,
        n * mag(c.y) <= FX_MAX,
        n * mag(c.z) <= FX_MAX,
    ensures
        v3_sum_n(c, n) == (V3 { x: n * c.x, y: n * c.y, z: n * c.z }),
    decreases n,
{
    if n <= 0 {
        assert(0 * c.x == 0 && 0 * c.y == 0 && 0 * c.z == 0) by (nonlinear_arith);
    } else {
        assert((n - 1) * mag(c.x) <= n * mag(c.x) && (n - 1) * mag(c.y) <= n * mag(c.y) && (n - 1)
            * mag(c.z) <= n * mag(c.z)) by (nonlinear_arith)
            requires
                n >= 1,
                mag(c.x) >= 0,
                mag(c.y) >= 0,
                mag(c.z) >= 0,
        ;
        lemma_v3_sum_n_exact(c, n - 1);
        assert((n - 1) * c.x + c.x == n * c.x && (n - 1) * c.y + c.y == n * c.y && (n - 1) * c.z
            + c.z == n * c.z) by (nonlinear_arith);
        lemma_mag_mul(n, c.x);
        lemma_mag_mul(n - 1, c.x);
        lemma_mag_mul(n, c.y);
        lemma_mag_mul(n - 1, c.y);
        lemma_mag_mul(n, c.z);
        lemma_mag_mul(n - 1, c.z);
    }
}

/// Dividing `n * c` by the count `n` gives back exactly `c`.
proof fn lemma_channel_avg_exact(c: int, n: int)
    requires
        1 <= n <= 0x40000000000,
        n * mag(c) <= FX_MAX,
    ensures
        channel_avg(n * c, n) == c,
{
    let sc = SCALE as int;
    lemma_mag_mul(n, c);
    lemma_mag_mul(n * c, sc);
    assert(mag(c) <= n * mag(c)) by (nonlinear_arith)
        requires
            n >= 1,
            mag(c) >= 0,
    ;
    assert(mag(n * c) * sc == (n * sc) * mag(c)) by (nonlinear_arith)
        requires
            mag(n * c) == n * mag(c),
    ;
    assert(((n * sc) * mag(c)) / (n * sc) == mag(c)) by {
        assert(n * sc > 0) by (nonlinear_arith)
            requires
                n >= 1,
                sc == 1048576,
        ;
        vstd::arithmetic::div_mod::lemma_div_multiples_vanish(mag(c), n * sc);
    }
    assert(mag(n * sc) == n * sc) by {
        lemma_mag_mul(n, sc);
    }
    if c == 0 {
        assert(n * 0 == 0) by (nonlinear_arith);
    } else if c > 0 {
        assert(n * c > 0 && (n * c) * sc > 0) by (nonlinear_arith)
            requires
                n >= 1,
                c > 0,
                sc == 1048576,
        ;
    } else {
        assert(n * c < 0 && (n * c) * sc < 0) by (nonlinear_arith)
            requires
                n >= 1,
                c < 0,
                sc == 1048576,
        ;
    }
}

/// Round trip through the accumulator: accumulating `n` identical sample
/// colors and averaging by `n` returns exactly that color, as long as the
/// running sums stay in range.
pub proof fn lemma_average_of_equal_samples(c: V3, n: int)
    requires
        1 <= n <= 0x40000000000,
        n * mag(c.x) <= FX_MAX,
        n * mag(c.y) <= FX_MAX,
        n * mag(c.z) <= FX_MAX,
    ensures
        color_avg(v3_sum_n(c, n), n) == c,
{
    lemma_v3_sum_n_exact(c, n);
    lemma_channel_avg_exact(c.x, n);
    lemma_channel_avg_exact(c.y, n);
    lemma_channel_avg_exact(c.z, n);
}

/// An average of an accumulated channel that stayed within `n` full-bright
/// samples lies in the unit interval.
pub proof fn lemma_channel_avg_bounded(c: int, n: int)
    requires
        1 <= n <= 0x40000000000,
        0 <= c <= n * SCALE,
    ensures
        0 <= channel_avg(c, n) <= SCALE,
{
    let sc = SCALE as int;
    assert(n * sc > 0) by (nonlinear_arith)
        requires
            n >= 1,
            sc == 1048576,
    ;
    crate::fixed::lemma_tdiv_monotone(0, c * sc, n * sc);
    assert(0 * sc == 0 && tdiv(0, n * sc) == 0) by (nonlinear_arith)
        requires
            n * sc > 0,
    ;
    assert(0 <= c * sc) by (nonlinear_arith)
        requires
            0 <= c,
            sc == 1048576,
    ;
    assert(c * sc <= (n * sc) * sc) by (nonlinear_arith)
        requires
            c <= n * sc,
            sc == 1048576,
    ;
    crate::fixed::lemma_tdiv_monotone(c * sc, (n * sc) * sc, n * sc);
    assert(tdiv((n * sc) * sc, n * sc) == sc) by {
        vstd::arithmetic::div_mod::lemma_div_multiples_vanish(sc, n * sc);
        crate::fixed::lemma_mag_mul(n * sc, sc);
        assert(mag((n * sc) * sc) == (n * sc) * sc && (n * sc) * sc >= 0) by (nonlinear_arith)
            requires
                n * sc > 0,
                sc == 1048576,
                mag((n * sc) * sc) == mag(n * sc) * mag(sc),
        ;
    }
}

} // verus!
