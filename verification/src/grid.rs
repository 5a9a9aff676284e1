//! The decoded raster that the transforms work on.

use vstd::prelude::*;
use vstd::arithmetic::div_mod::lemma_fundamental_div_mod;
use vstd::arithmetic::div_mod::lemma_fundamental_div_mod_converse;
use vstd::arithmetic::div_mod::lemma_mod_bound;
use vstd::arithmetic::div_mod::lemma_multiply_divide_lt;

verus! {

/// One pixel: red, green, blue and alpha. A pixel without transparency has
/// alpha 255.
#[derive(Clone, Copy, Debug, PartialEq, Eq, Structural)]
pub struct Pixel {
    pub red: u8,
    pub green: u8,
    pub blue: u8,
    pub alpha: u8,
}

/// The channels that an image has.
#[derive(Clone, Copy, Debug, PartialEq, Eq, Structural)]
pub enum ChannelLayout {
    /// Red, green and blue. The alpha that the grid holds for each pixel is
    /// not part of the image and is left out where a container can do
    /// without it.
    Rgb,
    /// Red, green, blue and alpha.
    Rgba,
}

/// The mathematical model of a grid: its size, its channel layout and its
/// pixels row by row, the top row first.
pub struct GridView {
    pub width: nat,
    pub height: nat,
    pub layout: ChannelLayout,
    pub pixels: Seq<Pixel>,
}

impl GridView {
    /// There is exactly one pixel for each position.
    pub open spec fn wf(self) -> bool {
        self.pixels.len() == self.width * self.height
    }

    /// Whether `(x, y)` is a position of the grid.
    pub open spec fn contains(self, x: int, y: int) -> bool {
        0 <= x < self.width && 0 <= y < self.height
    }

    /// The pixel in column `x` of row `y`.
    pub open spec fn at(self, x: int, y: int) -> Pixel {
        self.pixels[y * self.width + x]
    }

    /// The grid with the pixel at `(x, y)` replaced.
    pub open spec fn with_pixel(self, x: int, y: int, pixel: Pixel) -> GridView {
        GridView { pixels: self.pixels.update(y * self.width + x, pixel), ..self }
    }

    /// The grid of the same size whose pixel at each position is `f` of the
    /// position and of the pixel that was there.
    pub open spec fn map_pixels(self, f: spec_fn(int, int, Pixel) -> Pixel) -> GridView {
        GridView {
            pixels: Seq::new(
                self.pixels.len(),
                |i: int| f(i % (self.width as int), i / (self.width as int), self.pixels[i]),
            ),
            ..self
        }
    }

    /// The pixels as interleaved samples: red, green, blue, alpha of the
    /// first pixel, then of the second, and so on.
    pub open spec fn samples(self) -> Seq<u8> {
        interleave(self.pixels)
    }

    /// The pixels as interleaved samples without alpha: red, green, blue of
    /// the first pixel, then of the second, and so on.
    pub open spec fn rgb_samples(self) -> Seq<u8> {
        Seq::new(self.pixels.len() * 3, |i: int| channel(self.pixels[i / 3], i % 3))
    }
}

/// Channel `c` of a pixel, in the order red, green, blue, alpha.
pub open spec fn channel(pixel: Pixel, c: int) -> u8 {
    if c == 0 {
        pixel.red
    } else if c == 1 {
        pixel.green
    } else if c == 2 {
        pixel.blue
    } else {
        pixel.alpha
    }
}

/// Four samples for each pixel, in pixel order.
pub open spec fn interleave(pixels: Seq<Pixel>) -> Seq<u8> {
    Seq::new(pixels.len() * 4, |i: int| channel(pixels[i / 4], i % 4))
}

/// One pixel for each complete group of four samples.
pub open spec fn deinterleave(samples: Seq<u8>) -> Seq<Pixel> {
    Seq::new(
        samples.len() / 4,
        |p: int|
            Pixel {
                red: samples[4 * p],
                green: samples[4 * p + 1],
                blue: samples[4 * p + 2],
                alpha: samples[4 * p + 3],
            },
    )
}

/// Interleaving undoes deinterleaving when no sample is left over.
pub proof fn lemma_interleave_deinterleave(samples: Seq<u8>)
    requires
        samples.len() % 4 == 0,
    ensures
        interleave(deinterleave(samples)) == samples,
{
    assert(interleave(deinterleave(samples)) =~= samples);
}

/// A position of the grid has an index below the number of pixels.
pub proof fn lemma_position_index(width: nat, height: nat, x: int, y: int)
    requires
        0 <= x < width,
        0 <= y < height,
    ensures
        0 <= y * width + x < width * height,
        (y * width + x) % (width as int) == x,
        (y * width + x) / (width as int) == y,
{
    assert(y * width + x < width * height) by (nonlinear_arith)
        requires
            0 <= x < width,
            0 <= y < height,
    ;
    assert(0 <= y * width) by (nonlinear_arith)
        requires
            0 <= y,
            0 <= width,
    ;
    lemma_fundamental_div_mod_converse(y * width + x, width as int, y, x);
}

/// An index below the number of pixels belongs to exactly one position.
pub proof fn lemma_index_position(width: nat, height: nat, i: int)
    requires
        0 <= i < width * height,
    ensures
        0 <= i % (width as int) < width,
        0 <= i / (width as int) < height,
        (i / (width as int)) * width + i % (width as int) == i,
{
    assert(width > 0) by (nonlinear_arith)
        requires
            0 <= i < width * height,
    ;
    let w = width as int;
    lemma_mod_bound(i, w);
    lemma_fundamental_div_mod(i, w);
    lemma_multiply_divide_lt(i, w, height as int);
    assert(0 <= i / w) by (nonlinear_arith)
        requires
            0 <= i,
            0 < w,
            i == w * (i / w) + i % w,
            0 <= i % w < w,
    ;
    assert((i / w) * w == w * (i / w)) by (nonlinear_arith);
}

/// Replacing one pixel changes that position and no other.
pub proof fn lemma_with_pixel_at(v: GridView, x: int, y: int, pixel: Pixel, qx: int, qy: int)
    requires
        v.wf(),
        v.contains(x, y),
        v.contains(qx, qy),
    ensures
        v.with_pixel(x, y, pixel).at(qx, qy) == if qx == x && qy == y {
            pixel
        } else {
            v.at(qx, qy)
        },
{
    lemma_position_index(v.width, v.height, x, y);
    lemma_position_index(v.width, v.height, qx, qy);
}

/// A mapped grid holds at each position what the mapping gives there.
pub proof fn lemma_map_pixels_at(v: GridView, f: spec_fn(int, int, Pixel) -> Pixel, x: int, y: int)
    requires
        v.wf(),
        v.contains(x, y),
    ensures
        v.map_pixels(f).at(x, y) == f(x, y, v.at(x, y)),
{
    lemma_position_index(v.width, v.height, x, y);
}

/// Two grids of one size that agree at every position are the same grid.
pub proof fn lemma_grid_ext(a: GridView, b: GridView)
    requires
        a.wf(),
        b.wf(),
        a.width == b.width,
        a.height == b.height,
        a.layout == b.layout,
        forall|x: int, y: int| a.contains(x, y) ==> a.at(x, y) == b.at(x, y),
    ensures
        a == b,
{
    assert forall|i: int| 0 <= i < a.pixels.len() implies a.pixels[i] == b.pixels[i] by {
        lemma_index_position(a.width, a.height, i);
        let x = i % (a.width as int);
        let y = i / (a.width as int);
        assert(a.contains(x, y));
        assert(a.at(x, y) == b.at(x, y));
    }
    assert(a.pixels =~= b.pixels);
}

/// Whether a grid of this size can be held: the samples of a row have a
/// length, and all samples fit in one vector, which takes at most half of
/// the address space.
pub open spec fn grid_fits(width: nat, height: nat) -> bool {
    width * 4 <= usize::MAX && width * height * 4 <= usize::MAX / 2
}

/// A decoded image: `width` x `height` pixels of four samples each, stored
/// row by row, and the channel layout of the image.
#[derive(Clone, Debug, PartialEq, Eq)]
pub struct PixelGrid {
    width: u32,
    height: u32,
    layout: ChannelLayout,
    samples: Vec<u8>,
}

impl View for PixelGrid {
    type V = GridView;

    closed spec fn view(&self) -> GridView {
        GridView {
            width: self.width as nat,
            height: self.height as nat,
            layout: self.layout,
            pixels: deinterleave(self.samples@),
        }
    }
}

impl PixelGrid {
    /// The grid holds exactly four samples for each of its positions, and
    /// its size is one that can be held.
    pub closed spec fn wf(&self) -> bool {
        &&& self.samples@.len() == self.width * self.height * 4
        &&& grid_fits(self.width as nat, self.height as nat)
    }

    /// A well-formed grid has a well-formed model whose samples fit in
    /// memory.
    pub proof fn lemma_wf(&self)
        requires
            self.wf(),
        ensures
            self@.wf(),
            self@.width <= u32::MAX,
            self@.height <= u32::MAX,
            grid_fits(self@.width, self@.height),
            self@.width * self@.height * 4 <= usize::MAX,
    {
    }

    /// Builds a grid with an alpha channel from interleaved samples. The
    /// sample count must be exactly `width * height * 4`, and a grid of that
    /// size must be one that can be held.
    pub fn from_raw(width: u32, height: u32, samples: Vec<u8>) -> (grid: Option<PixelGrid>)
        ensures
            grid is Some <==> samples@.len() == width * height * 4 && grid_fits(
                width as nat,
                height as nat,
            ),
            grid matches Some(g) ==> g.wf() && g@ == (GridView {
                width: width as nat,
                height: height as nat,
                layout: ChannelLayout::Rgba,
                pixels: deinterleave(samples@),
            }),
    {
        assert(width * height * 4 <= u128::MAX) by (nonlinear_arith)
            requires
                width <= u32::MAX,
                height <= u32::MAX,
        ;
        let expected: u128 = width as u128 * height as u128 * 4;
        let row: u128 = width as u128 * 4;
        if samples.len() as u128 == expected && row <= usize::MAX as u128 && expected <= (usize::MAX
            / 2) as u128 {
            Some(PixelGrid { width, height, layout: ChannelLayout::Rgba, samples })
        } else {
            None
        }
    }

    /// Builds a grid with an alpha channel in which every pixel is `fill`,
    /// unless a grid of that size cannot be held.
    pub fn filled(width: u32, height: u32, fill: Pixel) -> (grid: Option<PixelGrid>)
        ensures
            grid is Some <==> grid_fits(width as nat, height as nat),
            grid matches Some(g) ==> {
                &&& g.wf()
                &&& g@.width == width
                &&& g@.height == height
                &&& g@.layout == ChannelLayout::Rgba
                &&& forall|x: int, y: int| g@.contains(x, y) ==> g@.at(x, y) == fill
            },
    {
        assert(width * height * 4 <= u128::MAX) by (nonlinear_arith)
            requires
                width <= u32::MAX,
                height <= u32::MAX,
        ;
        let total: u128 = width as u128 * height as u128 * 4;
        if total > (usize::MAX / 2) as u128 || width as u128 * 4 > usize::MAX as u128 {
            return None;
        }
        let count: usize = (total / 4) as usize;
        let mut samples: Vec<u8> = Vec::new();
        let mut i: usize = 0;
        while i < count
            invariant
                i <= count,
                count * 4 <= usize::MAX,
                samples@.len() == i * 4,
                forall|p: int| 0 <= p < i ==> #[trigger] deinterleave(samples@)[p] == fill,
            decreases count - i,
        {
            let ghost before = samples@;
            samples.push(fill.red);
            samples.push(fill.green);
            samples.push(fill.blue);
            samples.push(fill.alpha);
            assert forall|p: int| 0 <= p < i + 1 implies #[trigger] deinterleave(samples@)[p]
                == fill by {
                if p < i {
                    assert(deinterleave(before)[p] == fill);
                }
            }
            i += 1;
        }
        let grid = PixelGrid { width, height, layout: ChannelLayout::Rgba, samples };
        proof {
            assert forall|x: int, y: int| grid@.contains(x, y) implies grid@.at(x, y) == fill by {
                lemma_position_index(width as nat, height as nat, x, y);
            }
        }
        Some(grid)
    }

    /// Number of columns.
    pub fn width(&self) -> (w: u32)
        ensures
            w == self@.width,
    {
        self.width
    }

    /// Number of rows.
    pub fn height(&self) -> (h: u32)
        ensures
            h == self@.height,
    {
        self.height
    }

    /// The channel layout of the image.
    pub fn layout(&self) -> (layout: ChannelLayout)
        ensures
            layout == self@.layout,
    {
        self.layout
    }

    /// The same pixels as an image of another channel layout.
    pub fn with_layout(self, layout: ChannelLayout) -> (grid: PixelGrid)
        requires
            self.wf(),
        ensures
            grid.wf(),
            grid@ == (GridView { layout, ..self@ }),
    {
        PixelGrid { width: self.width, height: self.height, layout, samples: self.samples }
    }

    /// Index of the first sample of the pixel at `(x, y)`.
    fn offset(&self, x: u32, y: u32) -> (o: usize)
        requires
            self.wf(),
            self@.contains(x as int, y as int),
        ensures
            o == 4 * (y * self@.width + x),
            o + 3 < self.samples@.len(),
    {
        proof {
            lemma_position_index(self.width as nat, self.height as nat, x as int, y as int);
            assert(0 <= y * self.width <= y * self.width + x) by (nonlinear_arith)
                requires
                    0 <= y,
                    0 <= self.width,
                    0 <= x,
            ;
        }
        (y as usize * self.width as usize + x as usize) * 4
    }

    /// Reads the pixel in column `x` of row `y`.
    pub fn get_pixel(&self, x: u32, y: u32) -> (pixel: Pixel)
        requires
            self.wf(),
            self@.contains(x as int, y as int),
        ensures
            pixel == self@.at(x as int, y as int),
    {
        let o = self.offset(x, y);
        Pixel {
            red: self.samples[o],
            green: self.samples[o + 1],
            blue: self.samples[o + 2],
            alpha: self.samples[o + 3],
        }
    }

    /// Writes the pixel in column `x` of row `y`.
    pub fn put_pixel(&mut self, x: u32, y: u32, pixel: Pixel)
        requires
            old(self).wf(),
            old(self)@.contains(x as int, y as int),
        ensures
            final(self).wf(),
            final(self)@ == old(self)@.with_pixel(x as int, y as int, pixel),
            forall|qx: int, qy: int|
                final(self)@.contains(qx, qy) ==> #[trigger] final(self)@.at(qx, qy) == if qx == x
                    && qy == y {
                    pixel
                } else {
                    old(self)@.at(qx, qy)
                },
    {
        let o = self.offset(x, y);
        self.samples[o] = pixel.red;
        self.samples[o + 1] = pixel.green;
        self.samples[o + 2] = pixel.blue;
        self.samples[o + 3] = pixel.alpha;
        proof {
            assert(self@.pixels =~= old(self)@.with_pixel(x as int, y as int, pixel).pixels);
            assert forall|qx: int, qy: int| self@.contains(qx, qy) implies #[trigger] self@.at(
                qx,
                qy,
            ) == if qx == x && qy == y {
                pixel
            } else {
                old(self)@.at(qx, qy)
            } by {
                lemma_with_pixel_at(old(self)@, x as int, y as int, pixel, qx, qy);
            }
        }
    }

    /// The interleaved samples of the grid.
    pub fn as_samples(&self) -> (samples: &Vec<u8>)
        requires
            self.wf(),
        ensures
            samples@ == self@.samples(),
            samples@.len() == self@.width * self@.height * 4,
    {
        proof {
            lemma_interleave_deinterleave(self.samples@);
        }
        &self.samples
    }

    /// The interleaved samples of the grid without alpha.
    pub fn rgb_samples(&self) -> (samples: Vec<u8>)
        requires
            self.wf(),
        ensures
            samples@ == self@.rgb_samples(),
            samples@.len() == self@.width * self@.height * 3,
    {
        let count: usize = self.samples.len() / 4;
        let mut samples: Vec<u8> = Vec::new();
        let mut p: usize = 0;
        while p < count
            invariant
                self.wf(),
                p <= count,
                count * 4 == self.samples@.len(),
                samples@.len() == p * 3,
                forall|i: int|
                    0 <= i < p * 3 ==> #[trigger] samples@[i] == self.samples@[4 * (i / 3) + i % 3],
            decreases count - p,
        {
            samples.push(self.samples[4 * p]);
            samples.push(self.samples[4 * p + 1]);
            samples.push(self.samples[4 * p + 2]);
            p += 1;
        }
        proof {
            assert(samples@ =~= self@.rgb_samples());
        }
        samples
    }
}

} // verus!
