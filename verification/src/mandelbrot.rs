//! The escape-time engine: coordinate mapping, the divergence test, the
//! intensity transform, the row-by-row render scheduler, and the handoff to
//! the PNG encoder.

use vstd::prelude::*;
use vstd::arithmetic::div_mod::{lemma_fundamental_div_mod_converse, lemma_small_mod};
use crate::complex::{Complex, spec_complex_mul, spec_complex_add, complex_norm_sqr_bits};
use crate::complex::{complex_mul, complex_add, complex_norm_sqr};
use crate::fbits::{
    dbl_add_bits, dbl_sub_bits, dbl_mul_bits, dbl_div_bits, dbl_ln_bits, dbl_gt_bits,
    u32_to_dbl_bits, dbl_to_u32_bits,
};
use crate::fbits::{dbl_add, dbl_sub, dbl_mul, dbl_div, dbl_ln, dbl_gt, u32_to_dbl, dbl_to_u32};
use image::ImageEncoder;

verus! {

/// Iteration budget of the divergence test.
pub const LIMIT: u32 = 0xff;

/// Escape-radius-squared threshold; the divergence test compares the squared
/// norm against the double holding this integer value.
pub const ESCAPE_RADIUS_SQ: u32 = 8;

/// One step of the Mandelbrot recurrence: the next z is z squared plus c.
pub open spec fn spec_step(z: Complex, c: Complex) -> Complex {
    spec_complex_add(spec_complex_mul(z, z), c)
}

/// The value of z after `n` steps of the recurrence from the origin.
pub open spec fn spec_z_iter(c: Complex, n: nat) -> Complex
    decreases n,
{
    if n == 0 {
        Complex { re_bits: 0, im_bits: 0 }
    } else {
        spec_step(spec_z_iter(c, (n - 1) as nat), c)
    }
}

/// Whether a z value lies outside the escape radius: its squared norm
/// compares greater than the threshold.
pub open spec fn spec_escaped(z: Complex) -> bool {
    dbl_gt_bits(complex_norm_sqr_bits(z.re_bits, z.im_bits), u32_to_dbl_bits(ESCAPE_RADIUS_SQ))
}

/// The escape count found by scanning steps `i`, `i + 1`, ... of the
/// recurrence, up to the iteration budget.
pub open spec fn spec_escape_time_from(c: Complex, i: u32, limit: u32) -> Option<u32>
    decreases limit - i,
{
    if i >= limit {
        None
    } else if spec_escaped(spec_z_iter(c, (i + 1) as nat)) {
        Some(i)
    } else {
        spec_escape_time_from(c, (i + 1) as u32, limit)
    }
}

/// The escape count of a point: the first step index at which the recurrence
/// leaves the escape radius, or nothing if it stays inside for the whole
/// iteration budget.
pub open spec fn spec_escape_time(c: Complex, limit: u32) -> Option<u32> {
    spec_escape_time_from(c, 0, limit)
}

/// An escape count found from step `i` on lies between `i` and the budget.
pub proof fn lemma_escape_time_from_bound(c: Complex, i: u32, limit: u32)
    ensures
        spec_escape_time_from(c, i, limit) matches Some(n) ==> i <= n < limit,
    decreases limit - i,
{
    if i < limit && !spec_escaped(spec_z_iter(c, (i + 1) as nat)) {
        lemma_escape_time_from_bound(c, (i + 1) as u32, limit);
    }
}

/// An escape count is always below the iteration budget.
pub proof fn lemma_escape_time_bound(c: Complex, limit: u32)
    ensures
        spec_escape_time(c, limit) matches Some(n) ==> n < limit,
{
    lemma_escape_time_from_bound(c, 0, limit);
}

/// Scanning from index `i` finds the first escape at or after it: every
/// earlier step in the scanned range stays inside the radius.
pub proof fn lemma_escape_time_from_first(c: Complex, i: u32, limit: u32)
    ensures
        spec_escape_time_from(c, i, limit) matches Some(n) ==> i <= n < limit && spec_escaped(
            spec_z_iter(c, (n + 1) as nat),
        ) && (forall|m: nat| i < m <= n ==> !spec_escaped(spec_z_iter(c, m))),
        spec_escape_time_from(c, i, limit) is None ==> forall|m: nat|
            i < m <= limit ==> !spec_escaped(spec_z_iter(c, m)),
    decreases limit - i,
{
    if i < limit && !spec_escaped(spec_z_iter(c, (i + 1) as nat)) {
        lemma_escape_time_from_first(c, (i + 1) as u32, limit);
    }
}

/// The escape count names the first step of the recurrence that leaves the
/// escape radius: step `n + 1` escapes and no earlier step does. Nothing is
/// returned exactly when no step within the budget escapes.
pub proof fn lemma_escape_time_first(c: Complex, limit: u32)
    ensures
        spec_escape_time(c, limit) matches Some(n) ==> n < limit && spec_escaped(
            spec_z_iter(c, (n + 1) as nat),
        ) && (forall|m: nat| 0 < m <= n ==> !spec_escaped(spec_z_iter(c, m))),
        spec_escape_time(c, limit) is None ==> forall|m: nat|
            0 < m <= limit ==> !spec_escaped(spec_z_iter(c, m)),
{
    lemma_escape_time_from_first(c, 0, limit);
}

/// Runs the recurrence from the origin for up to `limit` steps and returns
/// the step index at which the point escaped, or nothing if it never did.
pub fn calc_escape_time(c: Complex, limit: u32) -> (r: Option<u32>)
    ensures
        r == spec_escape_time(c, limit),
{
    let threshold = u32_to_dbl(ESCAPE_RADIUS_SQ);
    let mut z = Complex { re_bits: 0, im_bits: 0 };
    let mut i: u32 = 0;
    while i < limit
        invariant
            i <= limit,
            threshold == u32_to_dbl_bits(ESCAPE_RADIUS_SQ),
            z == spec_z_iter(c, i as nat),
            spec_escape_time(c, limit) == spec_escape_time_from(c, i, limit),
        decreases limit - i,
    {
        z = complex_add(complex_mul(z, z), c);
        let n = complex_norm_sqr(z);
        if dbl_gt(n, threshold) {
            return Some(i);
        }
        i = i + 1;
    }
    None
}

/// Where a pixel lands on the complex plane: linear interpolation between the
/// viewport corners, in the doubles named by the coordinate primitives.
pub open spec fn spec_pixel_to_point(
    bounds: (usize, usize),
    coordinate: (Complex, Complex),
    pixel: (usize, usize),
) -> Complex {
    let wspan = dbl_sub_bits(coordinate.1.re_bits, coordinate.0.re_bits);
    let hspan = dbl_sub_bits(coordinate.0.im_bits, coordinate.1.im_bits);
    Complex {
        re_bits: dbl_add_bits(
            coordinate.0.re_bits,
            dbl_div_bits(
                dbl_mul_bits(u32_to_dbl_bits(pixel.0 as u32), wspan),
                u32_to_dbl_bits(bounds.0 as u32),
            ),
        ),
        im_bits: dbl_sub_bits(
            coordinate.0.im_bits,
            dbl_div_bits(
                dbl_mul_bits(u32_to_dbl_bits(pixel.1 as u32), hspan),
                u32_to_dbl_bits(bounds.1 as u32),
            ),
        ),
    }
}

/// Maps a pixel of the grid onto the point of the viewport it renders.
pub fn pixel_to_point(
    bounds: (usize, usize),
    coordinate: (Complex, Complex),
    pixel: (usize, usize),
) -> (r: Complex)
    requires
        bounds.0 <= u32::MAX as usize,
        bounds.1 <= u32::MAX as usize,
        pixel.0 <= u32::MAX as usize,
        pixel.1 <= u32::MAX as usize,
    ensures
        r == spec_pixel_to_point(bounds, coordinate, pixel),
{
    let wspan = dbl_sub(coordinate.1.re_bits, coordinate.0.re_bits);
    let hspan = dbl_sub(coordinate.0.im_bits, coordinate.1.im_bits);
    let re_bits = dbl_add(
        coordinate.0.re_bits,
        dbl_div(dbl_mul(u32_to_dbl(pixel.0 as u32), wspan), u32_to_dbl(bounds.0 as u32)),
    );
    let im_bits = dbl_sub(
        coordinate.0.im_bits,
        dbl_div(dbl_mul(u32_to_dbl(pixel.1 as u32), hspan), u32_to_dbl(bounds.1 as u32)),
    );
    Complex { re_bits, im_bits }
}

/// How an escape count is turned into a displayable sample.
#[derive(Clone, Copy, PartialEq, Eq, Structural, Debug)]
pub enum IntensityPolicy {
    /// The budget minus the count: hard banding.
    Linear,
    /// A logarithmic curve calibrated to the 8-bit sample range: smoother
    /// gradients.
    Logarithmic,
}

/// The logarithmic curve applied to a count, before clipping to 8 bits:
/// scale the shifted logarithm of the count back onto the sample range.
pub open spec fn spec_log_curve(count: u32) -> u32 {
    let f_limit = u32_to_dbl_bits(LIMIT);
    let inv_limit = dbl_div_bits(u32_to_dbl_bits(1), f_limit);
    let offset = dbl_div_bits(u32_to_dbl_bits(5541264), u32_to_dbl_bits(1000000));
    let scale = dbl_div_bits(u32_to_dbl_bits(1108), u32_to_dbl_bits(100));
    dbl_to_u32_bits(
        dbl_mul_bits(
            dbl_div_bits(
                dbl_add_bits(dbl_ln_bits(dbl_add_bits(u32_to_dbl_bits(count), inv_limit)), offset),
                scale,
            ),
            f_limit,
        ),
    )
}

/// The sample an escape outcome maps to under a policy. A bounded point
/// counts as zero; the sample is truncated to 8 bits.
pub open spec fn spec_transform(escape: Option<u32>, limit: u32, policy: IntensityPolicy) -> u8 {
    match policy {
        IntensityPolicy::Linear => match escape {
            Some(count) => ((limit - count) % 256) as u8,
            None => 0u8,
        },
        IntensityPolicy::Logarithmic => {
            let count = match escape {
                Some(count) => count,
                None => 0u32,
            };
            (spec_log_curve(count) % 256) as u8
        },
    }
}

/// Turns an escape outcome into an 8-bit sample under the chosen policy.
/// The logarithmic calibration constants are tied to the 8-bit sample range.
pub fn transform(escape: Option<u32>, limit: u32, policy: IntensityPolicy) -> (r: u8)
    requires
        escape matches Some(count) ==> count < limit,
    ensures
        r == spec_transform(escape, limit, policy),
{
    match policy {
        IntensityPolicy::Linear => match escape {
            Some(count) => ((limit - count) % 256) as u8,
            None => 0u8,
        },
        IntensityPolicy::Logarithmic => {
            let count = match escape {
                Some(count) => count,
                None => 0u32,
            };
            let f_limit = u32_to_dbl(LIMIT);
            let inv_limit = dbl_div(u32_to_dbl(1), f_limit);
            let offset = dbl_div(u32_to_dbl(5541264), u32_to_dbl(1000000));
            let scale = dbl_div(u32_to_dbl(1108), u32_to_dbl(100));
            let v = dbl_to_u32(
                dbl_mul(dbl_div(dbl_add(dbl_ln(dbl_add(u32_to_dbl(count), inv_limit)), offset), scale), f_limit),
            );
            (v % 256) as u8
        },
    }
}

/// The sample rendered at a pixel: map it onto the plane, run the divergence
/// test under the iteration budget, and apply the logarithmic transform.
pub open spec fn spec_sample_at(
    bounds: (usize, usize),
    coordinate: (Complex, Complex),
    pixel: (usize, usize),
) -> u8 {
    let point = spec_pixel_to_point(bounds, coordinate, pixel);
    spec_transform(spec_escape_time(point, LIMIT), LIMIT, IntensityPolicy::Logarithmic)
}

/// The whole rendered image, row-major: one grayscale sample per pixel.
pub open spec fn spec_image(bounds: (usize, usize), coordinate: (Complex, Complex)) -> Seq<u8> {
    Seq::new(
        (bounds.0 * bounds.1) as nat,
        |i: int|
            spec_sample_at(
                bounds,
                coordinate,
                ((i % (bounds.0 as int)) as usize, (i / (bounds.0 as int)) as usize),
            ),
    )
}

/// Rendering depends on nothing but the bounds and the viewport: two
/// renderers that agree on both produce the identical image, whatever
/// buffers they are given to fill.
pub proof fn lemma_render_deterministic(a: Mandelbrot, b: Mandelbrot)
    requires
        a.spec_bounds() == b.spec_bounds(),
        a.spec_coordinate() == b.spec_coordinate(),
    ensures
        spec_image(a.spec_bounds(), a.spec_coordinate()) == spec_image(
            b.spec_bounds(),
            b.spec_coordinate(),
        ),
{
}

/// Under the linear policy the sample never grows with the escape count,
/// for iteration budgets within the 8-bit sample range.
pub proof fn lemma_linear_monotonic(c1: u32, c2: u32, limit: u32)
    requires
        c1 <= c2 < limit,
        limit <= 255,
    ensures
        spec_transform(Some(c2), limit, IntensityPolicy::Linear) <= spec_transform(
            Some(c1),
            limit,
            IntensityPolicy::Linear,
        ),
{
    lemma_small_mod((limit - c1) as nat, 256);
    lemma_small_mod((limit - c2) as nat, 256);
}

/// Why the emitter rejected a finished buffer.
#[derive(Clone, Copy, PartialEq, Eq, Structural, Debug)]
pub enum EncodeError {
    /// The encoder refused the buffer or its dimensions.
    Rejected,
}

/// The red-tinted RGB expansion of a grayscale buffer: each sample becomes
/// the red channel of its pixel, green and blue stay zero.
pub open spec fn spec_rgb_expand(s: Seq<u8>) -> Seq<u8> {
    Seq::new(s.len() * 3, |i: int| if i % 3 == 0 { s[i / 3] } else { 0u8 })
}

/// The PNG byte stream that image's encoder produces for a three-channel
/// 8-bit buffer of the given dimensions, or nothing where it reports an
/// error.
pub uninterp spec fn png_encoded_bits(pixels: Seq<u8>, width: u32, height: u32) -> Option<Seq<u8>>;

/// Relies on image's `PngEncoder::write_image` with the three-channel 8-bit
/// color type: the PNG byte stream is a function of the pixel bytes and the
/// dimensions alone. Its length check demands that the buffer match the
/// dimensions.
#[verifier::external_body]
fn encode_png(pixels: &Vec<u8>, width: u32, height: u32) -> (r: Option<Vec<u8>>)
    requires
        pixels@.len() == width * height * 3,
    ensures
        r matches Some(b) ==> png_encoded_bits(pixels@, width, height) == Some(b@),
        r is None ==> png_encoded_bits(pixels@, width, height) is None,
{
    let mut out: Vec<u8> = Vec::new();
    let encoder = image::codecs::png::PngEncoder::new(&mut out);
    match encoder.write_image(pixels, width, height, image::ColorType::Rgb8) {
        Ok(()) => Some(out),
        Err(_) => None,
    }
}

/// The renderer: the pixel-grid dimensions and the viewport to render.
#[derive(Clone, Copy)]
pub struct Mandelbrot {
    bounds: (usize, usize),
    coordinate: (Complex, Complex),
}

impl Mandelbrot {
    /// The pixel-grid dimensions (width, height).
    pub closed spec fn spec_bounds(self) -> (usize, usize) {
        self.bounds
    }

    /// The viewport corners (upper-left, lower-right).
    pub closed spec fn spec_coordinate(self) -> (Complex, Complex) {
        self.coordinate
    }

    pub fn new(bounds: (usize, usize), coordinate: (Complex, Complex)) -> (r: Self)
        ensures
            r.spec_bounds() == bounds,
            r.spec_coordinate() == coordinate,
    {
        Self { bounds, coordinate }
    }

    /// Renders one row of the image: one sample per column, in column order.
    pub fn render_row(&self, row: usize) -> (r: Vec<u8>)
        requires
            self.spec_bounds().0 <= u32::MAX as usize,
            self.spec_bounds().1 <= u32::MAX as usize,
            row < self.spec_bounds().1,
        ensures
            r@.len() == self.spec_bounds().0,
            forall|col: int|
                0 <= col < self.spec_bounds().0 ==> r@[col] == spec_sample_at(
                    self.spec_bounds(),
                    self.spec_coordinate(),
                    (col as usize, row),
                ),
    {
        let w = self.bounds.0;
        let mut out: Vec<u8> = Vec::new();
        let mut col: usize = 0;
        while col < w
            invariant
                col <= w,
                w == self.spec_bounds().0,
                w <= u32::MAX as usize,
                self.spec_bounds().1 <= u32::MAX as usize,
                row < self.spec_bounds().1,
                out@.len() == col,
                forall|j: int|
                    0 <= j < col ==> out@[j] == spec_sample_at(
                        self.spec_bounds(),
                        self.spec_coordinate(),
                        (j as usize, row),
                    ),
            decreases w - col,
        {
            let point = pixel_to_point(self.bounds, self.coordinate, (col, row));
            let escape = calc_escape_time(point, LIMIT);
            proof {
                lemma_escape_time_bound(point, LIMIT);
            }
            let sample = transform(escape, LIMIT, IntensityPolicy::Logarithmic);
            out.push(sample);
            col = col + 1;
        }
        out
    }

    /// Renders the whole image into the given buffer, row by row, and
    /// returns it. Every byte of the result is pinned to `spec_image`, so
    /// the outcome does not depend on the buffer's prior contents.
    pub fn render2(&self, q: Vec<u8>) -> (r: Vec<u8>)
        requires
            self.spec_bounds().0 <= u32::MAX as usize,
            self.spec_bounds().1 <= u32::MAX as usize,
            q@.len() == self.spec_bounds().0 * self.spec_bounds().1,
        ensures
            r@ == spec_image(self.spec_bounds(), self.spec_coordinate()),
    {
        let w = self.bounds.0;
        let h = self.bounds.1;
        let mut p = q;
        let buffer_len = p.len();
        proof {
            // The buffer's length, a machine word, bounds the pixel count.
            assert(buffer_len as int == (w as int) * (h as int));
            assert((w as int) * (h as int) <= usize::MAX as int);
        }
        let mut row: usize = 0;
        while row < h
            invariant
                row <= h,
                w == self.spec_bounds().0,
                h == self.spec_bounds().1,
                w <= u32::MAX as usize,
                h <= u32::MAX as usize,
                (w as int) * (h as int) <= usize::MAX as int,
                p@.len() == w * h,
                forall|i: int|
                    0 <= i < row * w ==> p@[i] == spec_image(
                        self.spec_bounds(),
                        self.spec_coordinate(),
                    )[i],
            decreases h - row,
        {
            let rowbuf = self.render_row(row);
            let mut col: usize = 0;
            while col < w
                invariant
                    col <= w,
                    row < h,
                    w == self.spec_bounds().0,
                    h == self.spec_bounds().1,
                    w <= u32::MAX as usize,
                    h <= u32::MAX as usize,
                    (w as int) * (h as int) <= usize::MAX as int,
                    rowbuf@.len() == w,
                    forall|j: int|
                        0 <= j < w ==> rowbuf@[j] == spec_sample_at(
                            self.spec_bounds(),
                            self.spec_coordinate(),
                            (j as usize, row),
                        ),
                    p@.len() == w * h,
                    forall|i: int|
                        0 <= i < row * w + col ==> p@[i] == spec_image(
                            self.spec_bounds(),
                            self.spec_coordinate(),
                        )[i],
                decreases w - col,
            {
                proof {
                    assert((row as int) * (w as int) + (col as int) < (w as int) * (h as int))
                        by (nonlinear_arith)
                        requires
                            (row as int) < (h as int),
                            (col as int) < (w as int),
                            0 <= (row as int),
                            0 <= (col as int),
                    ;
                }
                let at = row * w + col;
                p.set(at, rowbuf[col]);
                proof {
                    lemma_fundamental_div_mod_converse(at as int, w as int, row as int, col as int);
                }
                col = col + 1;
            }
            proof {
                assert(((row as int) + 1) * (w as int) == (row as int) * (w as int) + (w as int))
                    by (nonlinear_arith);
            }
            row = row + 1;
        }
        proof {
            assert(p@ =~= spec_image(self.spec_bounds(), self.spec_coordinate()));
        }
        p
    }

    /// Expands the grayscale buffer into a red-tinted RGB buffer and encodes
    /// it as a PNG byte stream, or reports the emission error.
    pub fn write_image(&self, pixels: &Vec<u8>) -> (r: Result<Vec<u8>, EncodeError>)
        requires
            self.spec_bounds().0 <= u32::MAX as usize,
            self.spec_bounds().1 <= u32::MAX as usize,
            pixels@.len() == self.spec_bounds().0 * self.spec_bounds().1,
            pixels@.len() * 3 <= usize::MAX,
        ensures
            (match png_encoded_bits(
                spec_rgb_expand(pixels@),
                self.spec_bounds().0 as u32,
                self.spec_bounds().1 as u32,
            ) {
                Some(bytes) => r matches Ok(out) && out@ == bytes,
                None => r matches Err(EncodeError::Rejected),
            }),
    {
        let w = self.bounds.0;
        let h = self.bounds.1;
        let n = pixels.len();
        let mut rgb: Vec<u8> = Vec::new();
        let mut i: usize = 0;
        while i < n
            invariant
                i <= n,
                n == pixels@.len(),
                n * 3 <= usize::MAX,
                rgb@.len() == i * 3,
                forall|j: int| 0 <= j < i * 3 ==> rgb@[j] == spec_rgb_expand(pixels@)[j],
            decreases n - i,
        {
            rgb.push(pixels[i]);
            rgb.push(0);
            rgb.push(0);
            proof {
                lemma_fundamental_div_mod_converse(3 * i as int, 3, i as int, 0);
                lemma_fundamental_div_mod_converse(3 * i as int + 1, 3, i as int, 1);
                lemma_fundamental_div_mod_converse(3 * i as int + 2, 3, i as int, 2);
            }
            i = i + 1;
        }
        proof {
            assert(rgb@ =~= spec_rgb_expand(pixels@));
        }
        match encode_png(&rgb, w as u32, h as u32) {
            Some(bytes) => Ok(bytes),
            None => Err(EncodeError::Rejected),
        }
    }
}

} // verus!
