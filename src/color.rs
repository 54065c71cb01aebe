use pix::chan::{Ch8, Channel};
use pix::el::Pixel;
use pix::rgb::Rgba8p;
use pix::Raster;
use vstd::arithmetic::div_mod::{lemma_div_is_ordered, lemma_fundamental_div_mod_converse};
use vstd::prelude::*;

verus! {

/// An 8-bit RGBA color whose red, green and blue channels are already
/// scaled by its alpha (premultiplied alpha).
#[derive(Clone, Copy, Debug, PartialEq, Eq, Structural)]
pub struct Rgba {
    pub r: u8,
    pub g: u8,
    pub b: u8,
    pub a: u8,
}

impl Rgba {
    pub fn new(r: u8, g: u8, b: u8, a: u8) -> (c: Rgba)
        ensures
            c == (Rgba { r, g, b, a }),
    {
        Rgba { r, g, b, a }
    }

    pub open spec fn transparent_spec() -> Rgba {
        Rgba { r: 0, g: 0, b: 0, a: 0 }
    }

    /// The fully transparent color: every channel zero.
    pub fn transparent() -> (c: Rgba)
        ensures
            c == Rgba::transparent_spec(),
    {
        Rgba { r: 0, g: 0, b: 0, a: 0 }
    }

    pub open spec fn view_tuple(self) -> (u8, u8, u8, u8) {
        (self.r, self.g, self.b, self.a)
    }

    /// Every channel multiplied by `alpha`, in 8-bit channel arithmetic.
    pub open spec fn scaled_spec(self, alpha: u8) -> Rgba {
        Rgba {
            r: mul_spec(self.r, alpha) as u8,
            g: mul_spec(self.g, alpha) as u8,
            b: mul_spec(self.b, alpha) as u8,
            a: mul_spec(self.a, alpha) as u8,
        }
    }

    /// Multiply every channel by `alpha`; a premultiplied color stays
    /// premultiplied.
    pub fn scaled(&self, alpha: u8) -> (c: Rgba)
        ensures
            c == self.scaled_spec(alpha),
    {
        Rgba {
            r: ch8_mul(self.r, alpha),
            g: ch8_mul(self.g, alpha),
            b: ch8_mul(self.b, alpha),
            a: ch8_mul(self.a, alpha),
        }
    }
}

/// A channel value spread from 8 to 12 bits, as the channel product uses it.
pub open spec fn widen(v: u8) -> int {
    v * 16 + v / 16
}

/// The product of two 8-bit channels, each read as a fraction of 255.
pub open spec fn mul_spec(a: u8, b: u8) -> int {
    (widen(a) * widen(b)) / 65536
}

/// `v * t / 255` computed without a division by 255 (`>>` is a floor
/// division by 256).
pub open spec fn scale_spec(t: u8, v: int) -> int {
    let c = v * t;
    ((c + 1) + c / 256) / 256
}

/// Linear interpolation from `v0` to `v1` by the channel fraction `t`.
pub open spec fn lerp_spec(v0: u8, v1: u8, t: u8) -> int {
    v0 + scale_spec(t, v1 - v0)
}

proof fn lemma_scale_ends(v: int)
    requires
        -255 <= v <= 255,
    ensures
        scale_spec(0, v) == 0,
        scale_spec(255, v) == v,
{
    let c = v * 255;
    assert(v * 0 == 0);
    lemma_fundamental_div_mod_converse(1, 256, 0, 1);
    if v > 0 {
        lemma_fundamental_div_mod_converse(c, 256, v - 1, 256 - v);
        lemma_fundamental_div_mod_converse(c + 1 + c / 256, 256, v, 0);
    } else if v == 0 {
        assert(c == 0);
    } else {
        lemma_fundamental_div_mod_converse(c, 256, v, -v);
        lemma_fundamental_div_mod_converse(c + 1 + c / 256, 256, v, 1);
    }
}

proof fn lemma_scale_ordered(t1: u8, t2: u8, v: int)
    requires
        t1 <= t2,
    ensures
        v >= 0 ==> scale_spec(t1, v) <= scale_spec(t2, v),
        v <= 0 ==> scale_spec(t1, v) >= scale_spec(t2, v),
{
    let c1 = v * t1;
    let c2 = v * t2;
    if v >= 0 {
        assert(c1 <= c2) by (nonlinear_arith)
            requires t1 <= t2, v >= 0, c1 == v * t1, c2 == v * t2;
        lemma_div_is_ordered(c1, c2, 256);
        lemma_div_is_ordered(c1 + 1 + c1 / 256, c2 + 1 + c2 / 256, 256);
    }
    if v <= 0 {
        assert(c2 <= c1) by (nonlinear_arith)
            requires t1 <= t2, v <= 0, c1 == v * t1, c2 == v * t2;
        lemma_div_is_ordered(c2, c1, 256);
        lemma_div_is_ordered(c2 + 1 + c2 / 256, c1 + 1 + c1 / 256, 256);
    }
}

/// Channel interpolation starts at `from` when `t` is 0, ends at `to` when
/// `t` is 255, and moves monotonically from one to the other in between: it
/// never decreases when `from <= to` and never increases when `from >= to`.
/// In particular it always stays between the two.
pub proof fn lemma_lerp_ends_and_monotone(from: u8, to: u8, t1: u8, t2: u8)
    requires
        t1 <= t2,
    ensures
        lerp_spec(from, to, 0) == from,
        lerp_spec(from, to, 255) == to,
        from <= to ==> from <= lerp_spec(from, to, t1) <= lerp_spec(from, to, t2) <= to,
        from >= to ==> from >= lerp_spec(from, to, t1) >= lerp_spec(from, to, t2) >= to,
{
    let v = to - from;
    lemma_scale_ends(v);
    lemma_scale_ordered(0, t1, v);
    lemma_scale_ordered(t1, t2, v);
    lemma_scale_ordered(t2, 255, v);
}

/// Relies on pix's `Mul` for `Ch8`: both operands are widened to 12 bits
/// (`(v << 4) | (v >> 4)`), multiplied, and shifted right by 16.
#[verifier::external_body]
fn ch8_mul(a: u8, b: u8) -> (r: u8)
    ensures
        r as int == mul_spec(a, b),
{
    u8::from(Ch8::new(a) * Ch8::new(b))
}

/// Interpolate between two channel values by the channel fraction `t`.
pub fn lerp(from: u8, to: u8, t: u8) -> (r: u8)
    ensures
        r as int == lerp_spec(from, to, t),
{
    let r = ch8_lerp(from, to, t);
    proof {
        lemma_lerp_ends_and_monotone(from, to, t, t);
        vstd::arithmetic::div_mod::lemma_small_mod(lerp_spec(from, to, t) as nat, 256);
    }
    r
}

/// Relies on pix's `Channel::lerp` for `Ch8`: `v0 + scale_i32(t, v1 - v0)`,
/// truncated to a byte.
#[verifier::external_body]
fn ch8_lerp(v0: u8, v1: u8, t: u8) -> (r: u8)
    ensures
        r as int == lerp_spec(v0, v1, t) % 256,
{
    u8::from(Ch8::new(v0).lerp(Ch8::new(v1), Ch8::new(t)))
}

/// A grid of premultiplied RGBA pixels, held in pix's `Raster`.
#[verifier::external_body]
pub struct PixelRaster {
    raster: Raster<Rgba8p>,
}

/// The pixels of a raster, row by row, as `(r, g, b, a)` channel values.
pub uninterp spec fn raster_pixels(r: PixelRaster) -> Seq<(u8, u8, u8, u8)>;

/// The `(width, height)` of a raster.
pub uninterp spec fn raster_size(r: PixelRaster) -> (u32, u32);

/// Relies on pix's `Raster::with_color`: a `width` by `height` raster with
/// every pixel set to `c`. It panics when a side exceeds `i32::MAX`, and
/// computes `width * height` in `i32`.
#[verifier::external_body]
pub(crate) fn raster_with_color(width: u32, height: u32, c: Rgba) -> (r: PixelRaster)
    requires
        width <= i32::MAX,
        height <= i32::MAX,
        width as int * height as int <= i32::MAX,
    ensures
        raster_size(r) == (width, height),
        raster_pixels(r) == Seq::new((width * height) as nat, |i: int| c.view_tuple()),
{
    PixelRaster { raster: Raster::with_color(width, height, Rgba8p::new(c.r, c.g, c.b, c.a)) }
}

/// Relies on pix's `Raster::width`: the width the raster was made with.
#[verifier::external_body]
pub(crate) fn raster_width(r: &PixelRaster) -> (w: u32)
    ensures
        w == raster_size(*r).0,
{
    r.raster.width()
}

/// Relies on pix's `Raster::height`: the height the raster was made with.
#[verifier::external_body]
pub(crate) fn raster_height(r: &PixelRaster) -> (h: u32)
    ensures
        h == raster_size(*r).1,
{
    r.raster.height()
}

/// Relies on pix's `Raster::pixel`: the pixel at column `x` of row `y`,
/// stored at index `width * y + x`; it panics outside the raster.
#[verifier::external_body]
pub(crate) fn raster_pixel(r: &PixelRaster, x: u32, y: u32) -> (c: Rgba)
    requires
        x < raster_size(*r).0,
        y < raster_size(*r).1,
        raster_size(*r).0 <= i32::MAX,
        raster_size(*r).1 <= i32::MAX,
    ensures
        c.view_tuple() == raster_pixels(*r)[raster_size(*r).0 * y + x],
{
    let p = r.raster.pixel(x as i32, y as i32);
    let ch = p.channels();
    Rgba { r: u8::from(ch[0]), g: u8::from(ch[1]), b: u8::from(ch[2]), a: u8::from(ch[3]) }
}

} // verus!
