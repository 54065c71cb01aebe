use crate::color::{
    lerp, lerp_spec, raster_height, raster_pixel, raster_pixels, raster_size, raster_width,
    raster_with_color, PixelRaster, Rgba,
};
use crate::color::lemma_lerp_ends_and_monotone;
use crate::timer::Timer;
use vstd::arithmetic::div_mod::{lemma_div_is_ordered, lemma_fundamental_div_mod_converse};
use vstd::prelude::*;

verus! {

/// Where an entity draws relative to others: at a given level, or above
/// everything else.
#[derive(Clone, Copy, Debug, PartialEq, Eq, Structural)]
pub enum Depth {
    Level(i32),
    Foreground,
}

/// A placement in pixel units: an offset and a drawing depth.
#[derive(Clone, Copy, Debug, PartialEq, Eq, Structural)]
pub struct Transform {
    pub x: i32,
    pub y: i32,
    pub depth: Depth,
}

impl Transform {
    /// No offset, at depth level 0.
    pub fn identity() -> (t: Transform)
        ensures
            t == (Transform { x: 0, y: 0, depth: Depth::Level(0) }),
    {
        Transform { x: 0, y: 0, depth: Depth::Level(0) }
    }

    pub fn from_xyz(x: i32, y: i32, depth: Depth) -> (t: Transform)
        ensures
            t == (Transform { x, y, depth }),
    {
        Transform { x, y, depth }
    }
}

/// Marks a transform as given in screen (viewport) coordinates rather than
/// world coordinates.
#[derive(Clone, Copy, Debug, PartialEq, Eq, Structural)]
pub struct ScreenSpace;

/// Sets up the camera resource.
pub struct CameraPlugin;

/// Drives the fade overlays, one update per frame.
pub struct FadePlugin;

struct Viewport {
    transform: Transform,
    size: (u32, u32),
}

/// The viewport transform and size, and the raster the frame is composed
/// into. The raster has the viewport's size.
pub struct Camera {
    viewport: Viewport,
    raster: PixelRaster,
}

/// A drawable image backed by a raster.
pub struct Bitmap {
    pub raster: PixelRaster,
}

/// The state of one fade overlay: a timer, the alpha it fades from and to
/// (as 8-bit channel values) and the premultiplied color it is made of.
pub struct Fade {
    pub timer: Timer,
    pub from: u8,
    pub to: u8,
    pub base_color: Rgba,
}

/// Everything an overlay entity is spawned with.
pub struct FadeBundle {
    pub fade: Fade,
    pub bitmap: Bitmap,
    pub transform: Transform,
    pub screen_space: ScreenSpace,
}

/// What a fade update asks of the entity that holds the fade.
#[derive(Clone, Copy, Debug, PartialEq, Eq, Structural)]
pub enum FadeStep {
    /// The fade is over: remove its entity.
    Despawn,
    /// The overlay was repainted in this color.
    Recolored(Rgba),
}

/// A raster of `width` by `height` pixels, all of color `c`.
pub open spec fn uniform(width: u32, height: u32, c: Rgba) -> Seq<(u8, u8, u8, u8)> {
    Seq::new((width * height) as nat, |i: int| c.view_tuple())
}

impl Bitmap {
    pub open spec fn width_spec(self) -> u32 {
        raster_size(self.raster).0
    }

    pub open spec fn height_spec(self) -> u32 {
        raster_size(self.raster).1
    }

    pub open spec fn pixels_spec(self) -> Seq<(u8, u8, u8, u8)> {
        raster_pixels(self.raster)
    }

    /// Its sides and its pixel count fit in the raster's `i32` arithmetic.
    pub open spec fn wf(self) -> bool {
        &&& self.width_spec() <= i32::MAX
        &&& self.height_spec() <= i32::MAX
        &&& self.width_spec() as int * self.height_spec() as int <= i32::MAX
    }

    /// A bitmap of the given size with every pixel transparent.
    pub fn clear(width: u32, height: u32) -> (b: Bitmap)
        requires
            width <= i32::MAX,
            height <= i32::MAX,
            width as int * height as int <= i32::MAX,
        ensures
            b.wf(),
            b.width_spec() == width,
            b.height_spec() == height,
            b.pixels_spec() == uniform(width, height, Rgba::transparent_spec()),
    {
        Bitmap { raster: raster_with_color(width, height, Rgba::transparent()) }
    }

    /// A bitmap of the given size with every pixel of color `c`.
    pub fn clear_color(width: u32, height: u32, c: Rgba) -> (b: Bitmap)
        requires
            width <= i32::MAX,
            height <= i32::MAX,
            width as int * height as int <= i32::MAX,
        ensures
            b.wf(),
            b.width_spec() == width,
            b.height_spec() == height,
            b.pixels_spec() == uniform(width, height, c),
    {
        Bitmap { raster: raster_with_color(width, height, c) }
    }

    pub fn width(&self) -> (w: u32)
        ensures
            w == self.width_spec(),
    {
        raster_width(&self.raster)
    }

    pub fn height(&self) -> (h: u32)
        ensures
            h == self.height_spec(),
    {
        raster_height(&self.raster)
    }

    /// The color at column `x` of row `y`, or `None` outside the bitmap.
    pub fn color_at(&self, x: u32, y: u32) -> (c: Option<Rgba>)
        requires
            self.wf(),
        ensures
            x < self.width_spec() && y < self.height_spec() ==> c.is_some()
                && c.unwrap().view_tuple() == self.pixels_spec()[self.width_spec() * y + x],
            !(x < self.width_spec() && y < self.height_spec()) ==> c.is_none(),
    {
        let w = raster_width(&self.raster);
        let h = raster_height(&self.raster);
        if x < w && y < h {
            Some(raster_pixel(&self.raster, x, y))
        } else {
            None
        }
    }
}

impl Camera {
    pub closed spec fn transform_spec(self) -> Transform {
        self.viewport.transform
    }

    pub closed spec fn size_spec(self) -> (u32, u32) {
        self.viewport.size
    }

    pub closed spec fn raster_spec(self) -> PixelRaster {
        self.raster
    }

    /// The viewport transform.
    pub fn transform(&self) -> (t: Transform)
        ensures
            t == self.transform_spec(),
    {
        self.viewport.transform
    }

    /// Exclusive access to the viewport transform; it is not validated.
    pub fn transform_mut(&mut self) -> (t: &mut Transform)
        ensures
            *t == old(self).transform_spec(),
            final(self).transform_spec() == *final(t),
            final(self).size_spec() == old(self).size_spec(),
            final(self).raster_spec() == old(self).raster_spec(),
    {
        &mut self.viewport.transform
    }

    /// The viewport `(width, height)` in pixels.
    pub fn size(&self) -> (s: (u32, u32))
        ensures
            s == self.size_spec(),
    {
        self.viewport.size
    }

    /// Exclusive access to the raster the frame is composed into.
    pub fn raster_mut(&mut self) -> (r: &mut PixelRaster)
        ensures
            *r == old(self).raster_spec(),
            final(self).raster_spec() == *final(r),
            final(self).transform_spec() == old(self).transform_spec(),
            final(self).size_spec() == old(self).size_spec(),
    {
        &mut self.raster
    }
}

impl Fade {
    /// The overlay alpha for the timer's current progress.
    pub open spec fn alpha_spec(self) -> int {
        lerp_spec(self.from, self.to, self.timer.progress_spec() as u8)
    }

    /// The overlay color for the timer's current progress.
    pub open spec fn color_spec(self) -> Rgba {
        self.base_color.scaled_spec(self.alpha_spec() as u8)
    }
}

/// The fade state that `Camera::fade_in` starts with: from fully covered to
/// fully clear.
pub open spec fn fade_in_state(duration: u64, base_color: Rgba) -> Fade {
    Fade { timer: Timer { duration, elapsed: 0 }, from: 255, to: 0, base_color }
}

/// The fade state that `Camera::fade_out` starts with: from fully clear to
/// fully covered.
pub open spec fn fade_out_state(duration: u64, base_color: Rgba) -> Fade {
    Fade { timer: Timer { duration, elapsed: 0 }, from: 0, to: 255, base_color }
}

/// Where every overlay is placed: the viewport origin, above everything.
pub open spec fn overlay_transform() -> Transform {
    Transform { x: 0, y: 0, depth: Depth::Foreground }
}

impl Camera {
    /// An overlay that covers the viewport in `base_color` and fades to
    /// transparent over `duration` nanoseconds.
    pub fn fade_in(duration: u64, width: u32, height: u32, base_color: Rgba) -> (b: FadeBundle)
        requires
            width <= i32::MAX,
            height <= i32::MAX,
            width as int * height as int <= i32::MAX,
        ensures
            b.fade == fade_in_state(duration, base_color),
            b.bitmap.wf(),
            b.bitmap.width_spec() == width,
            b.bitmap.height_spec() == height,
            b.bitmap.pixels_spec() == uniform(width, height, base_color),
            b.transform == overlay_transform(),
    {
        let bitmap = Bitmap::clear_color(width, height, base_color);
        let fade = Fade { timer: Timer::new(duration), from: 255, to: 0, base_color };
        let transform = Transform::from_xyz(0, 0, Depth::Foreground);
        FadeBundle { fade, bitmap, transform, screen_space: ScreenSpace }
    }

    /// An overlay that starts transparent and covers the viewport in
    /// `base_color` over `duration` nanoseconds.
    pub fn fade_out(duration: u64, width: u32, height: u32, base_color: Rgba) -> (b: FadeBundle)
        requires
            width <= i32::MAX,
            height <= i32::MAX,
            width as int * height as int <= i32::MAX,
        ensures
            b.fade == fade_out_state(duration, base_color),
            b.bitmap.wf(),
            b.bitmap.width_spec() == width,
            b.bitmap.height_spec() == height,
            b.bitmap.pixels_spec() == uniform(width, height, Rgba::transparent_spec()),
            b.transform == overlay_transform(),
    {
        let bitmap = Bitmap::clear(width, height);
        let fade = Fade { timer: Timer::new(duration), from: 0, to: 255, base_color };
        let transform = Transform::from_xyz(0, 0, Depth::Foreground);
        FadeBundle { fade, bitmap, transform, screen_space: ScreenSpace }
    }
}

/// `fade_in` and `fade_out` with the same arguments fade in opposite
/// directions: each one's starting alpha is the other's final alpha, fully
/// covered (255) against fully clear (0), over the same timer and color.
pub proof fn lemma_fade_in_out_inverse(duration: u64, base_color: Rgba)
    ensures
        fade_in_state(duration, base_color).from == fade_out_state(duration, base_color).to,
        fade_in_state(duration, base_color).to == fade_out_state(duration, base_color).from,
        fade_in_state(duration, base_color).from == 255,
        fade_in_state(duration, base_color).to == 0,
        fade_in_state(duration, base_color).timer == fade_out_state(duration, base_color).timer,
        fade_in_state(duration, base_color).base_color == fade_out_state(
            duration,
            base_color,
        ).base_color,
{
}

/// A fade's timer progress is 0 when it starts (for a positive duration),
/// 255 when its elapsed time reaches the duration, and never decreases as
/// time goes on.
pub proof fn lemma_progress_ends_and_monotone(duration: u64, e1: u64, e2: u64)
    requires
        e1 <= e2 <= duration,
    ensures
        duration > 0 ==> (Timer { duration, elapsed: 0 }).progress_spec() == 0,
        (Timer { duration, elapsed: duration }).progress_spec() == 255,
        0 <= (Timer { duration, elapsed: e1 }).progress_spec() <= (Timer {
            duration,
            elapsed: e2,
        }).progress_spec() <= 255,
{
    let d = duration as int;
    if d > 0 {
        lemma_fundamental_div_mod_converse(d, 2 * d, 0, d);
        lemma_fundamental_div_mod_converse(510 * d + d, 2 * d, 255, d);
        lemma_div_is_ordered(d, 510 * e1 + d, 2 * d);
        lemma_div_is_ordered(510 * e1 + d, 510 * e2 + d, 2 * d);
        lemma_div_is_ordered(510 * e2 + d, 510 * d + d, 2 * d);
    }
}

/// Over the life of a fade the overlay alpha starts at `from` and ends at
/// `to`, moving monotonically: as elapsed time grows it never decreases
/// when `from <= to` and never increases when `from >= to`.
pub proof fn lemma_fade_alpha(f: Fade, e1: u64, e2: u64)
    requires
        e1 <= e2 <= f.timer.duration,
    ensures
        f.timer.duration > 0 ==> (Fade { timer: Timer { elapsed: 0, ..f.timer }, ..f }).alpha_spec()
            == f.from,
        (Fade { timer: Timer { elapsed: f.timer.duration, ..f.timer }, ..f }).alpha_spec() == f.to,
        f.from <= f.to ==> (Fade { timer: Timer { elapsed: e1, ..f.timer }, ..f }).alpha_spec() <= (
        Fade { timer: Timer { elapsed: e2, ..f.timer }, ..f }).alpha_spec(),
        f.from >= f.to ==> (Fade { timer: Timer { elapsed: e1, ..f.timer }, ..f }).alpha_spec() >= (
        Fade { timer: Timer { elapsed: e2, ..f.timer }, ..f }).alpha_spec(),
{
    let d = f.timer.duration;
    lemma_progress_ends_and_monotone(d, e1, e2);
    lemma_progress_ends_and_monotone(d, 0, 0);
    let p1 = (Timer { duration: d, elapsed: e1 }).progress_spec() as u8;
    let p2 = (Timer { duration: d, elapsed: e2 }).progress_spec() as u8;
    lemma_lerp_ends_and_monotone(f.from, f.to, p1, p2);
}

/// A fade of zero duration is finished as soon as it is made, so its first
/// update removes it without painting a frame.
pub proof fn lemma_zero_duration_fade(base_color: Rgba)
    ensures
        fade_in_state(0, base_color).timer.finished_spec(),
        fade_out_state(0, base_color).timer.finished_spec(),
{
}

/// An unfinished timer finishes on the tick that brings its elapsed time to
/// its duration, and a finished timer stays finished: so a fade is asked to
/// be removed on the first update that finds its timer finished, and on
/// every update before that it is repainted instead.
pub proof fn lemma_timer_finishes(t: Timer, delta: u64)
    requires
        t.wf(),
    ensures
        (Timer { elapsed: t.ticked_elapsed(delta), ..t }).wf(),
        (Timer { elapsed: t.ticked_elapsed(delta), ..t }).finished_spec() <==> t.elapsed as int
            + delta as int >= t.duration as int,
        t.finished_spec() ==> (Timer { elapsed: t.ticked_elapsed(delta), ..t }) == t,
{
}

impl FadePlugin {
    /// One frame of a fade overlay, `delta` nanoseconds after the last.
    ///
    /// A fade whose timer has finished asks for its entity to be removed and
    /// changes nothing. Otherwise the timer advances, and the bitmap is
    /// replaced by one of the same size in the base color scaled by the
    /// interpolated alpha.
    pub fn update(fade: &mut Fade, bitmap: &mut Bitmap, delta: u64) -> (r: FadeStep)
        requires
            old(fade).timer.wf(),
            old(bitmap).wf(),
        ensures
            old(fade).timer.finished_spec() ==> r == FadeStep::Despawn && *final(fade) == *old(
                fade,
            ) && *final(bitmap) == *old(bitmap),
            !old(fade).timer.finished_spec() ==> {
                &&& final(fade).timer.duration == old(fade).timer.duration
                &&& final(fade).timer.elapsed == old(fade).timer.ticked_elapsed(delta)
                &&& final(fade).from == old(fade).from
                &&& final(fade).to == old(fade).to
                &&& final(fade).base_color == old(fade).base_color
                &&& r == FadeStep::Recolored(final(fade).color_spec())
                &&& final(bitmap).wf()
                &&& final(bitmap).width_spec() == old(bitmap).width_spec()
                &&& final(bitmap).height_spec() == old(bitmap).height_spec()
                &&& final(bitmap).pixels_spec() == uniform(
                    old(bitmap).width_spec(),
                    old(bitmap).height_spec(),
                    final(fade).color_spec(),
                )
            },
    {
        if fade.timer.finished() {
            return FadeStep::Despawn;
        }
        fade.timer.tick(delta);
        let alpha = lerp(fade.from, fade.to, fade.timer.progress());
        let color = fade.base_color.scaled(alpha);
        let width = bitmap.width();
        let height = bitmap.height();
        bitmap.raster = raster_with_color(width, height, color);
        FadeStep::Recolored(color)
    }
}

impl CameraPlugin {
    /// The camera for a `width` by `height` output: identity transform and
    /// a cleared raster of that size.
    pub fn build(width: u32, height: u32) -> (c: Camera)
        requires
            width <= i32::MAX,
            height <= i32::MAX,
            width as int * height as int <= i32::MAX,
        ensures
            c.transform_spec() == (Transform { x: 0, y: 0, depth: Depth::Level(0) }),
            c.size_spec() == (width, height),
            raster_size(c.raster_spec()) == (width, height),
            raster_pixels(c.raster_spec()) == uniform(width, height, Rgba::transparent_spec()),
    {
        let viewport = Viewport { transform: Transform::identity(), size: (width, height) };
        let raster = raster_with_color(width, height, Rgba::transparent());
        Camera { viewport, raster }
    }
}

} // verus!
