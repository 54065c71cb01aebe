use odonata_present::camera::{Bitmap, Camera, CameraPlugin, Depth, FadePlugin, FadeStep, Transform};
use odonata_present::color::{lerp, Rgba};
use odonata_present::timer::Timer;

const SECOND: u64 = 1_000_000_000;

#[test]
fn timer_ticks_up_to_its_duration() {
    let mut t = Timer::new(10);
    assert!(!t.finished());
    t.tick(4);
    assert_eq!(t.elapsed(), 4);
    assert!(!t.finished());
    t.tick(100);
    assert_eq!(t.elapsed(), 10);
    assert!(t.finished());
    assert_eq!(t.duration(), 10);
}

#[test]
fn zero_length_timer_is_finished_at_once() {
    let t = Timer::new(0);
    assert!(t.finished());
    assert_eq!(t.progress(), 255);
}

#[test]
fn timer_progress_rounds_to_nearest_step() {
    let mut t = Timer::new(2 * SECOND);
    assert_eq!(t.progress(), 0);
    t.tick(SECOND);
    assert_eq!(t.progress(), 128);
    t.tick(SECOND);
    assert_eq!(t.progress(), 255);
}

#[test]
fn channel_scaling_is_exact() {
    let white = Rgba::new(255, 255, 255, 255);
    assert_eq!(white.scaled(128), Rgba::new(128, 128, 128, 128));
    assert_eq!(white.scaled(0), Rgba::transparent());
    assert_eq!(white.scaled(255), white);
    assert_eq!(Rgba::new(200, 100, 50, 200).scaled(51), Rgba::new(40, 20, 10, 40));
}

#[test]
fn channel_lerp_endpoints_and_midpoint() {
    assert_eq!(lerp(255, 0, 0), 255);
    assert_eq!(lerp(255, 0, 255), 0);
    assert_eq!(lerp(255, 0, 128), 127);
    assert_eq!(lerp(0, 255, 128), 128);
    assert_eq!(lerp(10, 20, 0), 10);
    assert_eq!(lerp(10, 20, 255), 20);
}

#[test]
fn fade_alpha_is_monotonic_over_time() {
    let white = Rgba::new(255, 255, 255, 255);
    let mut b = Camera::fade_out(SECOND, 2, 2, white);
    let mut last = 0u8;
    for _ in 0..10 {
        match FadePlugin::update(&mut b.fade, &mut b.bitmap, SECOND / 10) {
            FadeStep::Recolored(c) => {
                assert!(c.a >= last);
                last = c.a;
            }
            FadeStep::Despawn => panic!("removed too early"),
        }
    }
    assert_eq!(last, 255);
    let mut b = Camera::fade_in(SECOND, 2, 2, white);
    let mut last = 255u8;
    for _ in 0..10 {
        match FadePlugin::update(&mut b.fade, &mut b.bitmap, SECOND / 10) {
            FadeStep::Recolored(c) => {
                assert!(c.a <= last);
                last = c.a;
            }
            FadeStep::Despawn => panic!("removed too early"),
        }
    }
    assert_eq!(last, 0);
}

#[test]
fn zero_duration_fade_shows_no_frame() {
    let black = Rgba::new(0, 0, 0, 255);
    let mut b = Camera::fade_in(0, 4, 4, black);
    assert_eq!(FadePlugin::update(&mut b.fade, &mut b.bitmap, 16), FadeStep::Despawn);
    let mut b = Camera::fade_out(0, 4, 4, black);
    assert_eq!(FadePlugin::update(&mut b.fade, &mut b.bitmap, 0), FadeStep::Despawn);
    assert_eq!(b.bitmap.color_at(0, 0), Some(Rgba::transparent()));
}

#[test]
fn fade_is_removed_on_first_update_after_finishing() {
    let c = Rgba::new(10, 20, 30, 40);
    let mut b = Camera::fade_out(SECOND, 1, 1, c);
    assert_eq!(FadePlugin::update(&mut b.fade, &mut b.bitmap, SECOND / 2), FadeStep::Recolored(c.scaled(128)));
    assert!(!b.fade.timer.finished());
    assert_eq!(FadePlugin::update(&mut b.fade, &mut b.bitmap, SECOND / 2), FadeStep::Recolored(Rgba::new(9, 20, 30, 40)));
    assert!(b.fade.timer.finished());
    assert_eq!(b.bitmap.color_at(0, 0), Some(Rgba::new(9, 20, 30, 40)));
    assert_eq!(FadePlugin::update(&mut b.fade, &mut b.bitmap, SECOND / 2), FadeStep::Despawn);
}

#[test]
fn fade_in_and_fade_out_are_inverse() {
    let c = Rgba::new(1, 2, 3, 4);
    let i = Camera::fade_in(SECOND, 3, 2, c);
    let o = Camera::fade_out(SECOND, 3, 2, c);
    assert_eq!((i.fade.from, i.fade.to), (255, 0));
    assert_eq!((o.fade.from, o.fade.to), (0, 255));
    assert_eq!(i.fade.base_color, c);
    assert_eq!(o.fade.base_color, c);
    assert_eq!(i.transform, Transform::from_xyz(0, 0, Depth::Foreground));
    assert_eq!(o.transform, Transform::from_xyz(0, 0, Depth::Foreground));
    assert_eq!(i.bitmap.color_at(2, 1), Some(c));
    assert_eq!(o.bitmap.color_at(2, 1), Some(Rgba::transparent()));
}

#[test]
fn fade_in_over_viewport_end_to_end() {
    let camera = CameraPlugin::build(256, 144);
    let (w, h) = camera.size();
    assert_eq!((w, h), (256, 144));
    let black = Rgba::new(0, 0, 0, 255);
    let mut b = Camera::fade_in(2 * SECOND, w, h, black);
    assert_eq!(b.bitmap.width(), 256);
    assert_eq!(b.bitmap.height(), 144);
    assert_eq!(b.bitmap.color_at(0, 0), Some(black));
    assert_eq!(b.bitmap.color_at(255, 143), Some(black));
    let step = FadePlugin::update(&mut b.fade, &mut b.bitmap, 2 * SECOND);
    assert_eq!(step, FadeStep::Recolored(Rgba::transparent()));
    assert_eq!(b.bitmap.color_at(100, 100), Some(Rgba::transparent()));
    assert_eq!(b.bitmap.width(), 256);
    assert_eq!(b.bitmap.height(), 144);
    let step = FadePlugin::update(&mut b.fade, &mut b.bitmap, SECOND / 10);
    assert_eq!(step, FadeStep::Despawn);
}

#[test]
fn bitmap_lookup_outside_is_none() {
    let b = Bitmap::clear_color(3, 2, Rgba::new(9, 9, 9, 9));
    assert_eq!(b.color_at(3, 0), None);
    assert_eq!(b.color_at(0, 2), None);
    assert_eq!(b.color_at(2, 1), Some(Rgba::new(9, 9, 9, 9)));
    let e = Bitmap::clear(0, 0);
    assert_eq!(e.color_at(0, 0), None);
}

#[test]
fn camera_transform_can_be_replaced() {
    let mut camera = CameraPlugin::build(8, 4);
    assert_eq!(camera.transform(), Transform::identity());
    *camera.transform_mut() = Transform::from_xyz(-3, 7, Depth::Level(2));
    assert_eq!(camera.transform(), Transform::from_xyz(-3, 7, Depth::Level(2)));
    assert_eq!(camera.size(), (8, 4));
    let _raster = camera.raster_mut();
}
