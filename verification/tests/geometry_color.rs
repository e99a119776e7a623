use rrr_tui::animation::{BlendAnimation, BlendAnimationDescriptor, EasingKind};
use rrr_tui::color::{Blended, ColorOklab, ColorOklch, ColorU8Rgb, Over, TextColor};
use rrr_tui::fixed::{div_ceil_i64, div_floor_i64, fx_lerp, rem_euclid_i64, SCALE};
use rrr_tui::geometry::Rect;
use rrr_tui::rect::{LineAlignment, Padding, PlaneAlignment, RectExt};

#[test]
fn rect_basics() {
    let r = Rect::from_extent(2, 3, 10, 5);
    assert_eq!(r.min_x(), 2);
    assert_eq!(r.min_y(), 3);
    assert_eq!(r.max_x(), 12);
    assert_eq!(r.max_y(), 8);
    assert_eq!(r.width(), 10);
    assert_eq!(r.height(), 5);
    assert!(!r.is_empty());
    assert!(r.contains(2, 3));
    assert!(!r.contains(12, 3));
}

#[test]
fn rect_intersect_overlapping() {
    let a = Rect::from_minmax(0, 0, 10, 10);
    let b = Rect::from_minmax(5, 5, 15, 15);
    let c = a.intersect(&b);
    assert_eq!(c, Rect::from_minmax(5, 5, 10, 10));
}

#[test]
fn rect_intersect_with_empty_is_empty() {
    let a = Rect::from_minmax(0, 0, 10, 10);
    let empty = Rect::from_minmax(4, 4, 4, 9);
    assert!(empty.is_empty());
    assert!(a.intersect(&empty).is_empty());
    assert!(empty.intersect(&a).is_empty());
    let degenerate = Rect::from_minmax(7, 9, 2, 1);
    assert!(a.intersect(&degenerate).is_empty());
}

#[test]
fn rect_clip_never_negative() {
    let r = Rect::from_minmax(-5, -3, 4, -1);
    let c = r.clip();
    assert!(c.min_x() >= 0 && c.min_y() >= 0 && c.max_x() >= 0 && c.max_y() >= 0);
    assert_eq!(c, Rect::from_minmax(0, 0, 4, 0));
}

#[test]
fn rect_translated() {
    let r = Rect::from_minmax(1, 2, 3, 4).translated(10, -20);
    assert_eq!(r, Rect::from_minmax(11, -18, 13, -16));
}

#[test]
fn rect_extent_saturates() {
    let r = Rect::from_minmax(5, 5, 2, 9);
    assert_eq!(r.width(), 0);
    assert_eq!(r.height(), 4);
    assert_eq!(r.area(), 4);
}

#[test]
fn division_helpers() {
    assert_eq!(div_floor_i64(7, 2), 3);
    assert_eq!(div_floor_i64(-7, 2), -4);
    assert_eq!(div_ceil_i64(7, 2), 4);
    assert_eq!(div_ceil_i64(-7, 2), -3);
    assert_eq!(rem_euclid_i64(-7, 3), 2);
}

#[test]
fn fx_lerp_endpoints_and_middle() {
    assert_eq!(fx_lerp(100, 300, 0), 100);
    assert_eq!(fx_lerp(100, 300, SCALE), 300);
    assert_eq!(fx_lerp(100, 300, SCALE / 2), 200);
    assert_eq!(fx_lerp(300, 100, SCALE / 2), 200);
}

#[test]
fn hue_interpolation_takes_shorter_path_through_zero() {
    // Hue 0.95 to 0.05 at t = 0.5 must land on 0.0 (mod one turn), not 0.5.
    let r = rrr_tui::color::hue_lerp(950_000, 50_000, SCALE / 2);
    assert_eq!(r.rem_euclid(SCALE), 0);
    assert_ne!(r.rem_euclid(SCALE), SCALE / 2);
}

#[test]
fn hue_interpolation_direct_path() {
    // Hue 0.2 to 0.4 is closer the direct way.
    let r = rrr_tui::color::hue_lerp(200_000, 400_000, SCALE / 2);
    assert_eq!(r, 300_000);
}

#[test]
fn oklch_lerp_channels() {
    let a = ColorOklch::new(0, 0, 0);
    let b = ColorOklch::new(SCALE, 100_000, 200_000);
    let m = a.lerp(&b, SCALE / 2);
    assert_eq!(m.lightness, SCALE / 2);
    assert_eq!(m.chroma, 50_000);
    assert_eq!(m.hue, 100_000);
}

#[test]
fn alpha_compositing_in_oklab() {
    let under = ColorOklab::new(0, 0, 0);
    let over_color = ColorOklab::new(SCALE, 0, 0);
    let half = Blended::new(over_color, SCALE / 2);
    let blended = half.over(&under);
    assert_eq!(blended.lightness, SCALE / 2);
    let opaque = Blended::new(over_color, SCALE);
    assert_eq!(opaque.over(&under), over_color);
    let invisible = Blended::new(over_color, 0);
    assert_eq!(invisible.over(&under), under);
}

#[test]
fn text_color_ops() {
    let c = TextColor::white_on_black();
    let inv = c.invert();
    assert_eq!(inv.fg, c.bg);
    assert_eq!(inv.bg, c.fg);
    let rgb = ColorU8Rgb::new(1, 2, 3);
    assert_eq!(rgb.red, 1);
    assert_eq!(rgb.green, 2);
    assert_eq!(rgb.blue, 3);
}

#[test]
fn rect_alignment() {
    let outer = Rect::from_minmax(10, 5, 30, 9);
    let centered = outer.align(6, 1, PlaneAlignment::horizontal(LineAlignment::Center));
    assert_eq!(centered, Rect::from_minmax(17, 5, 23, 6));
    let ended = outer.align(6, 1, PlaneAlignment {
        x: LineAlignment::End,
        y: LineAlignment::End,
    });
    assert_eq!(ended, Rect::from_minmax(24, 8, 30, 9));
    // an inner rectangle larger than the outer one is cut down
    let oversized = outer.align(100, 100, PlaneAlignment::vertical(LineAlignment::Center));
    assert_eq!(oversized, Rect::from_minmax(10, 5, 30, 9));
    let padded = outer.without_padding(Padding { left: 1, right: 2, top: 1, bottom: 1 });
    assert_eq!(padded, Rect::from_minmax(11, 6, 28, 8));
    // padding wider than the rectangle leaves a degenerate one
    let crushed = outer.without_padding(Padding { left: 30, right: 30, top: 0, bottom: 0 });
    assert!(crushed.is_empty());
}

#[test]
fn blend_animation_interpolates_theme_colors_in_oklch() {
    let anim = BlendAnimation::new_started(
        BlendAnimationDescriptor {
            easing: EasingKind::Linear,
            start_delay_ms: 0,
            duration_ms: 100,
        },
        0,
    );
    // halfway through, a hue animated from 0.95 to 1.05 (i.e. 0.05 wrapped)
    // passes through the turn boundary, not through 0.5
    let from = ColorOklch::new(SCALE / 2, 0, 950_000);
    let to = ColorOklch::new(SCALE / 2, 0, 50_000);
    let mid = anim.apply_oklch(50, &from, &to);
    assert_eq!(mid.hue.rem_euclid(SCALE), 0);
    // at the end the target applies (hues agree up to whole turns)
    let done = anim.apply_oklch(200, &from, &to);
    assert_eq!(done.lightness, to.lightness);
    assert_eq!(done.chroma, to.chroma);
    assert_eq!(done.hue.rem_euclid(SCALE), to.hue.rem_euclid(SCALE));
}
