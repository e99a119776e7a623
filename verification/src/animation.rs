//! Time-based blend animations. Time is carried as milliseconds since an
//! arbitrary process epoch; the presentation layer samples the clock once per
//! frame so every animation within a frame sees the same instant.

use vstd::prelude::*;

use crate::color::{oklch_ok, text_color_ok, ColorOklch, TextColor};
use crate::fixed::{div_floor_i64, fx_lerp, SCALE};

verus! {

/// The shape of an easing curve, as a fixed-point function on `[0, SCALE]`.
#[derive(Clone, Copy, Debug, PartialEq, Eq, Structural)]
pub enum EasingKind {
    Linear,
    EaseInOutCubic,
}

/// The eased progress for raw progress `t` in `[0, SCALE]`.
pub open spec fn spec_ease(kind: EasingKind, t: int) -> int {
    let s = SCALE as int;
    match kind {
        EasingKind::Linear => t,
        EasingKind::EaseInOutCubic => if 2 * t < s {
            4 * t * t * t / (s * s)
        } else {
            let u = 2 * (s - t);
            s - u * u * u / (2 * s * s)
        },
    }
}

pub fn ease(kind: EasingKind, t: i64) -> (r: i64)
    requires
        0 <= t <= SCALE,
    ensures
        r == spec_ease(kind, t as int),
        0 <= r <= SCALE,
{
    match kind {
        EasingKind::Linear => t,
        EasingKind::EaseInOutCubic => {
            if 2 * t < SCALE {
                proof {
                    let s = SCALE as int;
                    let ti = t as int;
                    assert(0 <= ti * ti <= s * s) by (nonlinear_arith)
                        requires 0 <= ti <= s;
                    assert(0 <= (ti * ti) * ti <= (s * s) * s) by (nonlinear_arith)
                        requires 0 <= ti <= s && 0 <= ti * ti <= s * s;
                    assert((s * s) * s <= 0x1000_0000_0000_0000) by (nonlinear_arith)
                        requires s == 1_000_000;
                }
                let c = t * t * t;
                proof {
                    let s = SCALE as int;
                    let ti = t as int;
                    vstd::arithmetic::div_mod::lemma_div_is_ordered(0, 4 * (ti * ti * ti), s * s);
                    assert(2 * ti <= s);
                    assert(4 * (ti * ti * ti) <= (s * s) * s) by (nonlinear_arith)
                        requires 0 <= ti && 2 * ti <= s && s > 0;
                    vstd::arithmetic::div_mod::lemma_div_is_ordered(
                        4 * (ti * ti * ti), (s * s) * s, s * s);
                    assert((s * s) * s / (s * s) == s) by (nonlinear_arith)
                        requires s > 0;
                    assert(4 * (ti * ti * ti) == 4 * ti * ti * ti) by (nonlinear_arith);
                }
                div_floor_i64(4 * c, SCALE * SCALE)
            } else {
                let u = 2 * (SCALE - t);
                proof {
                    let s = SCALE as int;
                    let ui = u as int;
                    assert(0 <= ui * ui <= s * s) by (nonlinear_arith)
                        requires 0 <= ui <= s;
                    assert(0 <= (ui * ui) * ui <= (s * s) * s) by (nonlinear_arith)
                        requires 0 <= ui <= s && 0 <= ui * ui <= s * s;
                    assert((s * s) * s <= 0x1000_0000_0000_0000) by (nonlinear_arith)
                        requires s == 1_000_000;
                }
                let c = u * u * u;
                proof {
                    let s = SCALE as int;
                    let ui = u as int;
                    vstd::arithmetic::div_mod::lemma_div_is_ordered(0, ui * ui * ui, 2 * s * s);
                    assert(ui * ui * ui <= (2 * s * s) * s) by (nonlinear_arith)
                        requires 0 <= ui <= s && s > 0;
                    vstd::arithmetic::div_mod::lemma_div_is_ordered(
                        ui * ui * ui, (2 * s * s) * s, 2 * s * s);
                    assert((2 * s * s) * s / (2 * s * s) == s) by (nonlinear_arith)
                        requires s > 0;
                }
                SCALE - div_floor_i64(c, 2 * SCALE * SCALE)
            }
        },
    }
}

/// Describes a blend animation: an easing curve, a delay before it starts,
/// and how long it runs.
#[derive(Clone, Copy, Debug, PartialEq, Eq, Structural)]
pub struct BlendAnimationDescriptor {
    pub easing: EasingKind,
    pub start_delay_ms: u64,
    pub duration_ms: u64,
}

/// The running window of a started animation, in absolute milliseconds.
#[derive(Clone, Copy, Debug, PartialEq, Eq, Structural)]
pub struct BlendAnimationProgress {
    pub instant_start: u64,
    pub instant_end: u64,
}

/// A restartable blend animation. While `progress` is `None` the animation
/// has never been started and the target value applies unchanged.
#[derive(Clone, Copy, Debug, PartialEq, Eq, Structural)]
pub struct BlendAnimation {
    pub descriptor: BlendAnimationDescriptor,
    pub progress: Option<BlendAnimationProgress>,
}

/// Keeps every timestamp far from `u64` overflow and every product inside
/// `i64`.
pub open spec fn descriptor_ok(d: BlendAnimationDescriptor) -> bool {
    d.start_delay_ms < 0x40_0000_0000 && d.duration_ms < 0x40_0000_0000
}

/// A started animation window the samplers can work with: ordered, bounded,
/// and of bounded length.
pub open spec fn progress_ok(p: Option<BlendAnimationProgress>) -> bool {
    match p {
        None => true,
        Some(p) => p.instant_start <= p.instant_end && instant_ok(p.instant_end)
            && p.instant_end - p.instant_start <= 0x40_0000_0000,
    }
}

pub open spec fn instant_ok(now: u64) -> bool {
    now < 0x4000_0000_0000_0000
}

impl BlendAnimation {
    pub fn new_stopped(descriptor: BlendAnimationDescriptor) -> (r: BlendAnimation)
        ensures
            r.descriptor == descriptor,
            r.progress is None,
    {
        BlendAnimation { descriptor, progress: None }
    }

    pub fn new_started(descriptor: BlendAnimationDescriptor, now: u64) -> (r: BlendAnimation)
        requires
            descriptor_ok(descriptor),
            instant_ok(now),
        ensures
            r.descriptor == descriptor,
            r.progress == Some(BlendAnimationProgress {
                instant_start: (now + descriptor.start_delay_ms) as u64,
                instant_end: (now + descriptor.start_delay_ms + descriptor.duration_ms) as u64,
            }),
    {
        let mut result = BlendAnimation { descriptor, progress: None };
        result.restart(now);
        result
    }

    /// (Re)starts the animation relative to `now`.
    pub fn restart(&mut self, now: u64)
        requires
            descriptor_ok(old(self).descriptor),
            instant_ok(now),
        ensures
            final(self).descriptor == old(self).descriptor,
            final(self).progress == Some(BlendAnimationProgress {
                instant_start: (now + old(self).descriptor.start_delay_ms) as u64,
                instant_end: (now + old(self).descriptor.start_delay_ms
                    + old(self).descriptor.duration_ms) as u64,
            }),
    {
        let instant_start = now + self.descriptor.start_delay_ms;
        let instant_end = instant_start + self.descriptor.duration_ms;
        self.progress = Some(BlendAnimationProgress { instant_start, instant_end });
    }

    /// The eased blend parameter at `now`: `0` before the (delayed) start,
    /// `SCALE` after the end or for a never-started animation, eased linear
    /// progress in between.
    pub open spec fn spec_progress_at(self, now: int) -> int {
        match self.progress {
            None => SCALE as int,
            Some(p) => if now <= p.instant_start {
                0
            } else if now >= p.instant_end {
                SCALE as int
            } else {
                spec_ease(
                    self.descriptor.easing,
                    (now - p.instant_start) * (SCALE as int) / (p.instant_end - p.instant_start as int),
                )
            },
        }
    }

    pub fn progress_at(&self, now: u64) -> (r: i64)
        requires
            instant_ok(now),
            progress_ok(self.progress),
        ensures
            r == self.spec_progress_at(now as int),
            0 <= r <= SCALE,
    {
        match &self.progress {
            None => SCALE,
            Some(p) => {
                if now <= p.instant_start {
                    0
                } else if now >= p.instant_end {
                    SCALE
                } else {
                    let period = (p.instant_end - p.instant_start) as i64;
                    let elapsed = (now - p.instant_start) as i64;
                    proof {
                        let e = elapsed as int;
                        let d = period as int;
                        let s = SCALE as int;
                        assert(0 < e < d);
                        assert(0 <= e * s <= d * s) by (nonlinear_arith)
                            requires 0 <= e <= d && s > 0;
                        assert(d * s <= 0x40_0000_0000 * 1_000_000) by (nonlinear_arith)
                            requires 0 <= d <= 0x40_0000_0000 && s == 1_000_000;
                        vstd::arithmetic::div_mod::lemma_div_is_ordered(0, e * s, d);
                        vstd::arithmetic::div_mod::lemma_div_is_ordered(e * s, d * s, d);
                        assert(d * s / d == s) by (nonlinear_arith)
                            requires d > 0;
                    }
                    let normalized = div_floor_i64(elapsed * SCALE, period);
                    ease(self.descriptor.easing, normalized)
                }
            },
        }
    }

    /// Blends a theme color toward a target in the Oklch space, with the
    /// wrap-aware hue interpolation, according to the progress at `now`:
    /// `original` before the start, `new` after the end (or when the
    /// animation was never started), an eased interpolation in between.
    pub fn apply_oklch(&self, now: u64, original: &ColorOklch, new: &ColorOklch) -> (r:
        ColorOklch)
        requires
            instant_ok(now),
            oklch_ok(*original) && oklch_ok(*new),
            progress_ok(self.progress),
        ensures
            r == original.spec_lerp(*new, self.spec_progress_at(now as int)),
            oklch_ok(r),
    {
        let t = self.progress_at(now);
        original.lerp(new, t)
    }

    /// Blends a cell style toward a target, channel-wise in the
    /// compositing (Oklab) space, according to the progress at `now`:
    /// `original` before the start, `new` after the end (or when the
    /// animation was never started), an eased interpolation in between.
    pub fn apply(&self, now: u64, original: &TextColor, new: &TextColor) -> (r: TextColor)
        requires
            instant_ok(now),
            text_color_ok(*original) && text_color_ok(*new),
            progress_ok(self.progress),
        ensures
            r == original.spec_lerp(*new, self.spec_progress_at(now as int)),
            text_color_ok(r),
    {
        let t = self.progress_at(now);
        original.lerp(new, t)
    }

    /// Blends a fixed-point scalar (an alpha, for scrollbar fading) toward a
    /// target value according to the progress at `now`.
    pub fn apply_alpha(&self, now: u64, original: i64, new: i64) -> (r: i64)
        requires
            instant_ok(now),
            crate::fixed::fx_ok(original as int) && crate::fixed::fx_ok(new as int),
            progress_ok(self.progress),
        ensures
            r == crate::fixed::spec_fx_lerp(
                original as int, new as int, self.spec_progress_at(now as int)),
            original <= new ==> original <= r <= new,
            new <= original ==> new <= r <= original,
    {
        let t = self.progress_at(now);
        fx_lerp(original, new, t)
    }
}

/// An animation over a rectangle of cells: a constant style, an
/// indeterminate sweeping highlight, or an eased blend between two styles.
#[derive(Clone, Copy, Debug, PartialEq, Eq, Structural)]
pub enum RectAnimation {
    Static { color: TextColor },
    ProgressIndeterminate { period_ms: u64, highlight: TextColor },
    Ease { blend: BlendAnimation, color_start: TextColor, color_end: TextColor },
}

/// The highlight position of the indeterminate progress animation: a
/// ping-pong sweep with the given period, sampled at `elapsed_ms`, returned
/// as a fixed-point position in `[0, SCALE]`.
pub open spec fn spec_sweep_position(elapsed_ms: int, period_ms: int) -> int {
    let s = SCALE as int;
    let e = elapsed_ms % period_ms;
    let pos = e * 2 * s / period_ms;
    if pos <= s {
        pos
    } else {
        2 * s - pos
    }
}

pub fn sweep_position(elapsed_ms: u64, period_ms: u64) -> (r: i64)
    requires
        0 < period_ms <= 0x40_0000_0000,
    ensures
        r == spec_sweep_position(elapsed_ms as int, period_ms as int),
        0 <= r <= SCALE,
{
    let e = elapsed_ms % period_ms;
    proof {
        let ei = e as int;
        let d = period_ms as int;
        let s = SCALE as int;
        assert(0 <= ei < d);
        assert(elapsed_ms as int % d == ei);
        assert(0 <= ei * 2 * s <= d * (2 * s)) by (nonlinear_arith)
            requires 0 <= ei <= d && s > 0;
        assert(d * (2 * s) <= 0x40_0000_0000 * 2_000_000) by (nonlinear_arith)
            requires 0 < d <= 0x40_0000_0000 && s == 1_000_000;
        vstd::arithmetic::div_mod::lemma_div_is_ordered(0, ei * 2 * s, d);
        vstd::arithmetic::div_mod::lemma_div_is_ordered(ei * 2 * s, d * (2 * s), d);
        assert(d * (2 * s) / d == 2 * s) by (nonlinear_arith)
            requires d > 0;
    }
    let num = (e as i64) * 2 * SCALE;
    let pos = div_floor_i64(num, period_ms as i64);
    if pos <= SCALE {
        pos
    } else {
        2 * SCALE - pos
    }
}

} // verus!
