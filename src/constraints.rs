use vstd::prelude::*;
use crate::fixed::{
    FixedVec2, FIXED_ONE, BOUND_LIMIT, SCALE_LIMIT, SIZE_LIMIT, floor_div, ceil_div, div_floor,
    div_ceil,
};
use crate::camera::{PanCamConfig, CameraPose, Viewport, bounds_ordered};

verus! {

/// A value per axis that may be absent (an unbounded axis).
#[derive(Clone, Copy, Debug, PartialEq, Eq, Structural)]
pub struct AxisLimits {
    pub x: Option<i64>,
    pub y: Option<i64>,
}

/// The width of the interval `[lo, hi]` when both ends are set.
pub open spec fn span_of(lo: Option<i64>, hi: Option<i64>) -> Option<int> {
    match (lo, hi) {
        (Some(l), Some(h)) => Some(h - l),
        _ => None,
    }
}

/// The largest scale at which a viewport that shows `base` world units at scale 1 fits
/// in `bounds` world units: `bounds / base`, rounded down so that a whole number of units
/// fits on each side of the center, and capped at `SCALE_LIMIT`.
pub open spec fn safe_scale(bounds: int, base: int) -> int {
    let s = floor_div(2 * FIXED_ONE * floor_div(bounds, 2), base);
    if s > SCALE_LIMIT { SCALE_LIMIT as int } else { s }
}

/// Half the world extent that a viewport of `base` units at scale 1 shows at `scale`,
/// rounded up.
pub open spec fn half_extent(base: int, scale: int) -> int {
    ceil_div(base * scale, 2 * FIXED_ONE)
}

pub open spec fn min_opt(m: int, s: Option<int>, base: int) -> int {
    match s {
        Some(b) => {
            let c = safe_scale(b, base);
            if c < m { c } else { m }
        },
        None => m,
    }
}

/// The zoom-out limit: the configured maximum scale, lowered on each axis that has both
/// bounds to the largest scale at which the viewport still fits inside them.
pub open spec fn effective_max_scale_of(config: PanCamConfig, viewport: Viewport) -> int {
    let m0: int = match config.max_scale {
        Some(m) => m as int,
        None => SCALE_LIMIT as int,
    };
    let m1 = min_opt(m0, span_of(config.min_x, config.max_x), viewport.base_world_size.x as int);
    min_opt(m1, span_of(config.min_y, config.max_y), viewport.base_world_size.y as int)
}

/// `scale` clamped to the minimum scale, then to the effective maximum.
pub open spec fn constrained_scale(config: PanCamConfig, scale: int, viewport: Viewport) -> int {
    let raised = if scale < config.min_scale { config.min_scale as int } else { scale };
    let m = effective_max_scale_of(config, viewport);
    if raised > m { m } else { raised }
}

/// A translation on one axis pushed inside `[lo + h, hi - h]`, the upper bound last.
pub open spec fn clamp_axis(t: int, lo: Option<i64>, hi: Option<i64>, h: int) -> int {
    let t1 = match lo {
        Some(l) => if t < l + h { l + h } else { t },
        None => t,
    };
    match hi {
        Some(u) => if t1 > u - h { u - h } else { t1 },
        None => t1,
    }
}

/// The pose after the constraint step.
pub open spec fn constrained_pose(config: PanCamConfig, pose: CameraPose, viewport: Viewport) -> CameraPose {
    let s = constrained_scale(config, pose.scale as int, viewport);
    let hx = half_extent(viewport.base_world_size.x as int, s);
    let hy = half_extent(viewport.base_world_size.y as int, s);
    CameraPose {
        scale: s as i64,
        translation: FixedVec2 {
            x: clamp_axis(pose.translation.x as int, config.min_x, config.max_x, hx) as i64,
            y: clamp_axis(pose.translation.y as int, config.min_y, config.max_y, hy) as i64,
        },
    }
}

/// Whether the visible interval `[t - base * scale / 2, t + base * scale / 2]` of one
/// axis (in exact arithmetic) respects each bound that is set.
pub open spec fn axis_within(t: int, lo: Option<i64>, hi: Option<i64>, base: int, scale: int) -> bool {
    &&& (lo matches Some(l) ==> 2 * FIXED_ONE * (t - l) >= base * scale)
    &&& (hi matches Some(u) ==> 2 * FIXED_ONE * (u - t) >= base * scale)
}

/// Whether the visible rectangle of `pose` lies inside every configured bound.
pub open spec fn visible_within_bounds(config: PanCamConfig, pose: CameraPose, viewport: Viewport) -> bool {
    &&& axis_within(pose.translation.x as int, config.min_x, config.max_x,
        viewport.base_world_size.x as int, pose.scale as int)
    &&& axis_within(pose.translation.y as int, config.min_y, config.max_y,
        viewport.base_world_size.y as int, pose.scale as int)
}

proof fn lemma_mul_le_of_le_floor(s: int, x: int, b: int)
    requires
        b > 0,
        s <= x / b,
    ensures
        s * b <= x,
{
    vstd::arithmetic::div_mod::lemma_fundamental_div_mod(x, b);
    assert(s * b <= (x / b) * b) by (nonlinear_arith)
        requires
            s <= x / b,
            b > 0,
    ;
}

proof fn lemma_ceil_div_bounds(y: int, d: int)
    requires
        d > 0,
    ensures
        d * ceil_div(y, d) >= y,
        d * ceil_div(y, d) < y + d,
{
    vstd::arithmetic::div_mod::lemma_fundamental_div_mod(-y, d);
    let q = (-y) / d;
    assert(d * (-q) == -(d * q)) by (nonlinear_arith);
}

proof fn lemma_ceil_div_le(y: int, d: int, k: int)
    requires
        d > 0,
        y <= d * k,
    ensures
        ceil_div(y, d) <= k,
{
    lemma_ceil_div_bounds(y, d);
    let c = ceil_div(y, d);
    assert(c <= k) by (nonlinear_arith)
        requires
            d > 0,
            d * c < y + d,
            y <= d * k,
    ;
}

proof fn lemma_ceil_div_nonneg(y: int, d: int)
    requires
        d > 0,
        y >= 0,
    ensures
        ceil_div(y, d) >= 0,
{
    lemma_ceil_div_bounds(y, d);
    let c = ceil_div(y, d);
    assert(c >= 0) by (nonlinear_arith)
        requires
            d > 0,
            d * c >= y,
            y >= 0,
    ;
}

/// On an axis with both bounds, a scale no larger than the safe scale leaves room for
/// the viewport between the bounds.
pub(crate) proof fn lemma_room_between_bounds(l: int, u: int, base: int, s: int)
    requires
        l <= u,
        0 < base,
        0 <= s <= safe_scale(u - l, base),
    ensures
        2 * half_extent(base, s) <= u - l,
{
    let k = floor_div(u - l, 2);
    assert(s <= floor_div(2 * FIXED_ONE * k, base));
    lemma_mul_le_of_le_floor(s, 2 * FIXED_ONE * k, base);
    assert(base * s <= (2 * FIXED_ONE) * k) by (nonlinear_arith)
        requires
            s * base <= 2 * FIXED_ONE * k,
    ;
    lemma_ceil_div_le(base * s, 2 * FIXED_ONE, k);
}

/// Largest safe scale per axis for a bounds size, given the world size that a projection
/// of scale 1 shows; an absent bound size (an unbounded axis) gives no limit.
pub fn max_scale_within_bounds(bounds_size: AxisLimits, base_world_size: FixedVec2) -> (r: AxisLimits)
    requires
        0 < base_world_size.x <= SIZE_LIMIT,
        0 < base_world_size.y <= SIZE_LIMIT,
        bounds_size.x matches Some(b) ==> 0 <= b <= 2 * BOUND_LIMIT,
        bounds_size.y matches Some(b) ==> 0 <= b <= 2 * BOUND_LIMIT,
    ensures
        r.x == (match bounds_size.x {
            Some(b) => Some(safe_scale(b as int, base_world_size.x as int) as i64),
            None => None,
        }),
        r.y == (match bounds_size.y {
            Some(b) => Some(safe_scale(b as int, base_world_size.y as int) as i64),
            None => None,
        }),
{
    let x = match bounds_size.x {
        Some(b) => Some(safe_scale_exec(b, base_world_size.x)),
        None => None,
    };
    let y = match bounds_size.y {
        Some(b) => Some(safe_scale_exec(b, base_world_size.y)),
        None => None,
    };
    AxisLimits { x, y }
}

fn safe_scale_exec(bounds: i64, base: i64) -> (r: i64)
    requires
        0 < base <= SIZE_LIMIT,
        0 <= bounds <= 2 * BOUND_LIMIT,
    ensures
        r == safe_scale(bounds as int, base as int),
        0 <= r <= SCALE_LIMIT,
{
    let half = div_floor(bounds as i128, 2);
    let s = div_floor(2 * (FIXED_ONE as i128) * half, base as i128);
    proof {
        vstd::arithmetic::div_mod::lemma_div_pos_is_pos(2 * FIXED_ONE * half, base as int);
    }
    if s > SCALE_LIMIT as i128 {
        SCALE_LIMIT
    } else {
        s as i64
    }
}

fn span_exec(lo: Option<i64>, hi: Option<i64>) -> (r: Option<i64>)
    requires
        lo matches Some(l) ==> -BOUND_LIMIT <= l <= BOUND_LIMIT,
        hi matches Some(h) ==> -BOUND_LIMIT <= h <= BOUND_LIMIT,
        lo matches Some(l) ==> (hi matches Some(h) ==> l <= h),
    ensures
        r matches Some(b) ==> 0 <= b <= 2 * BOUND_LIMIT,
        span_of(lo, hi) == (match r {
            Some(b) => Some(b as int),
            None => None::<int>,
        }),
{
    match (lo, hi) {
        (Some(l), Some(h)) => Some(h - l),
        _ => None,
    }
}

/// The zoom-out limit of `effective_max_scale_of`.
pub fn effective_max_scale(config: &PanCamConfig, viewport: &Viewport) -> (r: i64)
    requires
        config.wf(),
        viewport.valid(),
    ensures
        r == effective_max_scale_of(*config, *viewport),
        0 <= r <= SCALE_LIMIT,
{
    let spans = AxisLimits {
        x: span_exec(config.min_x, config.max_x),
        y: span_exec(config.min_y, config.max_y),
    };
    let safe = max_scale_within_bounds(spans, viewport.base_world_size);
    let mut m = match config.max_scale {
        Some(v) => v,
        None => SCALE_LIMIT,
    };
    if let Some(c) = safe.x {
        if c < m {
            m = c;
        }
    }
    if let Some(c) = safe.y {
        if c < m {
            m = c;
        }
    }
    m
}

/// The constraint step: clamps the scale to `[min_scale, effective maximum]`, then
/// pushes the translation inside each configured bound by half the visible extent.
/// A viewport of zero area leaves the pose as it is.
pub fn apply_constraints(config: &PanCamConfig, pose: &mut CameraPose, viewport: &Viewport)
    requires
        config.wf(),
        old(pose).wf(),
    ensures
        viewport.valid() ==> *final(pose) == constrained_pose(*config, *old(pose), *viewport),
        !viewport.valid() ==> *final(pose) == *old(pose),
        final(pose).wf(),
        viewport.valid() ==> visible_within_bounds(*config, *final(pose), *viewport),
        viewport.valid() ==> final(pose).scale <= effective_max_scale_of(*config, *viewport),
        viewport.valid() && config.min_scale <= effective_max_scale_of(*config, *viewport)
            ==> config.min_scale <= final(pose).scale,
{
    if !viewport.is_valid() {
        return;
    }
    let max = effective_max_scale(config, viewport);
    let mut s = pose.scale;
    if s < config.min_scale {
        s = config.min_scale;
    }
    if s > max {
        s = max;
    }
    let base = viewport.base_world_size;
    proof {
        assert(0 <= base.x * s <= SIZE_LIMIT * SCALE_LIMIT) by (nonlinear_arith)
            requires 0 < base.x <= SIZE_LIMIT, 0 <= s <= SCALE_LIMIT;
        assert(0 <= base.y * s <= SIZE_LIMIT * SCALE_LIMIT) by (nonlinear_arith)
            requires 0 < base.y <= SIZE_LIMIT, 0 <= s <= SCALE_LIMIT;
    }
    let hx = div_ceil(base.x as i128 * s as i128, 2 * FIXED_ONE as i128);
    let hy = div_ceil(base.y as i128 * s as i128, 2 * FIXED_ONE as i128);
    proof {
        lemma_ceil_div_nonneg(base.x * s, 2 * FIXED_ONE);
        lemma_ceil_div_nonneg(base.y * s, 2 * FIXED_ONE);
        lemma_ceil_div_le(base.x * s, 2 * FIXED_ONE, 0x1000_0000_0000_0000);
        lemma_ceil_div_le(base.y * s, 2 * FIXED_ONE, 0x1000_0000_0000_0000);
    }
    let tx = clamp_axis_exec(pose.translation.x, config.min_x, config.max_x, hx);
    let ty = clamp_axis_exec(pose.translation.y, config.min_y, config.max_y, hy);
    *pose = CameraPose { scale: s, translation: FixedVec2 { x: tx, y: ty } };
    proof {
        lemma_constrained_within(*config, *old(pose), *viewport);
    }
}

fn clamp_axis_exec(t: i64, lo: Option<i64>, hi: Option<i64>, h: i128) -> (r: i64)
    requires
        -crate::fixed::COORD_LIMIT <= t <= crate::fixed::COORD_LIMIT,
        0 <= h <= 0x1000_0000_0000_0000,
        lo matches Some(l) ==> -BOUND_LIMIT <= l <= BOUND_LIMIT,
        hi matches Some(u) ==> -BOUND_LIMIT <= u <= BOUND_LIMIT,
    ensures
        r == clamp_axis(t as int, lo, hi, h as int),
        -crate::fixed::COORD_LIMIT <= r <= crate::fixed::COORD_LIMIT,
{
    let mut v: i128 = t as i128;
    if let Some(l) = lo {
        if v < l as i128 + h {
            v = l as i128 + h;
        }
    }
    if let Some(u) = hi {
        if v > u as i128 - h {
            v = u as i128 - h;
        }
    }
    v as i64
}

/// The constrained pose shows nothing outside the configured bounds.
pub(crate) proof fn lemma_constrained_within(config: PanCamConfig, pose: CameraPose, viewport: Viewport)
    requires
        config.wf(),
        pose.wf(),
        viewport.valid(),
    ensures
        visible_within_bounds(config, constrained_pose(config, pose, viewport), viewport),
{
    let s = constrained_scale(config, pose.scale as int, viewport);
    lemma_effective_max_range(config, viewport);
    lemma_effective_max_below_safe(config, viewport);
    let bx = viewport.base_world_size.x as int;
    let by = viewport.base_world_size.y as int;
    assert(0 <= s <= SCALE_LIMIT);
    lemma_half_extent_range(bx, s);
    lemma_half_extent_range(by, s);
    lemma_axis_within(pose.translation.x as int, config.min_x, config.max_x, bx, s);
    lemma_axis_within(pose.translation.y as int, config.min_y, config.max_y, by, s);
}

proof fn lemma_half_extent_range(base: int, s: int)
    requires
        0 < base <= SIZE_LIMIT,
        0 <= s <= SCALE_LIMIT,
    ensures
        0 <= half_extent(base, s) <= 0x1000_0000_0000_0000,
{
    assert(0 <= base * s <= SIZE_LIMIT * SCALE_LIMIT) by (nonlinear_arith)
        requires
            0 < base <= SIZE_LIMIT,
            0 <= s <= SCALE_LIMIT,
    ;
    lemma_ceil_div_nonneg(base * s, 2 * FIXED_ONE);
    lemma_ceil_div_le(base * s, 2 * FIXED_ONE, 0x1000_0000_0000_0000);
}

/// The constrained pose is a pose in range.
pub(crate) proof fn lemma_constrained_wf(config: PanCamConfig, pose: CameraPose, viewport: Viewport)
    requires
        config.wf(),
        pose.wf(),
        viewport.valid(),
    ensures
        constrained_pose(config, pose, viewport).wf(),
        constrained_pose(config, pose, viewport).scale == constrained_scale(config, pose.scale as int, viewport),
{
    let s = constrained_scale(config, pose.scale as int, viewport);
    lemma_effective_max_range(config, viewport);
    lemma_half_extent_range(viewport.base_world_size.x as int, s);
    lemma_half_extent_range(viewport.base_world_size.y as int, s);
}

/// The effective maximum scale is no larger than the safe scale of each axis with both bounds.
pub(crate) proof fn lemma_effective_max_below_safe(config: PanCamConfig, viewport: Viewport)
    ensures
        span_of(config.min_x, config.max_x) matches Some(b) ==> effective_max_scale_of(config, viewport)
            <= safe_scale(b, viewport.base_world_size.x as int),
        span_of(config.min_y, config.max_y) matches Some(b) ==> effective_max_scale_of(config, viewport)
            <= safe_scale(b, viewport.base_world_size.y as int),
{
}

pub(crate) proof fn lemma_effective_max_range(config: PanCamConfig, viewport: Viewport)
    requires
        config.wf(),
        viewport.valid(),
    ensures
        0 <= effective_max_scale_of(config, viewport) <= SCALE_LIMIT,
{
    let bx = viewport.base_world_size.x as int;
    let by = viewport.base_world_size.y as int;
    if let Some(b) = span_of(config.min_x, config.max_x) {
        vstd::arithmetic::div_mod::lemma_div_pos_is_pos(2 * FIXED_ONE * floor_div(b, 2), bx);
    }
    if let Some(b) = span_of(config.min_y, config.max_y) {
        vstd::arithmetic::div_mod::lemma_div_pos_is_pos(2 * FIXED_ONE * floor_div(b, 2), by);
    }
}

proof fn lemma_axis_within(t: int, lo: Option<i64>, hi: Option<i64>, base: int, s: int)
    requires
        bounds_ordered(lo, hi),
        0 < base,
        0 <= s,
        span_of(lo, hi) matches Some(b) ==> s <= safe_scale(b, base),
    ensures
        axis_within(clamp_axis(t, lo, hi, half_extent(base, s)), lo, hi, base, s),
{
    let h = half_extent(base, s);
    let d = 2 * FIXED_ONE;
    lemma_ceil_div_bounds(base * s, d);
    assert(d * h >= base * s);
    if let (Some(l), Some(u)) = (lo, hi) {
        lemma_room_between_bounds(l as int, u as int, base, s);
    }
    let r = clamp_axis(t, lo, hi, h);
    if let Some(l) = lo {
        assert(r - l >= h);
        lemma_scaled_gap(r - l, h, d, base * s);
    }
    if let Some(u) = hi {
        assert(u - r >= h);
        lemma_scaled_gap(u - r, h, d, base * s);
    }
}

proof fn lemma_scaled_gap(gap: int, h: int, d: int, e: int)
    requires
        gap >= h,
        d > 0,
        d * h >= e,
    ensures
        d * gap >= e,
{
    assert(d * gap >= d * h) by (nonlinear_arith)
        requires
            gap >= h,
            d > 0,
    ;
}

} // verus!
