use vstd::prelude::*;
use crate::fixed::{FixedVec2, FIXED_ONE, SCALE_LIMIT, SIZE_LIMIT, floor_div, lemma_floor_div_within};
use crate::camera::{PanCamConfig, PanCamState, CameraPose, Viewport, bounds_ordered};
use crate::constraints::{
    constrained_pose, constrained_scale, visible_within_bounds, effective_max_scale_of, clamp_axis,
    half_extent, safe_scale, span_of, lemma_constrained_within, lemma_effective_max_range,
    lemma_constrained_wf, lemma_effective_max_below_safe, lemma_room_between_bounds,
};
use crate::zoom::{
    ZOOM_RATE_DIVISOR, SCROLL_LIMIT, zoom_step, zoom_target, anchor_offset, anchors_on_cursor,
    ndc_numerators, zoom_multiplier, scroll_total,
};
use crate::interpolation::{interpolation_step, step_fraction, approach, abs, lemma_approach};
use crate::movement::drag_step;
use crate::controller::{FrameInput, frame_step};

verus! {

// ---------------------------------------------------------------------------------------
// Bounds and scale invariants

/// After the constraint step the visible rectangle lies inside every configured bound,
/// whatever pose the drag, zoom and interpolation steps produced.
pub proof fn law_bounds_invariant(config: PanCamConfig, pose: CameraPose, viewport: Viewport)
    requires
        config.wf(),
        pose.wf(),
        viewport.valid(),
    ensures
        visible_within_bounds(config, constrained_pose(config, pose, viewport), viewport),
{
    lemma_constrained_within(config, pose, viewport);
}

/// After the constraint step the scale is at most the effective maximum, and at least the
/// minimum scale whenever the effective maximum allows it.
pub proof fn law_scale_invariant(config: PanCamConfig, pose: CameraPose, viewport: Viewport)
    requires
        config.wf(),
        pose.wf(),
        viewport.valid(),
    ensures
        constrained_pose(config, pose, viewport).scale <= effective_max_scale_of(config, viewport),
        config.min_scale <= effective_max_scale_of(config, viewport) ==> config.min_scale
            <= constrained_pose(config, pose, viewport).scale,
{
    lemma_effective_max_range(config, viewport);
}

/// The constraint step is idempotent: constraining an already constrained pose changes
/// nothing.
pub proof fn law_constraints_idempotent(config: PanCamConfig, pose: CameraPose, viewport: Viewport)
    requires
        config.wf(),
        pose.wf(),
        viewport.valid(),
    ensures
        constrained_pose(config, constrained_pose(config, pose, viewport), viewport)
            == constrained_pose(config, pose, viewport),
{
    let once = constrained_pose(config, pose, viewport);
    lemma_constrained_wf(config, pose, viewport);
    lemma_constrained_wf(config, once, viewport);
    lemma_effective_max_range(config, viewport);
    lemma_effective_max_below_safe(config, viewport);
    let s = once.scale as int;
    let bx = viewport.base_world_size.x as int;
    let by = viewport.base_world_size.y as int;
    assert(constrained_scale(config, s, viewport) == s);
    lemma_clamp_axis_idempotent(pose.translation.x as int, config.min_x, config.max_x, bx, s);
    lemma_clamp_axis_idempotent(pose.translation.y as int, config.min_y, config.max_y, by, s);
}

proof fn lemma_clamp_axis_idempotent(t: int, lo: Option<i64>, hi: Option<i64>, base: int, s: int)
    requires
        bounds_ordered(lo, hi),
        0 < base,
        0 <= s,
        span_of(lo, hi) matches Some(b) ==> s <= safe_scale(b, base),
    ensures
        clamp_axis(clamp_axis(t, lo, hi, half_extent(base, s)), lo, hi, half_extent(base, s))
            == clamp_axis(t, lo, hi, half_extent(base, s)),
{
    if let (Some(l), Some(u)) = (lo, hi) {
        lemma_room_between_bounds(l as int, u as int, base, s);
    }
}

/// The controller run over a sequence of frames.
pub open spec fn run_frames(
    config: PanCamConfig,
    state: PanCamState,
    pose: CameraPose,
    last: Option<FixedVec2>,
    inputs: Seq<FrameInput>,
) -> (PanCamState, CameraPose, Option<FixedVec2>)
    decreases inputs.len(),
{
    if inputs.len() == 0 {
        (state, pose, last)
    } else {
        let (s, p, l) = run_frames(config, state, pose, last, inputs.drop_last());
        frame_step(config, s, p, l, inputs.last())
    }
}

proof fn lemma_drag_wf(
    config: PanCamConfig,
    state: PanCamState,
    pose: CameraPose,
    last: Option<FixedVec2>,
    input: FrameInput,
)
    requires
        pose.wf(),
    ensures
        drag_step(config, state, pose, last, input.cursor, input.pressed@, input.viewport).0.wf(),
{
}

proof fn lemma_zoom_wf(config: PanCamConfig, state: PanCamState, pose: CameraPose, input: FrameInput, scroll: int)
    requires
        config.wf(),
        state.wf(),
        pose.wf(),
    ensures
        zoom_step(config, state, pose, scroll, input.shift_held, input.cursor, input.viewport).0.wf(),
        zoom_step(config, state, pose, scroll, input.shift_held, input.cursor, input.viewport).1.wf(),
{
}

proof fn lemma_interpolation_wf(config: PanCamConfig, state: PanCamState, pose: CameraPose, dt: int)
    requires
        state.wf(),
        pose.wf(),
    ensures
        interpolation_step(config, state, pose, dt).0.wf(),
        interpolation_step(config, state, pose, dt).1.wf(),
{
    if state.is_zooming {
        let f = step_fraction(config.animation_scale as int, dt);
        lemma_approach(pose.scale as int, state.target_zoom as int, f);
        if let Some(tt) = state.target_translation {
            lemma_approach(pose.translation.x as int, tt.x as int, f);
            lemma_approach(pose.translation.y as int, tt.y as int, f);
        }
    }
}

proof fn lemma_frame_wf(
    config: PanCamConfig,
    state: PanCamState,
    pose: CameraPose,
    last: Option<FixedVec2>,
    input: FrameInput,
)
    requires
        config.wf(),
        state.wf(),
        pose.wf(),
    ensures
        frame_step(config, state, pose, last, input).0.wf(),
        frame_step(config, state, pose, last, input).1.wf(),
        input.viewport.valid() ==> visible_within_bounds(config, frame_step(config, state, pose, last, input).1,
            input.viewport),
        input.viewport.valid() ==> frame_step(config, state, pose, last, input).1.scale
            <= effective_max_scale_of(config, input.viewport),
        input.viewport.valid() && config.min_scale <= effective_max_scale_of(config, input.viewport)
            ==> config.min_scale <= frame_step(config, state, pose, last, input).1.scale,
{
    let v = input.viewport;
    lemma_drag_wf(config, state, pose, last, input);
    let (dragged, _) = if input.input_suppressed {
        (pose, last)
    } else {
        drag_step(config, state, pose, last, input.cursor, input.pressed@, v)
    };
    let scroll = scroll_total(input.scroll_events@, config.pixels_per_line as int);
    lemma_zoom_wf(config, state, dragged, input, scroll);
    let (st_zoomed, zoomed) = if input.input_suppressed {
        (state, dragged)
    } else {
        zoom_step(config, state, dragged, scroll, input.shift_held, input.cursor, v)
    };
    lemma_interpolation_wf(config, st_zoomed, zoomed, input.dt as int);
    let (_, eased) = interpolation_step(config, st_zoomed, zoomed, input.dt as int);
    if v.valid() {
        lemma_constrained_within(config, eased, v);
        lemma_constrained_wf(config, eased, v);
        law_scale_invariant(config, eased, v);
    }
}

proof fn lemma_run_frames_wf(
    config: PanCamConfig,
    state: PanCamState,
    pose: CameraPose,
    last: Option<FixedVec2>,
    inputs: Seq<FrameInput>,
)
    requires
        config.wf(),
        state.wf(),
        pose.wf(),
    ensures
        run_frames(config, state, pose, last, inputs).0.wf(),
        run_frames(config, state, pose, last, inputs).1.wf(),
    decreases inputs.len(),
{
    if inputs.len() > 0 {
        lemma_run_frames_wf(config, state, pose, last, inputs.drop_last());
        let (s, p, l) = run_frames(config, state, pose, last, inputs.drop_last());
        lemma_frame_wf(config, s, p, l, inputs.last());
    }
}

/// For any sequence of frames, after the last one (with a window of nonzero area) the
/// visible rectangle lies inside every configured bound, the scale is at most the effective
/// maximum, and at least the minimum scale whenever the effective maximum allows it.
pub proof fn law_frames_respect_bounds(
    config: PanCamConfig,
    state: PanCamState,
    pose: CameraPose,
    last: Option<FixedVec2>,
    inputs: Seq<FrameInput>,
)
    requires
        config.wf(),
        state.wf(),
        pose.wf(),
        inputs.len() > 0,
        inputs.last().viewport.valid(),
    ensures
        visible_within_bounds(config, run_frames(config, state, pose, last, inputs).1, inputs.last().viewport),
        run_frames(config, state, pose, last, inputs).1.scale <= effective_max_scale_of(config,
            inputs.last().viewport),
        config.min_scale <= effective_max_scale_of(config, inputs.last().viewport) ==> config.min_scale
            <= run_frames(config, state, pose, last, inputs).1.scale,
{
    lemma_run_frames_wf(config, state, pose, last, inputs.drop_last());
    let (s, p, l) = run_frames(config, state, pose, last, inputs.drop_last());
    lemma_frame_wf(config, s, p, l, inputs.last());
}

// ---------------------------------------------------------------------------------------
// Cursor anchoring

/// `2 * size * FIXED_ONE` times the world coordinate under the cursor on one axis, for a
/// camera at `t` and `scale`; `ndc_num / size` is the cursor's normalized device coordinate.
pub open spec fn world_under_cursor_scaled(t: int, ndc_num: int, size: int, base: int, scale: int) -> int {
    2 * size * FIXED_ONE * t + ndc_num * base * scale
}

/// One axis of the anchoring: the offset is at most `2^60`, and moving by it keeps the
/// world point under the cursor within one fixed-point unit.
proof fn lemma_anchor_axis(t: int, n: int, size: int, base: int, from: int, to: int)
    requires
        0 < size <= SIZE_LIMIT,
        -size <= n <= size,
        0 < base <= SIZE_LIMIT,
        0 <= from <= SCALE_LIMIT,
        0 <= to <= SCALE_LIMIT,
    ensures
        -0x1000_0000_0000_0000 <= anchor_offset(n, size, base, from, to) <= 0x1000_0000_0000_0000,
        abs(world_under_cursor_scaled(t + anchor_offset(n, size, base, from, to), n, size, base, to)
            - world_under_cursor_scaled(t, n, size, base, from)) < 2 * size * FIXED_ONE,
{
    let d = 2 * size * FIXED_ONE;
    let x = n * base * (from - to);
    let k: int = 0x1000_0000_0000_0000;
    assert(-(size * SIZE_LIMIT) <= n * base <= size * SIZE_LIMIT) by (nonlinear_arith)
        requires
            0 < size,
            -size <= n <= size,
            0 < base <= SIZE_LIMIT,
    ;
    let nb = n * base;
    assert(-(size * SIZE_LIMIT * SCALE_LIMIT) <= nb * (from - to) <= size * SIZE_LIMIT * SCALE_LIMIT)
        by (nonlinear_arith)
        requires
            -(size * SIZE_LIMIT) <= nb <= size * SIZE_LIMIT,
            -SCALE_LIMIT <= from - to <= SCALE_LIMIT,
            size > 0,
    ;
    assert(size * SIZE_LIMIT * SCALE_LIMIT <= d * k) by (nonlinear_arith)
        requires
            d == 2 * size * FIXED_ONE,
            size > 0,
            k == 0x1000_0000_0000_0000,
    ;
    assert(n * base * (from - to) == nb * (from - to));
    lemma_floor_div_within(x, d, k);
    let off = floor_div(x, d);
    vstd::arithmetic::div_mod::lemma_fundamental_div_mod(x, d);
    assert(world_under_cursor_scaled(t + off, n, size, base, to) - world_under_cursor_scaled(t, n, size, base, from)
        == d * off - x) by (nonlinear_arith)
        requires
            d == 2 * size * FIXED_ONE,
            x == n * base * (from - to),
    ;
}

/// A single zoom step that anchors on the cursor sets a target translation at which, once
/// the target scale is reached, the world point under the cursor is the one that was under
/// it before the step, to within one fixed-point unit on each axis. This holds for camera
/// translations within half the coordinate range, where the target needs no saturation.
pub proof fn law_cursor_anchoring(
    config: PanCamConfig,
    state: PanCamState,
    pose: CameraPose,
    scroll: int,
    shift_held: bool,
    cursor: Option<FixedVec2>,
    viewport: Viewport,
)
    requires
        config.wf(),
        state.wf(),
        pose.wf(),
        state.initialized,
        config.enabled,
        scroll != 0,
        anchors_on_cursor(config, cursor, viewport),
        -0x1000_0000_0000_0000 <= pose.translation.x <= 0x1000_0000_0000_0000,
        -0x1000_0000_0000_0000 <= pose.translation.y <= 0x1000_0000_0000_0000,
    ensures
        ({
            let (st, p) = zoom_step(config, state, pose, scroll, shift_held, cursor, viewport);
            let (nx, ny) = ndc_numerators(cursor.unwrap(), viewport);
            let a = st.target_translation.unwrap();
            &&& st.is_zooming
            &&& p == pose
            &&& st.target_translation is Some
            &&& abs(world_under_cursor_scaled(a.x as int, nx, viewport.size.x as int,
                viewport.base_world_size.x as int, st.target_zoom as int)
                - world_under_cursor_scaled(pose.translation.x as int, nx, viewport.size.x as int,
                viewport.base_world_size.x as int, pose.scale as int)) < 2 * viewport.size.x * FIXED_ONE
            &&& abs(world_under_cursor_scaled(a.y as int, ny, viewport.size.y as int,
                viewport.base_world_size.y as int, st.target_zoom as int)
                - world_under_cursor_scaled(pose.translation.y as int, ny, viewport.size.y as int,
                viewport.base_world_size.y as int, pose.scale as int)) < 2 * viewport.size.y * FIXED_ONE
        }),
{
    let (st, p) = zoom_step(config, state, pose, scroll, shift_held, cursor, viewport);
    let c = cursor.unwrap();
    let (nx, ny) = ndc_numerators(c, viewport);
    lemma_zoom_wf_target(config, state, pose, scroll, shift_held);
    let to = st.target_zoom as int;
    lemma_anchor_axis(pose.translation.x as int, nx, viewport.size.x as int,
        viewport.base_world_size.x as int, pose.scale as int, to);
    lemma_anchor_axis(pose.translation.y as int, ny, viewport.size.y as int,
        viewport.base_world_size.y as int, pose.scale as int, to);
}

proof fn lemma_zoom_wf_target(
    config: PanCamConfig,
    state: PanCamState,
    pose: CameraPose,
    scroll: int,
    shift_held: bool,
)
    requires
        config.wf(),
        state.wf(),
        state.initialized,
    ensures
        0 <= (if state.first_zoom {
            state.target_zoom as int
        } else {
            zoom_target(pose.scale as int, scroll, zoom_multiplier(config, shift_held), config.min_scale as int)
        }) <= SCALE_LIMIT,
{
}

// ---------------------------------------------------------------------------------------
// Convergence of the interpolation

/// The interpolation step run `n` times.
pub open spec fn interpolate_n(config: PanCamConfig, state: PanCamState, pose: CameraPose, dt: int, n: nat) -> (PanCamState, CameraPose)
    decreases n,
{
    if n == 0 {
        (state, pose)
    } else {
        let (s, p) = interpolation_step(config, state, pose, dt);
        interpolate_n(config, s, p, dt, (n - 1) as nat)
    }
}

/// The distance left to the targets: scale, then each translation axis when one is set.
pub open spec fn remaining(state: PanCamState, pose: CameraPose) -> nat {
    let ds = abs(state.target_zoom - pose.scale);
    let dt = match state.target_translation {
        Some(tt) => abs(tt.x - pose.translation.x) + abs(tt.y - pose.translation.y),
        None => 0,
    };
    (ds + dt) as nat
}

/// At rest the interpolation step changes nothing.
pub proof fn law_interpolation_idle(config: PanCamConfig, state: PanCamState, pose: CameraPose, dt: int)
    requires
        !state.is_zooming,
    ensures
        interpolation_step(config, state, pose, dt) == (state, pose),
{
}

proof fn lemma_idle_n(config: PanCamConfig, state: PanCamState, pose: CameraPose, dt: int, n: nat)
    requires
        !state.is_zooming,
    ensures
        interpolate_n(config, state, pose, dt, n) == (state, pose),
    decreases n,
{
    if n > 0 {
        lemma_idle_n(config, state, pose, dt, (n - 1) as nat);
    }
}

proof fn lemma_step_progress(config: PanCamConfig, state: PanCamState, pose: CameraPose, dt: int)
    requires
        state.wf(),
        pose.wf(),
        state.is_zooming,
        step_fraction(config.animation_scale as int, dt) > 0,
    ensures
        ({
            let (s, p) = interpolation_step(config, state, pose, dt);
            &&& s.target_zoom == state.target_zoom
            &&& s.target_translation == state.target_translation
            &&& s.wf() && p.wf()
            &&& !s.is_zooming ==> p.scale == state.target_zoom && (state.target_translation matches Some(tt)
                ==> p.translation == tt)
            &&& s.is_zooming ==> remaining(s, p) < remaining(state, pose)
        }),
{
    let f = step_fraction(config.animation_scale as int, dt);
    lemma_interpolation_wf(config, state, pose, dt);
    lemma_approach(pose.scale as int, state.target_zoom as int, f);
    if let Some(tt) = state.target_translation {
        lemma_approach(pose.translation.x as int, tt.x as int, f);
        lemma_approach(pose.translation.y as int, tt.y as int, f);
        let nx = approach(pose.translation.x as int, tt.x as int, f);
        let ny = approach(pose.translation.y as int, tt.y as int, f);
        if nx == tt.x && ny == tt.y {
            let dx = tt.x - nx;
            let dy = tt.y - ny;
            assert(dx * dx + dy * dy == 0) by (nonlinear_arith)
                requires
                    dx == 0,
                    dy == 0,
            ;
        }
    }
}

/// With no new input and a positive step fraction, the interpolation reaches its targets
/// exactly and stops within `remaining + 1` frames; after that it is at rest.
pub proof fn law_interpolation_converges(config: PanCamConfig, state: PanCamState, pose: CameraPose, dt: int, n: nat)
    requires
        state.wf(),
        pose.wf(),
        step_fraction(config.animation_scale as int, dt) > 0,
        n > remaining(state, pose),
    ensures
        ({
            let (s, p) = interpolate_n(config, state, pose, dt, n);
            &&& !s.is_zooming
            &&& state.is_zooming ==> p.scale == state.target_zoom
            &&& state.is_zooming ==> (state.target_translation matches Some(tt) ==> p.translation == tt)
            &&& interpolation_step(config, s, p, dt) == (s, p)
        }),
    decreases n,
{
    if !state.is_zooming {
        lemma_idle_n(config, state, pose, dt, n);
    } else {
        lemma_step_progress(config, state, pose, dt);
        let (st_next, pose_next) = interpolation_step(config, state, pose, dt);
        if !st_next.is_zooming {
            lemma_idle_n(config, st_next, pose_next, dt, (n - 1) as nat);
        } else {
            law_interpolation_converges(config, st_next, pose_next, dt, (n - 1) as nat);
        }
    }
}

// ---------------------------------------------------------------------------------------
// Multiplicative zoom

/// Scrolling in (a positive scroll, a positive multiplier) never raises the target scale,
/// and from a scale above the minimum strictly lowers it; unless the minimum clamps it, the
/// new scale is the old one times `1 - scroll * multiplier / ZOOM_RATE_DIVISOR`, rounded down.
pub proof fn law_zoom_in_decreases(scale: int, scroll: int, multiplier: int, min_scale: int)
    requires
        0 < min_scale <= scale <= SCALE_LIMIT,
        0 < scroll <= SCROLL_LIMIT,
        0 < multiplier,
    ensures
        zoom_target(scale, scroll, multiplier, min_scale) <= scale,
        min_scale < scale ==> zoom_target(scale, scroll, multiplier, min_scale) < scale,
        zoom_target(scale, scroll, multiplier, min_scale) > min_scale ==> ({
            let t = zoom_target(scale, scroll, multiplier, min_scale);
            &&& ZOOM_RATE_DIVISOR * t <= scale * (ZOOM_RATE_DIVISOR - scroll * multiplier)
            &&& scale * (ZOOM_RATE_DIVISOR - scroll * multiplier) < ZOOM_RATE_DIVISOR * t + ZOOM_RATE_DIVISOR
        }),
{
    let d = ZOOM_RATE_DIVISOR as int;
    let v = scale * (d - scroll * multiplier);
    assert(scroll * multiplier >= 1) by (nonlinear_arith)
        requires
            scroll > 0,
            multiplier > 0,
    ;
    assert(v < scale * d) by (nonlinear_arith)
        requires
            v == scale * (d - scroll * multiplier),
            scroll * multiplier >= 1,
            scale > 0,
    ;
    vstd::arithmetic::div_mod::lemma_fundamental_div_mod(v, d);
    let q = v / d;
    assert(q < scale) by (nonlinear_arith)
        requires
            v == d * q + v % d,
            0 <= v % d,
            v < scale * d,
            d > 0,
    ;
}

/// The target scales of `n` zoom steps in a row with the same scroll, each starting where
/// the previous one's animation ended.
pub open spec fn zoom_sequence(scale: int, scroll: int, multiplier: int, min_scale: int, n: nat) -> int
    decreases n,
{
    if n == 0 {
        scale
    } else {
        zoom_target(zoom_sequence(scale, scroll, multiplier, min_scale, (n - 1) as nat), scroll, multiplier, min_scale)
    }
}

/// Scrolling in `n` times in a row gives a sequence of target scales that never rises, and
/// falls strictly at each step until it reaches the minimum scale.
pub proof fn law_zoom_in_sequence(scale: int, scroll: int, multiplier: int, min_scale: int, n: nat)
    requires
        0 < min_scale <= scale <= SCALE_LIMIT,
        0 < scroll <= SCROLL_LIMIT,
        0 < multiplier,
    ensures
        min_scale <= zoom_sequence(scale, scroll, multiplier, min_scale, n + 1)
            <= zoom_sequence(scale, scroll, multiplier, min_scale, n) <= SCALE_LIMIT,
        zoom_sequence(scale, scroll, multiplier, min_scale, n) > min_scale ==> zoom_sequence(scale, scroll,
            multiplier, min_scale, n + 1) < zoom_sequence(scale, scroll, multiplier, min_scale, n),
    decreases n,
{
    if n > 0 {
        law_zoom_in_sequence(scale, scroll, multiplier, min_scale, (n - 1) as nat);
    }
    let s = zoom_sequence(scale, scroll, multiplier, min_scale, n);
    assert(zoom_sequence(scale, scroll, multiplier, min_scale, n + 1) == zoom_target(s, scroll, multiplier, min_scale));
    law_zoom_in_decreases(s, scroll, multiplier, min_scale);
}

} // verus!
