use vstd::prelude::*;
use crate::fixed::{
    FixedVec2, FIXED_ONE, COORD_LIMIT, SCALE_LIMIT, SIZE_LIMIT, floor_div, clamp, div_floor,
    saturate_coord, lemma_floor_div_bounded,
};
use crate::camera::{PanCamConfig, PanCamState, CameraPose, Viewport, MULTIPLIER_LIMIT};

verus! {

/// The largest magnitude of the scroll accumulated in one frame, in fixed-point pixels.
pub const SCROLL_LIMIT: i64 = 0x0000_0100_0000_0000;

/// The scroll impulse that the bootstrap step injects, in fixed-point pixels.
pub const BOOTSTRAP_SCROLL: i64 = 10_000_000;

/// A zoom step multiplies the scale by `1 - scroll * multiplier / ZOOM_RATE_DIVISOR`, with
/// the scroll and the multiplier fixed-point: one pixel at a multiplier of 1.0 is 0.001.
pub const ZOOM_RATE_DIVISOR: i128 = 1_000_000_000_000_000;

/// The unit of a scroll amount.
#[derive(Clone, Copy, Debug, PartialEq, Eq, Structural)]
pub enum ScrollUnit {
    Pixel,
    Line,
}

/// One scroll-wheel event: a fixed-point amount (positive is "wheel up") and its unit.
#[derive(Clone, Copy, Debug, PartialEq, Eq, Structural)]
pub struct ScrollEvent {
    pub amount: i64,
    pub unit: ScrollUnit,
}

/// One event's scroll in pixels: a line counts `pixels_per_line` pixels.
pub open spec fn scroll_pixels(e: ScrollEvent, pixels_per_line: int) -> int {
    match e.unit {
        ScrollUnit::Pixel => e.amount as int,
        ScrollUnit::Line => floor_div(e.amount * pixels_per_line, FIXED_ONE as int),
    }
}

/// The scroll of a frame's events, summed in order, saturating at `SCROLL_LIMIT`.
pub open spec fn scroll_total(events: Seq<ScrollEvent>, pixels_per_line: int) -> int
    decreases events.len(),
{
    if events.len() == 0 {
        0
    } else {
        clamp(
            scroll_total(events.drop_last(), pixels_per_line) + scroll_pixels(events.last(), pixels_per_line),
            -SCROLL_LIMIT as int,
            SCROLL_LIMIT as int,
        )
    }
}

/// Sums a frame's scroll events into one pixel amount, before any zoom is computed.
pub fn accumulate_scroll(events: &Vec<ScrollEvent>, pixels_per_line: i64) -> (r: i64)
    requires
        0 <= pixels_per_line <= SIZE_LIMIT,
    ensures
        r == scroll_total(events@, pixels_per_line as int),
        -SCROLL_LIMIT <= r <= SCROLL_LIMIT,
{
    let mut acc: i64 = 0;
    let mut i: usize = 0;
    while i < events.len()
        invariant
            0 <= i <= events@.len(),
            0 <= pixels_per_line <= SIZE_LIMIT,
            acc == scroll_total(events@.take(i as int), pixels_per_line as int),
            -SCROLL_LIMIT <= acc <= SCROLL_LIMIT,
        decreases events@.len() - i,
    {
        let e = events[i];
        let term: i128 = match e.unit {
            ScrollUnit::Pixel => e.amount as i128,
            ScrollUnit::Line => {
                proof {
                    assert(-0x8000_0000_0000_0000 * SIZE_LIMIT <= e.amount * pixels_per_line
                        <= 0x8000_0000_0000_0000 * SIZE_LIMIT) by (nonlinear_arith)
                        requires
                            -0x8000_0000_0000_0000 <= e.amount <= 0x7fff_ffff_ffff_ffff,
                            0 <= pixels_per_line <= SIZE_LIMIT,
                    ;
                    lemma_floor_div_bounded(e.amount * pixels_per_line, FIXED_ONE as int,
                        0x8000_0000_0000_0000 * SIZE_LIMIT);
                }
                div_floor(e.amount as i128 * pixels_per_line as i128, FIXED_ONE as i128)
            },
        };
        let sum: i128 = acc as i128 + term;
        let next: i64 = if sum < -(SCROLL_LIMIT as i128) {
            -SCROLL_LIMIT
        } else if sum > SCROLL_LIMIT as i128 {
            SCROLL_LIMIT
        } else {
            sum as i64
        };
        proof {
            let s = events@.take(i + 1);
            assert(s.drop_last() == events@.take(i as int));
            assert(s.last() == e);
        }
        acc = next;
        i += 1;
    }
    proof {
        assert(events@.take(i as int) == events@);
    }
    acc
}

/// The combined zoom multiplier: the base multiplier times the modifier-dependent one.
pub open spec fn zoom_multiplier(config: PanCamConfig, shift_held: bool) -> int {
    let m = if shift_held { config.shift_multiplier_shifted } else { config.shift_multiplier_normal };
    floor_div(config.base_zoom_multiplier * m, FIXED_ONE as int)
}

/// The scale that one zoom request aims at: `scale * (1 - scroll * 0.001 * multiplier)`,
/// rounded down, and held to `[min_scale, SCALE_LIMIT]`.
pub open spec fn zoom_target(scale: int, scroll: int, multiplier: int, min_scale: int) -> int {
    let raw = floor_div(scale * (ZOOM_RATE_DIVISOR - scroll * multiplier), ZOOM_RATE_DIVISOR as int);
    clamp(raw, min_scale, SCALE_LIMIT as int)
}

/// The translation offset that keeps the world point under the cursor fixed on one axis when
/// the scale goes from `from` to `to`. `ndc_num / size` is the cursor's normalized device
/// coordinate, and half the visible extent at scale `s` is `base * s / (2 * FIXED_ONE)`.
pub open spec fn anchor_offset(ndc_num: int, size: int, base: int, from: int, to: int) -> int {
    floor_div(ndc_num * base * (from - to), 2 * size * FIXED_ONE)
}

/// The normalized device coordinates of a cursor, as numerators over the window size:
/// x grows to the right, y grows upward.
pub open spec fn ndc_numerators(c: FixedVec2, viewport: Viewport) -> (int, int) {
    (2 * c.x - viewport.size.x, viewport.size.y - 2 * c.y)
}

/// The translation that keeps the world point under `c` fixed when the scale goes from
/// `from` to `to`.
pub open spec fn anchored_translation(
    t: FixedVec2,
    c: FixedVec2,
    viewport: Viewport,
    from: int,
    to: int,
) -> FixedVec2 {
    let (nx, ny) = ndc_numerators(c, viewport);
    FixedVec2 {
        x: clamp(t.x + anchor_offset(nx, viewport.size.x as int, viewport.base_world_size.x as int, from, to),
            -COORD_LIMIT as int, COORD_LIMIT as int) as i64,
        y: clamp(t.y + anchor_offset(ny, viewport.size.y as int, viewport.base_world_size.y as int, from, to),
            -COORD_LIMIT as int, COORD_LIMIT as int) as i64,
    }
}

/// Whether the zoom anchors on a cursor this frame.
pub open spec fn anchors_on_cursor(config: PanCamConfig, cursor: Option<FixedVec2>, viewport: Viewport) -> bool {
    config.zoom_to_cursor && viewport.valid() && (cursor matches Some(c) && viewport.contains(c))
}

/// The state and pose after the bootstrap check, and the scroll that the zoom then uses:
/// on first activation the camera starts from `current_zoom` and animates toward the
/// configured `target_zoom`.
pub open spec fn bootstrapped(state: PanCamState, pose: CameraPose, scroll: int) -> (PanCamState, CameraPose, int) {
    if !state.initialized {
        (
            PanCamState { first_zoom: true, is_zooming: true, initialized: true, ..state },
            CameraPose { scale: state.current_zoom, ..pose },
            BOOTSTRAP_SCROLL as int,
        )
    } else {
        (state, pose, scroll)
    }
}

/// The zoom request step as a function of its inputs.
pub open spec fn zoom_step(
    config: PanCamConfig,
    state: PanCamState,
    pose: CameraPose,
    scroll: int,
    shift_held: bool,
    cursor: Option<FixedVec2>,
    viewport: Viewport,
) -> (PanCamState, CameraPose) {
    let (st, p, sc) = bootstrapped(state, pose, scroll);
    if sc != 0 && config.enabled {
        let from = p.scale as int;
        let target = if st.first_zoom {
            st.target_zoom as int
        } else {
            zoom_target(from, sc, zoom_multiplier(config, shift_held), config.min_scale as int)
        };
        let (tt, delta) = if anchors_on_cursor(config, cursor, viewport) {
            let a = anchored_translation(p.translation, cursor.unwrap(), viewport, from, target);
            (Some(a), FixedVec2 { x: (a.x - p.translation.x) as i64, y: (a.y - p.translation.y) as i64 })
        } else {
            (None, FixedVec2 { x: 0, y: 0 })
        };
        (
            PanCamState {
                target_zoom: target as i64,
                target_translation: tt,
                delta_zoom_translation: Some(delta),
                is_zooming: true,
                ..st
            },
            p,
        )
    } else {
        (st, p)
    }
}

fn zoom_multiplier_exec(config: &PanCamConfig, shift_held: bool) -> (r: i64)
    requires
        config.wf(),
    ensures
        r == zoom_multiplier(*config, shift_held),
        0 <= r <= 0x0000_0200_0000_0000,
{
    let m = if shift_held { config.shift_multiplier_shifted } else { config.shift_multiplier_normal };
    proof {
        assert(0 <= config.base_zoom_multiplier * m <= MULTIPLIER_LIMIT * MULTIPLIER_LIMIT) by (nonlinear_arith)
            requires
                0 <= config.base_zoom_multiplier <= MULTIPLIER_LIMIT,
                0 <= m <= MULTIPLIER_LIMIT,
        ;
        vstd::arithmetic::div_mod::lemma_div_pos_is_pos(config.base_zoom_multiplier * m, FIXED_ONE as int);
        vstd::arithmetic::div_mod::lemma_div_is_ordered(config.base_zoom_multiplier * m,
            MULTIPLIER_LIMIT * MULTIPLIER_LIMIT, FIXED_ONE as int);
    }
    div_floor(config.base_zoom_multiplier as i128 * m as i128, FIXED_ONE as i128) as i64
}

/// The scale a zoom request aims at (`zoom_target`).
pub fn target_scale(scale: i64, scroll: i64, multiplier: i64, min_scale: i64) -> (r: i64)
    requires
        0 <= scale <= SCALE_LIMIT,
        -SCROLL_LIMIT <= scroll <= SCROLL_LIMIT,
        0 <= multiplier <= 0x0000_0200_0000_0000,
        0 < min_scale <= SCALE_LIMIT,
    ensures
        r == zoom_target(scale as int, scroll as int, multiplier as int, min_scale as int),
        min_scale <= r <= SCALE_LIMIT,
{
    proof {
        assert(-0x0000_0100_0000_0000 * 0x0000_0200_0000_0000 <= scroll * multiplier
            <= 0x0000_0100_0000_0000 * 0x0000_0200_0000_0000) by (nonlinear_arith)
            requires
                -SCROLL_LIMIT <= scroll <= SCROLL_LIMIT,
                0 <= multiplier <= 0x0000_0200_0000_0000,
        ;
        let f = ZOOM_RATE_DIVISOR - scroll * multiplier;
        assert(-0x0000_0100_0000_0000 * 0x0010_0000_0000_0000_0000_0000 <= scale * f
            <= 0x0000_0100_0000_0000 * 0x0010_0000_0000_0000_0000_0000) by (nonlinear_arith)
            requires
                0 <= scale <= SCALE_LIMIT,
                -0x0010_0000_0000_0000_0000_0000 <= f <= 0x0010_0000_0000_0000_0000_0000,
        ;
    }
    let f: i128 = ZOOM_RATE_DIVISOR - scroll as i128 * multiplier as i128;
    let raw = div_floor(scale as i128 * f, ZOOM_RATE_DIVISOR);
    if raw < min_scale as i128 {
        min_scale
    } else if raw > SCALE_LIMIT as i128 {
        SCALE_LIMIT
    } else {
        raw as i64
    }
}

fn anchor_axis(t: i64, ndc_num: i64, size: i64, base: i64, from: i64, to: i64) -> (r: i64)
    requires
        -COORD_LIMIT <= t <= COORD_LIMIT,
        0 < size <= SIZE_LIMIT,
        -size <= ndc_num <= size,
        0 < base <= SIZE_LIMIT,
        0 <= from <= SCALE_LIMIT,
        0 <= to <= SCALE_LIMIT,
    ensures
        r == clamp(t + anchor_offset(ndc_num as int, size as int, base as int, from as int, to as int),
            -COORD_LIMIT as int, COORD_LIMIT as int),
{
    let ds: i128 = from as i128 - to as i128;
    proof {
        assert(-SIZE_LIMIT * SIZE_LIMIT <= ndc_num * base <= SIZE_LIMIT * SIZE_LIMIT) by (nonlinear_arith)
            requires
                0 < size <= SIZE_LIMIT,
                -size <= ndc_num <= size,
                0 < base <= SIZE_LIMIT,
        ;
        let nb = ndc_num * base;
        assert(-SIZE_LIMIT * SIZE_LIMIT * SCALE_LIMIT <= nb * ds <= SIZE_LIMIT * SIZE_LIMIT * SCALE_LIMIT)
            by (nonlinear_arith)
            requires
                -SIZE_LIMIT * SIZE_LIMIT <= nb <= SIZE_LIMIT * SIZE_LIMIT,
                -SCALE_LIMIT <= ds <= SCALE_LIMIT,
        ;
        assert(0 < 2 * size * FIXED_ONE <= 2 * SIZE_LIMIT * FIXED_ONE);
        lemma_floor_div_bounded(nb * ds, 2 * size * FIXED_ONE, SIZE_LIMIT * SIZE_LIMIT * SCALE_LIMIT);
    }
    let num: i128 = ndc_num as i128 * base as i128 * ds;
    let off = div_floor(num, 2 * size as i128 * FIXED_ONE as i128);
    saturate_coord(t as i128 + off)
}

/// The zoom request step: turns this frame's scroll into a target scale and, when the
/// zoom anchors on the cursor, a target translation that keeps the world point under the
/// cursor fixed. On the first call it bootstraps an animation toward the configured target.
pub fn camera_zoom(
    config: &PanCamConfig,
    state: &mut PanCamState,
    pose: &mut CameraPose,
    scroll: i64,
    shift_held: bool,
    cursor: Option<FixedVec2>,
    viewport: &Viewport,
)
    requires
        config.wf(),
        old(state).wf(),
        old(pose).wf(),
        -SCROLL_LIMIT <= scroll <= SCROLL_LIMIT,
    ensures
        (*final(state), *final(pose)) == zoom_step(*config, *old(state), *old(pose), scroll as int,
            shift_held, cursor, *viewport),
        final(state).wf(),
        final(pose).wf(),
        !old(state).initialized ==> final(state).initialized && final(state).is_zooming
            && final(state).first_zoom && final(state).target_zoom == old(state).target_zoom
            && final(pose).scale == old(state).current_zoom,
{
    let mut sc = scroll;
    if !state.initialized {
        pose.scale = state.current_zoom;
        sc = BOOTSTRAP_SCROLL;
        state.first_zoom = true;
        state.is_zooming = true;
        state.initialized = true;
    }
    if sc != 0 && config.enabled {
        let from = pose.scale;
        let target = if state.first_zoom {
            state.target_zoom
        } else {
            target_scale(from, sc, zoom_multiplier_exec(config, shift_held), config.min_scale)
        };
        let anchor = match cursor {
            Some(c) => {
                if config.zoom_to_cursor && viewport.is_valid() && viewport.contains_cursor(c) {
                    let t = pose.translation;
                    let ax = anchor_axis(t.x, 2 * c.x - viewport.size.x, viewport.size.x,
                        viewport.base_world_size.x, from, target);
                    let ay = anchor_axis(t.y, viewport.size.y - 2 * c.y, viewport.size.y,
                        viewport.base_world_size.y, from, target);
                    Some(FixedVec2 { x: ax, y: ay })
                } else {
                    None
                }
            },
            None => None,
        };
        let delta = match anchor {
            Some(a) => FixedVec2 { x: a.x - pose.translation.x, y: a.y - pose.translation.y },
            None => FixedVec2 { x: 0, y: 0 },
        };
        state.target_zoom = target;
        state.target_translation = anchor;
        state.delta_zoom_translation = Some(delta);
        state.is_zooming = true;
    }
}

} // verus!
