use vstd::prelude::*;
use crate::fixed::{
    FixedVec2, FIXED_ONE, COORD_LIMIT, SCALE_LIMIT, SIZE_LIMIT, floor_div, clamp, div_floor,
    saturate_coord, lemma_floor_div_bounded,
};
use crate::camera::{PanCamConfig, PanCamState, CameraPose, Viewport, PointerButton};

verus! {

/// Whether any of `grab` is among `pressed`.
pub open spec fn grab_held(grab: Seq<PointerButton>, pressed: Seq<PointerButton>) -> bool {
    exists|i: int, j: int| 0 <= i < grab.len() && 0 <= j < pressed.len() && grab[i] == pressed[j]
}

/// The world distance that a cursor movement of `dpx` pixels covers on one axis:
/// `dpx * (visible world extent / window size)`, rounded down.
pub open spec fn pixels_to_world(dpx: int, size: int, base: int, scale: int) -> int {
    floor_div(dpx * base * scale, size * FIXED_ONE)
}

/// The cursor movement since the previous frame, in pixels with y growing upward; zero
/// when there is no usable previous position.
pub open spec fn cursor_delta(last: Option<FixedVec2>, c: FixedVec2, viewport: Viewport) -> (int, int) {
    match last {
        Some(l) => if viewport.contains(l) { (c.x - l.x, l.y - c.y) } else { (0, 0) },
        None => (0, 0),
    }
}

/// The drag step as a function of its inputs: the new pose and the remembered cursor.
pub open spec fn drag_step(
    config: PanCamConfig,
    state: PanCamState,
    pose: CameraPose,
    last: Option<FixedVec2>,
    cursor: Option<FixedVec2>,
    pressed: Seq<PointerButton>,
    viewport: Viewport,
) -> (CameraPose, Option<FixedVec2>) {
    match cursor {
        Some(c) => if viewport.valid() && viewport.contains(c) {
            let (dx, dy) = cursor_delta(last, c, viewport);
            let p = if config.enabled && grab_held(config.grab_buttons@, pressed) && !state.is_zooming {
                let wx = pixels_to_world(dx, viewport.size.x as int, viewport.base_world_size.x as int, pose.scale as int);
                let wy = pixels_to_world(dy, viewport.size.y as int, viewport.base_world_size.y as int, pose.scale as int);
                CameraPose {
                    translation: FixedVec2 {
                        x: clamp(pose.translation.x - wx, -COORD_LIMIT as int, COORD_LIMIT as int) as i64,
                        y: clamp(pose.translation.y - wy, -COORD_LIMIT as int, COORD_LIMIT as int) as i64,
                    },
                    ..pose
                }
            } else {
                pose
            };
            (p, Some(c))
        } else {
            (pose, None)
        },
        None => (pose, None),
    }
}

fn drag_axis(t: i64, dpx: i64, size: i64, base: i64, scale: i64) -> (r: i64)
    requires
        -COORD_LIMIT <= t <= COORD_LIMIT,
        0 < size <= SIZE_LIMIT,
        -size <= dpx <= size,
        0 < base <= SIZE_LIMIT,
        0 <= scale <= SCALE_LIMIT,
    ensures
        r == clamp(t - pixels_to_world(dpx as int, size as int, base as int, scale as int),
            -COORD_LIMIT as int, COORD_LIMIT as int),
{
    proof {
        assert(-SIZE_LIMIT * SIZE_LIMIT <= dpx * base <= SIZE_LIMIT * SIZE_LIMIT) by (nonlinear_arith)
            requires
                0 < size <= SIZE_LIMIT,
                -size <= dpx <= size,
                0 < base <= SIZE_LIMIT,
        ;
        let db = dpx * base;
        assert(-SIZE_LIMIT * SIZE_LIMIT * SCALE_LIMIT <= db * scale <= SIZE_LIMIT * SIZE_LIMIT * SCALE_LIMIT)
            by (nonlinear_arith)
            requires
                -SIZE_LIMIT * SIZE_LIMIT <= db <= SIZE_LIMIT * SIZE_LIMIT,
                0 <= scale <= SCALE_LIMIT,
        ;
        assert(0 < size * FIXED_ONE <= SIZE_LIMIT * FIXED_ONE) by (nonlinear_arith)
            requires
                0 < size <= SIZE_LIMIT,
        ;
        lemma_floor_div_bounded(db * scale, size * FIXED_ONE, SIZE_LIMIT * SIZE_LIMIT * SCALE_LIMIT);
    }
    let w = div_floor(dpx as i128 * base as i128 * scale as i128, size as i128 * FIXED_ONE as i128);
    saturate_coord(t as i128 - w)
}

/// The drag step: while a grab button is held and no zoom animation is in flight, moves
/// the camera opposite to the cursor's motion since the previous frame, converted from
/// pixels to world units. A frame without a cursor inside the window forgets the previous
/// position and moves nothing.
pub fn camera_movement(
    config: &PanCamConfig,
    state: &PanCamState,
    pose: &mut CameraPose,
    last_pos: &mut Option<FixedVec2>,
    cursor: Option<FixedVec2>,
    pressed: &Vec<PointerButton>,
    viewport: &Viewport,
)
    requires
        old(pose).wf(),
    ensures
        (*final(pose), *final(last_pos)) == drag_step(*config, *state, *old(pose), *old(last_pos),
            cursor, pressed@, *viewport),
        final(pose).wf(),
{
    let c = match cursor {
        Some(c) => c,
        None => {
            *last_pos = None;
            return;
        },
    };
    if !viewport.is_valid() || !viewport.contains_cursor(c) {
        *last_pos = None;
        return;
    }
    let (dx, dy): (i64, i64) = match *last_pos {
        Some(l) => if viewport.contains_cursor(l) { (c.x - l.x, l.y - c.y) } else { (0, 0) },
        None => (0, 0),
    };
    if config.enabled && config.grab_active(pressed) && !state.is_zooming {
        let x = drag_axis(pose.translation.x, dx, viewport.size.x, viewport.base_world_size.x, pose.scale);
        let y = drag_axis(pose.translation.y, dy, viewport.size.y, viewport.base_world_size.y, pose.scale);
        pose.translation = FixedVec2 { x, y };
    }
    *last_pos = Some(c);
}

} // verus!
