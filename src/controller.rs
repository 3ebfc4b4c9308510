use vstd::prelude::*;
use crate::fixed::FixedVec2;
use crate::camera::{PanCamConfig, PanCamState, CameraPose, Viewport, PointerButton};
use crate::zoom::{ScrollEvent, scroll_total, zoom_step, accumulate_scroll, camera_zoom};
use crate::interpolation::{interpolation_step, zoom_interpolation};
use crate::movement::{drag_step, camera_movement};
use crate::constraints::{constrained_pose, apply_constraints};

verus! {

/// What the host hands the controller each frame.
#[derive(Clone, Debug)]
pub struct FrameInput {
    /// The cursor in fixed-point pixels (origin at the top left), if it is over the window.
    pub cursor: Option<FixedVec2>,
    /// The pointer buttons held down.
    pub pressed: Vec<PointerButton>,
    /// Whether the zoom modifier key is held.
    pub shift_held: bool,
    /// This frame's scroll-wheel events, in order.
    pub scroll_events: Vec<ScrollEvent>,
    /// The window and the projection's extent at scale 1.
    pub viewport: Viewport,
    /// Seconds since the previous frame, fixed-point.
    pub dt: i64,
    /// Whether another part of the interface has taken the pointer this frame.
    pub input_suppressed: bool,
}

/// One frame of the controller: drag, zoom, interpolate, constrain. When input is
/// suppressed the drag and zoom steps are skipped; the constraint step always runs, and
/// `current_zoom` then mirrors the live scale.
pub open spec fn frame_step(
    config: PanCamConfig,
    state: PanCamState,
    pose: CameraPose,
    last: Option<FixedVec2>,
    input: FrameInput,
) -> (PanCamState, CameraPose, Option<FixedVec2>) {
    let v = input.viewport;
    let (dragged, last_next) = if input.input_suppressed {
        (pose, last)
    } else {
        drag_step(config, state, pose, last, input.cursor, input.pressed@, v)
    };
    let (st_zoomed, zoomed) = if input.input_suppressed {
        (state, dragged)
    } else {
        zoom_step(config, state, dragged, scroll_total(input.scroll_events@, config.pixels_per_line as int),
            input.shift_held, input.cursor, v)
    };
    let (st_eased, eased) = interpolation_step(config, st_zoomed, zoomed, input.dt as int);
    let clamped = if v.valid() { constrained_pose(config, eased, v) } else { eased };
    (PanCamState { current_zoom: clamped.scale, ..st_eased }, clamped, last_next)
}

/// Runs one frame of the controller on one camera.
pub fn pan_cam_frame(
    config: &PanCamConfig,
    state: &mut PanCamState,
    pose: &mut CameraPose,
    last_pos: &mut Option<FixedVec2>,
    input: &FrameInput,
)
    requires
        config.wf(),
        old(state).wf(),
        old(pose).wf(),
    ensures
        (*final(state), *final(pose), *final(last_pos)) == frame_step(*config, *old(state), *old(pose),
            *old(last_pos), *input),
        final(state).wf(),
        final(pose).wf(),
{
    if !input.input_suppressed {
        camera_movement(config, state, pose, last_pos, input.cursor, &input.pressed, &input.viewport);
        let scroll = accumulate_scroll(&input.scroll_events, config.pixels_per_line);
        camera_zoom(config, state, pose, scroll, input.shift_held, input.cursor, &input.viewport);
    }
    zoom_interpolation(config, state, pose, input.dt);
    apply_constraints(config, pose, &input.viewport);
    state.current_zoom = pose.scale;
}

} // verus!
