use vstd::prelude::*;
use crate::fixed::{FixedVec2, FIXED_ONE, BOUND_LIMIT, SCALE_LIMIT, SIZE_LIMIT};

verus! {

/// The largest zoom multiplier (base or modifier), as a fixed-point value.
pub const MULTIPLIER_LIMIT: i64 = 0x4000_0000;

/// A pointer button that can start a drag.
#[derive(Clone, Copy, Debug, PartialEq, Eq, Structural)]
pub enum PointerButton {
    Left,
    Right,
    Middle,
    Other(u16),
}

/// User-facing configuration of one panning camera.
///
/// Scales, bounds and multipliers are fixed-point values (`FIXED_ONE` is 1.0);
/// `pixels_per_line` is a fixed-point number of pixels.
#[derive(Clone, Debug)]
pub struct PanCamConfig {
    pub grab_buttons: Vec<PointerButton>,
    pub enabled: bool,
    pub zoom_to_cursor: bool,
    pub min_scale: i64,
    pub max_scale: Option<i64>,
    pub min_x: Option<i64>,
    pub max_x: Option<i64>,
    pub min_y: Option<i64>,
    pub max_y: Option<i64>,
    pub pixels_per_line: i64,
    pub base_zoom_multiplier: i64,
    pub shift_multiplier_normal: i64,
    pub shift_multiplier_shifted: i64,
    pub animation_scale: i64,
}

pub open spec fn bound_ok(b: Option<i64>) -> bool {
    match b {
        Some(v) => -BOUND_LIMIT <= v <= BOUND_LIMIT,
        None => true,
    }
}

pub open spec fn bounds_ordered(lo: Option<i64>, hi: Option<i64>) -> bool {
    match (lo, hi) {
        (Some(l), Some(h)) => l <= h,
        _ => true,
    }
}

impl PanCamConfig {
    /// A configuration the controller accepts: a positive minimum scale, a maximum scale
    /// not below it, bounds that are ordered per axis, and values within the fixed-point limits.
    pub open spec fn wf(&self) -> bool {
        &&& 0 < self.min_scale <= SCALE_LIMIT
        &&& match self.max_scale {
            Some(m) => self.min_scale <= m <= SCALE_LIMIT,
            None => true,
        }
        &&& bound_ok(self.min_x) && bound_ok(self.max_x)
        &&& bound_ok(self.min_y) && bound_ok(self.max_y)
        &&& bounds_ordered(self.min_x, self.max_x)
        &&& bounds_ordered(self.min_y, self.max_y)
        &&& 0 <= self.pixels_per_line <= SIZE_LIMIT
        &&& 0 <= self.base_zoom_multiplier <= MULTIPLIER_LIMIT
        &&& 0 <= self.shift_multiplier_normal <= MULTIPLIER_LIMIT
        &&& 0 <= self.shift_multiplier_shifted <= MULTIPLIER_LIMIT
    }

    /// Checks the configuration once, when the camera is created; an invalid one is
    /// rejected rather than clamped frame by frame.
    pub fn validate(&self) -> (r: bool)
        ensures
            r == self.wf(),
    {
        let max_ok = match self.max_scale {
            Some(m) => self.min_scale <= m && m <= SCALE_LIMIT,
            None => true,
        };
        0 < self.min_scale && self.min_scale <= SCALE_LIMIT && max_ok && check_bound(self.min_x)
            && check_bound(self.max_x) && check_bound(self.min_y) && check_bound(self.max_y)
            && check_order(self.min_x, self.max_x) && check_order(self.min_y, self.max_y)
            && 0 <= self.pixels_per_line && self.pixels_per_line <= SIZE_LIMIT
            && 0 <= self.base_zoom_multiplier && self.base_zoom_multiplier <= MULTIPLIER_LIMIT
            && 0 <= self.shift_multiplier_normal && self.shift_multiplier_normal
            <= MULTIPLIER_LIMIT && 0 <= self.shift_multiplier_shifted
            && self.shift_multiplier_shifted <= MULTIPLIER_LIMIT
    }

    /// Whether any configured grab button is among the pressed ones.
    pub fn grab_active(&self, pressed: &Vec<PointerButton>) -> (r: bool)
        ensures
            r == exists|i: int, j: int|
                0 <= i < self.grab_buttons@.len() && 0 <= j < pressed@.len()
                    && self.grab_buttons@[i] == pressed@[j],
    {
        let mut i: usize = 0;
        while i < self.grab_buttons.len()
            invariant
                0 <= i <= self.grab_buttons@.len(),
                forall|a: int, b: int|
                    0 <= a < i && 0 <= b < pressed@.len() ==> self.grab_buttons@[a] != pressed@[b],
            decreases self.grab_buttons@.len() - i,
        {
            let mut j: usize = 0;
            while j < pressed.len()
                invariant
                    0 <= i < self.grab_buttons@.len(),
                    0 <= j <= pressed@.len(),
                    forall|b: int| 0 <= b < j ==> self.grab_buttons@[i as int] != pressed@[b],
                decreases pressed@.len() - j,
            {
                if self.grab_buttons[i] == pressed[j] {
                    return true;
                }
                j += 1;
            }
            i += 1;
        }
        false
    }
}

fn check_bound(b: Option<i64>) -> (r: bool)
    ensures
        r == bound_ok(b),
{
    match b {
        Some(v) => -BOUND_LIMIT <= v && v <= BOUND_LIMIT,
        None => true,
    }
}

fn check_order(lo: Option<i64>, hi: Option<i64>) -> (r: bool)
    ensures
        r == bounds_ordered(lo, hi),
{
    match (lo, hi) {
        (Some(l), Some(h)) => l <= h,
        _ => true,
    }
}

impl Default for PanCamConfig {
    fn default() -> (r: PanCamConfig)
        ensures
            r.grab_buttons@ == seq![PointerButton::Left, PointerButton::Right, PointerButton::Middle],
            r.enabled && r.zoom_to_cursor,
            r.min_scale == 10,
            r.max_scale.is_none(),
            r.min_x.is_none() && r.max_x.is_none() && r.min_y.is_none() && r.max_y.is_none(),
            r.pixels_per_line == 100 * FIXED_ONE,
            r.base_zoom_multiplier == 10 * FIXED_ONE,
            r.shift_multiplier_normal == 10 * FIXED_ONE,
            r.shift_multiplier_shifted == 30 * FIXED_ONE,
            r.animation_scale == 3 * FIXED_ONE,
            r.wf(),
    {
        PanCamConfig {
            grab_buttons: vec![PointerButton::Left, PointerButton::Right, PointerButton::Middle],
            enabled: true,
            zoom_to_cursor: true,
            min_scale: 10,
            max_scale: None,
            min_x: None,
            max_x: None,
            min_y: None,
            max_y: None,
            pixels_per_line: 100 * FIXED_ONE,
            base_zoom_multiplier: 10 * FIXED_ONE,
            shift_multiplier_normal: 10 * FIXED_ONE,
            shift_multiplier_shifted: 30 * FIXED_ONE,
            animation_scale: 3 * FIXED_ONE,
        }
    }
}

/// Per-camera state that the controller mutates every frame.
#[derive(Clone, Copy, Debug, PartialEq, Eq, Structural)]
pub struct PanCamState {
    /// The scale the camera starts from; after each frame it mirrors the live scale.
    pub current_zoom: i64,
    /// The scale the interpolator drives the camera toward.
    pub target_zoom: i64,
    /// Whether an animated transition is in flight.
    pub is_zooming: bool,
    /// The translation the interpolator drives the camera toward, if any.
    pub target_translation: Option<FixedVec2>,
    /// The translation offset implied by the last zoom step.
    pub delta_zoom_translation: Option<FixedVec2>,
    /// Whether the bootstrap transition toward the configured target is still running.
    pub first_zoom: bool,
    /// Whether the bootstrap step has run.
    pub initialized: bool,
}

impl PanCamState {
    pub open spec fn wf(&self) -> bool {
        &&& 0 <= self.current_zoom <= SCALE_LIMIT
        &&& 0 <= self.target_zoom <= SCALE_LIMIT
        &&& match self.target_translation {
            Some(t) => t.in_coord_range(),
            None => true,
        }
    }
}

impl Default for PanCamState {
    fn default() -> (r: PanCamState)
        ensures
            r.current_zoom == FIXED_ONE,
            r.target_zoom == FIXED_ONE,
            !r.is_zooming,
            r.target_translation.is_none(),
            r.delta_zoom_translation.is_none(),
            !r.first_zoom,
            !r.initialized,
            r.wf(),
    {
        PanCamState {
            current_zoom: FIXED_ONE,
            target_zoom: FIXED_ONE,
            is_zooming: false,
            target_translation: None,
            delta_zoom_translation: None,
            first_zoom: false,
            initialized: false,
        }
    }
}

/// The renderer's side of the camera: its orthographic scale and its world translation.
#[derive(Clone, Copy, Debug, PartialEq, Eq, Structural)]
pub struct CameraPose {
    pub scale: i64,
    pub translation: FixedVec2,
}

impl CameraPose {
    pub open spec fn wf(&self) -> bool {
        0 <= self.scale <= SCALE_LIMIT && self.translation.in_coord_range()
    }
}

/// The window the camera renders to.
#[derive(Clone, Copy, Debug, PartialEq, Eq, Structural)]
pub struct Viewport {
    /// Width and height in pixels (fixed-point).
    pub size: FixedVec2,
    /// The world size that a projection of scale 1 shows in this window (fixed-point).
    pub base_world_size: FixedVec2,
}

impl Viewport {
    /// A viewport with a nonzero area; any other makes the frame a no-op.
    pub open spec fn valid(&self) -> bool {
        &&& 0 < self.size.x <= SIZE_LIMIT
        &&& 0 < self.size.y <= SIZE_LIMIT
        &&& 0 < self.base_world_size.x <= SIZE_LIMIT
        &&& 0 < self.base_world_size.y <= SIZE_LIMIT
    }

    pub fn is_valid(&self) -> (r: bool)
        ensures
            r == self.valid(),
    {
        0 < self.size.x && self.size.x <= SIZE_LIMIT && 0 < self.size.y && self.size.y
            <= SIZE_LIMIT && 0 < self.base_world_size.x && self.base_world_size.x <= SIZE_LIMIT
            && 0 < self.base_world_size.y && self.base_world_size.y <= SIZE_LIMIT
    }

    /// Whether a cursor position (pixels, origin at the top left) lies inside the window.
    pub open spec fn contains(&self, c: FixedVec2) -> bool {
        0 <= c.x <= self.size.x && 0 <= c.y <= self.size.y
    }

    pub fn contains_cursor(&self, c: FixedVec2) -> (r: bool)
        ensures
            r == self.contains(c),
    {
        0 <= c.x && c.x <= self.size.x && 0 <= c.y && c.y <= self.size.y
    }
}

} // verus!
