//! A verified controller for a panning and zooming 2D orthographic camera.
//!
//! Every quantity is a fixed-point integer: `FIXED_ONE` stands for 1.0, so a scale of
//! 1.25 is `1_250_000` and a world position of -500 units is `-500_000_000`. Each frame
//! the controller runs four steps in a fixed order: the drag tracker (`movement`), the
//! zoom request builder (`zoom`), the interpolator (`interpolation`) and the constraint
//! enforcer (`constraints`); `controller` composes them, and `laws` states and proves what
//! holds of them together.

pub mod fixed;
pub mod camera;
pub mod constraints;
pub mod zoom;
pub mod interpolation;
pub mod movement;
pub mod controller;
pub mod laws;

pub use fixed::{FixedVec2, FIXED_ONE};
pub use camera::{PanCamConfig, PanCamState, CameraPose, Viewport, PointerButton};
pub use constraints::{AxisLimits, max_scale_within_bounds, effective_max_scale, apply_constraints};
pub use zoom::{ScrollEvent, ScrollUnit, accumulate_scroll, target_scale, camera_zoom};
pub use interpolation::{frame_fraction, zoom_interpolation};
pub use movement::camera_movement;
pub use controller::{FrameInput, pan_cam_frame};
