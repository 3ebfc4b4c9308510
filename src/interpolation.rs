use vstd::prelude::*;
use crate::fixed::{FixedVec2, FIXED_ONE, COORD_LIMIT, floor_div, ceil_div, clamp, div_floor, div_ceil};
use crate::camera::{PanCamConfig, PanCamState, CameraPose};

verus! {

/// The interpolation stops once the scale is this close to its target (0.01) ...
pub const ZOOM_EPSILON: i64 = 10_000;

/// ... and the translation is this close to its target: the square of 0.01 world units,
/// compared with the squared Euclidean distance.
pub const TRANSLATION_EPSILON_SQUARED: i128 = 100_000_000;

/// The fraction of the remaining distance covered in one frame: `animation_scale * dt`,
/// held to `[0, 1]`.
pub open spec fn step_fraction(animation_scale: int, dt: int) -> int {
    clamp(floor_div(animation_scale * dt, FIXED_ONE as int), 0, FIXED_ONE as int)
}

/// One step of first-order decay from `cur` toward `target`: the fraction `frac` of the
/// remaining distance, rounded away from zero so that a positive fraction always makes
/// progress; the step never passes the target, and a full fraction lands on it.
pub open spec fn approach(cur: int, target: int, frac: int) -> int {
    if frac >= FIXED_ONE {
        target
    } else if target >= cur {
        cur + ceil_div((target - cur) * frac, FIXED_ONE as int)
    } else {
        cur - ceil_div((cur - target) * frac, FIXED_ONE as int)
    }
}

pub open spec fn abs(v: int) -> int {
    if v < 0 { -v } else { v }
}

/// Whether `t` is within 0.01 world units (Euclidean) of `target`.
pub open spec fn translation_close(t: FixedVec2, target: FixedVec2) -> bool {
    let dx = target.x - t.x;
    let dy = target.y - t.y;
    dx * dx + dy * dy <= TRANSLATION_EPSILON_SQUARED
}

/// The interpolation step as a function of its inputs. Convergence is tested on the gaps
/// at the start of the frame: when the scale is within `ZOOM_EPSILON` of its target and the
/// translation (if it has a target) within 0.01 units of it, both snap onto their targets
/// and the animation ends. Otherwise each moves one decay step toward its target, and
/// `first_zoom` is cleared once the scale alone is within its epsilon.
pub open spec fn interpolation_step(config: PanCamConfig, state: PanCamState, pose: CameraPose, dt: int) -> (PanCamState, CameraPose) {
    if !state.is_zooming {
        (state, pose)
    } else {
        let scale_close = abs(state.target_zoom - pose.scale) <= ZOOM_EPSILON;
        let trans_close = match state.target_translation {
            Some(tt) => translation_close(pose.translation, tt),
            None => true,
        };
        if scale_close && trans_close {
            (
                PanCamState { is_zooming: false, first_zoom: false, ..state },
                CameraPose {
                    scale: state.target_zoom,
                    translation: match state.target_translation {
                        Some(tt) => tt,
                        None => pose.translation,
                    },
                },
            )
        } else {
            let f = step_fraction(config.animation_scale as int, dt);
            let t = match state.target_translation {
                Some(tt) => FixedVec2 {
                    x: approach(pose.translation.x as int, tt.x as int, f) as i64,
                    y: approach(pose.translation.y as int, tt.y as int, f) as i64,
                },
                None => pose.translation,
            };
            (
                PanCamState { first_zoom: if scale_close { false } else { state.first_zoom }, ..state },
                CameraPose { scale: approach(pose.scale as int, state.target_zoom as int, f) as i64, translation: t },
            )
        }
    }
}

proof fn lemma_ceil_step_bounds(d: int, frac: int)
    requires
        d >= 0,
        0 <= frac < FIXED_ONE,
    ensures
        0 <= ceil_div(d * frac, FIXED_ONE as int) <= d,
        d > 0 && frac > 0 ==> ceil_div(d * frac, FIXED_ONE as int) >= 1,
{
    let one = FIXED_ONE as int;
    vstd::arithmetic::div_mod::lemma_fundamental_div_mod(-(d * frac), one);
    let q = (-(d * frac)) / one;
    let r = (-(d * frac)) % one;
    assert(0 <= d * frac <= d * one) by (nonlinear_arith)
        requires
            d >= 0,
            0 <= frac < one,
    ;
    assert(0 <= -q <= d) by (nonlinear_arith)
        requires
            -(d * frac) == one * q + r,
            0 <= r < one,
            0 <= d * frac <= d * one,
            one > 0,
    ;
    if d > 0 && frac > 0 {
        assert(d * frac >= 1) by (nonlinear_arith)
            requires
                d > 0,
                frac > 0,
        ;
        assert(-q >= 1) by (nonlinear_arith)
            requires
                -(d * frac) == one * q + r,
                0 <= r < one,
                d * frac >= 1,
                one > 0,
        ;
    }
}

/// `approach` stays between its start and its target, and with a positive fraction it
/// strictly closes a nonzero gap.
pub proof fn lemma_approach(cur: int, target: int, frac: int)
    requires
        0 <= frac,
    ensures
        cur <= target ==> cur <= approach(cur, target, frac) <= target,
        target <= cur ==> target <= approach(cur, target, frac) <= cur,
        frac > 0 && cur != target ==> abs(target - approach(cur, target, frac)) < abs(target - cur),
{
    if frac < FIXED_ONE {
        if target >= cur {
            lemma_ceil_step_bounds(target - cur, frac);
        } else {
            lemma_ceil_step_bounds(cur - target, frac);
        }
    }
}

fn approach_exec(cur: i64, target: i64, frac: i64) -> (r: i64)
    requires
        -COORD_LIMIT <= cur <= COORD_LIMIT,
        -COORD_LIMIT <= target <= COORD_LIMIT,
        0 <= frac <= FIXED_ONE,
    ensures
        r == approach(cur as int, target as int, frac as int),
{
    proof {
        lemma_approach(cur as int, target as int, frac as int);
    }
    if frac >= FIXED_ONE {
        target
    } else if target >= cur {
        let d: i128 = target as i128 - cur as i128;
        proof {
            assert(0 <= d * frac <= d * FIXED_ONE) by (nonlinear_arith)
                requires 0 <= d, 0 <= frac <= FIXED_ONE;
            assert(d * FIXED_ONE <= 0x4000_0000_0000_0000 * FIXED_ONE) by (nonlinear_arith)
                requires 0 <= d <= 0x4000_0000_0000_0000;
        }
        let step = div_ceil(d * frac as i128, FIXED_ONE as i128);
        (cur as i128 + step) as i64
    } else {
        let d: i128 = cur as i128 - target as i128;
        proof {
            assert(0 <= d * frac <= d * FIXED_ONE) by (nonlinear_arith)
                requires 0 <= d, 0 <= frac <= FIXED_ONE;
            assert(d * FIXED_ONE <= 0x4000_0000_0000_0000 * FIXED_ONE) by (nonlinear_arith)
                requires 0 <= d <= 0x4000_0000_0000_0000;
        }
        let step = div_ceil(d * frac as i128, FIXED_ONE as i128);
        (cur as i128 - step) as i64
    }
}

/// The fraction of the remaining distance covered in a frame of `dt` seconds (fixed-point).
pub fn frame_fraction(animation_scale: i64, dt: i64) -> (r: i64)
    ensures
        r == step_fraction(animation_scale as int, dt as int),
        0 <= r <= FIXED_ONE,
{
    proof {
        assert(-0x4000_0000_0000_0000_0000_0000_0000_0000 <= animation_scale * dt
            <= 0x4000_0000_0000_0000_0000_0000_0000_0000) by (nonlinear_arith)
            requires
                -0x8000_0000_0000_0000 <= animation_scale <= 0x7fff_ffff_ffff_ffff,
                -0x8000_0000_0000_0000 <= dt <= 0x7fff_ffff_ffff_ffff,
        ;
    }
    let v = div_floor(animation_scale as i128 * dt as i128, FIXED_ONE as i128);
    if v < 0 {
        0
    } else if v > FIXED_ONE as i128 {
        FIXED_ONE
    } else {
        v as i64
    }
}

/// The interpolation step: while an animation is in flight, either snaps onto the targets
/// and ends the animation (when the frame starts within epsilon of both), or moves the
/// scale and (if set) the translation a fraction `animation_scale * dt` of the way to them.
pub fn zoom_interpolation(config: &PanCamConfig, state: &mut PanCamState, pose: &mut CameraPose, dt: i64)
    requires
        old(state).wf(),
        old(pose).wf(),
    ensures
        (*final(state), *final(pose)) == interpolation_step(*config, *old(state), *old(pose), dt as int),
        final(state).wf(),
        final(pose).wf(),
{
    if !state.is_zooming {
        return;
    }
    let target = state.target_zoom;
    let gap: i64 = if target >= pose.scale { target - pose.scale } else { pose.scale - target };
    let scale_close = gap <= ZOOM_EPSILON;
    let trans_close = match state.target_translation {
        Some(tt) => {
            let dx: i128 = tt.x as i128 - pose.translation.x as i128;
            let dy: i128 = tt.y as i128 - pose.translation.y as i128;
            proof {
                assert(dx * dx <= 0x4000_0000_0000_0000 * 0x4000_0000_0000_0000) by (nonlinear_arith)
                    requires -0x4000_0000_0000_0000 <= dx <= 0x4000_0000_0000_0000;
                assert(dy * dy <= 0x4000_0000_0000_0000 * 0x4000_0000_0000_0000) by (nonlinear_arith)
                    requires -0x4000_0000_0000_0000 <= dy <= 0x4000_0000_0000_0000;
                assert(0 <= dx * dx) by (nonlinear_arith);
                assert(0 <= dy * dy) by (nonlinear_arith);
            }
            dx * dx + dy * dy <= TRANSLATION_EPSILON_SQUARED
        },
        None => true,
    };
    if scale_close && trans_close {
        pose.scale = target;
        if let Some(tt) = state.target_translation {
            pose.translation = tt;
        }
        state.is_zooming = false;
        state.first_zoom = false;
        return;
    }
    let f = frame_fraction(config.animation_scale, dt);
    let s = approach_exec(pose.scale, target, f);
    proof {
        lemma_approach(pose.scale as int, target as int, f as int);
    }
    let t = match state.target_translation {
        Some(tt) => {
            proof {
                lemma_approach(pose.translation.x as int, tt.x as int, f as int);
                lemma_approach(pose.translation.y as int, tt.y as int, f as int);
            }
            FixedVec2 {
                x: approach_exec(pose.translation.x, tt.x, f),
                y: approach_exec(pose.translation.y, tt.y, f),
            }
        },
        None => pose.translation,
    };
    if scale_close {
        state.first_zoom = false;
    }
    pose.scale = s;
    pose.translation = t;
}

} // verus!
