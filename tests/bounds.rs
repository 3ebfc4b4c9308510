use pancam::{max_scale_within_bounds, AxisLimits, FixedVec2, FIXED_ONE};

fn window(w: i64, h: i64) -> FixedVec2 {
    FixedVec2 { x: w * FIXED_ONE, y: h * FIXED_ONE }
}

fn width_bound(w: i64) -> AxisLimits {
    AxisLimits { x: Some(w * FIXED_ONE), y: None }
}

fn height_bound(h: i64) -> AxisLimits {
    AxisLimits { x: None, y: Some(h * FIXED_ONE) }
}

#[test]
fn bounds_matching_window_width_have_max_scale_1() {
    let window_size = window(100, 100);
    assert_eq!(max_scale_within_bounds(width_bound(100), window_size).x, Some(FIXED_ONE));
}

// boundaries are 1/2 the size of the projection window
#[test]
fn bounds_half_of_window_width_have_half_max_scale() {
    let window_size = window(100, 100);
    assert_eq!(max_scale_within_bounds(width_bound(50), window_size).x, Some(FIXED_ONE / 2));
}

// boundaries are 2x the size of the projection window
#[test]
fn bounds_twice_of_window_width_have_max_scale_2() {
    let window_size = window(100, 100);
    assert_eq!(max_scale_within_bounds(width_bound(200), window_size).x, Some(2 * FIXED_ONE));
}

#[test]
fn bounds_matching_window_height_have_max_scale_1() {
    let window_size = window(100, 100);
    assert_eq!(max_scale_within_bounds(height_bound(100), window_size).y, Some(FIXED_ONE));
}

// boundaries are 1/2 the size of the projection window
#[test]
fn bounds_half_of_window_height_have_half_max_scale() {
    let window_size = window(100, 100);
    assert_eq!(max_scale_within_bounds(height_bound(50), window_size).y, Some(FIXED_ONE / 2));
}

// boundaries are 2x the size of the projection window
#[test]
fn bounds_twice_of_window_height_have_max_scale_2() {
    let window_size = window(100, 100);
    assert_eq!(max_scale_within_bounds(height_bound(200), window_size).y, Some(2 * FIXED_ONE));
}

#[test]
fn unbounded_axis_has_no_safe_scale() {
    let r = max_scale_within_bounds(width_bound(100), window(100, 100));
    assert_eq!(r.y, None);
}

#[test]
fn bounds_wider_than_window_by_a_quarter() {
    // 1000 world units of bounds over a unit-scale projection 800 units wide.
    let r = max_scale_within_bounds(width_bound(1000), window(800, 600));
    assert_eq!(r.x, Some(1_250_000));
}
