use pancam::{
    accumulate_scroll, apply_constraints, camera_movement, camera_zoom, effective_max_scale,
    frame_fraction, pan_cam_frame, target_scale, zoom_interpolation, CameraPose, FixedVec2,
    FrameInput, PanCamConfig, PanCamState, PointerButton, ScrollEvent, ScrollUnit, Viewport,
    FIXED_ONE,
};

const FRAME_DT: i64 = 16_667; // about 1/60 s

fn viewport(w: i64, h: i64) -> Viewport {
    Viewport {
        size: FixedVec2 { x: w * FIXED_ONE, y: h * FIXED_ONE },
        base_world_size: FixedVec2 { x: w * FIXED_ONE, y: h * FIXED_ONE },
    }
}

fn pose(scale: i64, x: i64, y: i64) -> CameraPose {
    CameraPose { scale, translation: FixedVec2 { x, y } }
}

fn at_rest() -> PanCamState {
    PanCamState { initialized: true, ..PanCamState::default() }
}

fn input(v: Viewport, cursor: Option<FixedVec2>, scroll: Vec<ScrollEvent>) -> FrameInput {
    FrameInput {
        cursor,
        pressed: vec![],
        shift_held: false,
        scroll_events: scroll,
        viewport: v,
        dt: FRAME_DT,
        input_suppressed: false,
    }
}

fn px(amount: i64) -> ScrollEvent {
    ScrollEvent { amount: amount * FIXED_ONE, unit: ScrollUnit::Pixel }
}

#[test]
fn default_config_is_valid() {
    let c = PanCamConfig::default();
    assert!(c.validate());
    assert_eq!(c.grab_buttons, vec![PointerButton::Left, PointerButton::Right, PointerButton::Middle]);
    assert_eq!(c.min_scale, 10);
    assert_eq!(c.pixels_per_line, 100 * FIXED_ONE);
    let s = PanCamState::default();
    assert_eq!(s.current_zoom, FIXED_ONE);
    assert!(!s.is_zooming && !s.initialized);
}

#[test]
fn inconsistent_configs_are_rejected() {
    let c = PanCamConfig { min_x: Some(10), max_x: Some(-10), ..PanCamConfig::default() };
    assert!(!c.validate());
    let c = PanCamConfig { min_scale: 100, max_scale: Some(50), ..PanCamConfig::default() };
    assert!(!c.validate());
    let c = PanCamConfig { min_scale: 0, ..PanCamConfig::default() };
    assert!(!c.validate());
}

#[test]
fn grab_buttons_match_pressed_ones() {
    let c = PanCamConfig { grab_buttons: vec![PointerButton::Middle], ..PanCamConfig::default() };
    assert!(c.grab_active(&vec![PointerButton::Left, PointerButton::Middle]));
    assert!(!c.grab_active(&vec![PointerButton::Left]));
    assert!(!c.grab_active(&vec![]));
}

#[test]
fn scroll_lines_and_pixels_are_summed() {
    let events = vec![
        px(3),
        ScrollEvent { amount: 1_500_000, unit: ScrollUnit::Line },
        px(-1),
    ];
    assert_eq!(accumulate_scroll(&events, 100 * FIXED_ONE), 152 * FIXED_ONE);
    assert_eq!(accumulate_scroll(&vec![], 100 * FIXED_ONE), 0);
}

#[test]
fn zoom_step_is_multiplicative() {
    // one pixel of scroll at a multiplier of 100: the scale drops by 10 %.
    assert_eq!(target_scale(FIXED_ONE, FIXED_ONE, 100 * FIXED_ONE, 10), 900_000);
    // scrolling out grows it by the same step.
    assert_eq!(target_scale(FIXED_ONE, -FIXED_ONE, 100 * FIXED_ONE, 10), 1_100_000);
    // never below the minimum scale.
    assert_eq!(target_scale(FIXED_ONE, 20 * FIXED_ONE, 100 * FIXED_ONE, 10), 10);
}

#[test]
fn zooming_in_repeatedly_gives_a_decreasing_geometric_sequence() {
    let mut s = FIXED_ONE;
    let expected = [900_000, 810_000, 729_000, 656_100, 590_490, 531_441];
    for e in expected {
        let next = target_scale(s, FIXED_ONE, 100 * FIXED_ONE, 10);
        assert!(next < s);
        assert_eq!(next, e);
        s = next;
    }
}

#[test]
fn frame_fraction_is_rate_times_time() {
    assert_eq!(frame_fraction(3 * FIXED_ONE, FRAME_DT), 50_001);
    assert_eq!(frame_fraction(3 * FIXED_ONE, FIXED_ONE), FIXED_ONE);
    assert_eq!(frame_fraction(3 * FIXED_ONE, -5), 0);
}

#[test]
fn interpolation_converges_and_then_rests() {
    let c = PanCamConfig::default();
    let mut s = PanCamState { target_zoom: 2 * FIXED_ONE, is_zooming: true, ..at_rest() };
    s.target_translation = Some(FixedVec2 { x: 5 * FIXED_ONE, y: -3 * FIXED_ONE });
    let mut p = pose(FIXED_ONE, 0, 0);
    let mut frames = 0;
    while s.is_zooming && frames < 10_000 {
        zoom_interpolation(&c, &mut s, &mut p, FRAME_DT);
        frames += 1;
    }
    assert!(!s.is_zooming);
    assert!(frames > 1);
    assert_eq!(p, pose(2 * FIXED_ONE, 5 * FIXED_ONE, -3 * FIXED_ONE));
    let (s0, p0) = (s, p);
    zoom_interpolation(&c, &mut s, &mut p, FRAME_DT);
    assert_eq!((s, p), (s0, p0));
}

#[test]
fn interpolation_moves_a_fraction_of_the_way() {
    let c = PanCamConfig::default();
    let mut s = PanCamState { target_zoom: 2 * FIXED_ONE, is_zooming: true, ..at_rest() };
    let mut p = pose(FIXED_ONE, 0, 0);
    zoom_interpolation(&c, &mut s, &mut p, FRAME_DT);
    // a fraction 0.050001 of the remaining 1.0
    assert_eq!(p.scale, 1_050_001);
    assert!(s.is_zooming);
}

#[test]
fn zoom_keeps_the_point_under_the_cursor() {
    let c = PanCamConfig::default();
    let v = viewport(800, 600);
    let mut s = at_rest();
    let mut p = pose(FIXED_ONE, 0, 0);
    // normalized device coordinates (0.5, 0.5): world point (200, 150) at scale 1.
    let cursor = FixedVec2 { x: 600 * FIXED_ONE, y: 150 * FIXED_ONE };
    camera_zoom(&c, &mut s, &mut p, FIXED_ONE, false, Some(cursor), &v);
    assert!(s.is_zooming);
    assert_eq!(s.target_zoom, 900_000);
    assert_eq!(s.target_translation, Some(FixedVec2 { x: 20 * FIXED_ONE, y: 15 * FIXED_ONE }));
    assert_eq!(s.delta_zoom_translation, Some(FixedVec2 { x: 20 * FIXED_ONE, y: 15 * FIXED_ONE }));
    let mut frames = 0;
    while s.is_zooming && frames < 10_000 {
        zoom_interpolation(&c, &mut s, &mut p, FRAME_DT);
        frames += 1;
    }
    assert_eq!(p, pose(900_000, 20 * FIXED_ONE, 15 * FIXED_ONE));
    // world x under the cursor: t + 0.5 * 400 * scale
    let wx = p.translation.x as i128 + 400 * p.scale as i128 / 2;
    let wy = p.translation.y as i128 + 300 * p.scale as i128 / 2;
    assert_eq!((wx, wy), (200 * FIXED_ONE as i128, 150 * FIXED_ONE as i128));
}

#[test]
fn zoom_without_cursor_anchors_on_center() {
    let c = PanCamConfig::default();
    let mut s = at_rest();
    let mut p = pose(FIXED_ONE, 7, 8);
    camera_zoom(&c, &mut s, &mut p, FIXED_ONE, true, None, &viewport(800, 600));
    // shifted multiplier: 10 * 30 = 300, so one pixel takes 30 %.
    assert_eq!(s.target_zoom, 700_000);
    assert_eq!(s.target_translation, None);
    assert_eq!(s.delta_zoom_translation, Some(FixedVec2 { x: 0, y: 0 }));
    assert_eq!(p, pose(FIXED_ONE, 7, 8));
}

#[test]
fn zoom_does_nothing_without_scroll_at_rest() {
    let c = PanCamConfig::default();
    let mut s = at_rest();
    let mut p = pose(FIXED_ONE, 0, 0);
    camera_zoom(&c, &mut s, &mut p, 0, false, None, &viewport(800, 600));
    assert_eq!(s, at_rest());
    assert!(!s.is_zooming);
}

#[test]
fn disabled_camera_ignores_scroll() {
    let c = PanCamConfig { enabled: false, ..PanCamConfig::default() };
    let mut s = at_rest();
    let mut p = pose(FIXED_ONE, 0, 0);
    camera_zoom(&c, &mut s, &mut p, FIXED_ONE, false, None, &viewport(800, 600));
    assert!(!s.is_zooming);
    assert_eq!(s.target_zoom, FIXED_ONE);
}

#[test]
fn bootstrap_makes_progress_on_the_first_frame() {
    let c = PanCamConfig::default();
    let mut s = PanCamState {
        current_zoom: FIXED_ONE,
        target_zoom: 4_500_000,
        is_zooming: true,
        initialized: false,
        ..PanCamState::default()
    };
    let mut p = pose(3 * FIXED_ONE, 0, 0);
    let mut last = None;
    pan_cam_frame(&c, &mut s, &mut p, &mut last, &input(viewport(800, 600), None, vec![]));
    assert!(s.initialized);
    assert!(s.is_zooming);
    assert_eq!(s.target_zoom, 4_500_000);
    // starts from current_zoom = 1.0 and covers 0.050001 of the remaining 3.5
    assert_eq!(p.scale, 1_175_004);
    assert_eq!(s.current_zoom, 1_175_004);
}

#[test]
fn scrolling_out_is_capped_by_the_bounds() {
    let c = PanCamConfig {
        min_x: Some(-500 * FIXED_ONE),
        max_x: Some(500 * FIXED_ONE),
        min_scale: 100_000,
        ..PanCamConfig::default()
    };
    let v = viewport(800, 600);
    assert_eq!(effective_max_scale(&c, &v), 1_250_000);
    let mut s = PanCamState::default();
    let mut p = pose(FIXED_ONE, 0, 0);
    let mut last = None;
    for _ in 0..400 {
        pan_cam_frame(&c, &mut s, &mut p, &mut last, &input(v, None, vec![px(-1)]));
        assert!(p.scale <= 1_250_000);
        assert!(p.scale >= 100_000);
    }
    assert_eq!(p.scale, 1_250_000);
    assert_eq!(p.translation.x, 0);
}

#[test]
fn constraints_push_the_viewport_inside_the_bounds() {
    let c = PanCamConfig {
        min_x: Some(0),
        max_x: Some(1000 * FIXED_ONE),
        min_y: Some(0),
        max_y: Some(1000 * FIXED_ONE),
        min_scale: FIXED_ONE,
        ..PanCamConfig::default()
    };
    let v = viewport(100, 100);
    let mut p = pose(FIXED_ONE / 2, -50 * FIXED_ONE, 2000 * FIXED_ONE);
    apply_constraints(&c, &mut p, &v);
    assert_eq!(p, pose(FIXED_ONE, 50 * FIXED_ONE, 950 * FIXED_ONE));
    let mut p = pose(20 * FIXED_ONE, 0, 0);
    apply_constraints(&c, &mut p, &v);
    assert_eq!(p, pose(10 * FIXED_ONE, 500 * FIXED_ONE, 500 * FIXED_ONE));
    // already constrained: a second pass changes nothing
    let q = p;
    apply_constraints(&c, &mut p, &v);
    assert_eq!(p, q);
}

#[test]
fn single_bound_only_limits_its_side() {
    let c = PanCamConfig { max_y: Some(0), ..PanCamConfig::default() };
    let v = viewport(100, 100);
    let mut p = pose(FIXED_ONE, -123, 0);
    apply_constraints(&c, &mut p, &v);
    assert_eq!(p, pose(FIXED_ONE, -123, -50 * FIXED_ONE));
}

#[test]
fn zero_area_viewport_is_a_no_op() {
    let c = PanCamConfig { min_x: Some(0), max_x: Some(10), ..PanCamConfig::default() };
    let v = viewport(0, 600);
    let mut p = pose(5, -100, 0);
    apply_constraints(&c, &mut p, &v);
    assert_eq!(p, pose(5, -100, 0));
}

#[test]
fn drag_moves_the_world_against_the_cursor() {
    let c = PanCamConfig::default();
    let v = viewport(800, 600);
    let s = at_rest();
    let mut p = pose(2 * FIXED_ONE, 0, 0);
    let mut last = None;
    let left = vec![PointerButton::Left];
    let c1 = FixedVec2 { x: 100 * FIXED_ONE, y: 100 * FIXED_ONE };
    camera_movement(&c, &s, &mut p, &mut last, Some(c1), &left, &v);
    assert_eq!(p, pose(2 * FIXED_ONE, 0, 0));
    assert_eq!(last, Some(c1));
    let c2 = FixedVec2 { x: 110 * FIXED_ONE, y: 95 * FIXED_ONE };
    camera_movement(&c, &s, &mut p, &mut last, Some(c2), &left, &v);
    // 10 px right and 5 px up at two world units per pixel
    assert_eq!(p, pose(2 * FIXED_ONE, -20 * FIXED_ONE, -10 * FIXED_ONE));
    camera_movement(&c, &s, &mut p, &mut last, None, &left, &v);
    assert_eq!(last, None);
}

#[test]
fn drag_is_suppressed_while_zooming_or_without_a_grab_button() {
    let c = PanCamConfig::default();
    let v = viewport(800, 600);
    let zooming = PanCamState { is_zooming: true, ..at_rest() };
    let mut p = pose(FIXED_ONE, 0, 0);
    let mut last = Some(FixedVec2 { x: 0, y: 0 });
    let c1 = FixedVec2 { x: 10 * FIXED_ONE, y: 0 };
    camera_movement(&c, &zooming, &mut p, &mut last, Some(c1), &vec![PointerButton::Left], &v);
    assert_eq!(p, pose(FIXED_ONE, 0, 0));
    let mut last = Some(FixedVec2 { x: 0, y: 0 });
    camera_movement(&c, &at_rest(), &mut p, &mut last, Some(c1), &vec![PointerButton::Other(7)], &v);
    assert_eq!(p, pose(FIXED_ONE, 0, 0));
    assert_eq!(last, Some(c1));
}

#[test]
fn suppressed_input_still_enforces_bounds() {
    let c = PanCamConfig { min_x: Some(0), ..PanCamConfig::default() };
    let mut s = at_rest();
    let mut p = pose(FIXED_ONE, -5 * FIXED_ONE, 0);
    let mut last = None;
    let mut i = input(viewport(100, 100), None, vec![px(50)]);
    i.input_suppressed = true;
    pan_cam_frame(&c, &mut s, &mut p, &mut last, &i);
    assert!(!s.is_zooming);
    assert_eq!(p, pose(FIXED_ONE, 50 * FIXED_ONE, 0));
}

#[test]
fn a_step_that_lands_within_epsilon_does_not_snap() {
    let c = PanCamConfig { animation_scale: FIXED_ONE, ..PanCamConfig::default() };
    let mut s = PanCamState { target_zoom: 2 * FIXED_ONE, is_zooming: true, ..at_rest() };
    let mut p = pose(FIXED_ONE, 0, 0);
    zoom_interpolation(&c, &mut s, &mut p, 995_000);
    assert_eq!(p.scale, 1_995_000);
    assert!(s.is_zooming);
    // the next frame starts within epsilon and snaps
    zoom_interpolation(&c, &mut s, &mut p, 995_000);
    assert_eq!(p.scale, 2 * FIXED_ONE);
    assert!(!s.is_zooming);
}

#[test]
fn translation_step_that_lands_within_epsilon_does_not_snap() {
    let c = PanCamConfig { animation_scale: FIXED_ONE, ..PanCamConfig::default() };
    let mut s = PanCamState {
        target_zoom: FIXED_ONE,
        is_zooming: true,
        target_translation: Some(FixedVec2 { x: FIXED_ONE, y: 0 }),
        first_zoom: true,
        ..at_rest()
    };
    let mut p = pose(FIXED_ONE, 0, 0);
    zoom_interpolation(&c, &mut s, &mut p, 995_000);
    assert_eq!(p, pose(FIXED_ONE, 995_000, 0));
    assert!(s.is_zooming);
    // the scale is on target, so the bootstrap flag is cleared
    assert!(!s.first_zoom);
    zoom_interpolation(&c, &mut s, &mut p, 995_000);
    assert_eq!(p, pose(FIXED_ONE, FIXED_ONE, 0));
    assert!(!s.is_zooming);
}

#[test]
fn bootstrap_runs_whenever_uninitialized() {
    let c = PanCamConfig::default();
    let mut s = PanCamState {
        current_zoom: FIXED_ONE,
        target_zoom: 4_500_000,
        first_zoom: true,
        initialized: false,
        ..PanCamState::default()
    };
    let mut p = pose(3 * FIXED_ONE, 0, 0);
    camera_zoom(&c, &mut s, &mut p, 0, false, None, &viewport(800, 600));
    assert!(s.initialized && s.is_zooming && s.first_zoom);
    assert_eq!(s.target_zoom, 4_500_000);
    assert_eq!(p.scale, FIXED_ONE);
}
