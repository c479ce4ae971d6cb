use pong_physics::body::Body;
use pong_physics::geometry::Vec2;
use pong_physics::resolve::{resolve_static, resolve_swept};

fn body(px: i64, py: i64, w: i64, h: i64, vx: i64, vy: i64, kinematic: bool, friction: i64) -> Body {
    Body {
        position: Vec2 { x: px, y: py },
        extent: Vec2 { x: w, y: h },
        velocity: Vec2 { x: vx, y: vy },
        kinematic,
        friction,
    }
}

fn v(x: i64, y: i64) -> Vec2 {
    Vec2 { x, y }
}

// Screen coordinates in percent, as in the game scene.
fn paddle(vy: i64) -> Body {
    body(10, 50, 4, 20, 0, vy, true, 500)
}

// The same scene in thousandths of a percent; velocities per millisecond.
fn fine_paddle(vy: i64) -> Body {
    body(10_000, 50_000, 4_000, 20_000, 0, vy, true, 500)
}

#[test]
fn static_ball_missing_paddle_keeps_velocity() {
    let ball = body(50, 50, 4, 4, 40, 40, false, 500);
    let (b, p) = resolve_static(&ball, &paddle(0)).unwrap();
    assert_eq!(b, ball);
    assert_eq!(p, paddle(0));
}

#[test]
fn static_center_on_edge_is_a_bottom_hit() {
    // Both offsets are zero, so the tie rule classifies the hit as Bottom:
    // only the (zero) vertical velocity is negated.
    let ball = body(12, 50, 4, 4, -40, 0, false, 500);
    let (b, p) = resolve_static(&ball, &paddle(0)).unwrap();
    assert_eq!(b.velocity, v(-40, 0));
    assert_eq!(p, paddle(0));
}

#[test]
fn static_side_hit_flips_x_and_transfers_three_tenths() {
    let ball = body(7, 52, 4, 4, 40, 10, false, 500);
    let (b, p) = resolve_static(&ball, &paddle(20)).unwrap();
    assert_eq!(b.velocity, v(-40, 16));
    assert_eq!(b.position, ball.position);
    assert_eq!(p, paddle(20));
}

#[test]
fn static_right_side_hit() {
    let ball = body(13, 52, 4, 4, -40, 10, false, 500);
    let (b, _) = resolve_static(&ball, &paddle(-20)).unwrap();
    assert_eq!(b.velocity, v(40, 4));
}

#[test]
fn static_top_hit_only_negates_y() {
    let ball = body(10, 61, 4, 4, 5, -30, false, 500);
    let (b, _) = resolve_static(&ball, &paddle(20)).unwrap();
    assert_eq!(b.velocity, v(5, 30));
}

#[test]
fn static_bottom_hit_only_negates_y() {
    let ball = body(10, 39, 4, 4, 5, 30, false, 500);
    let (b, _) = resolve_static(&ball, &paddle(20)).unwrap();
    assert_eq!(b.velocity, v(5, -30));
}

#[test]
fn static_kinematic_pair_is_untouched() {
    let a = body(10, 50, 4, 20, 3, 4, true, 500);
    let b = body(10, 50, 4, 20, -3, 7, true, 100);
    assert_eq!(resolve_static(&a, &b), Some((a, b)));
}

#[test]
fn static_both_movable_respond() {
    let a = body(7, 50, 4, 4, 10, 10, false, 0);
    let b = body(10, 50, 4, 4, -10, 20, false, 0);
    let (a2, b2) = resolve_static(&a, &b).unwrap();
    assert_eq!(a2.velocity, v(-10, 16));
    assert_eq!(b2.velocity, v(10, 23));
}

#[test]
fn static_overflow_is_reported() {
    let ball = body(7, 52, 4, 4, i64::MIN, 10, false, 500);
    assert_eq!(resolve_static(&ball, &paddle(0)), None);
    let ball = body(7, 52, 4, 4, 10, i64::MAX, false, 500);
    assert_eq!(resolve_static(&ball, &paddle(20)), None);
}

#[test]
fn swept_ball_missing_paddle_keeps_velocity() {
    let ball = body(50_000, 50_000, 4_000, 4_000, 40, 40, false, 500);
    assert_eq!(resolve_swept(&ball, &fine_paddle(0), 16), Some((ball, fine_paddle(0))));
}

#[test]
fn swept_ball_on_paddle_flips_x() {
    let ball = body(12_000, 50_000, 4_000, 4_000, -40, 0, false, 500);
    let (b, p) = resolve_swept(&ball, &fine_paddle(0), 16).unwrap();
    assert_eq!(b.velocity, v(40, 0));
    assert_eq!(p, fine_paddle(0));
}

#[test]
fn swept_lookahead_catches_an_approaching_ball() {
    // Not overlapping yet; one step of motion brings it onto the paddle.
    let ball = body(14_500, 50_000, 4_000, 4_000, -100, 0, false, 500);
    let (b, _) = resolve_swept(&ball, &fine_paddle(80), 16).unwrap();
    assert_eq!(b.velocity, v(100, 40));
}

#[test]
fn swept_lookahead_is_one_step_only() {
    // Too fast: one step carries it past the paddle, so nothing happens.
    let ball = body(14_500, 50_000, 4_000, 4_000, -1_000, 0, false, 500);
    assert_eq!(resolve_swept(&ball, &fine_paddle(80), 16), Some((ball, fine_paddle(80))));
}

#[test]
fn swept_friction_factor_is_clamped() {
    let ball = body(14_500, 50_000, 4_000, 4_000, -100, 0, false, 900);
    let paddle = body(10_000, 50_000, 4_000, 20_000, 0, 80, true, 900);
    let (b, _) = resolve_swept(&ball, &paddle, 16).unwrap();
    assert_eq!(b.velocity, v(100, 72));
    let ball = body(14_500, 50_000, 4_000, 4_000, -100, 0, false, 1_500);
    let paddle = body(10_000, 50_000, 4_000, 20_000, 0, 80, true, 1_500);
    let (b, _) = resolve_swept(&ball, &paddle, 16).unwrap();
    assert_eq!(b.velocity, v(100, 80));
    let ball = body(14_500, 50_000, 4_000, 4_000, -100, 0, false, -700);
    let paddle = body(10_000, 50_000, 4_000, 20_000, 0, 80, true, 100);
    let (b, _) = resolve_swept(&ball, &paddle, 16).unwrap();
    assert_eq!(b.velocity, v(100, 0));
}

#[test]
fn swept_vertical_hit_on_wall() {
    let wall = body(50_000, -2_500, 100_000, 5_000, 0, 0, true, 100);
    let ball = body(50_000, 2_500, 4_000, 4_000, 30, -50, false, 500);
    let (b, w) = resolve_swept(&ball, &wall, 16).unwrap();
    assert_eq!(b.velocity, v(30, 50));
    assert_eq!(w, wall);
}

#[test]
fn swept_resolves_both_axes_in_one_step() {
    // Both probes find an overlap, so the ball responds on both axes within
    // the same step: x is flipped and gains half the paddle's y velocity,
    // then that new y velocity is flipped in turn.
    let ball = body(12_000, 50_000, 4_000, 4_000, -40, 0, false, 500);
    let (b, _) = resolve_swept(&ball, &fine_paddle(80), 16).unwrap();
    assert_eq!(b.velocity, v(40, -40));
}

#[test]
fn swept_both_movable_respond() {
    let a = body(0, 0, 4, 4, 2, 0, false, 1_000);
    let b = body(5, 0, 4, 4, -2, 4, false, 1_000);
    let (a2, b2) = resolve_swept(&a, &b, 1).unwrap();
    assert_eq!(a2.velocity, v(-2, 4));
    assert_eq!(b2.velocity, v(2, 4));
}

#[test]
fn swept_kinematic_pair_is_untouched() {
    let a = body(10, 50, 4, 20, 3, 4, true, 500);
    let b = body(10, 50, 4, 20, -3, 7, true, 100);
    assert_eq!(resolve_swept(&a, &b, 16), Some((a, b)));
}

#[test]
fn swept_overflow_is_reported() {
    let ball = body(12_000, 50_000, 4_000, 4_000, i64::MIN, 0, false, 500);
    assert_eq!(resolve_swept(&ball, &fine_paddle(0), 0), None);
}
