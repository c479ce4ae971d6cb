use pong_physics::body::FRICTION_ONE;
use pong_physics::friction::{friction_factor_of, static_transfer_of, swept_transfer_of};

#[test]
fn friction_factor_is_the_clamped_average() {
    assert_eq!(friction_factor_of(500, 500), 1000);
    assert_eq!(friction_factor_of(900, 900), 1800);
    assert_eq!(friction_factor_of(1500, 1500), 2 * FRICTION_ONE);
    assert_eq!(friction_factor_of(-500, 100), 0);
    assert_eq!(friction_factor_of(i64::MAX, i64::MAX), 2000);
    assert_eq!(friction_factor_of(i64::MIN, i64::MIN), 0);
}

#[test]
fn swept_transfer_scales_by_average_friction() {
    assert_eq!(swept_transfer_of(80, 500, 500), 40);
    assert_eq!(swept_transfer_of(80, 900, 900), 72);
    assert_eq!(swept_transfer_of(-80, 500, 500), -40);
}

#[test]
fn swept_transfer_never_exceeds_the_source() {
    assert_eq!(swept_transfer_of(80, 5000, 5000), 80);
    assert_eq!(swept_transfer_of(-80, 5000, 5000), -80);
    assert_eq!(swept_transfer_of(80, -5000, 0), 0);
    assert_eq!(swept_transfer_of(i64::MIN, 1000, 1000), i64::MIN);
    assert_eq!(swept_transfer_of(i64::MAX, 1000, 1000), i64::MAX);
}

#[test]
fn swept_transfer_rounds_toward_zero() {
    assert_eq!(swept_transfer_of(7, 500, 500), 3);
    assert_eq!(swept_transfer_of(-7, 500, 500), -3);
}

#[test]
fn static_transfer_is_three_tenths() {
    assert_eq!(static_transfer_of(20), 6);
    assert_eq!(static_transfer_of(-20), -6);
    assert_eq!(static_transfer_of(7), 2);
    assert_eq!(static_transfer_of(-7), -2);
    assert_eq!(static_transfer_of(0), 0);
}
