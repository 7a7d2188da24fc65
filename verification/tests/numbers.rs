use haskell_hop::colour::{attenuate, Colour, FULL};
use haskell_hop::fixed::{sat_abs, sat_add, sat_sub, scale, UNIT};
use haskell_hop::world::PhysicsBody;

#[test]
fn sums_saturate_at_both_ends() {
    assert_eq!(sat_add(2, 3), 5);
    assert_eq!(sat_add(i64::MAX, 1), i64::MAX);
    assert_eq!(sat_add(i64::MIN, -1), i64::MIN);
    assert_eq!(sat_sub(2, 3), -1);
    assert_eq!(sat_sub(i64::MIN, 1), i64::MIN);
    assert_eq!(sat_sub(i64::MAX, -1), i64::MAX);
}

#[test]
fn magnitude_of_the_least_number_saturates() {
    assert_eq!(sat_abs(-7), 7);
    assert_eq!(sat_abs(7), 7);
    assert_eq!(sat_abs(0), 0);
    assert_eq!(sat_abs(i64::MIN), i64::MAX);
}

#[test]
fn scaling_rounds_toward_zero() {
    assert_eq!(scale(400_000, 7, 10), 280_000);
    assert_eq!(scale(13, 7, 10), 9);
    assert_eq!(scale(-13, 7, 10), -9);
    assert_eq!(scale(150_000, 1, 5), 30_000);
    assert_eq!(scale(i64::MAX, 1, 1), i64::MAX);
    assert_eq!(scale(i64::MIN, 1, 1), i64::MIN);
    assert_eq!(scale(i64::MIN, 7, 10), -6_456_360_425_798_343_065);
}

#[test]
fn attenuation_rounds_down() {
    assert_eq!(attenuate(700_000, 99), 693_000);
    assert_eq!(attenuate(1_000_000, 98), 980_000);
    assert_eq!(attenuate(1, 98), 0);
    assert_eq!(attenuate(0, 98), 0);
    assert_eq!(attenuate(u32::MAX, 100), u32::MAX);
}

#[test]
fn darkening_leaves_an_opaque_colour() {
    let colour = Colour::rgba(700_000, 300_000, 100, 5);
    assert_eq!(colour.darken(), Colour::rgba(693_000, 297_000, 99, FULL));
}

#[test]
fn fading_touches_alpha_only() {
    let colour = Colour::rgba(1, 2, 3, 1_000_000);
    assert_eq!(colour.fade(), Colour::rgba(1, 2, 3, 980_000));
    assert_eq!(colour.fade().fade().fade().a, 941_192);
}

#[test]
fn solidifying_stops_at_opaque() {
    let colour = Colour::rgba(1, 2, 3, 0);
    assert_eq!(colour.solidify(), Colour::rgba(1, 2, 3, 1_000));
    assert_eq!(Colour::rgba(1, 2, 3, 999_500).solidify().a, FULL);
    assert_eq!(Colour::rgba(1, 2, 3, FULL).solidify().a, FULL);
    assert_eq!(Colour::rgba(1, 2, 3, FULL + 9).solidify().a, FULL + 9);
    let mut colour = Colour::rgba(1, 2, 3, 0);
    for _ in 0..1000 {
        assert!(colour.a < FULL);
        colour = colour.solidify();
    }
    assert_eq!(colour.a, FULL);
}

#[test]
fn invisible_at_a_thousandth() {
    assert!(Colour::rgba(0, 0, 0, 1_000).is_invisible());
    assert!(Colour::rgba(0, 0, 0, 0).is_invisible());
    assert!(!Colour::rgba(0, 0, 0, 1_001).is_invisible());
}

#[test]
fn a_body_moves_by_its_velocity() {
    let mut body = PhysicsBody { i: 3 * UNIT, j: -UNIT, vel_i: -UNIT, vel_j: 2, scale: 1 };
    body.integrate();
    assert_eq!(body, PhysicsBody { i: 2 * UNIT, j: -UNIT + 2, vel_i: -UNIT, vel_j: 2, scale: 1 });
    let mut far = PhysicsBody { i: i64::MIN, j: i64::MAX, vel_i: -1, vel_j: 1, scale: 1 };
    far.integrate();
    assert_eq!(far.i, i64::MIN);
    assert_eq!(far.j, i64::MAX);
}

#[test]
fn the_window_is_closed_at_its_edges() {
    let at = |i: i64, j: i64| PhysicsBody { i, j, vel_i: 0, vel_j: 0, scale: 1 };
    assert!(at(0, 0).is_in_view());
    assert!(at(250 * UNIT, 500 * UNIT).is_in_view());
    assert!(at(-250 * UNIT, -500 * UNIT).is_in_view());
    assert!(!at(250 * UNIT + 1, 0).is_in_view());
    assert!(!at(-250 * UNIT - 1, 0).is_in_view());
    assert!(!at(0, 500 * UNIT + 1).is_in_view());
    assert!(!at(0, -500 * UNIT - 1).is_in_view());
}
