use bounded_mover::fixed::{fixed_abs, fixed_clamp, fixed_mul};
use bounded_mover::mover::{advance, next_orientation, rotated_extent};
use bounded_mover::mover::{Arena, InputFlags, Pose, Rotation, Vec2};

const ONE: i64 = 1_000_000;
const SPEED: i64 = 200 * ONE;
const OMEGA: i64 = 1_570_796; // pi / 2 in fixed point

fn no_flags() -> InputFlags {
    InputFlags {
        up: false,
        down: false,
        left: false,
        right: false,
        rotate_left: false,
        rotate_right: false,
    }
}

fn square_25() -> Vec2 {
    Vec2 { x: 25 * ONE, y: 25 * ONE }
}

fn arena_400_300() -> Arena {
    Arena { half_width: 400 * ONE, half_height: 300 * ONE }
}

fn identity_rotation() -> Rotation {
    Rotation { cos: ONE, sin: 0 }
}

/// Fixed-point cosine and sine of a fixed-point angle, the way a caller
/// of the library prepares them.
fn rotation_for(orientation: i64) -> Rotation {
    let radians = orientation as f64 / ONE as f64;
    Rotation {
        cos: (radians.cos() * ONE as f64).round() as i64,
        sin: (radians.sin() * ONE as f64).round() as i64,
    }
}

#[test]
fn zero_input_identity() {
    let pose = Pose { position: Vec2 { x: 10 * ONE, y: -20 * ONE }, orientation: 300_000 };
    let rot = rotation_for(pose.orientation);
    assert_eq!(rot, Rotation { cos: 955_336, sin: 295_520 });
    let out = advance(
        &pose,
        &no_flags(),
        SPEED,
        OMEGA,
        123_456,
        &square_25(),
        &arena_400_300(),
        &rot,
    );
    assert_eq!(out, pose);
}

#[test]
fn zero_dt_is_a_noop_for_every_flag() {
    let pose = Pose { position: Vec2 { x: 10 * ONE, y: -20 * ONE }, orientation: 300_000 };
    let rot = rotation_for(pose.orientation);
    let all = InputFlags {
        up: true,
        down: true,
        left: true,
        right: true,
        rotate_left: true,
        rotate_right: true,
    };
    let out = advance(&pose, &all, SPEED, OMEGA, 0, &square_25(), &arena_400_300(), &rot);
    assert_eq!(out, pose);
}

#[test]
fn diagonal_speed_matches_axial_speed() {
    let origin = Pose { position: Vec2 { x: 0, y: 0 }, orientation: 0 };
    let up_right = InputFlags { up: true, right: true, ..no_flags() };
    let out = advance(
        &origin,
        &up_right,
        SPEED,
        OMEGA,
        ONE,
        &square_25(),
        &arena_400_300(),
        &identity_rotation(),
    );
    // each axis moves by (200 * 0.707107) units, not by 200
    assert_eq!(out.position, Vec2 { x: 141_421_400, y: 141_421_400 });
    // the squared displacement is the axial one up to rounding, far from 2x
    let d = out.position.x as i128;
    let s = SPEED as i128;
    let squared = 2 * d * d;
    assert!((squared - s * s).abs() <= s * s / 1_000_000);

    let up_only = InputFlags { up: true, ..no_flags() };
    let axial = advance(
        &origin,
        &up_only,
        SPEED,
        OMEGA,
        ONE,
        &square_25(),
        &arena_400_300(),
        &identity_rotation(),
    );
    assert_eq!(axial.position, Vec2 { x: 0, y: 200 * ONE });
}

#[test]
fn opposite_flags_cancel() {
    let origin = Pose { position: Vec2 { x: 0, y: 0 }, orientation: 0 };
    let up_down_right = InputFlags { up: true, down: true, right: true, ..no_flags() };
    let out = advance(
        &origin,
        &up_down_right,
        SPEED,
        OMEGA,
        ONE,
        &square_25(),
        &arena_400_300(),
        &identity_rotation(),
    );
    // up and down cancel; the move is purely axial, at full speed
    assert_eq!(out.position, Vec2 { x: 200 * ONE, y: 0 });

    let all_four = InputFlags { up: true, down: true, left: true, right: true, ..no_flags() };
    let still = advance(
        &origin,
        &all_four,
        SPEED,
        OMEGA,
        ONE,
        &square_25(),
        &arena_400_300(),
        &identity_rotation(),
    );
    assert_eq!(still.position, Vec2 { x: 0, y: 0 });
}

#[test]
fn hold_right_for_one_second() {
    let origin = Pose { position: Vec2 { x: 0, y: 0 }, orientation: 0 };
    let right = InputFlags { right: true, ..no_flags() };
    let out = advance(
        &origin,
        &right,
        SPEED,
        OMEGA,
        ONE,
        &square_25(),
        &arena_400_300(),
        &identity_rotation(),
    );
    assert_eq!(out.position, Vec2 { x: 200 * ONE, y: 0 });
    assert_eq!(out.orientation, 0);
}

#[test]
fn clamp_stops_at_the_wall() {
    let near_wall = Pose { position: Vec2 { x: 395 * ONE, y: 0 }, orientation: 0 };
    let right = InputFlags { right: true, ..no_flags() };
    let out = advance(
        &near_wall,
        &right,
        SPEED,
        OMEGA,
        ONE,
        &square_25(),
        &arena_400_300(),
        &identity_rotation(),
    );
    // clamped to half-width minus half-extent, not carried to 595
    assert_eq!(out.position, Vec2 { x: 375 * ONE, y: 0 });
}

#[test]
fn rotate_left_for_one_second() {
    let origin = Pose { position: Vec2 { x: 0, y: 0 }, orientation: 0 };
    let turn = InputFlags { rotate_left: true, ..no_flags() };
    let new_orientation = next_orientation(origin.orientation, &turn, OMEGA, ONE);
    assert_eq!(new_orientation, 1_570_796); // pi / 2
    let rot = rotation_for(new_orientation);
    assert_eq!(rot, Rotation { cos: 0, sin: ONE });
    // a square turned a quarter keeps its axis-aligned bound
    let extent = rotated_extent(&rot, &square_25());
    assert_eq!(extent, Vec2 { x: 25 * ONE, y: 25 * ONE });
    let out = advance(&origin, &turn, SPEED, OMEGA, ONE, &square_25(), &arena_400_300(), &rot);
    assert_eq!(out.orientation, 1_570_796);
    assert_eq!(out.position, Vec2 { x: 0, y: 0 });
}

#[test]
fn rotation_signs() {
    let turn_left = InputFlags { rotate_left: true, ..no_flags() };
    let turn_right = InputFlags { rotate_right: true, ..no_flags() };
    let both = InputFlags { rotate_left: true, rotate_right: true, ..no_flags() };
    assert_eq!(next_orientation(100, &turn_left, OMEGA, 2 * ONE), 100 + 3_141_592);
    assert_eq!(next_orientation(100, &turn_right, OMEGA, 2 * ONE), 100 - 3_141_592);
    assert_eq!(next_orientation(100, &both, OMEGA, 2 * ONE), 100);
    assert_eq!(next_orientation(100, &no_flags(), OMEGA, 2 * ONE), 100);
}

#[test]
fn containment_at_45_degrees() {
    let rot = rotation_for(785_398); // pi / 4
    assert_eq!(rot, Rotation { cos: 707_107, sin: 707_107 });
    let extent = rotated_extent(&rot, &square_25());
    // the tilted square needs 25 * sqrt(2) on each axis
    assert_eq!(extent, Vec2 { x: 35_355_350, y: 35_355_350 });
    let near_wall = Pose { position: Vec2 { x: 390 * ONE, y: 0 }, orientation: 785_398 };
    let right = InputFlags { right: true, ..no_flags() };
    let out = advance(
        &near_wall,
        &right,
        SPEED,
        OMEGA,
        ONE,
        &square_25(),
        &arena_400_300(),
        &rot,
    );
    assert_eq!(out.position.x, 400 * ONE - 35_355_350);
    assert!(out.position.x + extent.x <= 400 * ONE);
    assert!(out.position.y.abs() + extent.y <= 300 * ONE);
}

#[test]
fn degenerate_arena_centres_that_axis() {
    let pose = Pose { position: Vec2 { x: 5 * ONE, y: 250 * ONE }, orientation: 0 };
    let narrow = Arena { half_width: 10 * ONE, half_height: 300 * ONE };
    let out = advance(
        &pose,
        &no_flags(),
        SPEED,
        OMEGA,
        ONE,
        &square_25(),
        &narrow,
        &identity_rotation(),
    );
    // a 25-unit half-extent cannot fit a 10-unit half-width: centre on x
    assert_eq!(out.position, Vec2 { x: 0, y: 250 * ONE });
}

#[test]
fn fixed_point_helpers() {
    assert_eq!(fixed_mul(3_500_000, 2_000_000), 7_000_000); // 3.5 * 2 = 7
    assert_eq!(fixed_mul(1, 1), 0); // the fractional part is dropped
    assert_eq!(fixed_mul(999_999, 999_999), 999_998);
    assert_eq!(fixed_abs(-5), 5);
    assert_eq!(fixed_abs(7), 7);
    assert_eq!(fixed_clamp(15, -10, 10), 10);
    assert_eq!(fixed_clamp(-15, -10, 10), -10);
    assert_eq!(fixed_clamp(3, -10, 10), 3);
    assert_eq!(fixed_clamp(3, 10, -10), 0); // inverted interval: the centre
}
