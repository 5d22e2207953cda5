//! The guarantees of the bounded mover, stated and proved once over the
//! specification functions that `advance`'s contract speaks of.

use crate::fixed::abs_spec;
use crate::fixed::lemma_mul_spec_bound;
use crate::fixed::lemma_sign_factor;
use crate::fixed::mul_spec;
use crate::fixed::ONE;
use crate::mover::advanced_x;
use crate::mover::advanced_y;
use crate::mover::diagonal;
use crate::mover::dir_x;
use crate::mover::dir_y;
use crate::mover::extent_x;
use crate::mover::extent_y;
use crate::mover::linear_step;
use crate::mover::next_orientation_spec;
use crate::mover::raw_x;
use crate::mover::raw_y;
use crate::mover::rot_net;
use crate::mover::Arena;
use crate::mover::InputFlags;
use crate::mover::Pose;
use crate::mover::Rotation;
use crate::mover::Vec2;
use crate::mover::INV_SQRT2;
use vstd::arithmetic::div_mod::lemma_div_by_multiple;
use vstd::arithmetic::div_mod::lemma_div_is_ordered;
use vstd::arithmetic::div_mod::lemma_div_pos_is_pos;
use vstd::arithmetic::div_mod::lemma_fundamental_div_mod;
use vstd::arithmetic::div_mod::lemma_mod_bound;
use vstd::arithmetic::mul::lemma_mul_nonnegative;
use vstd::prelude::*;

verus! {

/// Zero-input idempotence: with no flag held, a tick leaves the position
/// and the orientation exactly as they were, whatever the elapsed time —
/// provided the entity already stood within the clamp region of its
/// rotated footprint, as every position `advance` produces does.
pub proof fn lemma_zero_input_identity(
    pose: Pose,
    flags: InputFlags,
    speed: int,
    angular_speed: int,
    dt: int,
    rot: Rotation,
    half_extent: Vec2,
    arena: Arena,
)
    requires
        !flags.up,
        !flags.down,
        !flags.left,
        !flags.right,
        !flags.rotate_left,
        !flags.rotate_right,
        -(arena.half_width as int) + extent_x(rot, half_extent) <= pose.position.x <= arena.half_width
            - extent_x(rot, half_extent),
        -(arena.half_height as int) + extent_y(rot, half_extent) <= pose.position.y
            <= arena.half_height - extent_y(rot, half_extent),
    ensures
        advanced_x(pose, flags, speed, dt, rot, half_extent, arena) == pose.position.x,
        advanced_y(pose, flags, speed, dt, rot, half_extent, arena) == pose.position.y,
        next_orientation_spec(pose.orientation as int, flags, angular_speed, dt)
            == pose.orientation,
{
    lemma_sign_factor(dir_x(flags), linear_step(speed, dt, diagonal(flags)));
    lemma_sign_factor(dir_y(flags), linear_step(speed, dt, diagonal(flags)));
    lemma_sign_factor(rot_net(flags), mul_spec(angular_speed, dt));
}

/// Zero-dt no-op: with no time elapsed, a tick leaves the position and the
/// orientation exactly as they were, whatever flags are held — again
/// provided the entity already stood within the clamp region of its
/// rotated footprint.
pub proof fn lemma_zero_dt_noop(
    pose: Pose,
    flags: InputFlags,
    speed: int,
    angular_speed: int,
    dt: int,
    rot: Rotation,
    half_extent: Vec2,
    arena: Arena,
)
    requires
        dt == 0,
        0 <= speed,
        0 <= angular_speed,
        -(arena.half_width as int) + extent_x(rot, half_extent) <= pose.position.x <= arena.half_width
            - extent_x(rot, half_extent),
        -(arena.half_height as int) + extent_y(rot, half_extent) <= pose.position.y
            <= arena.half_height - extent_y(rot, half_extent),
    ensures
        advanced_x(pose, flags, speed, dt, rot, half_extent, arena) == pose.position.x,
        advanced_y(pose, flags, speed, dt, rot, half_extent, arena) == pose.position.y,
        next_orientation_spec(pose.orientation as int, flags, angular_speed, dt)
            == pose.orientation,
{
    assert(speed * 0 == 0);
    assert(angular_speed * 0 == 0);
    assert(mul_spec(speed, dt) == 0);
    assert(mul_spec(angular_speed, dt) == 0);
    assert(0 * (INV_SQRT2 as int) == 0);
    assert(linear_step(speed, dt, diagonal(flags)) == 0);
    lemma_sign_factor(dir_x(flags), 0);
    lemma_sign_factor(dir_y(flags), 0);
    lemma_sign_factor(rot_net(flags), 0);
}

/// Direction normalization: a diagonal tick covers the same distance as an
/// axial one, up to fixed-point rounding. With `s` the axial step and `d`
/// the per-axis diagonal step, the squared diagonal displacement `2 * d^2`
/// never exceeds `s^2` by more than seven parts in ten million, and
/// reaches `s^2` once the step is rounded up by a single millionth — it is
/// nowhere near the `2 * s^2` an unnormalized diagonal would give.
pub proof fn lemma_direction_normalization(speed: int, dt: int)
    requires
        0 <= speed,
        0 <= dt,
    ensures
        0 <= linear_step(speed, dt, true) <= linear_step(speed, dt, false),
        2 * linear_step(speed, dt, true) * linear_step(speed, dt, true) * 1_000_000_000_000
            <= linear_step(speed, dt, false) * linear_step(speed, dt, false)
            * 1_000_000_618_898,
        linear_step(speed, dt, false) * linear_step(speed, dt, false) <= 2 * (linear_step(
            speed,
            dt,
            true,
        ) + 1) * (linear_step(speed, dt, true) + 1),
{
    let k = ONE as int;
    let c = INV_SQRT2 as int;
    let s = linear_step(speed, dt, false);
    let d = linear_step(speed, dt, true);
    lemma_mul_nonnegative(speed, dt);
    lemma_div_pos_is_pos(speed * dt, k);
    lemma_mul_nonnegative(s, c);
    lemma_div_pos_is_pos(s * c, k);
    // d * k <= s * c < (d + 1) * k
    lemma_fundamental_div_mod(s * c, k);
    lemma_mod_bound(s * c, k);
    assert(k * d <= s * c < k * d + k);
    // d <= s: s * c <= s * k, and (s * k) / k == s
    assert(s * c <= s * k) by (nonlinear_arith)
        requires
            0 <= s,
            c <= k,
    ;
    lemma_div_is_ordered(s * c, s * k, k);
    lemma_div_by_multiple(s, k);
    assert(d <= s);
    // upper bound: squared, 2 * c * c == k * k + 618_898
    assert(2 * (d * d) * (k * k) <= (2 * (c * c)) * (s * s)) by (nonlinear_arith)
        requires
            0 <= d,
            0 <= s,
            0 <= k,
            0 <= c,
            k * d <= s * c,
    ;
    assert((2 * (c * c)) * (s * s) == (k * k) * (s * s) + 618_898 * (s * s)) by (nonlinear_arith)
        requires
            c == 707_107,
            k == 1_000_000,
    ;
    assert(2 * d * d * 1_000_000_000_000 <= s * s * 1_000_000_618_898) by (nonlinear_arith)
        requires
            2 * (d * d) * (k * k) <= (k * k) * (s * s) + 618_898 * (s * s),
            k == 1_000_000,
    ;
    // lower bound: s * c < (d + 1) * k, squared, then 2 * c * c >= k * k
    assert((s * c) * (s * c) <= ((d + 1) * k) * ((d + 1) * k)) by (nonlinear_arith)
        requires
            0 <= s * c,
            s * c <= (d + 1) * k,
    ;
    assert((s * s) * (k * k) <= 2 * ((d + 1) * (d + 1)) * (k * k)) by (nonlinear_arith)
        requires
            (s * c) * (s * c) <= ((d + 1) * k) * ((d + 1) * k),
            2 * (c * c) >= k * k,
            0 <= s,
            0 <= k,
            c == 707_107,
            k == 1_000_000,
    ;
    assert(s * s <= 2 * ((d + 1) * (d + 1))) by (nonlinear_arith)
        requires
            (s * s) * (k * k) <= 2 * ((d + 1) * (d + 1)) * (k * k),
            k == 1_000_000,
    ;
    assert(2 * ((d + 1) * (d + 1)) == 2 * (d + 1) * (d + 1)) by (nonlinear_arith);
}

/// Opposite-flag cancellation: holding up together with down, or left
/// together with right, nets zero translation on that axis.
pub proof fn lemma_opposite_flags_cancel(pose: Pose, flags: InputFlags, speed: int, dt: int)
    ensures
        flags.up == flags.down ==> raw_y(pose, flags, speed, dt) == pose.position.y,
        flags.left == flags.right ==> raw_x(pose, flags, speed, dt) == pose.position.x,
{
    lemma_sign_factor(dir_x(flags), linear_step(speed, dt, diagonal(flags)));
    lemma_sign_factor(dir_y(flags), linear_step(speed, dt, diagonal(flags)));
}

/// Clamp containment: whatever position a tick produces, the rotated
/// bounding box lies inside the arena on every axis wide enough to hold
/// it, and an axis too narrow collapses to the arena centre.
pub proof fn lemma_clamp_containment(
    pose: Pose,
    flags: InputFlags,
    speed: int,
    dt: int,
    rot: Rotation,
    half_extent: Vec2,
    arena: Arena,
)
    requires
        -ONE <= rot.cos <= ONE,
        -ONE <= rot.sin <= ONE,
        0 < half_extent.x,
        0 < half_extent.y,
        0 < arena.half_width,
        0 < arena.half_height,
    ensures
        extent_x(rot, half_extent) <= arena.half_width ==> abs_spec(
            advanced_x(pose, flags, speed, dt, rot, half_extent, arena),
        ) + extent_x(rot, half_extent) <= arena.half_width,
        extent_y(rot, half_extent) <= arena.half_height ==> abs_spec(
            advanced_y(pose, flags, speed, dt, rot, half_extent, arena),
        ) + extent_y(rot, half_extent) <= arena.half_height,
        extent_x(rot, half_extent) > arena.half_width ==> advanced_x(
            pose,
            flags,
            speed,
            dt,
            rot,
            half_extent,
            arena,
        ) == 0,
        extent_y(rot, half_extent) > arena.half_height ==> advanced_y(
            pose,
            flags,
            speed,
            dt,
            rot,
            half_extent,
            arena,
        ) == 0,
{
    lemma_mul_spec_bound(abs_spec(rot.cos as int), half_extent.x as int, ONE as int, i64::MAX as int);
    lemma_mul_spec_bound(abs_spec(rot.sin as int), half_extent.y as int, ONE as int, i64::MAX as int);
    lemma_mul_spec_bound(abs_spec(rot.sin as int), half_extent.x as int, ONE as int, i64::MAX as int);
    lemma_mul_spec_bound(abs_spec(rot.cos as int), half_extent.y as int, ONE as int, i64::MAX as int);
}

/// Rotation sign convention: rotate-left turns the entity counter-
/// clockwise by exactly `angular_speed * dt`, rotate-right clockwise by
/// the same magnitude, and holding both nets zero.
pub proof fn lemma_rotation_sign(orientation: int, flags: InputFlags, angular_speed: int, dt: int)
    requires
        0 <= angular_speed,
        0 <= dt,
    ensures
        flags.rotate_left && !flags.rotate_right ==> next_orientation_spec(
            orientation,
            flags,
            angular_speed,
            dt,
        ) == orientation + mul_spec(angular_speed, dt) >= orientation,
        flags.rotate_right && !flags.rotate_left ==> next_orientation_spec(
            orientation,
            flags,
            angular_speed,
            dt,
        ) == orientation - mul_spec(angular_speed, dt) <= orientation,
        flags.rotate_left == flags.rotate_right ==> next_orientation_spec(
            orientation,
            flags,
            angular_speed,
            dt,
        ) == orientation,
{
    lemma_mul_nonnegative(angular_speed, dt);
    lemma_div_pos_is_pos(angular_speed * dt, ONE as int);
    lemma_sign_factor(rot_net(flags), mul_spec(angular_speed, dt));
}

} // verus!
