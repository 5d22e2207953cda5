//! The bounded mover: one tick's worth of translation and rotation for a
//! square entity, clamped so that its rotated bounding box stays inside a
//! rectangular arena centred at the origin.
//!
//! The tick, in order: compose a direction from the four linear flags
//! (opposite flags cancel), normalize it so diagonal movement is no faster
//! than axial movement, integrate `speed * dt` into the position, turn by
//! `angular_speed * dt` per held rotation flag, recompute the axis-aligned
//! half-extent of the rotated footprint, and clamp each coordinate.
//!
//! The cosine and sine of the post-tick orientation enter as fixed-point
//! scalars computed by the caller (this crate does no trigonometry); every
//! result below is an exact integer function of them and of the other
//! arguments.

use crate::fixed::abs_spec;
use crate::fixed::clamp_spec;
use crate::fixed::fixed_abs;
use crate::fixed::fixed_clamp;
use crate::fixed::fixed_mul;
use crate::fixed::lemma_mul_spec_bound;
use crate::fixed::lemma_sign_factor;
use crate::fixed::mul_spec;
use crate::fixed::MAX_INPUT;
use crate::fixed::ONE;
use vstd::prelude::*;

verus! {

/// `1 / sqrt(2)` in fixed-point form, rounded to the nearest millionth:
/// the factor that keeps diagonal movement at axial speed.
pub const INV_SQRT2: i64 = 707_107;

/// Largest orientation magnitude `advance` accepts, far beyond any
/// physical angle; it keeps the rotation update free of overflow.
pub const MAX_ANGLE: i64 = 1_000_000_000_000_000_000;

/// A pair of fixed-point coordinates: a position, a half-extent.
#[derive(Clone, Copy, Debug, PartialEq, Eq, Structural)]
pub struct Vec2 {
    /// Horizontal coordinate, in millionths of a unit.
    pub x: i64,
    /// Vertical coordinate, in millionths of a unit.
    pub y: i64,
}

/// The six controls that may be held during a tick. Opposite linear flags
/// are legal together and cancel; the two rotation flags apply
/// independently and net to zero when both are held.
#[derive(Clone, Copy, Debug, PartialEq, Eq, Structural)]
pub struct InputFlags {
    /// Move towards positive `y`.
    pub up: bool,
    /// Move towards negative `y`.
    pub down: bool,
    /// Move towards negative `x`.
    pub left: bool,
    /// Move towards positive `x`.
    pub right: bool,
    /// Turn counter-clockwise.
    pub rotate_left: bool,
    /// Turn clockwise.
    pub rotate_right: bool,
}

/// An entity's mutable state: where it stands and how far it has turned.
/// The orientation is a planar angle in millionths of a radian,
/// counter-clockwise positive.
#[derive(Clone, Copy, Debug, PartialEq, Eq, Structural)]
pub struct Pose {
    /// Centre of the entity.
    pub position: Vec2,
    /// Rotation about the axis perpendicular to the plane.
    pub orientation: i64,
}

/// Cosine and sine of an orientation, in fixed-point form. The caller
/// computes them for the post-tick orientation; each lies in
/// `[-ONE, ONE]`.
#[derive(Clone, Copy, Debug, PartialEq, Eq, Structural)]
pub struct Rotation {
    /// Fixed-point cosine of the angle.
    pub cos: i64,
    /// Fixed-point sine of the angle.
    pub sin: i64,
}

/// The axis-aligned rectangle that bounds valid positions, centred at the
/// origin and described by its half-sizes.
#[derive(Clone, Copy, Debug, PartialEq, Eq, Structural)]
pub struct Arena {
    /// Half the arena's width.
    pub half_width: i64,
    /// Half the arena's height.
    pub half_height: i64,
}

/// Horizontal direction sign composed from the flags: right minus left.
pub open spec fn dir_x(flags: InputFlags) -> int {
    (if flags.right {
        1int
    } else {
        0int
    }) - (if flags.left {
        1int
    } else {
        0int
    })
}

/// Vertical direction sign composed from the flags: up minus down.
pub open spec fn dir_y(flags: InputFlags) -> int {
    (if flags.up {
        1int
    } else {
        0int
    }) - (if flags.down {
        1int
    } else {
        0int
    })
}

/// Net rotation sign: rotate-left contributes `+1`, rotate-right `-1`.
pub open spec fn rot_net(flags: InputFlags) -> int {
    (if flags.rotate_left {
        1int
    } else {
        0int
    }) - (if flags.rotate_right {
        1int
    } else {
        0int
    })
}

/// Whether the composed direction points along both axes at once, the one
/// case in which the raw direction vector is longer than a unit and gets
/// normalized.
pub open spec fn diagonal(flags: InputFlags) -> bool {
    dir_x(flags) != 0 && dir_y(flags) != 0
}

/// Distance covered along each moving axis during the tick: `speed * dt`,
/// scaled down by `1 / sqrt(2)` when the direction is diagonal so that the
/// total displacement keeps axial speed.
pub open spec fn linear_step(speed: int, dt: int, diag: bool) -> int {
    if diag {
        mul_spec(mul_spec(speed, dt), INV_SQRT2 as int)
    } else {
        mul_spec(speed, dt)
    }
}

/// Horizontal position after velocity integration, before the clamp.
pub open spec fn raw_x(pose: Pose, flags: InputFlags, speed: int, dt: int) -> int {
    pose.position.x + dir_x(flags) * linear_step(speed, dt, diagonal(flags))
}

/// Vertical position after velocity integration, before the clamp.
pub open spec fn raw_y(pose: Pose, flags: InputFlags, speed: int, dt: int) -> int {
    pose.position.y + dir_y(flags) * linear_step(speed, dt, diagonal(flags))
}

/// Orientation after the tick: each held rotation flag contributes one
/// `angular_speed * dt`, counter-clockwise positive.
pub open spec fn next_orientation_spec(
    orientation: int,
    flags: InputFlags,
    angular_speed: int,
    dt: int,
) -> int {
    orientation + rot_net(flags) * mul_spec(angular_speed, dt)
}

/// Axis-aligned half-width of the rotated footprint: the projection
/// `|cos| * hx + |sin| * hy` of the turned box onto the horizontal axis.
pub open spec fn extent_x(rot: Rotation, half_extent: Vec2) -> int {
    mul_spec(abs_spec(rot.cos as int), half_extent.x as int) + mul_spec(
        abs_spec(rot.sin as int),
        half_extent.y as int,
    )
}

/// Axis-aligned half-height of the rotated footprint: the projection
/// `|sin| * hx + |cos| * hy` of the turned box onto the vertical axis.
pub open spec fn extent_y(rot: Rotation, half_extent: Vec2) -> int {
    mul_spec(abs_spec(rot.sin as int), half_extent.x as int) + mul_spec(
        abs_spec(rot.cos as int),
        half_extent.y as int,
    )
}

/// Horizontal coordinate after the whole tick: the integrated position,
/// clamped so the rotated footprint stays between the arena walls; an
/// arena too narrow for the footprint collapses the interval to the
/// centre.
pub open spec fn advanced_x(
    pose: Pose,
    flags: InputFlags,
    speed: int,
    dt: int,
    rot: Rotation,
    half_extent: Vec2,
    arena: Arena,
) -> int {
    clamp_spec(
        raw_x(pose, flags, speed, dt),
        -(arena.half_width as int) + extent_x(rot, half_extent),
        arena.half_width as int - extent_x(rot, half_extent),
    )
}

/// Vertical coordinate after the whole tick, clamped the same way.
pub open spec fn advanced_y(
    pose: Pose,
    flags: InputFlags,
    speed: int,
    dt: int,
    rot: Rotation,
    half_extent: Vec2,
    arena: Arena,
) -> int {
    clamp_spec(
        raw_y(pose, flags, speed, dt),
        -(arena.half_height as int) + extent_y(rot, half_extent),
        arena.half_height as int - extent_y(rot, half_extent),
    )
}

/// The domain `advance` works on: speeds and elapsed time non-negative,
/// half-extent and arena half-sizes positive, every scalar within the
/// fixed-point range, the orientation within `MAX_ANGLE`, and the supplied
/// cosine and sine within `[-ONE, ONE]`.
pub open spec fn inputs_valid(
    pose: Pose,
    linear_speed: i64,
    angular_speed: i64,
    dt: i64,
    half_extent: Vec2,
    arena: Arena,
    rot: Rotation,
) -> bool {
    &&& 0 <= linear_speed <= MAX_INPUT
    &&& 0 <= angular_speed <= MAX_INPUT
    &&& 0 <= dt <= MAX_INPUT
    &&& 0 < half_extent.x <= MAX_INPUT
    &&& 0 < half_extent.y <= MAX_INPUT
    &&& 0 < arena.half_width <= MAX_INPUT
    &&& 0 < arena.half_height <= MAX_INPUT
    &&& -MAX_INPUT <= pose.position.x <= MAX_INPUT
    &&& -MAX_INPUT <= pose.position.y <= MAX_INPUT
    &&& -MAX_ANGLE <= pose.orientation <= MAX_ANGLE
    &&& -ONE <= rot.cos <= ONE
    &&& -ONE <= rot.sin <= ONE
}

/// Orientation after one tick: each held rotation flag turns the entity by
/// `angular_speed * dt`, rotate-left counter-clockwise, rotate-right
/// clockwise; holding both nets zero.
pub fn next_orientation(orientation: i64, flags: &InputFlags, angular_speed: i64, dt: i64) -> (r:
    i64)
    requires
        0 <= angular_speed <= MAX_INPUT,
        0 <= dt <= MAX_INPUT,
        -MAX_ANGLE <= orientation <= MAX_ANGLE,
    ensures
        r == next_orientation_spec(orientation as int, *flags, angular_speed as int, dt as int),
{
    proof {
        lemma_mul_spec_bound(
            angular_speed as int,
            dt as int,
            MAX_INPUT as int,
            MAX_INPUT as int,
        );
        lemma_sign_factor(rot_net(*flags), mul_spec(angular_speed as int, dt as int));
    }
    let turn: i64 = fixed_mul(angular_speed, dt);
    if flags.rotate_left && !flags.rotate_right {
        orientation + turn
    } else if flags.rotate_right && !flags.rotate_left {
        orientation - turn
    } else {
        orientation
    }
}

/// Axis-aligned half-extent of the footprint once it is turned by the
/// angle whose cosine and sine `rot` carries.
pub fn rotated_extent(rot: &Rotation, half_extent: &Vec2) -> (r: Vec2)
    requires
        -ONE <= rot.cos <= ONE,
        -ONE <= rot.sin <= ONE,
        0 < half_extent.x <= MAX_INPUT,
        0 < half_extent.y <= MAX_INPUT,
    ensures
        r.x == extent_x(*rot, *half_extent),
        r.y == extent_y(*rot, *half_extent),
        0 <= r.x <= 2 * MAX_INPUT,
        0 <= r.y <= 2 * MAX_INPUT,
{
    let cos_mag: i64 = fixed_abs(rot.cos);
    let sin_mag: i64 = fixed_abs(rot.sin);
    proof {
        lemma_mul_spec_bound(cos_mag as int, half_extent.x as int, ONE as int, MAX_INPUT as int);
        lemma_mul_spec_bound(sin_mag as int, half_extent.y as int, ONE as int, MAX_INPUT as int);
        lemma_mul_spec_bound(sin_mag as int, half_extent.x as int, ONE as int, MAX_INPUT as int);
        lemma_mul_spec_bound(cos_mag as int, half_extent.y as int, ONE as int, MAX_INPUT as int);
    }
    Vec2 {
        x: fixed_mul(cos_mag, half_extent.x) + fixed_mul(sin_mag, half_extent.y),
        y: fixed_mul(sin_mag, half_extent.x) + fixed_mul(cos_mag, half_extent.y),
    }
}

/// One tick of bounded movement.
///
/// Composes a direction from the linear flags (opposite flags cancel),
/// normalizes it so a diagonal is no faster than an axis, integrates
/// `linear_speed * dt` into the position, turns by `angular_speed * dt`
/// per held rotation flag, and clamps each coordinate so the rotated
/// bounding box — whose cosine and sine the caller supplies in `rot` for
/// the post-tick orientation — stays inside the arena. An arena smaller
/// than the footprint on some axis yields the centre coordinate on that
/// axis.
///
/// The result is a total function of the arguments: no hidden state, no
/// side effect.
pub fn advance(
    pose: &Pose,
    flags: &InputFlags,
    linear_speed: i64,
    angular_speed: i64,
    dt: i64,
    half_extent: &Vec2,
    arena: &Arena,
    rot: &Rotation,
) -> (r: Pose)
    requires
        inputs_valid(*pose, linear_speed, angular_speed, dt, *half_extent, *arena, *rot),
    ensures
        r.orientation == next_orientation_spec(
            pose.orientation as int,
            *flags,
            angular_speed as int,
            dt as int,
        ),
        r.position.x == advanced_x(
            *pose,
            *flags,
            linear_speed as int,
            dt as int,
            *rot,
            *half_extent,
            *arena,
        ),
        r.position.y == advanced_y(
            *pose,
            *flags,
            linear_speed as int,
            dt as int,
            *rot,
            *half_extent,
            *arena,
        ),
        extent_x(*rot, *half_extent) <= arena.half_width ==> abs_spec(r.position.x as int)
            + extent_x(*rot, *half_extent) <= arena.half_width,
        extent_y(*rot, *half_extent) <= arena.half_height ==> abs_spec(r.position.y as int)
            + extent_y(*rot, *half_extent) <= arena.half_height,
        extent_x(*rot, *half_extent) > arena.half_width ==> r.position.x == 0,
        extent_y(*rot, *half_extent) > arena.half_height ==> r.position.y == 0,
{
    let dx: i64 = (if flags.right {
        1i64
    } else {
        0i64
    }) - (if flags.left {
        1i64
    } else {
        0i64
    });
    let dy: i64 = (if flags.up {
        1i64
    } else {
        0i64
    }) - (if flags.down {
        1i64
    } else {
        0i64
    });

    proof {
        lemma_mul_spec_bound(linear_speed as int, dt as int, MAX_INPUT as int, MAX_INPUT as int);
    }
    let axial: i64 = fixed_mul(linear_speed, dt);
    let step: i64 = if dx != 0 && dy != 0 {
        proof {
            lemma_mul_spec_bound(
                axial as int,
                INV_SQRT2 as int,
                1_000_000_000_000_000_000,
                INV_SQRT2 as int,
            );
        }
        fixed_mul(axial, INV_SQRT2)
    } else {
        axial
    };
    proof {
        assert(dx as int == dir_x(*flags));
        assert(dy as int == dir_y(*flags));
        assert(step as int == linear_step(
            linear_speed as int,
            dt as int,
            diagonal(*flags),
        ));
        lemma_sign_factor(dir_x(*flags), step as int);
        lemma_sign_factor(dir_y(*flags), step as int);
    }
    let move_x: i64 = if dx == 1 {
        step
    } else if dx == -1 {
        -step
    } else {
        0
    };
    let move_y: i64 = if dy == 1 {
        step
    } else if dy == -1 {
        -step
    } else {
        0
    };

    let new_orientation: i64 = next_orientation(pose.orientation, flags, angular_speed, dt);

    let extent: Vec2 = rotated_extent(rot, half_extent);
    let new_x: i64 = fixed_clamp(
        pose.position.x + move_x,
        -arena.half_width + extent.x,
        arena.half_width - extent.x,
    );
    let new_y: i64 = fixed_clamp(
        pose.position.y + move_y,
        -arena.half_height + extent.y,
        arena.half_height - extent.y,
    );

    Pose { position: Vec2 { x: new_x, y: new_y }, orientation: new_orientation }
}

} // verus!
