//! The particle engine: one data record, `Particle`, and one behaviour,
//! `collision`, which reflects the particle off the inner far edge of a
//! rectangle and damps its velocity.

use vstd::prelude::*;

verus! {

use vstd::arithmetic::div_mod::{lemma_fundamental_div_mod, lemma_div_multiples_vanish};

/// Numerator of the fixed collision damping ratio: on a bounce the velocity
/// keeps 4/5 (that is, 0.8) of its magnitude, reversed in direction.
pub const DAMPING_NUM: i64 = 4;

/// Denominator of the fixed collision damping ratio.
pub const DAMPING_DEN: i64 = 5;

/// A 2D point or vector with exact integer coordinates.
#[derive(Clone, Copy, PartialEq, Eq, Structural, Debug)]
pub struct Vec2 {
    pub x: i64,
    pub y: i64,
}

/// An axis-aligned rectangle: origin plus extent. Read-only bounds input.
#[derive(Clone, Copy, PartialEq, Eq, Structural, Debug)]
pub struct Rect {
    pub x: i64,
    pub y: i64,
    pub width: i64,
    pub height: i64,
}

/// The sign of `n`: `1` for positive, `-1` for negative, `0` for zero.
pub open spec fn sign_spec(n: int) -> int {
    if n > 0 {
        1
    } else if n < 0 {
        -1
    } else {
        0
    }
}

/// Maps a number to -1, 0 or +1 according to its sign; `collision` uses it to
/// choose the reflection side.
pub fn get_sign(number: i64) -> (r: i64)
    ensures
        r == sign_spec(number as int),
{
    if number > 0 {
        1
    } else if number < 0 {
        -1
    } else {
        0
    }
}

/// The velocity component after a bounce: reversed and scaled by the damping
/// ratio 4/5, with the magnitude truncated toward zero.
pub open spec fn damp_spec(v: int) -> int {
    if v >= 0 {
        -((DAMPING_NUM * v) / (DAMPING_DEN as int))
    } else {
        (DAMPING_NUM * (-v)) / (DAMPING_DEN as int)
    }
}

/// The position coordinate on one axis after collision resolution: a
/// coordinate beyond the inner far bound `bmax` is reset to
/// `bmax * sign(pos)`; any other coordinate is left alone. There is no check
/// against the near edge of the rectangle: the particle is constrained
/// against the far edge only.
pub open spec fn collided_pos(pos: int, bmax: int) -> int {
    if pos > bmax {
        bmax * sign_spec(pos)
    } else {
        pos
    }
}

/// The velocity coordinate on one axis after collision resolution: damped and
/// reversed exactly when the position coordinate was beyond the bound.
pub open spec fn collided_vel(pos: int, vel: int, bmax: int) -> int {
    if pos > bmax {
        damp_spec(vel)
    } else {
        vel
    }
}

/// The damped, reversed velocity component used on a bounce.
fn damp(v: i64) -> (r: i64)
    ensures
        r == damp_spec(v as int),
{
    let mag: u128 = if v >= 0 {
        v as u128
    } else {
        (-(v as i128)) as u128
    };
    let scaled: u128 = (DAMPING_NUM as u128) * mag;
    let dmag: u128 = scaled / (DAMPING_DEN as u128);
    proof {
        assert(mag <= 0x8000_0000_0000_0000);
        assert(5 * dmag <= scaled);
        assert(dmag < 0x8000_0000_0000_0000);
    }
    if v >= 0 {
        -(dmag as i64)
    } else {
        dmag as i64
    }
}

/// A point mass with position, velocity and an effective radius. The damping
/// ratio is a fixed property of the engine (`DAMPING_NUM` / `DAMPING_DEN`),
/// not a per-particle quantity.
pub struct Particle {
    pub pos: Vec2,
    pub vel: Vec2,
    pub radius: i64,
}

impl Particle {
    /// The inner far bound for this particle on the x axis of `bounds`.
    pub open spec fn bounds_max_x(self, bounds: Rect) -> int {
        bounds.x + bounds.width - self.radius
    }

    /// The inner far bound for this particle on the y axis of `bounds`.
    pub open spec fn bounds_max_y(self, bounds: Rect) -> int {
        bounds.y + bounds.height - self.radius
    }

    /// Builds a particle at `start_pos` with velocity `vel` and the given
    /// radius. Radius positivity is the caller's responsibility and is not
    /// checked.
    pub fn new(start_pos: Vec2, vel: Vec2, radius: i64) -> (p: Particle)
        ensures
            p.pos == start_pos,
            p.vel == vel,
            p.radius == radius,
    {
        Particle { pos: start_pos, vel, radius }
    }

    /// Reflects the particle off the inner far edges of `bounds`, axis by
    /// axis: a coordinate beyond the far bound is reset to the bound times
    /// the coordinate's sign, and the matching velocity component is reversed
    /// and damped. Coordinates within the bound, and the whole other axis,
    /// are untouched. The near (low) edges are never checked.
    pub fn collision(&mut self, bounds: &Rect)
        requires
            i64::MIN < old(self).bounds_max_x(*bounds),
            old(self).bounds_max_x(*bounds) <= i64::MAX,
            i64::MIN < old(self).bounds_max_y(*bounds),
            old(self).bounds_max_y(*bounds) <= i64::MAX,
        ensures
            final(self).radius == old(self).radius,
            final(self).pos.x == collided_pos(old(self).pos.x as int, old(self).bounds_max_x(*bounds)),
            final(self).vel.x == collided_vel(old(self).pos.x as int, old(self).vel.x as int, old(self).bounds_max_x(*bounds)),
            final(self).pos.y == collided_pos(old(self).pos.y as int, old(self).bounds_max_y(*bounds)),
            final(self).vel.y == collided_vel(old(self).pos.y as int, old(self).vel.y as int, old(self).bounds_max_y(*bounds)),
    {
        let bmax_x: i64 = ((bounds.x as i128) + (bounds.width as i128) - (self.radius as i128)) as i64;
        let bmax_y: i64 = ((bounds.y as i128) + (bounds.height as i128) - (self.radius as i128)) as i64;

        if self.pos.x > bmax_x {
            let s: i64 = get_sign(self.pos.x);
            proof {
                assert(s == 1 || s == 0 || s == -1);
            }
            self.pos.x = bmax_x * s;
            self.vel.x = damp(self.vel.x);
        }

        if self.pos.y > bmax_y {
            let s: i64 = get_sign(self.pos.y);
            proof {
                assert(s == 1 || s == 0 || s == -1);
            }
            self.pos.y = bmax_y * s;
            self.vel.y = damp(self.vel.y);
        }
    }
}

/// Damping is exact: whenever the velocity component is a multiple of the
/// damping denominator, one bounce leaves exactly minus four fifths of it,
/// with no truncation.
pub proof fn lemma_damping_exact(v: int)
    requires
        v % (DAMPING_DEN as int) == 0,
    ensures
        DAMPING_DEN * damp_spec(v) == -DAMPING_NUM * v,
{
    lemma_fundamental_div_mod(v, 5);
    let k: int = v / 5;
    if v >= 0 {
        lemma_div_multiples_vanish(4 * k, 5);
        assert((4 * v) / 5 == 4 * k);
    } else {
        lemma_div_multiples_vanish(-(4 * k), 5);
        assert((4 * (-v)) / 5 == -(4 * k));
    }
}

/// A particle entirely inside the bounds is unchanged by `collision`: with
/// both coordinates at or below their inner far bounds, position and
/// velocity keep their values on both axes.
pub proof fn lemma_collision_no_op(p: Particle, bounds: Rect)
    requires
        p.pos.x <= p.bounds_max_x(bounds),
        p.pos.y <= p.bounds_max_y(bounds),
    ensures
        collided_pos(p.pos.x as int, p.bounds_max_x(bounds)) == p.pos.x,
        collided_vel(p.pos.x as int, p.vel.x as int, p.bounds_max_x(bounds)) == p.vel.x,
        collided_pos(p.pos.y as int, p.bounds_max_y(bounds)) == p.pos.y,
        collided_vel(p.pos.y as int, p.vel.y as int, p.bounds_max_y(bounds)) == p.vel.y,
{
}

/// The axes are independent: a violation on the x axis alone never alters
/// the y position or the y velocity. The y coordinate and velocity keep
/// their values whatever the x coordinate and velocity are.
pub proof fn lemma_axis_independent(p: Particle, bounds: Rect)
    requires
        p.pos.y <= p.bounds_max_y(bounds),
    ensures
        collided_pos(p.pos.y as int, p.bounds_max_y(bounds)) == p.pos.y,
        collided_vel(p.pos.y as int, p.vel.y as int, p.bounds_max_y(bounds)) == p.vel.y,
{
}

/// Collision resolution is idempotent against a nonnegative inner bound:
/// the corrected coordinate no longer violates the bound, so resolving a
/// second time against the same bound changes neither the position nor the
/// velocity coordinate again.
pub proof fn lemma_collision_idempotent(pos: int, vel: int, bmax: int)
    requires
        0 <= bmax,
    ensures
        collided_pos(pos, bmax) <= bmax,
        collided_pos(collided_pos(pos, bmax), bmax) == collided_pos(pos, bmax),
        collided_vel(collided_pos(pos, bmax), collided_vel(pos, vel, bmax), bmax) == collided_vel(pos, vel, bmax),
{
    if pos > bmax {
        assert(sign_spec(pos) == 1);
        assert(bmax * sign_spec(pos) == bmax);
    }
}

} // verus!
