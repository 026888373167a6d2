//! Positions, velocities and the hook's reach.

use vstd::prelude::*;

verus! {

/// A point of the play area, in thousandths of a unit.
#[derive(Clone, Copy, Debug, PartialEq, Eq, Structural)]
pub struct Position {
    pub x: i64,
    pub y: i64,
}

/// A velocity, in thousandths of a unit per second.
#[derive(Clone, Copy, Debug, PartialEq, Eq, Structural)]
pub struct Velocity {
    pub x: i64,
    pub y: i64,
}

/// `a / d`, rounded toward zero.
pub open spec fn div_toward_zero(a: int, d: int) -> int {
    if a >= 0 {
        a / d
    } else {
        -((-a) / d)
    }
}

/// Where a body at `p` moving at `v` is after `dt` ms, the displacement
/// rounded toward zero.
pub open spec fn moved_spec(p: int, v: int, dt: int) -> int {
    p + div_toward_zero(v * dt, 1000)
}

/// `moved_spec` stays within `i64`.
pub open spec fn moves_in_range(p: Position, v: Velocity, dt: u64) -> bool {
    &&& i64::MIN <= moved_spec(p.x as int, v.x as int, dt as int) <= i64::MAX
    &&& i64::MIN <= moved_spec(p.y as int, v.y as int, dt as int) <= i64::MAX
}

/// The body at `a` is strictly closer than `radius` to the body at `b`.
pub open spec fn within_radius(a: Position, b: Position, radius: int) -> bool {
    let dx = a.x - b.x;
    let dy = a.y - b.y;
    dx * dx + dy * dy < radius * radius
}

fn moved_coord(p: i64, v: i64, dt: u64) -> (r: i64)
    requires
        i64::MIN <= moved_spec(p as int, v as int, dt as int) <= i64::MAX,
        dt <= i64::MAX,
    ensures
        r == moved_spec(p as int, v as int, dt as int),
{
    proof {
        assert(-0x8000_0000_0000_0000 * 0x7fff_ffff_ffff_ffff <= (v as int) * (dt as int)
            <= 0x7fff_ffff_ffff_ffff * 0x7fff_ffff_ffff_ffff) by (nonlinear_arith)
            requires
                -0x8000_0000_0000_0000 <= v <= 0x7fff_ffff_ffff_ffff,
                0 <= dt <= 0x7fff_ffff_ffff_ffff,
        ;
    }
    let prod: i128 = (v as i128) * (dt as i128);
    let step: i128 = if prod >= 0 {
        prod / 1000
    } else {
        -((-prod) / 1000)
    };
    (p as i128 + step) as i64
}

fn fits_after_move(p: i64, v: i64, dt: u64) -> (r: bool)
    ensures
        r == (i64::MIN <= moved_spec(p as int, v as int, dt as int) <= i64::MAX),
{
    proof {
        assert(-0x8000_0000_0000_0000 * 0xffff_ffff_ffff_ffff <= (v as int) * (dt as int)
            <= 0x7fff_ffff_ffff_ffff * 0xffff_ffff_ffff_ffff) by (nonlinear_arith)
            requires
                -0x8000_0000_0000_0000 <= v <= 0x7fff_ffff_ffff_ffff,
                0 <= dt <= 0xffff_ffff_ffff_ffff,
        ;
    }
    let prod: i128 = (v as i128) * (dt as i128);
    let step: i128 = if prod >= 0 {
        prod / 1000
    } else {
        -((-prod) / 1000)
    };
    let q: i128 = p as i128 + step;
    i64::MIN as i128 <= q && q <= i64::MAX as i128
}

impl Position {
    /// Where a body here moving at `v` is after `dt` ms.
    pub fn moved(&self, v: &Velocity, dt: u64) -> (r: Position)
        requires
            moves_in_range(*self, *v, dt),
            dt <= i64::MAX,
        ensures
            r.x == moved_spec(self.x as int, v.x as int, dt as int),
            r.y == moved_spec(self.y as int, v.y as int, dt as int),
    {
        Position { x: moved_coord(self.x, v.x, dt), y: moved_coord(self.y, v.y, dt) }
    }

    /// Whether a body here moving at `v` stays within `i64` over `dt` ms.
    pub fn can_move(&self, v: &Velocity, dt: u64) -> (r: bool)
        ensures
            r == moves_in_range(*self, *v, dt),
    {
        fits_after_move(self.x, v.x, dt) && fits_after_move(self.y, v.y, dt)
    }

    /// True when `other` is strictly closer than `radius` to this point.
    pub fn within(&self, other: &Position, radius: u32) -> (r: bool)
        ensures
            r == within_radius(*self, *other, radius as int),
    {
        let dx: i128 = self.x as i128 - other.x as i128;
        let dy: i128 = self.y as i128 - other.y as i128;
        let adx: i128 = if dx < 0 { -dx } else { dx };
        let ady: i128 = if dy < 0 { -dy } else { dy };
        let r: i128 = radius as i128;
        if adx >= r || ady >= r {
            proof {
                assert(dx * dx + dy * dy >= r * r) by (nonlinear_arith)
                    requires
                        adx >= r || ady >= r,
                        r >= 0,
                        adx == dx || adx == -dx,
                        ady == dy || ady == -dy,
                        adx >= 0,
                        ady >= 0,
                ;
            }
            false
        } else {
            proof {
                assert(adx * adx < 0x1_0000_0000 * 0x1_0000_0000) by (nonlinear_arith)
                    requires
                        0 <= adx < r,
                        r <= 0xffff_ffff,
                ;
                assert(ady * ady < 0x1_0000_0000 * 0x1_0000_0000) by (nonlinear_arith)
                    requires
                        0 <= ady < r,
                        r <= 0xffff_ffff,
                ;
                assert(r * r <= 0xffff_ffff * 0xffff_ffff) by (nonlinear_arith)
                    requires
                        0 <= r <= 0xffff_ffff,
                ;
                assert(adx * adx == dx * dx && ady * ady == dy * dy) by (nonlinear_arith)
                    requires
                        adx == dx || adx == -dx,
                        ady == dy || ady == -dy,
                ;
            }
            adx * adx + ady * ady < r * r
        }
    }
}

} // verus!
