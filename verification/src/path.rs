//! The commanded straight-line motion: two 2D points and a velocity.
//!
//! Coordinates are micrometers held in `i64`, velocities micrometers per
//! second, durations nanoseconds.  Interpolation is exact rational
//! arithmetic on the elapsed/duration ratio, rounded to the micrometer
//! grid; the path length is the floor square root of the exact squared
//! distance.

use vstd::prelude::*;
use crate::error::Error;
use crate::math::{
    isqrt, lemma_rounded_div_exact, lemma_rounded_div_le, lemma_rounded_div_pos,
    lemma_sqrt_floor_le, rounded_div, rounded_div_u128, sqrt_floor,
};
use crate::timer::Fraction;

verus! {

/// Largest coordinate magnitude the library accepts, in micrometers (one
/// kilometer — far beyond any physical plotter, small enough that every
/// intermediate product below fits its machine integer).
pub const COORDINATE_LIMIT: i64 = 1_000_000_000;

/// Largest velocity magnitude the library accepts, in micrometers per
/// second.
pub const VELOCITY_LIMIT: i64 = 1_000_000_000;

/// Nanoseconds in one second.
pub const NANOS_PER_SECOND: u64 = 1_000_000_000;

/// A location in micrometers.
#[derive(Clone, Copy, Debug, Default, PartialEq, Eq, Structural)]
pub struct Point {
    pub x: i64,
    pub y: i64,
}

impl Point {
    /// Both coordinates are within the library's fixed-point working range.
    pub open spec fn wf(&self) -> bool {
        &&& -COORDINATE_LIMIT <= self.x <= COORDINATE_LIMIT
        &&& -COORDINATE_LIMIT <= self.y <= COORDINATE_LIMIT
    }

    /// The exact squared distance from the origin.
    pub open spec fn spec_sq_magnitude(&self) -> nat {
        (self.x * self.x + self.y * self.y) as nat
    }

    /// The distance from the origin, rounded down to whole micrometers.
    pub open spec fn spec_magnitude(&self) -> nat {
        sqrt_floor(self.spec_sq_magnitude())
    }

    /// The distance of this point from the origin, in whole micrometers.
    pub fn distance_from_origin(&self) -> (r: u64)
        requires
            self.wf(),
        ensures
            r == self.spec_magnitude(),
            r <= 2_000_000_000,
    {
        proof {
            lemma_square_sum_bounds(self.x as int, self.y as int, 1_000_000_000);
            lemma_sqrt_floor_le(self.spec_sq_magnitude(), 2_000_000_000nat);
        }
        let sq: i64 = self.x * self.x + self.y * self.y;
        isqrt(sq as u64)
    }
}

/// The commanded straight-line motion between two points at a signed
/// velocity whose magnitude is used.
#[derive(Clone, Copy, Debug, PartialEq, Eq, Structural)]
pub struct Path {
    pub start: Point,
    pub end: Point,
    pub velocity: i64,
}

/// `a + (b - a) * num / den`, rounded to the nearest integer with halves
/// away from `a`.
pub open spec fn spec_lerp(a: i64, b: i64, num: nat, den: nat) -> int
    recommends
        den > 0,
        num <= den,
{
    if b >= a {
        a + rounded_div(((b - a) * num) as nat, den)
    } else {
        a - rounded_div(((a - b) * num) as nat, den)
    }
}

impl Path {
    /// The endpoints are in range and the velocity is within the working
    /// range.
    pub open spec fn wf(&self) -> bool {
        &&& self.start.wf()
        &&& self.end.wf()
        &&& -VELOCITY_LIMIT <= self.velocity <= VELOCITY_LIMIT
    }

    /// The exact squared start-to-end distance.
    pub open spec fn spec_sq_distance(&self) -> nat {
        ((self.end.x - self.start.x) * (self.end.x - self.start.x) + (self.end.y - self.start.y)
            * (self.end.y - self.start.y)) as nat
    }

    /// The start-to-end distance, rounded down to whole micrometers.
    pub open spec fn spec_distance(&self) -> nat {
        sqrt_floor(self.spec_sq_distance())
    }

    /// The velocity's magnitude.
    pub open spec fn spec_abs_velocity(&self) -> nat {
        if self.velocity >= 0 {
            self.velocity as nat
        } else {
            (-self.velocity) as nat
        }
    }

    /// The total motion duration in nanoseconds: distance over velocity,
    /// rounded to the nearest nanosecond.
    pub open spec fn spec_duration_ns(&self) -> nat
        recommends
            self.spec_abs_velocity() > 0,
    {
        rounded_div((self.spec_distance() * NANOS_PER_SECOND) as nat, self.spec_abs_velocity())
    }

    /// Where the motion stands once `fraction` of it has elapsed: each
    /// coordinate interpolated linearly, the fraction clamped to one first
    /// so that overshoot collapses to the end point.
    pub open spec fn spec_interpolate(&self, fraction: Fraction) -> Point
        recommends
            fraction.wf(),
    {
        let num: nat = if fraction.num > fraction.den {
            fraction.den as nat
        } else {
            fraction.num as nat
        };
        let den: nat = fraction.den as nat;
        Point {
            x: spec_lerp(self.start.x, self.end.x, num, den) as i64,
            y: spec_lerp(self.start.y, self.end.y, num, den) as i64,
        }
    }

    /// Linear interpolation of the path at `fraction`, clamped to the
    /// segment: the result always lies between the two endpoints.
    pub fn interpolate(&self, fraction: Fraction) -> (r: Point)
        requires
            self.wf(),
            fraction.wf(),
        ensures
            r == self.spec_interpolate(fraction),
            r.wf(),
    {
        let num: u64 = if fraction.num > fraction.den {
            fraction.den
        } else {
            fraction.num
        };
        let x = lerp_coordinate(self.start.x, self.end.x, num, fraction.den);
        let y = lerp_coordinate(self.start.y, self.end.y, num, fraction.den);
        Point { x, y }
    }

    /// The start-to-end distance in whole micrometers.
    pub fn distance(&self) -> (r: u64)
        requires
            self.wf(),
        ensures
            r == self.spec_distance(),
            r <= 3_000_000_000,
    {
        let dx: i64 = self.end.x - self.start.x;
        let dy: i64 = self.end.y - self.start.y;
        proof {
            lemma_square_sum_bounds(dx as int, dy as int, 2_000_000_000);
            lemma_sqrt_floor_le(self.spec_sq_distance(), 3_000_000_000nat);
        }
        let sq: i64 = dx * dx + dy * dy;
        isqrt(sq as u64)
    }

    /// The total duration of the motion in nanoseconds.  It exists exactly
    /// when both the distance and the velocity are nonzero; a degenerate
    /// motion is rejected before it starts.
    pub fn duration(&self) -> (r: Result<u64, Error>)
        requires
            self.wf(),
        ensures
            r is Err <==> (self.spec_distance() == 0 || self.velocity == 0),
            r is Err ==> r == Err::<u64, Error>(Error::InvalidMotion),
            r is Ok ==> r->Ok_0 == self.spec_duration_ns() && r->Ok_0 >= 1,
    {
        let dist: u64 = self.distance();
        let vel: u64 = if self.velocity >= 0 {
            self.velocity as u64
        } else {
            (-self.velocity) as u64
        };
        if dist == 0 || vel == 0 {
            return Err(Error::InvalidMotion);
        }
        let num: u128 = dist as u128 * NANOS_PER_SECOND as u128;
        proof {
            assert(num * 1 <= num * vel) by (nonlinear_arith)
                requires vel >= 1, num >= 0,
            ;
            lemma_rounded_div_le(num as nat, vel as nat, num as nat);
            lemma_rounded_div_pos(num as nat, vel as nat);
        }
        let ns: u128 = rounded_div_u128(num, vel as u128);
        Ok(ns as u64)
    }
}

/// One coordinate of the interpolation: `a + (b - a) * num / den` rounded
/// to the nearest micrometer, computed without overflow.
fn lerp_coordinate(a: i64, b: i64, num: u64, den: u64) -> (r: i64)
    requires
        -COORDINATE_LIMIT <= a <= COORDINATE_LIMIT,
        -COORDINATE_LIMIT <= b <= COORDINATE_LIMIT,
        0 < den,
        num <= den,
    ensures
        r == spec_lerp(a, b, num as nat, den as nat),
        a <= b ==> a <= r <= b,
        b <= a ==> b <= r <= a,
{
    if b >= a {
        let d: u64 = (b - a) as u64;
        let q128: u128 = step_share(d, num, den);
        let q: u64 = q128 as u64;
        a + q as i64
    } else {
        let d: u64 = (a - b) as u64;
        let q128: u128 = step_share(d, num, den);
        let q: u64 = q128 as u64;
        a - q as i64
    }
}

/// `d * num / den` rounded to the nearest integer, for `num <= den`: the
/// share of a whole span `d` that the fraction selects.  Never exceeds `d`.
fn step_share(d: u64, num: u64, den: u64) -> (r: u128)
    requires
        0 < den,
        num <= den,
        d <= 2_000_000_000,
    ensures
        r == rounded_div((d * num) as nat, den as nat),
        r <= d,
{
    proof {
        assert(d as int * num as int <= 2_000_000_000 * 18_446_744_073_709_551_615int)
            by (nonlinear_arith)
            requires
                d <= 2_000_000_000,
                0 <= num <= 18_446_744_073_709_551_615int,
        ;
        assert(d as int * num as int <= d as int * den as int) by (nonlinear_arith)
            requires num <= den, 0 <= d,
        ;
        lemma_rounded_div_le((d * num) as nat, den as nat, d as nat);
    }
    let p: u128 = d as u128 * num as u128;
    rounded_div_u128(p, den as u128)
}

/// Law: no extrapolation below the segment — at fraction zero the motion
/// stands exactly at its start point.
pub proof fn lemma_interpolate_at_start(path: Path, den: u64)
    requires
        path.wf(),
        den > 0,
    ensures
        path.spec_interpolate(Fraction { num: 0, den }) == path.start,
{
    lemma_lerp_share_zero(path.start.x, path.end.x, den as nat);
    lemma_lerp_share_zero(path.start.y, path.end.y, den as nat);
}

/// Law: no extrapolation beyond the segment — every fraction of one or
/// more collapses to the end point exactly.
pub proof fn lemma_interpolate_clamps_to_end(path: Path, fraction: Fraction)
    requires
        path.wf(),
        fraction.wf(),
        fraction.num >= fraction.den,
    ensures
        path.spec_interpolate(fraction) == path.end,
{
    lemma_lerp_share_whole(path.start.x, path.end.x, fraction.den as nat);
    lemma_lerp_share_whole(path.start.y, path.end.y, fraction.den as nat);
}

/// At fraction zero a coordinate does not move.
proof fn lemma_lerp_share_zero(a: i64, b: i64, den: nat)
    requires
        den > 0,
    ensures
        spec_lerp(a, b, 0, den) == a,
{
    if b >= a {
        lemma_rounded_div_le(((b - a) * 0) as nat, den, 0);
        assert((b - a) * 0 == 0) by (nonlinear_arith);
    } else {
        lemma_rounded_div_le(((a - b) * 0) as nat, den, 0);
        assert((a - b) * 0 == 0) by (nonlinear_arith);
    }
}

/// At the whole fraction a coordinate reaches the other endpoint.
proof fn lemma_lerp_share_whole(a: i64, b: i64, den: nat)
    requires
        den > 0,
    ensures
        spec_lerp(a, b, den, den) == b,
{
    if b >= a {
        let d = (b - a) as nat;
        assert(2 * (d * den) + den == 2 * den * d + den) by (nonlinear_arith);
        lemma_rounded_div_exact((d * den) as nat, den, d, den);
    } else {
        let d = (a - b) as nat;
        assert(2 * (d * den) + den == 2 * den * d + den) by (nonlinear_arith);
        lemma_rounded_div_exact((d * den) as nat, den, d, den);
    }
}

/// Coordinate differences of in-range points have small squares: both fit
/// a signed 64-bit value, with room for their sum.
proof fn lemma_square_sum_bounds(x: int, y: int, b: int)
    requires
        0 <= b,
        -b <= x <= b,
        -b <= y <= b,
    ensures
        0 <= x * x,
        0 <= y * y,
        x * x + y * y <= b * b + b * b,
{
    assert(0 <= x * x <= b * b) by (nonlinear_arith)
        requires 0 <= b, -b <= x <= b,
    ;
    assert(0 <= y * y <= b * b) by (nonlinear_arith)
        requires 0 <= b, -b <= y <= b,
    ;
}

/// The default commanded motion: from ten millimeters behind the origin to
/// the origin, at 1.2 millimeters per second.
impl Default for Path {
    fn default() -> (r: Self)
        ensures
            r == (Path {
                start: Point { x: 0i64, y: -10_000i64 },
                end: Point { x: 0i64, y: 0i64 },
                velocity: 1_200i64,
            }),
            r.wf(),
    {
        Path { start: Point { x: 0, y: -10_000 }, end: Point { x: 0, y: 0 }, velocity: 1_200 }
    }
}

} // verus!
