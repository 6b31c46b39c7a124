//! Points of the plane and the two-circle intersection.

use vstd::prelude::*;
use crate::arith::{
    lemma_product_bound, lemma_quotient_between, lemma_root_bound, lemma_weighted_sum_between,
};
use crate::circles::{circles_meet, crossing, intersection, lemma_crossing_on_both_circles};
use crate::sqrt::{floor_sqrt, isqrt};

verus! {

/// A point of the plane with unbounded integer coordinates: what a [`Point`] stands for.
pub struct Coord {
    pub x: int,
    pub y: int,
}

/// A point of the plane, in thousandths of a user unit.
#[derive(Clone, Copy, Debug, PartialEq, Eq, Structural)]
pub struct Point {
    pub x: i64,
    pub y: i64,
}

impl View for Point {
    type V = Coord;

    open spec fn view(&self) -> Coord {
        Coord { x: self.x as int, y: self.y as int }
    }
}

/// The point halfway between `a` and `b`, each coordinate rounded down.
pub open spec fn midpoint(a: Coord, b: Coord) -> Coord {
    Coord { x: (a.x + b.x) / 2, y: (a.y + b.y) / 2 }
}

/// The unweighted average of three points, each coordinate rounded down.
pub open spec fn centroid(a: Coord, b: Coord, c: Coord) -> Coord {
    Coord { x: (a.x + b.x + c.x) / 3, y: (a.y + b.y + c.y) / 3 }
}

/// The point that divides the way from `a` to `b` as `frac` to a thousand: the average of the
/// two with the weight 1000 on `a` and the weight `frac` on `b`, each coordinate rounded down.
pub open spec fn weighted(a: Coord, b: Coord, frac: int) -> Coord {
    Coord {
        x: (1000 * a.x + frac * b.x) / (1000 + frac),
        y: (1000 * a.y + frac * b.y) / (1000 + frac),
    }
}

/// The square of the distance between `a` and `b`.
pub open spec fn dist_sq(a: Coord, b: Coord) -> int {
    (b.x - a.x) * (b.x - a.x) + (b.y - a.y) * (b.y - a.y)
}

/// Divides `a` by the positive `b`, rounding down.
fn floor_div(a: i128, b: i128) -> (q: i128)
    requires
        b > 0,
    ensures
        q == a / b,
{
    assert(-0x8000_0000_0000_0000_0000_0000_0000_0000 <= a / b
        <= 0x7fff_ffff_ffff_ffff_ffff_ffff_ffff_ffff) by (nonlinear_arith)
        requires
            b > 0,
            -0x8000_0000_0000_0000_0000_0000_0000_0000 <= a
                <= 0x7fff_ffff_ffff_ffff_ffff_ffff_ffff_ffff,
    ;
    a.checked_div_euclid(b).unwrap()
}

/// A vector about `r` long has coordinates of about `r` at most.
proof fn lemma_offset_small(x: int, y: int, r: int)
    requires
        0 <= r,
        x * x + y * y <= r * r + 3 * r + 2,
    ensures
        -(r + 2) <= x <= r + 2,
        -(r + 2) <= y <= r + 2,
{
    assert(x * x >= 0 && y * y >= 0 && (r + 2) * (r + 2) == r * r + 4 * r + 4) by (nonlinear_arith);
    lemma_root_bound(x, r + 2);
    lemma_root_bound(y, r + 2);
}

impl Point {
    /// The coordinates are at most `2^62` in size, which leaves room for a radius more in every
    /// direction.
    pub open spec fn in_range(self) -> bool {
        &&& -0x4000_0000_0000_0000 <= self.x <= 0x4000_0000_0000_0000
        &&& -0x4000_0000_0000_0000 <= self.y <= 0x4000_0000_0000_0000
    }

    /// The point halfway between `self` and `other`.
    pub fn midway_to(self, other: &Point) -> (p: Point)
        ensures
            p@ == midpoint(self@, other@),
    {
        let x: i128 = floor_div(self.x as i128 + other.x as i128, 2);
        let y: i128 = floor_div(self.y as i128 + other.y as i128, 2);
        Point { x: x as i64, y: y as i64 }
    }

    /// The point that divides the way from `self` to `other` as `frac` to a thousand.
    pub fn frac_between(self, other: &Point, frac: u32) -> (p: Point)
        ensures
            p@ == weighted(self@, other@, frac as int),
    {
        let den: i128 = 1000 + frac as i128;
        proof {
            let lo: int = -0x8000_0000_0000_0000;
            let hi: int = 0x7fff_ffff_ffff_ffff;
            let f = frac as int;
            lemma_weighted_sum_between(self.x as int, other.x as int, f, lo, hi);
            lemma_weighted_sum_between(self.y as int, other.y as int, f, lo, hi);
            lemma_quotient_between(1000 * self.x + f * other.x, 1000 + f, lo, hi);
            lemma_quotient_between(1000 * self.y + f * other.y, 1000 + f, lo, hi);
            lemma_product_bound(f, other.x as int, 0x1_0000_0000, 0x8000_0000_0000_0000);
            lemma_product_bound(f, other.y as int, 0x1_0000_0000, 0x8000_0000_0000_0000);
            assert(0x1_0000_0000 * 0x8000_0000_0000_0000 == 0x8000_0000_0000_0000_0000_0000);
        }
        let x: i128 = floor_div(1000 * (self.x as i128) + frac as i128 * (other.x as i128), den);
        let y: i128 = floor_div(1000 * (self.y as i128) + frac as i128 * (other.y as i128), den);
        Point { x: x as i64, y: y as i64 }
    }

    /// The unweighted average of `self`, `other` and `third`.
    pub fn three_way_midpoint(self, other: &Point, third: &Point) -> (p: Point)
        ensures
            p@ == centroid(self@, other@, third@),
    {
        let x: i128 = floor_div(self.x as i128 + other.x as i128 + third.x as i128, 3);
        let y: i128 = floor_div(self.y as i128 + other.y as i128 + third.y as i128, 3);
        Point { x: x as i64, y: y as i64 }
    }

    /// The distance from `self` to `other`, rounded down.
    pub fn distance_to(self, other: Point) -> (d: u64)
        requires
            self.in_range(),
            other.in_range(),
        ensures
            d as int == floor_sqrt(dist_sq(self@, other@)),
    {
        let dx: i128 = other.x as i128 - self.x as i128;
        let dy: i128 = other.y as i128 - self.y as i128;
        proof {
            let lim: int = 0x8000_0000_0000_0000;
            lemma_product_bound(dx as int, dx as int, lim, lim);
            lemma_product_bound(dy as int, dy as int, lim, lim);
            assert(lim * lim == 0x4000_0000_0000_0000_0000_0000_0000_0000);
            assert(dx * dx >= 0 && dy * dy >= 0) by (nonlinear_arith);
        }
        isqrt((dx * dx) as u128 + (dy * dy) as u128)
    }

    /// The points in which the circle round `self` with radius `r1` and the circle round
    /// `other` with radius `r2` cross. Where they do not meet, or are one and the same, the
    /// two centres come back unchanged.
    pub fn intersect_circle(self, other: Point, r1: i32, r2: i32) -> (r: (Point, Point))
        requires
            self.in_range(),
        ensures
            (r.0@, r.1@) == intersection(self@, r1 as int, other@, r2 as int),
    {
        let rs: i128 = r1 as i128 + r2 as i128;
        let rd: i128 = r1 as i128 - r2 as i128;
        let dx: i128 = other.x as i128 - self.x as i128;
        let dy: i128 = other.y as i128 - self.y as i128;
        let ghost d2s = dist_sq(self@, other@);
        assert(dx * dx >= 0 && dy * dy >= 0) by (nonlinear_arith);
        if rs < 0 {
            return (self, other);
        }
        if dx > rs || dx < -rs || dy > rs || dy < -rs {
            assert(d2s > rs * rs) by (nonlinear_arith)
                requires
                    d2s == dx * dx + dy * dy,
                    0 <= rs,
                    dx > rs || dx < -rs || dy > rs || dy < -rs,
            ;
            return (self, other);
        }
        let ghost lim: int = 0x1_0000_0000;
        proof {
            lemma_product_bound(dx as int, dx as int, lim, lim);
            lemma_product_bound(dy as int, dy as int, lim, lim);
            lemma_product_bound(rs as int, rs as int, lim, lim);
            lemma_product_bound(rd as int, rd as int, lim, lim);
            lemma_product_bound(r1 as int, r1 as int, lim, lim);
            lemma_product_bound(r2 as int, r2 as int, lim, lim);
            assert(lim * lim == 0x1_0000_0000_0000_0000);
        }
        let d2: i128 = dx * dx + dy * dy;
        let rs2: i128 = rs * rs;
        let rd2: i128 = rd * rd;
        if d2 == 0 || d2 > rs2 || rd2 > d2 {
            return (self, other);
        }
        assert(circles_meet(self@, r1 as int, other@, r2 as int));
        assert(rd * rd >= 0) by (nonlinear_arith);
        let a: u128 = (d2 - rd2) as u128;
        let b: u128 = (rs2 - d2) as u128;
        assert(rs2 < 0x1_0000_0000_0000_0000) by (nonlinear_arith)
            requires
                rs2 == rs * rs,
                0 <= rs <= 0xffff_fffe,
        ;
        assert(a * b <= 0xffff_ffff_ffff_ffff * 0xffff_ffff_ffff_ffff) by (nonlinear_arith)
            requires
                a <= 0xffff_ffff_ffff_ffff,
                b <= 0xffff_ffff_ffff_ffff,
        ;
        let k: u128 = a * b;
        let s: i128 = isqrt(k) as i128;
        let w: i128 = d2 + r1 as i128 * r1 as i128 - r2 as i128 * r2 as i128;
        let den: i128 = 2 * d2;
        proof {
            let big: int = 0x4_0000_0000_0000_0000;
            lemma_product_bound(dx as int, w as int, lim, big);
            lemma_product_bound(dy as int, w as int, lim, big);
            lemma_product_bound(s as int, dy as int, 0x1_0000_0000_0000_0000, lim);
            lemma_product_bound(s as int, dx as int, 0x1_0000_0000_0000_0000, lim);
            assert(lim * big == 0x4_0000_0000_0000_0000_0000_0000);
            assert(0x1_0000_0000_0000_0000 * lim == 0x1_0000_0000_0000_0000_0000_0000);
        }
        let ax: i128 = dx * w;
        let ay: i128 = dy * w;
        let bx: i128 = s * dy;
        let by: i128 = s * dx;
        let x1: i128 = floor_div(ax + bx, den);
        let y1: i128 = floor_div(ay - by, den);
        let x2: i128 = floor_div(ax - bx, den);
        let y2: i128 = floor_div(ay + by, den);
        proof {
            // a crossing point is about `r1` away from `self`, so it has room
            lemma_crossing_on_both_circles(self@, r1 as int, other@, r2 as int, true);
            lemma_crossing_on_both_circles(self@, r1 as int, other@, r2 as int, false);
            lemma_offset_small(x1 as int, y1 as int, r1 as int);
            lemma_offset_small(x2 as int, y2 as int, r1 as int);
        }
        let first = Point { x: (self.x as i128 + x1) as i64, y: (self.y as i128 + y1) as i64 };
        let second = Point { x: (self.x as i128 + x2) as i64, y: (self.y as i128 + y2) as i64 };
        assert(first@ == crossing(self@, r1 as int, other@, r2 as int, true));
        assert(second@ == crossing(self@, r1 as int, other@, r2 as int, false));
        (first, second)
    }
}

} // verus!
