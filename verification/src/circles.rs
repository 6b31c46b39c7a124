//! Where two circles cross.

use vstd::prelude::*;
use crate::arith::{lemma_inner_product_bound, lemma_root_bound};
use crate::point::{dist_sq, Coord};
use crate::sqrt::{floor_sqrt, lemma_floor_sqrt, lemma_floor_sqrt_is};

verus! {

/// The circle round `p` with radius `rp` and the circle round `q` with radius `rq` cross or
/// touch: the distance `d` between the centres has `|rp - rq| <= d <= rp + rq`, stated over
/// squares, and the circles are not one and the same (`d > 0`).
pub open spec fn circles_meet(p: Coord, rp: int, q: Coord, rq: int) -> bool {
    let d2 = dist_sq(p, q);
    &&& d2 > 0
    &&& rp + rq >= 0
    &&& (rp - rq) * (rp - rq) <= d2
    &&& d2 <= (rp + rq) * (rp + rq)
}

/// `(d^2 - (rp - rq)^2) * ((rp + rq)^2 - d^2)`: the square of the common chord's length, times
/// `d^2`. It equals `2 (rp^2 + rq^2) d^2 - (rp^2 - rq^2)^2 - d^4`.
pub open spec fn chord_term(p: Coord, rp: int, q: Coord, rq: int) -> int {
    let d2 = dist_sq(p, q);
    (d2 - (rp - rq) * (rp - rq)) * ((rp + rq) * (rp + rq) - d2)
}

/// The crossing point of two circles that meet: from `p`, the fraction `w / (2 d^2)` of the way
/// to `q` reaches the chord's midpoint, and the fraction `s / (2 d^2)` of the centre line,
/// turned by a right angle, reaches the crossing point. `upper` picks the turn. The square root
/// and each coordinate are rounded down.
pub open spec fn crossing(p: Coord, rp: int, q: Coord, rq: int, upper: bool) -> Coord {
    let dx = q.x - p.x;
    let dy = q.y - p.y;
    let d2 = dist_sq(p, q);
    let w = d2 + rp * rp - rq * rq;
    let s = floor_sqrt(chord_term(p, rp, q, rq));
    if upper {
        Coord { x: p.x + (dx * w + s * dy) / (2 * d2), y: p.y + (dy * w - s * dx) / (2 * d2) }
    } else {
        Coord { x: p.x + (dx * w - s * dy) / (2 * d2), y: p.y + (dy * w + s * dx) / (2 * d2) }
    }
}

/// The two crossing points of two circles, or the two centres unchanged where the circles do
/// not meet. Circles that touch give the same point twice.
pub open spec fn intersection(p: Coord, rp: int, q: Coord, rq: int) -> (Coord, Coord) {
    if circles_meet(p, rp, q, rq) {
        (crossing(p, rp, q, rq, true), crossing(p, rp, q, rq, false))
    } else {
        (p, q)
    }
}

/// Circles that are one and the same, circles too far apart to meet (`d > rp + rq`) and
/// circles of which one lies inside the other (`d < |rp - rq|`) have no crossing points: the
/// two centres stand in their place, unchanged.
pub proof fn lemma_centres_where_no_crossing(p: Coord, rp: int, q: Coord, rq: int)
    requires
        (p == q && rp == rq) || rp + rq < 0 || dist_sq(p, q) > (rp + rq) * (rp + rq) || dist_sq(
            p,
            q,
        ) < (rp - rq) * (rp - rq),
    ensures
        intersection(p, rp, q, rq) == (p, q),
{
}

/// Circles that touch, from outside (`d = rp + rq`) or from inside (`d = |rp - rq|`), cross in
/// one point, which stands for both crossing points.
pub proof fn lemma_touching_circles_cross_once(p: Coord, rp: int, q: Coord, rq: int)
    requires
        circles_meet(p, rp, q, rq),
        dist_sq(p, q) == (rp + rq) * (rp + rq) || dist_sq(p, q) == (rp - rq) * (rp - rq),
    ensures
        intersection(p, rp, q, rq).0 == intersection(p, rp, q, rq).1,
{
    let d2 = dist_sq(p, q);
    let a = d2 - (rp - rq) * (rp - rq);
    let b = (rp + rq) * (rp + rq) - d2;
    assert(a * b == 0) by (nonlinear_arith)
        requires
            a == 0 || b == 0,
    ;
    lemma_floor_sqrt_is(0, 0);
    let dx = q.x - p.x;
    let dy = q.y - p.y;
    assert(0 * dx == 0 && 0 * dy == 0);
}

/// The heart of the matter, free of the geometry. A vector `(m1, m2)` whose squared length is
/// `d2 (w^2 + s^2)`, where `s` is the rounded-down root of `4 d2 r^2 - w^2`, is about `2 d2 r`
/// long. Divided by `2 d2` and rounded down to `(a, b)`, it is about `r` long.
proof fn lemma_rounded_vector_length(
    m1: int,
    m2: int,
    a: int,
    b: int,
    e1: int,
    e2: int,
    d2: int,
    w: int,
    s: int,
    r: int,
)
    requires
        d2 >= 1,
        r >= 0,
        s >= 0,
        s * s <= 4 * d2 * (r * r) - w * w,
        4 * d2 * (r * r) - w * w < (s + 1) * (s + 1),
        m1 == (2 * d2) * a + e1,
        m2 == (2 * d2) * b + e2,
        0 <= e1 < 2 * d2,
        0 <= e2 < 2 * d2,
        m1 * m1 + m2 * m2 == d2 * (w * w + s * s),
    ensures
        r * r - 4 * r <= a * a + b * b <= r * r + 3 * r + 2,
{
    let dd = 2 * d2;
    let big = dd * dd;
    let len = m1 * m1 + m2 * m2;
    let rr = r * r;
    assert(rr >= 0 && big >= 1 && w * w >= 0 && s * s >= 0) by (nonlinear_arith)
        requires
            rr == r * r,
            big == dd * dd,
            dd >= 2,
    ;
    // len <= big rr
    assert(len <= big * rr) by (nonlinear_arith)
        requires
            len == d2 * (w * w + s * s),
            s * s <= 4 * d2 * rr - w * w,
            d2 >= 1,
            big == (2 * d2) * (2 * d2),
    {
        assert(d2 * (w * w + s * s) <= d2 * (4 * d2 * rr));
        assert(d2 * (4 * d2 * rr) == ((2 * d2) * (2 * d2)) * rr);
    }
    // s <= dd r, so 2 s d2 <= big r
    assert(s * s <= (dd * r) * (dd * r)) by (nonlinear_arith)
        requires
            s * s <= 4 * d2 * rr - w * w,
            w * w >= 0,
            rr == r * r,
            rr >= 0,
            d2 >= 1,
            dd == 2 * d2,
    {
        assert(4 * d2 * rr <= 4 * d2 * (d2 * rr));
        assert(4 * d2 * (d2 * rr) == (dd * r) * (dd * r));
    }
    assert(dd * r >= 0) by (nonlinear_arith)
        requires
            dd >= 2,
            r >= 0,
    ;
    lemma_root_bound(s, dd * r);
    assert(2 * s * d2 <= big * r) by (nonlinear_arith)
        requires
            s <= dd * r,
            dd == 2 * d2,
            d2 >= 1,
            big == dd * dd,
    {
        assert(s * dd <= (dd * r) * dd);
    }
    // len >= big rr - big r
    assert(len >= big * rr - 2 * s * d2) by (nonlinear_arith)
        requires
            len == d2 * (w * w + s * s),
            4 * d2 * rr - w * w < (s + 1) * (s + 1),
            d2 >= 1,
            big == (2 * d2) * (2 * d2),
    {
        assert((s + 1) * (s + 1) == s * s + 2 * s + 1);
        assert(w * w + s * s >= 4 * d2 * rr - 2 * s);
        assert(d2 * (w * w + s * s) >= d2 * (4 * d2 * rr - 2 * s));
        assert(d2 * (4 * d2 * rr - 2 * s) == ((2 * d2) * (2 * d2)) * rr - 2 * s * d2);
    }
    // the rounding loss
    let cross = m1 * e1 + m2 * e2;
    let loss = e1 * e1 + e2 * e2;
    assert(0 <= loss <= 2 * big) by (nonlinear_arith)
        requires
            loss == e1 * e1 + e2 * e2,
            0 <= e1 < dd,
            0 <= e2 < dd,
            big == dd * dd,
    ;
    lemma_inner_product_bound(m1, m2, e1, e2);
    assert(len >= 0) by (nonlinear_arith)
        requires
            len == m1 * m1 + m2 * m2,
    ;
    let cap = big * r;
    assert(len * loss <= (big * rr) * (2 * big)) by (nonlinear_arith)
        requires
            0 <= len <= big * rr,
            0 <= loss <= 2 * big,
    ;
    assert((2 * cross) * (2 * cross) <= (3 * cap) * (3 * cap)) by (nonlinear_arith)
        requires
            cross * cross <= (big * rr) * (2 * big),
            cap == big * r,
            rr == r * r,
            big >= 1,
            rr >= 0,
    {
        assert((big * rr) * (2 * big) == 2 * (cap * cap));
        assert(cap * cap >= 0);
    }
    assert(cap >= 0) by (nonlinear_arith)
        requires
            cap == big * r,
            big >= 1,
            r >= 0,
    ;
    lemma_root_bound(2 * cross, 3 * cap);
    // big (a^2 + b^2) = len - 2 cross + loss
    let sq = a * a + b * b;
    assert(big * sq == len - 2 * cross + loss) by (nonlinear_arith)
        requires
            big == dd * dd,
            sq == a * a + b * b,
            m1 == dd * a + e1,
            m2 == dd * b + e2,
            len == m1 * m1 + m2 * m2,
            cross == m1 * e1 + m2 * e2,
            loss == e1 * e1 + e2 * e2,
    ;
    assert(big * sq <= big * (rr + 3 * r + 2)) by (nonlinear_arith)
        requires
            big * sq == len - 2 * cross + loss,
            len <= big * rr,
            -(3 * cap) <= 2 * cross,
            loss <= 2 * big,
            cap == big * r,
    ;
    assert(big * sq >= big * (rr - 4 * r)) by (nonlinear_arith)
        requires
            big * sq == len - 2 * cross + loss,
            len >= big * rr - 2 * s * d2,
            2 * s * d2 <= big * r,
            2 * cross <= 3 * cap,
            loss >= 0,
            cap == big * r,
    ;
    assert(sq <= rr + 3 * r + 2) by (nonlinear_arith)
        requires
            big >= 1,
            big * sq <= big * (rr + 3 * r + 2),
    ;
    assert(sq >= rr - 4 * r) by (nonlinear_arith)
        requires
            big >= 1,
            big * sq >= big * (rr - 4 * r),
    ;
}

/// Two vectors at right angles, of the lengths `w` and `s` times that of `(dx, dy)`, add up to
/// a vector of the squared length `(dx^2 + dy^2) (w^2 + s^2)`.
proof fn lemma_turned_sum_length(dx: int, dy: int, w: int, s: int)
    ensures
        (dx * w + s * dy) * (dx * w + s * dy) + (dy * w - s * dx) * (dy * w - s * dx) == (dx * dx
            + dy * dy) * (w * w + s * s),
{
    let xw = dx * w;
    let yw = dy * w;
    let xs = s * dx;
    let ys = s * dy;
    assert((xw + ys) * (xw + ys) == xw * xw + 2 * (xw * ys) + ys * ys) by (nonlinear_arith);
    assert((yw - xs) * (yw - xs) == yw * yw - 2 * (yw * xs) + xs * xs) by (nonlinear_arith);
    assert(xw * ys == yw * xs) by (nonlinear_arith)
        requires
            xw == dx * w,
            ys == s * dy,
            yw == dy * w,
            xs == s * dx,
    ;
    assert(xw * xw == (dx * dx) * (w * w)) by (nonlinear_arith)
        requires
            xw == dx * w,
    ;
    assert(yw * yw == (dy * dy) * (w * w)) by (nonlinear_arith)
        requires
            yw == dy * w,
    ;
    assert(xs * xs == (dx * dx) * (s * s)) by (nonlinear_arith)
        requires
            xs == s * dx,
    ;
    assert(ys * ys == (dy * dy) * (s * s)) by (nonlinear_arith)
        requires
            ys == s * dy,
    ;
    let xx = dx * dx;
    let yy = dy * dy;
    let ww = w * w;
    let ss = s * s;
    assert((xx + yy) * (ww + ss) == xx * ww + xx * ss + yy * ww + yy * ss) by (nonlinear_arith);
}

/// `(d2 - (rp - rq)^2) ((rp + rq)^2 - d2)` is `4 d2 rp^2 - w^2` for `w = d2 + rp^2 - rq^2`.
proof fn lemma_chord_term_by_radius(d2: int, rp: int, rq: int)
    ensures
        (d2 - (rp - rq) * (rp - rq)) * ((rp + rq) * (rp + rq) - d2) == 4 * d2 * (rp * rp) - (d2
            + rp * rp - rq * rq) * (d2 + rp * rp - rq * rq),
{
    let pp = rp * rp;
    let qq = rq * rq;
    let pq = rp * rq;
    assert((rp - rq) * (rp - rq) == pp - 2 * pq + qq) by (nonlinear_arith)
        requires
            pp == rp * rp,
            qq == rq * rq,
            pq == rp * rq,
    ;
    assert((rp + rq) * (rp + rq) == pp + 2 * pq + qq) by (nonlinear_arith)
        requires
            pp == rp * rp,
            qq == rq * rq,
            pq == rp * rq,
    ;
    assert(pq * pq == pp * qq) by (nonlinear_arith)
        requires
            pp == rp * rp,
            qq == rq * rq,
            pq == rp * rq,
    ;
    let u = d2 - pp - qq;
    let v = 2 * pq;
    assert((u + v) * (v - u) == v * v - u * u) by (nonlinear_arith);
    assert(v * v == 4 * (pq * pq)) by (nonlinear_arith)
        requires
            v == 2 * pq,
    ;
    let w = d2 + pp - qq;
    assert(w * w == u * u + 4 * (d2 * pp) - 4 * (pp * qq)) by (nonlinear_arith)
        requires
            u == d2 - pp - qq,
            w == d2 + pp - qq,
    ;
    assert(4 * d2 * pp == 4 * (d2 * pp)) by (nonlinear_arith);
}

/// Each crossing point lies on both circles, as nearly as whole coordinates allow: the square
/// of its distance from either centre lies between `r^2 - 4 r` and `r^2 + 3 r + 2` for that
/// circle's radius `r`. So the distance is less than `r + 2` and, from `r = 5` on, more than
/// `r - 3`.
pub proof fn lemma_crossing_on_both_circles(p: Coord, rp: int, q: Coord, rq: int, upper: bool)
    requires
        circles_meet(p, rp, q, rq),
    ensures
        rp * rp - 4 * rp <= dist_sq(p, crossing(p, rp, q, rq, upper)) <= rp * rp + 3 * rp + 2,
        rq * rq - 4 * rq <= dist_sq(q, crossing(p, rp, q, rq, upper)) <= rq * rq + 3 * rq + 2,
{
    let dx = q.x - p.x;
    let dy = q.y - p.y;
    let d2 = dist_sq(p, q);
    let w = d2 + rp * rp - rq * rq;
    let v = d2 + rq * rq - rp * rp;
    let k = chord_term(p, rp, q, rq);
    let s = floor_sqrt(k);
    let dd = 2 * d2;
    let x = crossing(p, rp, q, rq, upper);
    assert(rp >= 0 && rq >= 0) by (nonlinear_arith)
        requires
            rp + rq >= 0,
            (rp - rq) * (rp - rq) <= (rp + rq) * (rp + rq),
    ;
    assert(k >= 0) by (nonlinear_arith)
        requires
            k == (d2 - (rp - rq) * (rp - rq)) * ((rp + rq) * (rp + rq) - d2),
            (rp - rq) * (rp - rq) <= d2,
            d2 <= (rp + rq) * (rp + rq),
    ;
    lemma_floor_sqrt(k);
    lemma_chord_term_by_radius(d2, rp, rq);
    lemma_chord_term_by_radius(d2, rq, rp);
    assert((rq - rp) * (rq - rp) == (rp - rq) * (rp - rq)) by (nonlinear_arith);
    assert((rq + rp) * (rq + rp) == (rp + rq) * (rp + rq)) by (nonlinear_arith);
    assert(4 * d2 * (rp * rp) - w * w == k);
    assert(4 * d2 * (rq * rq) - v * v == k);
    // the offsets from `p` before the division, and the same from `q`
    let n1 = if upper {
        dx * w + s * dy
    } else {
        dx * w - s * dy
    };
    let n2 = if upper {
        dy * w - s * dx
    } else {
        dy * w + s * dx
    };
    let a = n1 / dd;
    let b = n2 / dd;
    vstd::arithmetic::div_mod::lemma_fundamental_div_mod(n1, dd);
    vstd::arithmetic::div_mod::lemma_fundamental_div_mod(n2, dd);
    vstd::arithmetic::div_mod::lemma_mod_bound(n1, dd);
    vstd::arithmetic::div_mod::lemma_mod_bound(n2, dd);
    let e1 = n1 % dd;
    let e2 = n2 % dd;
    assert(x == Coord { x: p.x + a, y: p.y + b });
    if upper {
        lemma_turned_sum_length(dx, dy, w, s);
        lemma_turned_sum_length(-dx, -dy, v, -s);
    } else {
        lemma_turned_sum_length(dx, dy, w, -s);
        lemma_turned_sum_length(-dx, -dy, v, s);
    }
    assert((-s) * (-s) == s * s) by (nonlinear_arith);
    assert((-dx) * (-dx) == dx * dx && (-dy) * (-dy) == dy * dy) by (nonlinear_arith);
    assert((-s) * dy == -(s * dy) && (-s) * dx == -(s * dx)) by (nonlinear_arith);
    assert((-s) * (-dy) == s * dy && (-s) * (-dx) == s * dx) by (nonlinear_arith);
    assert(s * (-dy) == -(s * dy) && s * (-dx) == -(s * dx)) by (nonlinear_arith);
    assert((-dx) * v == -(dx * v) && (-dy) * v == -(dy * v)) by (nonlinear_arith);
    assert(n1 * n1 + n2 * n2 == d2 * (w * w + s * s));
    lemma_rounded_vector_length(n1, n2, a, b, e1, e2, d2, w, s, rp);
    assert(dist_sq(p, x) == a * a + b * b);
    // from `q` the offsets are shorter by the whole way from `p` to `q`
    let m1 = n1 - dd * dx;
    let m2 = n2 - dd * dy;
    assert(m1 == dd * (a - dx) + e1 && m2 == dd * (b - dy) + e2) by (nonlinear_arith)
        requires
            n1 == dd * a + e1,
            n2 == dd * b + e2,
            m1 == n1 - dd * dx,
            m2 == n2 - dd * dy,
    ;
    assert(dx * w - dd * dx == -(dx * v) && dy * w - dd * dy == -(dy * v)) by (nonlinear_arith)
        requires
            w + v == dd,
    ;
    assert(m1 * m1 + m2 * m2 == d2 * (v * v + s * s));
    lemma_rounded_vector_length(m1, m2, a - dx, b - dy, e1, e2, d2, v, s, rq);
    assert(dist_sq(q, x) == (a - dx) * (a - dx) + (b - dy) * (b - dy)) by (nonlinear_arith)
        requires
            dist_sq(q, x) == (x.x - q.x) * (x.x - q.x) + (x.y - q.y) * (x.y - q.y),
            x.x - q.x == a - dx,
            x.y - q.y == b - dy,
    ;
}

} // verus!
