//! The diagram's description and the geometry derived from it: where the circles sit and where
//! each region's label is anchored.

use vstd::prelude::*;
use crate::circles::intersection;
use crate::point::{centroid, midpoint, Coord, Point};
use crate::sqrt::{floor_sqrt, isqrt, lemma_floor_sqrt};

verus! {

/// What is to be drawn: the canvas, the shared radius, how far the first two circles are pushed
/// into each other, and a title for each region. Lengths are in thousandths of a user unit.
///
/// The third circle is there exactly when `third_title` is not empty. Without it the titles
/// of the regions it would bound are ignored.
#[derive(Debug)]
pub struct VennDiagram {
    pub height: i32,
    pub width: i32,
    /// The coordinate, horizontal and vertical alike, about which the first two circles sit.
    pub center: i32,
    pub overlap: i32,
    pub radius: i32,
    pub first_title: String,
    pub second_title: String,
    pub central_title: String,
    pub third_title: String,
    pub first_third_title: String,
    pub second_third_title: String,
    pub first_second_title: String,
}

/// What a [`VennDiagram`] stands for.
pub struct DiagramView {
    pub height: int,
    pub width: int,
    pub center: int,
    pub overlap: int,
    pub radius: int,
    pub first_title: Seq<char>,
    pub second_title: Seq<char>,
    pub central_title: Seq<char>,
    pub third_title: Seq<char>,
    pub first_third_title: Seq<char>,
    pub second_third_title: Seq<char>,
    pub first_second_title: Seq<char>,
}

impl Clone for VennDiagram {
    fn clone(&self) -> (d: VennDiagram)
        ensures
            d@ == self@,
    {
        VennDiagram {
            height: self.height,
            width: self.width,
            center: self.center,
            overlap: self.overlap,
            radius: self.radius,
            first_title: self.first_title.clone(),
            second_title: self.second_title.clone(),
            central_title: self.central_title.clone(),
            third_title: self.third_title.clone(),
            first_third_title: self.first_third_title.clone(),
            second_third_title: self.second_third_title.clone(),
            first_second_title: self.first_second_title.clone(),
        }
    }
}

impl View for VennDiagram {
    type V = DiagramView;

    open spec fn view(&self) -> DiagramView {
        DiagramView {
            height: self.height as int,
            width: self.width as int,
            center: self.center as int,
            overlap: self.overlap as int,
            radius: self.radius as int,
            first_title: self.first_title@,
            second_title: self.second_title@,
            central_title: self.central_title@,
            third_title: self.third_title@,
            first_third_title: self.first_third_title@,
            second_third_title: self.second_third_title@,
            first_second_title: self.first_second_title@,
        }
    }
}

/// `r` times the cosine of 30 degrees, `sqrt(3) / 2`, rounded toward zero.
pub open spec fn cos30_times(r: int) -> int {
    if r >= 0 {
        floor_sqrt(3 * r * r) / 2
    } else {
        -(floor_sqrt(3 * r * r) / 2)
    }
}

/// `r` times the sine of 30 degrees, `1 / 2`, rounded toward zero.
pub open spec fn sin30_times(r: int) -> int {
    if r >= 0 {
        r / 2
    } else {
        -((-r) / 2)
    }
}

impl DiagramView {
    /// The centre of the first circle: left of `center` by the radius less the overlap.
    pub open spec fn centre_one(self) -> Coord {
        Coord { x: self.center + self.overlap - self.radius, y: self.center }
    }

    /// The centre of the second circle: right of `center` by the radius less the overlap.
    pub open spec fn centre_two(self) -> Coord {
        Coord { x: self.center - self.overlap + self.radius, y: self.center }
    }

    /// The centre of the third circle: above `center`, at the apex of the triangle whose base
    /// joins the first two centres and whose sides are as long as the base.
    pub open spec fn centre_three(self) -> Coord {
        let long_side = 2 * (self.radius - self.overlap);
        Coord {
            x: self.center,
            y: self.center - floor_sqrt(
                long_side * long_side - (long_side / 2) * (long_side / 2),
            ),
        }
    }

    /// The point of the first circle 30 degrees below the horizontal, on the left.
    pub open spec fn circle_one_botleft(self) -> Coord {
        Coord {
            x: self.centre_one().x - cos30_times(self.radius),
            y: self.centre_one().y + sin30_times(self.radius),
        }
    }

    /// The point of the first circle 30 degrees above the horizontal, on the right.
    pub open spec fn circle_one_topright(self) -> Coord {
        Coord {
            x: self.centre_one().x + cos30_times(self.radius),
            y: self.centre_one().y - sin30_times(self.radius),
        }
    }

    /// The point of the second circle 30 degrees below the horizontal, on the right.
    pub open spec fn circle_two_botright(self) -> Coord {
        Coord {
            x: self.centre_two().x + cos30_times(self.radius),
            y: self.centre_two().y + sin30_times(self.radius),
        }
    }

    /// The point of the second circle 30 degrees above the horizontal, on the left.
    pub open spec fn circle_two_topleft(self) -> Coord {
        Coord {
            x: self.centre_two().x - cos30_times(self.radius),
            y: self.centre_two().y - sin30_times(self.radius),
        }
    }

    /// The topmost point of the third circle.
    pub open spec fn circle_three_top(self) -> Coord {
        Coord { x: self.centre_three().x, y: self.centre_three().y - self.radius }
    }

    /// The lowest point of the third circle.
    pub open spec fn circle_three_bot(self) -> Coord {
        Coord { x: self.centre_three().x, y: self.centre_three().y + self.radius }
    }

    /// Only two circles are drawn: there is no title for a third.
    pub open spec fn only_two_circles(self) -> bool {
        self.third_title.len() == 0
    }

    /// The anchor of the label of the region that all three circles share: the unweighted
    /// average of the three centres.
    pub open spec fn centre_text(self) -> Coord {
        centroid(self.centre_one(), self.centre_two(), self.centre_three())
    }

    /// The anchor of the first circle's own label. Without overlap it is the circle's centre.
    /// With two circles it is the centre moved left by the overlap. With three it lies halfway
    /// between the circle's lower left point and the left one of the two points in which the
    /// other two circles cross.
    pub open spec fn centre_one_text(self) -> Coord {
        if self.overlap <= 0 {
            self.centre_one()
        } else if self.only_two_circles() {
            Coord { x: self.centre_one().x - self.overlap, y: self.centre_one().y }
        } else {
            midpoint(
                self.circle_one_botleft(),
                leftmost(
                    intersection(self.centre_two(), self.radius, self.centre_three(), self.radius),
                ),
            )
        }
    }

    /// The anchor of the second circle's own label: as for the first circle, mirrored.
    pub open spec fn centre_two_text(self) -> Coord {
        if self.overlap <= 0 {
            self.centre_two()
        } else if self.only_two_circles() {
            Coord { x: self.centre_two().x + self.overlap, y: self.centre_two().y }
        } else {
            midpoint(
                self.circle_two_botright(),
                rightmost(
                    intersection(self.centre_one(), self.radius, self.centre_three(), self.radius),
                ),
            )
        }
    }

    /// The anchor of the third circle's own label. Without overlap it is the circle's centre.
    /// Otherwise it lies halfway between the circle's topmost point and the upper one of the
    /// two points in which the first two circles cross.
    pub open spec fn centre_three_text(self) -> Coord {
        if self.overlap <= 0 {
            self.centre_three()
        } else {
            midpoint(
                self.circle_three_top(),
                topmost(
                    intersection(self.centre_one(), self.radius, self.centre_two(), self.radius),
                ),
            )
        }
    }

    /// The anchor of the label of the region that the first two circles share. Without
    /// overlap, or with two circles, it lies halfway between the two centres. Otherwise it
    /// lies halfway between the third circle's lowest point and the lower one of the two
    /// points in which the first two circles cross.
    pub open spec fn one_two_text(self) -> Coord {
        if self.overlap <= 0 || self.only_two_circles() {
            midpoint(self.centre_one(), self.centre_two())
        } else {
            midpoint(
                self.circle_three_bot(),
                lowest(
                    intersection(self.centre_two(), self.radius, self.centre_one(), self.radius),
                ),
            )
        }
    }

    /// The anchor of the label of the region that the first and third circles share. Without
    /// overlap it lies halfway between the two centres. Otherwise it lies halfway between the
    /// second circle's upper left point and the upper one of the two points in which the
    /// first and third circles cross.
    pub open spec fn one_three_text(self) -> Coord {
        if self.overlap <= 0 {
            midpoint(self.centre_one(), self.centre_three())
        } else {
            midpoint(
                self.circle_two_topleft(),
                topmost(
                    intersection(self.centre_three(), self.radius, self.centre_one(), self.radius),
                ),
            )
        }
    }

    /// The anchor of the label of the region that the second and third circles share: as for
    /// the first and third, mirrored.
    pub open spec fn two_three_text(self) -> Coord {
        if self.overlap <= 0 {
            midpoint(self.centre_two(), self.centre_three())
        } else {
            midpoint(
                self.circle_one_topright(),
                topmost(
                    intersection(self.centre_three(), self.radius, self.centre_two(), self.radius),
                ),
            )
        }
    }
}

/// Of two points the one further left; the second where neither is.
pub open spec fn leftmost(pair: (Coord, Coord)) -> Coord {
    if pair.0.x < pair.1.x {
        pair.0
    } else {
        pair.1
    }
}

/// Of two points the one further right; the second where neither is.
pub open spec fn rightmost(pair: (Coord, Coord)) -> Coord {
    if pair.0.x > pair.1.x {
        pair.0
    } else {
        pair.1
    }
}

/// Of two points the one higher on the canvas, where `y` grows downward; the second where
/// neither is.
pub open spec fn topmost(pair: (Coord, Coord)) -> Coord {
    if pair.0.y < pair.1.y {
        pair.0
    } else {
        pair.1
    }
}

/// Of two points the one lower on the canvas; the second where neither is.
pub open spec fn lowest(pair: (Coord, Coord)) -> Coord {
    if pair.0.y > pair.1.y {
        pair.0
    } else {
        pair.1
    }
}

/// A point whose coordinates are at most `2^36` in size.
spec fn near_origin(p: Coord) -> bool {
    &&& -0x10_0000_0000 <= p.x <= 0x10_0000_0000
    &&& -0x10_0000_0000 <= p.y <= 0x10_0000_0000
}

/// The square root of `3 h^2` is at most twice the size of `h`.
proof fn lemma_root_of_three_squares(h: int, bound: int)
    requires
        -bound <= h <= bound,
    ensures
        0 <= floor_sqrt(3 * h * h) <= 2 * bound,
{
    let n = 3 * h * h;
    assert(0 <= n <= 3 * (bound * bound)) by (nonlinear_arith)
        requires
            n == 3 * h * h,
            -bound <= h <= bound,
    ;
    lemma_floor_sqrt(n);
    let s = floor_sqrt(n);
    if s > 2 * bound {
        assert(s * s > 3 * (bound * bound)) by (nonlinear_arith)
            requires
                s > 2 * bound,
                0 <= bound,
        ;
    }
}

/// The centres and the points on the circles that the labels are anchored by lie near the
/// origin, whatever the diagram's numbers.
proof fn lemma_points_near_origin(v: &VennDiagram)
    ensures
        near_origin(v@.centre_one()),
        near_origin(v@.centre_two()),
        near_origin(v@.centre_three()),
        near_origin(v@.circle_one_botleft()),
        near_origin(v@.circle_one_topright()),
        near_origin(v@.circle_two_botright()),
        near_origin(v@.circle_two_topleft()),
        near_origin(v@.circle_three_top()),
        near_origin(v@.circle_three_bot()),
{
    let h = v.radius - v.overlap;
    let long_side = 2 * h;
    assert(long_side / 2 == h);
    assert(long_side * long_side - h * h == 3 * h * h) by (nonlinear_arith)
        requires
            long_side == 2 * h,
    ;
    lemma_root_of_three_squares(h, 0x1_0000_0000);
    lemma_root_of_three_squares(v.radius as int, 0x8000_0000);
}

/// Computes `3 h^2` and its square root rounded down.
fn root_of_three_squares(h: i64) -> (s: i64)
    requires
        -0x1_0000_0000 <= h <= 0x1_0000_0000,
    ensures
        s as int == floor_sqrt(3 * h * h),
        0 <= s <= 0x2_0000_0000,
{
    assert(0 <= h * h <= 0x1_0000_0000_0000_0000) by (nonlinear_arith)
        requires
            -0x1_0000_0000 <= h <= 0x1_0000_0000,
    ;
    let sq: u128 = (h as i128 * h as i128) as u128;
    let s: u64 = isqrt(3 * sq);
    proof {
        assert(3 * (h * h) == 3 * h * h) by (nonlinear_arith);
        lemma_root_of_three_squares(h as int, 0x1_0000_0000);
    }
    s as i64
}

/// Computes `r` times the cosine of 30 degrees.
fn cos30(r: i32) -> (c: i64)
    ensures
        c as int == cos30_times(r as int),
        -0x1_0000_0000 <= c <= 0x1_0000_0000,
{
    let s: i64 = root_of_three_squares(r as i64);
    if r >= 0 {
        s / 2
    } else {
        -(s / 2)
    }
}

/// Computes `r` times the sine of 30 degrees.
fn sin30(r: i32) -> (c: i64)
    ensures
        c as int == sin30_times(r as int),
        -0x1_0000_0000 <= c <= 0x1_0000_0000,
{
    if r >= 0 {
        r as i64 / 2
    } else {
        -((-(r as i64)) / 2)
    }
}

impl VennDiagram {
    /// The centre of the first circle.
    pub fn centre_one(&self) -> (p: Point)
        ensures
            p@ == self@.centre_one(),
    {
        proof {
            lemma_points_near_origin(self);
        }
        Point { x: self.center as i64 + self.overlap as i64 - self.radius as i64, y: self.center as i64 }
    }

    /// The centre of the second circle.
    pub fn centre_two(&self) -> (p: Point)
        ensures
            p@ == self@.centre_two(),
    {
        proof {
            lemma_points_near_origin(self);
        }
        Point { x: self.center as i64 - self.overlap as i64 + self.radius as i64, y: self.center as i64 }
    }

    /// The centre of the third circle.
    pub fn centre_three(&self) -> (p: Point)
        ensures
            p@ == self@.centre_three(),
    {
        proof {
            lemma_points_near_origin(self);
        }
        let h: i64 = self.radius as i64 - self.overlap as i64;
        let rise: i64 = root_of_three_squares(h);
        proof {
            let long_side = 2 * (self.radius - self.overlap);
            assert(long_side / 2 == h);
            assert(long_side * long_side - h * h == 3 * h * h) by (nonlinear_arith)
                requires
                    long_side == 2 * h,
            ;
        }
        Point { x: self.center as i64, y: self.center as i64 - rise }
    }

    /// The point of the first circle 30 degrees below the horizontal, on the left.
    pub fn circle_one_botleft(&self) -> (p: Point)
        ensures
            p@ == self@.circle_one_botleft(),
    {
        proof {
            lemma_points_near_origin(self);
        }
        let centre = self.centre_one();
        Point { x: centre.x - cos30(self.radius), y: centre.y + sin30(self.radius) }
    }

    /// The point of the first circle 30 degrees above the horizontal, on the right.
    pub fn circle_one_topright(&self) -> (p: Point)
        ensures
            p@ == self@.circle_one_topright(),
    {
        proof {
            lemma_points_near_origin(self);
        }
        let centre = self.centre_one();
        Point { x: centre.x + cos30(self.radius), y: centre.y - sin30(self.radius) }
    }

    /// The point of the second circle 30 degrees below the horizontal, on the right.
    pub fn circle_two_botright(&self) -> (p: Point)
        ensures
            p@ == self@.circle_two_botright(),
    {
        proof {
            lemma_points_near_origin(self);
        }
        let centre = self.centre_two();
        Point { x: centre.x + cos30(self.radius), y: centre.y + sin30(self.radius) }
    }

    /// The point of the second circle 30 degrees above the horizontal, on the left.
    pub fn circle_two_topleft(&self) -> (p: Point)
        ensures
            p@ == self@.circle_two_topleft(),
    {
        proof {
            lemma_points_near_origin(self);
        }
        let centre = self.centre_two();
        Point { x: centre.x - cos30(self.radius), y: centre.y - sin30(self.radius) }
    }

    /// The topmost point of the third circle.
    pub fn circle_three_top(&self) -> (p: Point)
        ensures
            p@ == self@.circle_three_top(),
    {
        proof {
            lemma_points_near_origin(self);
        }
        let centre = self.centre_three();
        Point { x: centre.x, y: centre.y - self.radius as i64 }
    }

    /// The lowest point of the third circle.
    pub fn circle_three_bot(&self) -> (p: Point)
        ensures
            p@ == self@.circle_three_bot(),
    {
        proof {
            lemma_points_near_origin(self);
        }
        let centre = self.centre_three();
        Point { x: centre.x, y: centre.y + self.radius as i64 }
    }

    /// The anchor of the label of the region that all three circles share.
    pub fn centre_text(&self) -> (p: Point)
        ensures
            p@ == self@.centre_text(),
    {
        self.centre_one().three_way_midpoint(&self.centre_two(), &self.centre_three())
    }

    /// The anchor of the first circle's own label.
    pub fn centre_one_text(&self) -> (p: Point)
        ensures
            p@ == self@.centre_one_text(),
    {
        proof {
            lemma_points_near_origin(self);
        }
        if self.overlap <= 0 {
            return self.centre_one();
        }
        if self.only_two_circles() {
            let centre = self.centre_one();
            return Point { x: centre.x - self.overlap as i64, y: centre.y };
        }
        let (one, other) = self.centre_two().intersect_circle(
            self.centre_three(),
            self.radius,
            self.radius,
        );
        let nearpoint = if one.x < other.x {
            one
        } else {
            other
        };
        self.circle_one_botleft().midway_to(&nearpoint)
    }

    /// The anchor of the second circle's own label.
    pub fn centre_two_text(&self) -> (p: Point)
        ensures
            p@ == self@.centre_two_text(),
    {
        proof {
            lemma_points_near_origin(self);
        }
        if self.overlap <= 0 {
            return self.centre_two();
        }
        if self.only_two_circles() {
            let centre = self.centre_two();
            return Point { x: centre.x + self.overlap as i64, y: centre.y };
        }
        let (one, other) = self.centre_one().intersect_circle(
            self.centre_three(),
            self.radius,
            self.radius,
        );
        let nearpoint = if one.x > other.x {
            one
        } else {
            other
        };
        self.circle_two_botright().midway_to(&nearpoint)
    }

    /// The anchor of the third circle's own label.
    pub fn centre_three_text(&self) -> (p: Point)
        ensures
            p@ == self@.centre_three_text(),
    {
        proof {
            lemma_points_near_origin(self);
        }
        if self.overlap <= 0 {
            return self.centre_three();
        }
        let (one, other) = self.centre_one().intersect_circle(
            self.centre_two(),
            self.radius,
            self.radius,
        );
        let nearpoint = if one.y < other.y {
            one
        } else {
            other
        };
        self.circle_three_top().midway_to(&nearpoint)
    }

    /// The anchor of the label of the region that the first two circles share.
    pub fn one_two_text(&self) -> (p: Point)
        ensures
            p@ == self@.one_two_text(),
    {
        proof {
            lemma_points_near_origin(self);
        }
        if self.overlap <= 0 || self.only_two_circles() {
            return self.centre_one().midway_to(&self.centre_two());
        }
        let (one, other) = self.centre_two().intersect_circle(
            self.centre_one(),
            self.radius,
            self.radius,
        );
        let nearpoint = if one.y > other.y {
            one
        } else {
            other
        };
        self.circle_three_bot().midway_to(&nearpoint)
    }

    /// The anchor of the label of the region that the first and third circles share.
    pub fn one_three_text(&self) -> (p: Point)
        ensures
            p@ == self@.one_three_text(),
    {
        proof {
            lemma_points_near_origin(self);
        }
        if self.overlap <= 0 {
            return self.centre_one().midway_to(&self.centre_three());
        }
        let (one, other) = self.centre_three().intersect_circle(
            self.centre_one(),
            self.radius,
            self.radius,
        );
        let nearpoint = if one.y < other.y {
            one
        } else {
            other
        };
        self.circle_two_topleft().midway_to(&nearpoint)
    }

    /// The anchor of the label of the region that the second and third circles share.
    pub fn two_three_text(&self) -> (p: Point)
        ensures
            p@ == self@.two_three_text(),
    {
        proof {
            lemma_points_near_origin(self);
        }
        if self.overlap <= 0 {
            return self.centre_two().midway_to(&self.centre_three());
        }
        let (one, other) = self.centre_three().intersect_circle(
            self.centre_two(),
            self.radius,
            self.radius,
        );
        let nearpoint = if one.y < other.y {
            one
        } else {
            other
        };
        self.circle_one_topright().midway_to(&nearpoint)
    }

    /// Whether only two circles are drawn.
    pub fn only_two_circles(&self) -> (b: bool)
        ensures
            b == self@.only_two_circles(),
    {
        self.third_title.as_str().is_empty()
    }
}

} // verus!
