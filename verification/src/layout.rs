//! What is drawn: the circles with their fixed colours, and one label for each region that has
//! a title, in a fixed order.

use vstd::prelude::*;
use crate::diagram::{DiagramView, VennDiagram};
use crate::point::{dist_sq, Coord, Point};
use crate::sqrt::{floor_sqrt, lemma_floor_sqrt};

verus! {

/// The fill colour of the first circle.
pub const FIRST_COLOR: &'static str = "#FF00D9";

/// The fill colour of the second circle.
pub const SECOND_COLOR: &'static str = "#14CCC0";

/// The fill colour of the third circle.
pub const THIRD_COLOR: &'static str = "#FFD20E";

/// A circle to draw.
#[derive(Debug, PartialEq, Eq)]
pub struct Circle {
    pub centre: Point,
    pub r: i32,
    pub color: String,
}

/// What a [`Circle`] stands for.
pub struct CircleView {
    pub centre: Coord,
    pub r: int,
    pub color: Seq<char>,
}

impl Clone for Circle {
    fn clone(&self) -> (c: Circle)
        ensures
            c@ == self@,
    {
        Circle { centre: self.centre, r: self.r, color: self.color.clone() }
    }
}

impl View for Circle {
    type V = CircleView;

    open spec fn view(&self) -> CircleView {
        CircleView { centre: self.centre@, r: self.r as int, color: self.color@ }
    }
}

impl DeepView for Circle {
    type V = CircleView;

    open spec fn deep_view(&self) -> CircleView {
        self@
    }
}

/// A label to draw: `body`, centred on `centre`.
#[derive(Debug, PartialEq, Eq)]
pub struct Text {
    pub centre: Point,
    pub body: String,
}

/// What a [`Text`] stands for.
pub struct TextView {
    pub centre: Coord,
    pub body: Seq<char>,
}

impl Clone for Text {
    fn clone(&self) -> (t: Text)
        ensures
            t@ == self@,
    {
        Text { centre: self.centre, body: self.body.clone() }
    }
}

impl View for Text {
    type V = TextView;

    open spec fn view(&self) -> TextView {
        TextView { centre: self.centre@, body: self.body@ }
    }
}

impl DeepView for Text {
    type V = TextView;

    open spec fn deep_view(&self) -> TextView {
        self@
    }
}

/// The circles and the labels of one diagram.
#[derive(Debug, PartialEq, Eq)]
pub struct Layout {
    pub circles: Vec<Circle>,
    pub texts: Vec<Text>,
}

/// The fill colour of the circle with the given ordinal, counted from 1.
pub open spec fn circle_color(ordinal: int) -> Seq<char> {
    if ordinal == 1 {
        FIRST_COLOR@
    } else if ordinal == 2 {
        SECOND_COLOR@
    } else {
        THIRD_COLOR@
    }
}

/// The label of a region: none where the region has no title.
pub open spec fn label(title: Seq<char>, at: Coord) -> Seq<TextView> {
    if title.len() == 0 {
        Seq::empty()
    } else {
        seq![TextView { centre: at, body: title }]
    }
}

impl DiagramView {
    /// The circles: the first two, and the third where it has a title. All have the diagram's
    /// radius, and each has the colour of its ordinal.
    pub open spec fn circles(self) -> Seq<CircleView> {
        let first = CircleView { centre: self.centre_one(), r: self.radius, color: circle_color(1) };
        let second = CircleView { centre: self.centre_two(), r: self.radius, color: circle_color(2) };
        let third = CircleView { centre: self.centre_three(), r: self.radius, color: circle_color(3) };
        if self.only_two_circles() {
            seq![first, second]
        } else {
            seq![first, second, third]
        }
    }

    /// The labels of the regions of the first two circles: first circle, second circle, and
    /// what the two share.
    pub open spec fn pair_texts(self) -> Seq<TextView> {
        label(self.first_title, self.centre_one_text())
            + label(self.second_title, self.centre_two_text())
            + label(self.first_second_title, self.one_two_text())
    }

    /// The labels of the regions that the third circle bounds: third circle, what all three
    /// share, what the first and third share, what the second and third share.
    pub open spec fn third_texts(self) -> Seq<TextView> {
        label(self.third_title, self.centre_three_text())
            + label(self.central_title, self.centre_text())
            + label(self.first_third_title, self.one_three_text())
            + label(self.second_third_title, self.two_three_text())
    }

    /// A label for every region, in the fixed order.
    pub open spec fn all_texts(self) -> Seq<TextView> {
        seq![
            TextView { centre: self.centre_one_text(), body: self.first_title },
            TextView { centre: self.centre_two_text(), body: self.second_title },
            TextView { centre: self.one_two_text(), body: self.first_second_title },
            TextView { centre: self.centre_three_text(), body: self.third_title },
            TextView { centre: self.centre_text(), body: self.central_title },
            TextView { centre: self.one_three_text(), body: self.first_third_title },
            TextView { centre: self.two_three_text(), body: self.second_third_title },
        ]
    }

    /// The labels, in their fixed order. A region without a title has none, and without a
    /// third circle the regions that it would bound have none either.
    pub open spec fn texts(self) -> Seq<TextView> {
        if self.only_two_circles() {
            self.pair_texts()
        } else {
            self.pair_texts() + self.third_texts()
        }
    }
}

/// Appends the label of a region to `texts`, if the region has a title.
fn push_label(texts: &mut Vec<Text>, title: &String, at: Point)
    ensures
        final(texts).deep_view() == old(texts).deep_view() + label(title@, at@),
{
    if !title.as_str().is_empty() {
        texts.push(Text { centre: at, body: title.clone() });
        assert(texts.deep_view() =~= old(texts).deep_view() + label(title@, at@));
    } else {
        assert(texts.deep_view() =~= old(texts).deep_view() + label(title@, at@));
    }
}

impl VennDiagram {
    /// The circles to draw.
    pub fn circles(&self) -> (r: Vec<Circle>)
        ensures
            r.deep_view() == self@.circles(),
    {
        let mut circles: Vec<Circle> = Vec::new();
        circles.push(Circle { centre: self.centre_one(), r: self.radius, color: FIRST_COLOR.to_owned() });
        circles.push(Circle { centre: self.centre_two(), r: self.radius, color: SECOND_COLOR.to_owned() });
        if !self.only_two_circles() {
            circles.push(
                Circle { centre: self.centre_three(), r: self.radius, color: THIRD_COLOR.to_owned() },
            );
        }
        assert(circles.deep_view() =~= self@.circles());
        circles
    }

    /// The labels to draw.
    pub fn texts(&self) -> (r: Vec<Text>)
        ensures
            r.deep_view() == self@.texts(),
    {
        let mut texts: Vec<Text> = Vec::new();
        assert(texts.deep_view() =~= Seq::<TextView>::empty());
        push_label(&mut texts, &self.first_title, self.centre_one_text());
        push_label(&mut texts, &self.second_title, self.centre_two_text());
        push_label(&mut texts, &self.first_second_title, self.one_two_text());
        assert(texts.deep_view() =~= self@.pair_texts());
        if !self.only_two_circles() {
            push_label(&mut texts, &self.third_title, self.centre_three_text());
            push_label(&mut texts, &self.central_title, self.centre_text());
            push_label(&mut texts, &self.first_third_title, self.one_three_text());
            push_label(&mut texts, &self.second_third_title, self.two_three_text());
            assert(texts.deep_view() =~= self@.pair_texts() + self@.third_texts());
        }
        texts
    }

    /// The circles and the labels to draw.
    pub fn layout(&self) -> (r: Layout)
        ensures
            r.circles.deep_view() == self@.circles(),
            r.texts.deep_view() == self@.texts(),
    {
        Layout { circles: self.circles(), texts: self.texts() }
    }
}

/// Where the circles are not pushed into each other, each circle's own label is anchored on
/// that circle's centre.
pub proof fn lemma_own_labels_on_centres(d: DiagramView)
    requires
        d.overlap <= 0,
    ensures
        d.centre_one_text() == d.centre_one(),
        d.centre_two_text() == d.centre_two(),
        d.centre_three_text() == d.centre_three(),
{
}

/// The first two centres mirror each other in the vertical line through `center`, whatever the
/// overlap: they are level, and as far left of the line as right of it.
pub proof fn lemma_centres_mirrored(d: DiagramView)
    ensures
        d.centre_one().x - d.center == d.center - d.centre_two().x,
        d.centre_one().y == d.centre_two().y,
{
}

/// The three centres are the corners of a triangle of equal sides, as nearly as whole
/// coordinates allow: the first two are `2 (radius - overlap)` apart, and the third is equally
/// far from both, that far at most and short of it by less than the rounding of its height.
pub proof fn lemma_centres_equally_spaced(d: DiagramView)
    ensures
        ({
            let side = 2 * (d.radius - d.overlap);
            let rise = d.center - d.centre_three().y;
            &&& dist_sq(d.centre_one(), d.centre_two()) == side * side
            &&& dist_sq(d.centre_one(), d.centre_three()) == dist_sq(
                d.centre_two(),
                d.centre_three(),
            )
            &&& 0 <= rise
            &&& side * side - 2 * rise - 1 < dist_sq(d.centre_one(), d.centre_three()) <= side
                * side
        }),
{
    let h = d.radius - d.overlap;
    let side = 2 * h;
    let rise = d.center - d.centre_three().y;
    assert(side / 2 == h);
    assert(side * side - h * h == 3 * (h * h) && 3 * (h * h) >= 0 && (-side) * (-side) == side
        * side && (-h) * (-h) == h * h && side * side == 4 * (h * h)) by (nonlinear_arith)
        requires
            side == 2 * h,
    ;
    lemma_floor_sqrt(3 * (h * h));
    assert(rise == floor_sqrt(3 * (h * h)));
    assert((rise + 1) * (rise + 1) == rise * rise + 2 * rise + 1) by (nonlinear_arith);
    assert((-rise) * (-rise) == rise * rise) by (nonlinear_arith);
    assert(dist_sq(d.centre_one(), d.centre_three()) == h * h + rise * rise);
    assert(dist_sq(d.centre_two(), d.centre_three()) == h * h + rise * rise);
}

/// Without a title for a third circle there are two circles, and the labels are those of the
/// first circle, the second circle and what the two share, as far as they have titles: at most
/// three, none of them from a region that a third circle would bound. Where the first two
/// circles have titles there are two or three labels, three exactly when what the two share has
/// a title.
pub proof fn lemma_two_circle_layout(d: DiagramView)
    requires
        d.third_title.len() == 0,
    ensures
        d.circles().len() == 2,
        d.texts() == label(d.first_title, d.centre_one_text()) + label(
            d.second_title,
            d.centre_two_text(),
        ) + label(d.first_second_title, d.one_two_text()),
        d.texts().len() <= 3,
        forall|i: int|
            0 <= i < d.texts().len() ==> (#[trigger] d.texts()[i]).body == d.first_title
                || d.texts()[i].body == d.second_title || d.texts()[i].body
                == d.first_second_title,
        d.first_title.len() > 0 && d.second_title.len() > 0 ==> 2 <= d.texts().len() <= 3,
        d.first_title.len() > 0 && d.second_title.len() > 0 ==> (d.texts().len() == 3
            <==> d.first_second_title.len() > 0),
{
}

/// With a title for every region there are three circles and seven labels, in this order: first
/// circle, second circle, what the first two share, third circle, what all three share, what
/// the first and third share, what the second and third share.
pub proof fn lemma_three_circle_layout(d: DiagramView)
    requires
        d.first_title.len() > 0,
        d.second_title.len() > 0,
        d.first_second_title.len() > 0,
        d.third_title.len() > 0,
        d.central_title.len() > 0,
        d.first_third_title.len() > 0,
        d.second_third_title.len() > 0,
    ensures
        d.circles().len() == 3,
        d.texts() == d.all_texts(),
{
    assert(d.texts() =~= d.all_texts());
}

/// No label is ever empty, and every label carries one of the diagram's titles.
pub proof fn lemma_no_empty_label(d: DiagramView, i: int)
    requires
        0 <= i < d.texts().len(),
    ensures
        d.texts()[i].body.len() > 0,
{
}

} // verus!
