//! The diagram as an SVG document.

use vstd::prelude::*;
use vstd::string::StringExecFns;
use crate::decimal::{decimal, format_decimal};
use crate::diagram::VennDiagram;
use crate::escape::{escaped, html_escape};
use crate::layout::{Circle, CircleView, Text, TextView};

verus! {

/// The title that every diagram's document carries.
pub const DOCUMENT_TITLE: &'static str = "Venn Diagram showing overlap";

/// The document up to the canvas height.
pub const DOCUMENT_OPEN: &'static str =
    "<?xml\n    version=\"1.0\"\n    encoding=\"UTF-8\"\n    standalone=\"yes\"\n  ?>\n  <!DOCTYPE svg PUBLIC \"-//W3C//DTD SVG 1.0//EN\" \"http://www.w3.org/TR/2001/REC-SVG-20010904/DTD/svg10.dtd\">\n\n  <svg\n    height=\"";

/// From the canvas height to the canvas width.
pub const DOCUMENT_WIDTH: &'static str = "\"\n    width=\"";

/// From the canvas width to the title.
pub const DOCUMENT_TITLE_OPEN: &'static str =
    "\"\n    xmlns=\"http://www.w3.org/2000/svg\"\n    xmlns:svg=\"http://www.w3.org/2000/svg\"\n    xmlns:xlink=\"http://www.w3.org/1999/xlink\"\n  >\n    <title>\n      ";

/// From the title to the first circle.
pub const DOCUMENT_TITLE_CLOSE: &'static str = "\n    </title>\n\n";

/// Between the last circle and the first label.
pub const DOCUMENT_MIDDLE: &'static str = "\n";

/// The document after the last label.
pub const DOCUMENT_CLOSE: &'static str = "  </svg>\n";

/// A circle element up to the centre's `x`.
pub const CIRCLE_OPEN: &'static str = "      <circle\n        cx=\"";

/// From a circle's `x` to its `y`.
pub const CIRCLE_CY: &'static str = "\"\n        cy=\"";

/// From a circle's `y` to its radius.
pub const CIRCLE_R: &'static str = "\"\n        r=\"";

/// From a circle's radius to its fill colour.
pub const CIRCLE_FILL: &'static str = "\"\n        style=\"fill-opacity: 0.5; fill: ";

/// A circle element after the fill colour.
pub const CIRCLE_CLOSE: &'static str = "\"\n      />\n";

/// A text element up to the anchor's `x`.
pub const TEXT_OPEN: &'static str = "      <text x=\"";

/// From a label's `x` to its `y`.
pub const TEXT_Y: &'static str = "\" y=\"";

/// From a label's `y` to its body.
pub const TEXT_BODY: &'static str = "\" dominant-baseline=\"middle\" text-anchor=\"middle\">";

/// A text element after the body.
pub const TEXT_CLOSE: &'static str = "</text>\n";

/// The element that draws one circle: centre, radius and a half-opaque fill of its colour.
pub open spec fn circle_markup(c: CircleView) -> Seq<char> {
    CIRCLE_OPEN@ + decimal(c.centre.x) + CIRCLE_CY@ + decimal(c.centre.y) + CIRCLE_R@ + decimal(
        c.r,
    ) + CIRCLE_FILL@ + escaped(c.color) + CIRCLE_CLOSE@
}

/// The elements of the circles, one after the other.
pub open spec fn circles_markup(circles: Seq<CircleView>) -> Seq<char>
    decreases circles.len(),
{
    if circles.len() == 0 {
        Seq::empty()
    } else {
        circles_markup(circles.drop_last()) + circle_markup(circles.last())
    }
}

/// The element that draws one label, centred on its anchor both ways.
pub open spec fn text_markup(t: TextView) -> Seq<char> {
    TEXT_OPEN@ + decimal(t.centre.x) + TEXT_Y@ + decimal(t.centre.y) + TEXT_BODY@ + escaped(t.body)
        + TEXT_CLOSE@
}

/// The elements of the labels, one after the other.
pub open spec fn texts_markup(texts: Seq<TextView>) -> Seq<char>
    decreases texts.len(),
{
    if texts.len() == 0 {
        Seq::empty()
    } else {
        texts_markup(texts.drop_last()) + text_markup(texts.last())
    }
}

/// The whole document: the fixed opening with the canvas size and the title, one element for
/// each circle, one for each label, and the fixed close.
pub open spec fn document(
    height: int,
    width: int,
    circles: Seq<CircleView>,
    texts: Seq<TextView>,
    title: Seq<char>,
) -> Seq<char> {
    DOCUMENT_OPEN@ + decimal(height) + DOCUMENT_WIDTH@ + decimal(width) + DOCUMENT_TITLE_OPEN@
        + escaped(title) + DOCUMENT_TITLE_CLOSE@ + circles_markup(circles) + DOCUMENT_MIDDLE@
        + texts_markup(texts) + DOCUMENT_CLOSE@
}

/// Appends the element of one circle to `out`.
fn push_circle(out: &mut String, circle: &Circle)
    ensures
        final(out)@ == old(out)@ + circle_markup(circle@),
{
    out.append(CIRCLE_OPEN);
    out.append(format_decimal(circle.centre.x).as_str());
    out.append(CIRCLE_CY);
    out.append(format_decimal(circle.centre.y).as_str());
    out.append(CIRCLE_R);
    out.append(format_decimal(circle.r as i64).as_str());
    out.append(CIRCLE_FILL);
    out.append(html_escape(circle.color.as_str()).as_str());
    out.append(CIRCLE_CLOSE);
    assert(out@ =~= old(out)@ + circle_markup(circle@));
}

/// Appends the element of one label to `out`.
fn push_text(out: &mut String, text: &Text)
    ensures
        final(out)@ == old(out)@ + text_markup(text@),
{
    out.append(TEXT_OPEN);
    out.append(format_decimal(text.centre.x).as_str());
    out.append(TEXT_Y);
    out.append(format_decimal(text.centre.y).as_str());
    out.append(TEXT_BODY);
    out.append(html_escape(text.body.as_str()).as_str());
    out.append(TEXT_CLOSE);
    assert(out@ =~= old(out)@ + text_markup(text@));
}

/// Writes the document that shows `circles` and `texts` on a canvas of the given size, under
/// the given title.
pub fn render(height: i32, width: i32, circles: &Vec<Circle>, texts: &Vec<Text>, title: &str) -> (doc:
    String)
    ensures
        doc@ == document(
            height as int,
            width as int,
            circles.deep_view(),
            texts.deep_view(),
            title@,
        ),
{
    let mut out = String::new();
    out.append(DOCUMENT_OPEN);
    out.append(format_decimal(height as i64).as_str());
    out.append(DOCUMENT_WIDTH);
    out.append(format_decimal(width as i64).as_str());
    out.append(DOCUMENT_TITLE_OPEN);
    out.append(html_escape(title).as_str());
    out.append(DOCUMENT_TITLE_CLOSE);
    let ghost head = out@;
    assert(head =~= DOCUMENT_OPEN@ + decimal(height as int) + DOCUMENT_WIDTH@ + decimal(
        width as int,
    ) + DOCUMENT_TITLE_OPEN@ + escaped(title@) + DOCUMENT_TITLE_CLOSE@);
    let mut i: usize = 0;
    while i < circles.len()
        invariant
            i <= circles.len(),
            out@ == head + circles_markup(circles.deep_view().take(i as int)),
        decreases circles.len() - i,
    {
        push_circle(&mut out, &circles[i]);
        proof {
            let now = circles.deep_view().take(i as int + 1);
            assert(now.drop_last() =~= circles.deep_view().take(i as int));
            assert(now.last() == circles[i as int]@);
        }
        i += 1;
    }
    assert(circles.deep_view().take(i as int) =~= circles.deep_view());
    out.append(DOCUMENT_MIDDLE);
    let ghost upper = out@;
    let mut j: usize = 0;
    while j < texts.len()
        invariant
            j <= texts.len(),
            out@ == upper + texts_markup(texts.deep_view().take(j as int)),
        decreases texts.len() - j,
    {
        push_text(&mut out, &texts[j]);
        proof {
            let now = texts.deep_view().take(j as int + 1);
            assert(now.drop_last() =~= texts.deep_view().take(j as int));
            assert(now.last() == texts[j as int]@);
        }
        j += 1;
    }
    assert(texts.deep_view().take(j as int) =~= texts.deep_view());
    out.append(DOCUMENT_CLOSE);
    assert(out@ =~= document(
        height as int,
        width as int,
        circles.deep_view(),
        texts.deep_view(),
        title@,
    ));
    out
}

impl VennDiagram {
    /// Writes the diagram as an SVG document.
    pub fn to_svg(self) -> (doc: String)
        ensures
            doc@ == document(
                self@.height,
                self@.width,
                self@.circles(),
                self@.texts(),
                DOCUMENT_TITLE@,
            ),
    {
        let circles = self.circles();
        let texts = self.texts();
        render(self.height, self.width, &circles, &texts, DOCUMENT_TITLE)
    }
}

} // verus!
