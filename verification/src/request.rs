//! A diagram from what a request supplies: titles, and optional numbers with fixed defaults.

use vstd::prelude::*;
use crate::diagram::{DiagramView, VennDiagram};

verus! {

/// The radius where none is given: 160 user units.
pub const DEFAULT_RADIUS: i32 = 160_000;

/// The canvas height and width where none is given: 800 user units.
pub const DEFAULT_SIZE: i32 = 800_000;

/// The overlap where none is given: 40 user units.
pub const DEFAULT_OVERLAP: i32 = 40_000;

/// The given number, or `default` where there is none.
pub open spec fn number_or(given: Option<i32>, default: int) -> int {
    match given {
        Some(n) => n as int,
        None => default,
    }
}

/// The given title, or no title where there is none.
pub open spec fn title_or_none(given: Option<String>) -> Seq<char> {
    match given {
        Some(t) => t@,
        None => Seq::empty(),
    }
}

/// The diagram of a request: a square canvas of the given size, centred on its middle, with the
/// defaults in place of the numbers that were not given.
pub open spec fn requested(
    first: Seq<char>,
    second: Seq<char>,
    third: Seq<char>,
    one_two: Seq<char>,
    one_three: Seq<char>,
    two_three: Seq<char>,
    middle: Seq<char>,
    radius: Option<i32>,
    size: Option<i32>,
    overlap: Option<i32>,
) -> DiagramView {
    DiagramView {
        height: number_or(size, DEFAULT_SIZE as int),
        width: number_or(size, DEFAULT_SIZE as int),
        center: number_or(size, DEFAULT_SIZE as int) / 2,
        overlap: number_or(overlap, DEFAULT_OVERLAP as int),
        radius: number_or(radius, DEFAULT_RADIUS as int),
        first_title: first,
        second_title: second,
        central_title: middle,
        third_title: third,
        first_third_title: one_three,
        second_third_title: two_three,
        first_second_title: one_two,
    }
}

fn or_default(given: Option<i32>, default: i32) -> (n: i32)
    ensures
        n as int == number_or(given, default as int),
{
    match given {
        Some(n) => n,
        None => default,
    }
}

fn or_no_title(given: Option<String>) -> (t: String)
    ensures
        t@ == title_or_none(given),
{
    match given {
        Some(t) => t,
        None => String::new(),
    }
}

/// Half of `size`, rounded down.
fn half(size: i32) -> (h: i32)
    ensures
        h as int == size as int / 2,
{
    if size >= 0 {
        size / 2
    } else {
        (-((1 - size as i64) / 2)) as i32
    }
}

fn assemble(
    first: String,
    second: String,
    third: String,
    one_two: String,
    one_three: String,
    two_three: String,
    middle: String,
    radius: Option<i32>,
    size: Option<i32>,
    overlap: Option<i32>,
) -> (d: VennDiagram)
    ensures
        d@ == requested(
            first@,
            second@,
            third@,
            one_two@,
            one_three@,
            two_three@,
            middle@,
            radius,
            size,
            overlap,
        ),
{
    let side = or_default(size, DEFAULT_SIZE);
    VennDiagram {
        height: side,
        width: side,
        center: half(side),
        overlap: or_default(overlap, DEFAULT_OVERLAP),
        radius: or_default(radius, DEFAULT_RADIUS),
        first_title: first,
        second_title: second,
        central_title: middle,
        third_title: third,
        first_third_title: one_three,
        second_third_title: two_three,
        first_second_title: one_two,
    }
}

/// The diagram of a request for two circles: the third circle and the regions that it would
/// bound have no titles.
pub fn venn_2(
    first: String,
    second: String,
    one_two: String,
    radius: Option<i32>,
    size: Option<i32>,
    overlap: Option<i32>,
) -> (d: VennDiagram)
    ensures
        d@ == requested(
            first@,
            second@,
            Seq::empty(),
            one_two@,
            Seq::empty(),
            Seq::empty(),
            Seq::empty(),
            radius,
            size,
            overlap,
        ),
{
    assemble(
        first,
        second,
        String::new(),
        one_two,
        String::new(),
        String::new(),
        String::new(),
        radius,
        size,
        overlap,
    )
}

/// The diagram of a request for two or three circles: a title that was not given is no title.
pub fn venn(
    first: String,
    second: String,
    third: Option<String>,
    one_two: Option<String>,
    one_three: Option<String>,
    two_three: Option<String>,
    middle: Option<String>,
    radius: Option<i32>,
    size: Option<i32>,
    overlap: Option<i32>,
) -> (d: VennDiagram)
    ensures
        d@ == requested(
            first@,
            second@,
            title_or_none(third),
            title_or_none(one_two),
            title_or_none(one_three),
            title_or_none(two_three),
            title_or_none(middle),
            radius,
            size,
            overlap,
        ),
{
    assemble(
        first,
        second,
        or_no_title(third),
        or_no_title(one_two),
        or_no_title(one_three),
        or_no_title(two_three),
        or_no_title(middle),
        radius,
        size,
        overlap,
    )
}

} // verus!
