//! Layout and rendering of Venn diagrams of two or three circles.
//!
//! A [`VennDiagram`] names the canvas, the circles' shared radius, how far the first two
//! circles are pushed into each other, and a title for each region. From it follow the
//! circles' centres, an anchor for the label of every region that has a title, and an SVG
//! document that shows both.
//!
//! Every length and coordinate is a whole number of thousandths of a user unit. The geometry
//! is integer arithmetic throughout, square roots and quotients rounded down, and the document
//! writes each number with three decimals at most.

mod arith;
pub mod circles;
pub mod decimal;
pub mod diagram;
pub mod escape;
pub mod layout;
pub mod point;
pub mod request;
pub mod sqrt;
pub mod svg;

pub use crate::diagram::VennDiagram;
pub use crate::layout::{Circle, Layout, Text};
pub use crate::point::Point;
