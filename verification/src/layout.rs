//! Points, boxes and quads.
use vstd::prelude::*;

use crate::number::Num;

verus! {

/// A point in CSS pixels.
#[derive(Clone, Copy, Debug, PartialEq, Eq, Structural)]
pub struct Point {
    pub x: Num,
    pub y: Num,
}

impl DeepView for Point {
    type V = Point;

    open spec fn deep_view(&self) -> Point {
        *self
    }
}

/// The four corners of a box of an element.
#[derive(Clone, Copy, Debug, PartialEq, Eq, Structural)]
pub struct ElementQuad {
    pub top_left: Point,
    pub top_right: Point,
    pub bottom_right: Point,
    pub bottom_left: Point,
}

impl DeepView for ElementQuad {
    type V = ElementQuad;

    open spec fn deep_view(&self) -> ElementQuad {
        *self
    }
}

/// The boxes of an element.
#[derive(Clone, Copy, Debug, PartialEq, Eq, Structural)]
pub struct BoxModel {
    pub content: ElementQuad,
    pub padding: ElementQuad,
    pub border: ElementQuad,
    pub margin: ElementQuad,
    pub width: u32,
    pub height: u32,
}

impl DeepView for BoxModel {
    type V = BoxModel;

    open spec fn deep_view(&self) -> BoxModel {
        *self
    }
}

/// The smallest upright rectangle around an element.
#[derive(Clone, Copy, Debug, PartialEq, Eq, Structural)]
pub struct BoundingBox {
    pub x: Num,
    pub y: Num,
    pub width: Num,
    pub height: Num,
}

impl DeepView for BoundingBox {
    type V = BoundingBox;

    open spec fn deep_view(&self) -> BoundingBox {
        *self
    }
}

/// The quad of eight coordinates: of the corners in turn, from the upper left one
/// clockwise, first `x`, then `y`.
pub open spec fn quad_of(numbers: Seq<Num>) -> ElementQuad {
    ElementQuad {
        top_left: Point { x: numbers[0], y: numbers[1] },
        top_right: Point { x: numbers[2], y: numbers[3] },
        bottom_right: Point { x: numbers[4], y: numbers[5] },
        bottom_left: Point { x: numbers[6], y: numbers[7] },
    }
}

impl ElementQuad {
    /// The quad of eight coordinates.
    pub fn from_quad(quad: &Vec<Num>) -> (corners: ElementQuad)
        requires
            quad@.len() == 8,
        ensures
            corners == quad_of(quad@),
    {
        ElementQuad {
            top_left: Point { x: quad[0], y: quad[1] },
            top_right: Point { x: quad[2], y: quad[3] },
            bottom_right: Point { x: quad[4], y: quad[5] },
            bottom_left: Point { x: quad[6], y: quad[7] },
        }
    }
}

} // verus!
