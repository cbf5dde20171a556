//! `==` on numbers held as bit patterns, and on the records made of them.
//!
//! Two values are equal where the numbers are: a NaN equals nothing, and
//! the two zeros equal each other, whatever the patterns say.

use vstd::prelude::*;
use vstd::std_specs::cmp::PartialEqSpecImpl;
use crate::scalar::{LinearColor, Point, Rect, Scalar};
use crate::vertex::{Vertex, VertexBuilder};

verus! {

impl PartialEq for Scalar {
    fn eq(&self, other: &Scalar) -> (r: bool) {
        self.number_eq(*other)
    }
}

impl PartialEqSpecImpl for Scalar {
    open spec fn obeys_eq_spec() -> bool {
        true
    }

    open spec fn eq_spec(&self, other: &Scalar) -> bool {
        self.same_number(*other)
    }
}

impl PartialEq for Point {
    fn eq(&self, other: &Point) -> (r: bool) {
        self.x.number_eq(other.x) && self.y.number_eq(other.y)
    }
}

impl PartialEqSpecImpl for Point {
    open spec fn obeys_eq_spec() -> bool {
        true
    }

    open spec fn eq_spec(&self, other: &Point) -> bool {
        self.x.same_number(other.x) && self.y.same_number(other.y)
    }
}

impl PartialEq for Rect {
    fn eq(&self, other: &Rect) -> (r: bool) {
        self.x.number_eq(other.x) && self.y.number_eq(other.y) && self.w.number_eq(other.w)
            && self.h.number_eq(other.h)
    }
}

impl PartialEqSpecImpl for Rect {
    open spec fn obeys_eq_spec() -> bool {
        true
    }

    open spec fn eq_spec(&self, other: &Rect) -> bool {
        self.x.same_number(other.x) && self.y.same_number(other.y) && self.w.same_number(other.w)
            && self.h.same_number(other.h)
    }
}

impl PartialEq for LinearColor {
    fn eq(&self, other: &LinearColor) -> (r: bool) {
        self.r.number_eq(other.r) && self.g.number_eq(other.g) && self.b.number_eq(other.b)
            && self.a.number_eq(other.a)
    }
}

impl PartialEqSpecImpl for LinearColor {
    open spec fn obeys_eq_spec() -> bool {
        true
    }

    open spec fn eq_spec(&self, other: &LinearColor) -> bool {
        self.r.same_number(other.r) && self.g.same_number(other.g) && self.b.same_number(other.b)
            && self.a.same_number(other.a)
    }
}

impl PartialEq for Vertex {
    fn eq(&self, other: &Vertex) -> (r: bool) {
        self.position[0].number_eq(other.position[0]) && self.position[1].number_eq(
            other.position[1],
        ) && self.uv[0].number_eq(other.uv[0]) && self.uv[1].number_eq(other.uv[1])
            && self.color[0].number_eq(other.color[0]) && self.color[1].number_eq(other.color[1])
            && self.color[2].number_eq(other.color[2]) && self.color[3].number_eq(other.color[3])
    }
}

impl PartialEqSpecImpl for Vertex {
    open spec fn obeys_eq_spec() -> bool {
        true
    }

    open spec fn eq_spec(&self, other: &Vertex) -> bool {
        &&& self.position@[0].same_number(other.position@[0])
        &&& self.position@[1].same_number(other.position@[1])
        &&& self.uv@[0].same_number(other.uv@[0])
        &&& self.uv@[1].same_number(other.uv@[1])
        &&& self.color@[0].same_number(other.color@[0])
        &&& self.color@[1].same_number(other.color@[1])
        &&& self.color@[2].same_number(other.color@[2])
        &&& self.color@[3].same_number(other.color@[3])
    }
}

impl PartialEq for VertexBuilder {
    fn eq(&self, other: &VertexBuilder) -> (r: bool) {
        self.color == other.color
    }
}

impl PartialEqSpecImpl for VertexBuilder {
    open spec fn obeys_eq_spec() -> bool {
        true
    }

    open spec fn eq_spec(&self, other: &VertexBuilder) -> bool {
        self.color.r.same_number(other.color.r) && self.color.g.same_number(other.color.g)
            && self.color.b.same_number(other.color.b) && self.color.a.same_number(other.color.a)
    }
}

} // verus!
