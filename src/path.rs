//! Strokes and the border layer that draws one round its child.
use vstd::prelude::*;
use crate::base::{Layer, Shader};
use crate::math::{Positive, Unsigned};

verus! {

pub struct Stroke {
    pub width: Positive,
    pub shader: Shader,
    pub cap: Cap,
    pub join: Join,
}

#[derive(Debug, Clone, Copy, PartialEq, Eq, Structural)]
pub enum Cap {
    Flat,
    Round,
    Square,
}

#[derive(Debug, Clone, Copy, PartialEq, Eq)]
pub enum Join {
    Miter(Unsigned),
    Round,
    Bevel,
}

/// Draws a stroke outside its child's box, on every side: it measures as its
/// child plus twice the stroke's width on each axis.
pub struct Border<E> {
    element: E,
    stroke: Stroke,
}

impl<E> Border<E> {
    pub closed spec fn spec_stroke(&self) -> Stroke {
        self.stroke
    }

    pub fn new(element: E, stroke: Stroke) -> (r: Border<E>)
        ensures
            r.child() == element,
            r.spec_stroke() == stroke,
    {
        Border { element, stroke }
    }

    pub fn stroke(&self) -> (r: &Stroke)
        ensures
            *r == self.spec_stroke(),
    {
        &self.stroke
    }
}

impl<E> Layer<E> for Border<E> {
    closed spec fn child(&self) -> E {
        self.element
    }

    fn inner(&self) -> (r: &E) {
        &self.element
    }
}

} // verus!
