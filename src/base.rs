//! The capabilities that elements of a tree share, and the plainest ones.
use vstd::prelude::*;
use crate::math::PercentUnsigned;

verus! {

/// A leaf: an element with no children.
pub trait Widget {
}

/// An element that owns exactly one child and hands it out by reference.
pub trait Layer<E> {
    /// The child that the layer wraps.
    spec fn child(&self) -> E;

    fn inner(&self) -> (r: &E)
        ensures
            *r == self.child(),
    ;
}

/// An element that owns an ordered list of children of one type.
pub trait Composite<E> {
}

/// Deferred construction of an element.
pub trait Builder {
    type Element;

    fn build(self) -> Self::Element;
}

/// The empty leaf; it measures zero by zero.
pub struct Blank;

impl Widget for Blank {
}

#[derive(Debug, Clone, Copy, PartialEq, Eq)]
pub struct Color {
    pub red: PercentUnsigned,
    pub green: PercentUnsigned,
    pub blue: PercentUnsigned,
    pub alpha: PercentUnsigned,
}

/// A paint handle; what it paints is up to the renderer.
#[derive(Clone)]
pub struct Shader;

} // verus!
