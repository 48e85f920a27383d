//! The scrolling layer. For measurement it is transparent: it reports its
//! child's size; the viewport is imposed from outside.
use vstd::prelude::*;
use crate::base::Layer;

verus! {

pub struct Scroll<E> {
    element: E,
}

impl<E> Scroll<E> {
    pub fn new(element: E) -> (r: Scroll<E>)
        ensures
            r.child() == element,
    {
        Scroll { element }
    }
}

impl<E> Layer<E> for Scroll<E> {
    closed spec fn child(&self) -> E {
        self.element
    }

    fn inner(&self) -> (r: &E) {
        &self.element
    }
}

/// The axis along which a view scrolls.
#[derive(Debug, Clone, Copy, PartialEq, Eq, Structural)]
pub enum Direction {
    Horizontal,
    Vertical,
}

} // verus!
