//! The seam through which an outside driver changes a live tree.
use vstd::prelude::*;

verus! {

/// An element with lifecycle hooks; both do nothing unless overridden.
pub trait Alive {
    /// Called once when the element enters a live tree.
    fn init(&mut self) {
    }

    /// Called when outside state that the element depends on has changed.
    fn refresh(&mut self) {
    }
}

/// A one-shot change, consumed when it is applied to a live element.
pub trait Update {
    type Element: Alive;

    fn apply(self, alive: &mut Self::Element);
}

} // verus!
