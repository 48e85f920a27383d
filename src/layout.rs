//! Layout containers: stacks of children, direction-parameterised arrays,
//! flex weights, alignment and padding.
use vstd::prelude::*;
use crate::base::{Composite, Layer};
use crate::ieee::{
    infinite, is_infinite, is_nan, is_zero, magnitude_of, nan, sign_negative, NEG_ONE, ONE, ZERO,
};
use crate::ieee::lemma_constants;
use crate::math::{PercentSigned, Unsigned};

verus! {

/// How a container folds its children's sizes along one axis.
#[derive(Debug, Clone, Copy, PartialEq, Eq, Structural)]
pub enum Reduction {
    /// The children lie one after another: their sizes add up (`0.0` for none).
    Sum,
    /// The children lie side by side: the largest size wins (`0.0` for none).
    Max,
}

/// A `Row` measures its width as the widest child and its height as the sum.
pub open spec fn row_rules() -> (Reduction, Reduction) {
    (Reduction::Max, Reduction::Sum)
}

/// A `Column` measures its width as the sum and its height as the tallest child.
pub open spec fn column_rules() -> (Reduction, Reduction) {
    (Reduction::Sum, Reduction::Max)
}

/// An `Array` adds up along its direction and takes the largest across it.
pub open spec fn array_rules(d: Direction) -> (Reduction, Reduction) {
    match d {
        Direction::Horizontal => (Reduction::Sum, Reduction::Max),
        Direction::Vertical => (Reduction::Max, Reduction::Sum),
    }
}

/// A horizontal `Array` measures as a `Column` does, a vertical one as a `Row`.
pub proof fn lemma_array_matches_stacks(d: Direction)
    ensures
        d == Direction::Horizontal ==> array_rules(d) == column_rules(),
        d == Direction::Vertical ==> array_rules(d) == row_rules(),
{
}

pub struct Row<E> {
    elements: Vec<E>,
}

impl<E> Row<E> {
    pub closed spec fn children(&self) -> Seq<E> {
        self.elements@
    }

    pub fn new(elements: Vec<E>) -> (r: Row<E>)
        ensures
            r.children() == elements@,
    {
        Row { elements }
    }

    pub fn elements(&self) -> (r: &Vec<E>)
        ensures
            r@ == self.children(),
    {
        &self.elements
    }

    /// How the width, then the height, are folded from the children's.
    pub fn rules(&self) -> (r: (Reduction, Reduction))
        ensures
            r == row_rules(),
    {
        (Reduction::Max, Reduction::Sum)
    }
}

impl<E> Composite<E> for Row<E> {
}

pub struct Column<E> {
    elements: Vec<E>,
}

impl<E> Column<E> {
    pub closed spec fn children(&self) -> Seq<E> {
        self.elements@
    }

    pub fn new(elements: Vec<E>) -> (r: Column<E>)
        ensures
            r.children() == elements@,
    {
        Column { elements }
    }

    pub fn elements(&self) -> (r: &Vec<E>)
        ensures
            r@ == self.children(),
    {
        &self.elements
    }

    /// How the width, then the height, are folded from the children's.
    pub fn rules(&self) -> (r: (Reduction, Reduction))
        ensures
            r == column_rules(),
    {
        (Reduction::Sum, Reduction::Max)
    }
}

impl<E> Composite<E> for Column<E> {
}

#[derive(Debug, Clone, Copy, PartialEq, Eq, Structural)]
pub enum Direction {
    Horizontal,
    Vertical,
}

pub struct Array<E> {
    elements: Vec<E>,
    direction: Direction,
}

impl<E> Array<E> {
    pub closed spec fn children(&self) -> Seq<E> {
        self.elements@
    }

    pub closed spec fn spec_direction(&self) -> Direction {
        self.direction
    }

    pub fn new(elements: Vec<E>, direction: Direction) -> (r: Array<E>)
        ensures
            r.children() == elements@,
            r.spec_direction() == direction,
    {
        Array { elements, direction }
    }

    pub fn elements(&self) -> (r: &Vec<E>)
        ensures
            r@ == self.children(),
    {
        &self.elements
    }

    #[verifier::when_used_as_spec(spec_direction)]
    pub fn direction(&self) -> (r: Direction)
        ensures
            r == self.spec_direction(),
    {
        self.direction
    }

    /// How the width, then the height, are folded from the children's.
    pub fn rules(&self) -> (r: (Reduction, Reduction))
        ensures
            r == array_rules(self.spec_direction()),
    {
        match self.direction {
            Direction::Horizontal => (Reduction::Sum, Reduction::Max),
            Direction::Vertical => (Reduction::Max, Reduction::Sum),
        }
    }
}

impl<E> Composite<E> for Array<E> {
}

/// A flex weight: finite, above zero, with a clear sign bit.
pub open spec fn flex_ok(b: u32) -> bool {
    !is_nan(b) && !sign_negative(b) && !is_zero(b) && !is_infinite(b)
}

/// The error that `Flex::new` reports: NaN, then a set sign bit, then zero,
/// then infinity.
pub open spec fn flex_error(b: u32) -> FlexError {
    if is_nan(b) {
        FlexError::NotANumber
    } else if sign_negative(b) {
        FlexError::Negative
    } else if is_zero(b) {
        FlexError::Zero
    } else {
        FlexError::Infinite
    }
}

/// The share of distributable space that a child asks for.
#[derive(Debug, Clone, Copy, PartialEq, Eq, Structural, PartialOrd)]
pub struct Flex(u32);

impl View for Flex {
    type V = u32;

    closed spec fn view(&self) -> u32 {
        self.0
    }
}

impl Default for Flex {
    fn default() -> (r: Flex)
        ensures
            r@ == ONE,
    {
        proof { lemma_constants(); }
        Flex(ONE)
    }
}

#[derive(Debug, Clone, Copy, PartialEq, Eq, Structural, PartialOrd)]
pub enum FlexError {
    NotANumber,
    Negative,
    Zero,
    Infinite,
}

impl Flex {
    #[verifier::type_invariant]
    pub open spec fn inv(&self) -> bool {
        flex_ok(self@)
    }

    /// Validates the pattern `flex`.
    pub fn new(flex: u32) -> (r: Result<Flex, FlexError>)
        ensures
            r is Ok <==> flex_ok(flex),
            r matches Ok(f) ==> f@ == flex,
            !flex_ok(flex) ==> r == Err::<Flex, FlexError>(flex_error(flex)),
    {
        if nan(flex) {
            Err(FlexError::NotANumber)
        } else if flex >= 0x8000_0000 {
            Err(FlexError::Negative)
        } else if magnitude_of(flex) == 0 {
            Err(FlexError::Zero)
        } else if infinite(flex) {
            Err(FlexError::Infinite)
        } else {
            Ok(Flex(flex))
        }
    }

    /// The weight, as the pattern that `to_bits` gives.
    pub fn to_bits(&self) -> (r: u32)
        ensures
            r == self@,
    {
        self.0
    }
}

#[derive(Debug, Clone, Copy, PartialEq, Eq, Structural)]
pub enum OverlapPolicy {
    /// The elements are cropped so as to avoid visual overlapping. By default
    /// elements are centred, so only the centre of each stays visible; an
    /// alignment moves the crop so that the aligned part stays visible (the
    /// left part of a left-aligned element, and so on).
    Crop,
    /// Stack one over another. Default behaviour.
    Stack,
}

impl Default for OverlapPolicy {
    fn default() -> (r: OverlapPolicy)
        ensures
            r == OverlapPolicy::Stack,
    {
        OverlapPolicy::Stack
    }
}

/// Places one child within whatever room a parent grants it; `(x, y)` runs
/// from `-1` (start edge) through `0` (centre) to `1` (end edge). It measures
/// as its child does.
pub struct Align<E> {
    element: E,
    x: PercentSigned,
    y: PercentSigned,
}

impl<E> Align<E> {
    pub closed spec fn spec_x(&self) -> PercentSigned {
        self.x
    }

    pub closed spec fn spec_y(&self) -> PercentSigned {
        self.y
    }

    pub fn new(element: E, x: PercentSigned, y: PercentSigned) -> (r: Align<E>)
        ensures
            r.x() == x,
            r.y() == y,
            r.child() == element,
    {
        Align { element, x, y }
    }

    #[verifier::when_used_as_spec(spec_x)]
    pub fn x(&self) -> (r: PercentSigned)
        ensures
            r == self.spec_x(),
    {
        self.x
    }

    #[verifier::when_used_as_spec(spec_y)]
    pub fn y(&self) -> (r: PercentSigned)
        ensures
            r == self.spec_y(),
    {
        self.y
    }

    /// Against the left edge, centred vertically.
    pub fn left(element: E) -> (r: Align<E>)
        ensures
            r.x()@ == NEG_ONE,
            r.y()@ == ZERO,
            r.child() == element,
    {
        Align::new(element, PercentSigned::unit_neg(), PercentSigned::zero())
    }

    /// Against the right edge, centred vertically.
    pub fn right(element: E) -> (r: Align<E>)
        ensures
            r.x()@ == ONE,
            r.y()@ == ZERO,
            r.child() == element,
    {
        Align::new(element, PercentSigned::unit_pos(), PercentSigned::zero())
    }

    /// Against the top edge, centred horizontally.
    pub fn top(element: E) -> (r: Align<E>)
        ensures
            r.x()@ == ZERO,
            r.y()@ == NEG_ONE,
            r.child() == element,
    {
        Align::new(element, PercentSigned::zero(), PercentSigned::unit_neg())
    }

    /// Against the bottom edge, centred horizontally.
    pub fn bottom(element: E) -> (r: Align<E>)
        ensures
            r.x()@ == ZERO,
            r.y()@ == ONE,
            r.child() == element,
    {
        Align::new(element, PercentSigned::zero(), PercentSigned::unit_pos())
    }

    /// Centred on both axes.
    pub fn center(element: E) -> (r: Align<E>)
        ensures
            r.x()@ == ZERO,
            r.y()@ == ZERO,
            r.child() == element,
    {
        Align::new(element, PercentSigned::zero(), PercentSigned::zero())
    }

    /// In the top left corner.
    pub fn top_left(element: E) -> (r: Align<E>)
        ensures
            r.x()@ == NEG_ONE,
            r.y()@ == NEG_ONE,
            r.child() == element,
    {
        Align::new(element, PercentSigned::unit_neg(), PercentSigned::unit_neg())
    }

    /// In the top right corner.
    pub fn top_right(element: E) -> (r: Align<E>)
        ensures
            r.x()@ == ONE,
            r.y()@ == NEG_ONE,
            r.child() == element,
    {
        Align::new(element, PercentSigned::unit_pos(), PercentSigned::unit_neg())
    }

    /// In the bottom left corner.
    pub fn bottom_left(element: E) -> (r: Align<E>)
        ensures
            r.x()@ == NEG_ONE,
            r.y()@ == ONE,
            r.child() == element,
    {
        Align::new(element, PercentSigned::unit_neg(), PercentSigned::unit_pos())
    }

    /// In the bottom right corner.
    pub fn bottom_right(element: E) -> (r: Align<E>)
        ensures
            r.x()@ == ONE,
            r.y()@ == ONE,
            r.child() == element,
    {
        Align::new(element, PercentSigned::unit_pos(), PercentSigned::unit_pos())
    }
}

impl<E> Layer<E> for Align<E> {
    closed spec fn child(&self) -> E {
        self.element
    }

    fn inner(&self) -> (r: &E) {
        &self.element
    }
}

/// Pads one child with four independent non-negative amounts. It measures as
/// its child plus the left and right padding across, plus the top and bottom
/// padding down.
pub struct Space<E> {
    top: Unsigned,
    bottom: Unsigned,
    left: Unsigned,
    right: Unsigned,
    element: E,
}

impl<E> Space<E> {
    pub closed spec fn spec_top(&self) -> Unsigned {
        self.top
    }

    pub closed spec fn spec_bottom(&self) -> Unsigned {
        self.bottom
    }

    pub closed spec fn spec_left(&self) -> Unsigned {
        self.left
    }

    pub closed spec fn spec_right(&self) -> Unsigned {
        self.right
    }

    /// Paddings in the order top, right, bottom, left.
    pub fn trbl(element: E, top: Unsigned, right: Unsigned, bottom: Unsigned, left: Unsigned) -> (r: Space<E>)
        ensures
            r.top() == top,
            r.right() == right,
            r.bottom() == bottom,
            r.left() == left,
            r.child() == element,
    {
        Space { top, bottom, left, right, element }
    }

    #[verifier::when_used_as_spec(spec_top)]
    pub fn top(&self) -> (r: Unsigned)
        ensures
            r == self.spec_top(),
    {
        self.top
    }

    #[verifier::when_used_as_spec(spec_bottom)]
    pub fn bottom(&self) -> (r: Unsigned)
        ensures
            r == self.spec_bottom(),
    {
        self.bottom
    }

    #[verifier::when_used_as_spec(spec_left)]
    pub fn left(&self) -> (r: Unsigned)
        ensures
            r == self.spec_left(),
    {
        self.left
    }

    #[verifier::when_used_as_spec(spec_right)]
    pub fn right(&self) -> (r: Unsigned)
        ensures
            r == self.spec_right(),
    {
        self.right
    }

    /// The same padding on all four sides.
    pub fn all(element: E, space: Unsigned) -> (r: Space<E>)
        ensures
            r.top() == space,
            r.right() == space,
            r.bottom() == space,
            r.left() == space,
            r.child() == element,
    {
        Space::trbl(element, space, space, space, space)
    }

    /// Padding on the left and the right; none above or below.
    pub fn horizontal(element: E, left: Unsigned, right: Unsigned) -> (r: Space<E>)
        ensures
            r.top()@ == ZERO,
            r.right() == right,
            r.bottom()@ == ZERO,
            r.left() == left,
            r.child() == element,
    {
        Space::trbl(element, Unsigned::zero(), right, Unsigned::zero(), left)
    }

    /// Padding above and below; none on the left or the right.
    pub fn vertical(element: E, top: Unsigned, bottom: Unsigned) -> (r: Space<E>)
        ensures
            r.top() == top,
            r.right()@ == ZERO,
            r.bottom() == bottom,
            r.left()@ == ZERO,
            r.child() == element,
    {
        Space::trbl(element, top, Unsigned::zero(), bottom, Unsigned::zero())
    }
}

impl<E> Layer<E> for Space<E> {
    closed spec fn child(&self) -> E {
        self.element
    }

    fn inner(&self) -> (r: &E) {
        &self.element
    }
}

} // verus!
