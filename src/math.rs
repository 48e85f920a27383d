//! Bounded numeric values: a single-precision float, kept as its bit
//! pattern, whose constructor holds it to a domain for its whole life.
use vstd::prelude::*;
use crate::ieee::{
    compare, equal, infinite, is_finite, is_zero, sign_negative, is_infinite, is_nan, less, less_than, nan, order, same, NEG_ONE,
    ONE, ZERO, lemma_constants, lemma_zero,
};

verus! {

/// Any finite value.
pub open spec fn number_ok(b: u32) -> bool {
    is_finite(b)
}

/// A finite value that is not below zero (`-0.0` included).
pub open spec fn unsigned_ok(b: u32) -> bool {
    is_finite(b) && !less(b, ZERO)
}

/// A finite value above zero.
pub open spec fn positive_ok(b: u32) -> bool {
    is_finite(b) && less(ZERO, b)
}

/// A finite value in `[-1, 1]`.
pub open spec fn percent_signed_ok(b: u32) -> bool {
    is_finite(b) && !less(b, NEG_ONE) && !less(ONE, b)
}

/// A finite value in `[0, 1]`.
pub open spec fn percent_unsigned_ok(b: u32) -> bool {
    is_finite(b) && !less(b, ZERO) && !less(ONE, b)
}

#[derive(Debug, Clone, Copy, PartialEq, Eq, Structural)]
pub enum NumberError {
    NotANumber,
    Infinite,
}

/// A finite float.
#[derive(Debug, Clone, Copy)]
pub struct Number(u32);

impl View for Number {
    type V = u32;

    closed spec fn view(&self) -> u32 {
        self.0
    }
}

impl Number {
    #[verifier::type_invariant]
    pub open spec fn inv(&self) -> bool {
        number_ok(self@)
    }

    /// Validates the pattern `value`: NaN first, then infinity.
    pub fn new(value: u32) -> (r: Result<Number, NumberError>)
        ensures
            r is Ok <==> number_ok(value),
            r matches Ok(n) ==> n@ == value,
            is_nan(value) ==> r == Err::<Number, NumberError>(NumberError::NotANumber),
            is_infinite(value) ==> r == Err::<Number, NumberError>(NumberError::Infinite),
    {
        if nan(value) {
            return Err(NumberError::NotANumber);
        }
        if infinite(value) {
            return Err(NumberError::Infinite);
        }
        Ok(Number(value))
    }

    /// For a pattern already known to be in the domain.
    pub fn new_unchecked(value: u32) -> (r: Number)
        requires
            number_ok(value),
        ensures
            r@ == value,
    {
        Number(value)
    }

    pub fn zero() -> (r: Number)
        ensures
            r@ == ZERO,
    {
        proof { lemma_constants(); }
        Number(ZERO)
    }

    pub fn one() -> (r: Number)
        ensures
            r@ == ONE,
    {
        proof { lemma_constants(); }
        Number(ONE)
    }

    /// The float, as the pattern that `to_bits` gives.
    pub fn to_bits(&self) -> (r: u32)
        ensures
            r == self@,
    {
        self.0
    }
}

impl PartialEq for Number {
    fn eq(&self, other: &Number) -> (r: bool) {
        equal(self.0, other.0)
    }
}

impl vstd::std_specs::cmp::PartialEqSpecImpl for Number {
    open spec fn obeys_eq_spec() -> bool {
        true
    }

    open spec fn eq_spec(&self, other: &Number) -> bool {
        same(self@, other@)
    }
}

impl Eq for Number {
}

impl PartialOrd for Number {
    fn partial_cmp(&self, other: &Number) -> (r: Option<core::cmp::Ordering>) {
        Some(compare(self.0, other.0))
    }
}

impl vstd::std_specs::cmp::PartialOrdSpecImpl for Number {
    open spec fn obeys_partial_cmp_spec() -> bool {
        true
    }

    open spec fn partial_cmp_spec(&self, other: &Number) -> Option<core::cmp::Ordering> {
        Some(order(self@, other@))
    }
}


#[derive(Debug, Clone, Copy, PartialEq, Eq, Structural)]
pub enum UnsignedError {
    NotANumber,
    Infinite,
    Negative,
}

/// The error that `Unsigned::new` reports for a pattern outside its domain:
/// NaN before infinity before the bound.
pub open spec fn unsigned_error(b: u32) -> UnsignedError {
    if is_nan(b) {
        UnsignedError::NotANumber
    } else if is_infinite(b) {
        UnsignedError::Infinite
    } else {
        UnsignedError::Negative
    }
}

/// A finite float that is not below zero.
#[derive(Debug, Clone, Copy)]
pub struct Unsigned(u32);

impl View for Unsigned {
    type V = u32;

    closed spec fn view(&self) -> u32 {
        self.0
    }
}

impl Unsigned {
    #[verifier::type_invariant]
    pub open spec fn inv(&self) -> bool {
        unsigned_ok(self@)
    }

    /// Validates the pattern `value`: NaN first, then infinity, then the bound.
    pub fn new(value: u32) -> (r: Result<Unsigned, UnsignedError>)
        ensures
            r is Ok <==> unsigned_ok(value),
            r matches Ok(n) ==> n@ == value,
            !unsigned_ok(value) ==> r == Err::<Unsigned, UnsignedError>(unsigned_error(value)),
    {
        proof { lemma_constants(); }
        if nan(value) {
            return Err(UnsignedError::NotANumber);
        }
        if infinite(value) {
            return Err(UnsignedError::Infinite);
        }
        if less_than(value, ZERO) {
            return Err(UnsignedError::Negative);
        }
        Ok(Unsigned(value))
    }

    /// For a pattern already known to be in the domain.
    pub fn new_unchecked(value: u32) -> (r: Unsigned)
        requires
            unsigned_ok(value),
        ensures
            r@ == value,
    {
        Unsigned(value)
    }

    pub fn zero() -> (r: Unsigned)
        ensures
            r@ == ZERO,
    {
        proof { lemma_constants(); }
        Unsigned(ZERO)
    }

    pub fn one() -> (r: Unsigned)
        ensures
            r@ == ONE,
    {
        proof { lemma_constants(); }
        Unsigned(ONE)
    }

    /// The float, as the pattern that `to_bits` gives.
    pub fn to_bits(&self) -> (r: u32)
        ensures
            r == self@,
    {
        self.0
    }
}

impl PartialEq for Unsigned {
    fn eq(&self, other: &Unsigned) -> (r: bool) {
        equal(self.0, other.0)
    }
}

impl vstd::std_specs::cmp::PartialEqSpecImpl for Unsigned {
    open spec fn obeys_eq_spec() -> bool {
        true
    }

    open spec fn eq_spec(&self, other: &Unsigned) -> bool {
        same(self@, other@)
    }
}

impl Eq for Unsigned {
}

impl PartialOrd for Unsigned {
    fn partial_cmp(&self, other: &Unsigned) -> (r: Option<core::cmp::Ordering>) {
        Some(compare(self.0, other.0))
    }
}

impl vstd::std_specs::cmp::PartialOrdSpecImpl for Unsigned {
    open spec fn obeys_partial_cmp_spec() -> bool {
        true
    }

    open spec fn partial_cmp_spec(&self, other: &Unsigned) -> Option<core::cmp::Ordering> {
        Some(order(self@, other@))
    }
}

#[derive(Debug, Clone, Copy, PartialEq, Eq, Structural)]
pub enum PositiveError {
    NotANumber,
    Infinite,
    NegativeOrZero,
}

/// The error that `Positive::new` reports for a pattern outside its domain:
/// NaN before infinity before the bound.
pub open spec fn positive_error(b: u32) -> PositiveError {
    if is_nan(b) {
        PositiveError::NotANumber
    } else if is_infinite(b) {
        PositiveError::Infinite
    } else {
        PositiveError::NegativeOrZero
    }
}

/// A finite float above zero.
#[derive(Debug, Clone, Copy)]
pub struct Positive(u32);

impl View for Positive {
    type V = u32;

    closed spec fn view(&self) -> u32 {
        self.0
    }
}

impl Positive {
    #[verifier::type_invariant]
    pub open spec fn inv(&self) -> bool {
        positive_ok(self@)
    }

    /// Validates the pattern `value`: NaN first, then infinity, then the bound.
    pub fn new(value: u32) -> (r: Result<Positive, PositiveError>)
        ensures
            r is Ok <==> positive_ok(value),
            r matches Ok(n) ==> n@ == value,
            !positive_ok(value) ==> r == Err::<Positive, PositiveError>(positive_error(value)),
    {
        proof { lemma_constants(); }
        if nan(value) {
            return Err(PositiveError::NotANumber);
        }
        if infinite(value) {
            return Err(PositiveError::Infinite);
        }
        if !less_than(ZERO, value) {
            return Err(PositiveError::NegativeOrZero);
        }
        Ok(Positive(value))
    }

    /// For a pattern already known to be in the domain.
    pub fn new_unchecked(value: u32) -> (r: Positive)
        requires
            positive_ok(value),
        ensures
            r@ == value,
    {
        Positive(value)
    }

    pub fn one() -> (r: Positive)
        ensures
            r@ == ONE,
    {
        proof { lemma_constants(); }
        Positive(ONE)
    }

    /// The float, as the pattern that `to_bits` gives.
    pub fn to_bits(&self) -> (r: u32)
        ensures
            r == self@,
    {
        self.0
    }
}

impl PartialEq for Positive {
    fn eq(&self, other: &Positive) -> (r: bool) {
        equal(self.0, other.0)
    }
}

impl vstd::std_specs::cmp::PartialEqSpecImpl for Positive {
    open spec fn obeys_eq_spec() -> bool {
        true
    }

    open spec fn eq_spec(&self, other: &Positive) -> bool {
        same(self@, other@)
    }
}

impl Eq for Positive {
}

impl PartialOrd for Positive {
    fn partial_cmp(&self, other: &Positive) -> (r: Option<core::cmp::Ordering>) {
        Some(compare(self.0, other.0))
    }
}

impl vstd::std_specs::cmp::PartialOrdSpecImpl for Positive {
    open spec fn obeys_partial_cmp_spec() -> bool {
        true
    }

    open spec fn partial_cmp_spec(&self, other: &Positive) -> Option<core::cmp::Ordering> {
        Some(order(self@, other@))
    }
}

#[derive(Debug, Clone, Copy, PartialEq, Eq, Structural)]
pub enum PercentSignedError {
    OutOfBounds,
    NotANumber,
    Infinite,
}

/// The error that `PercentSigned::new` reports for a pattern outside its domain:
/// NaN before infinity before the bound.
pub open spec fn percent_signed_error(b: u32) -> PercentSignedError {
    if is_nan(b) {
        PercentSignedError::NotANumber
    } else if is_infinite(b) {
        PercentSignedError::Infinite
    } else {
        PercentSignedError::OutOfBounds
    }
}

/// A finite float in `[-1, 1]`.
#[derive(Debug, Clone, Copy)]
pub struct PercentSigned(u32);

impl View for PercentSigned {
    type V = u32;

    closed spec fn view(&self) -> u32 {
        self.0
    }
}

impl PercentSigned {
    #[verifier::type_invariant]
    pub open spec fn inv(&self) -> bool {
        percent_signed_ok(self@)
    }

    /// Validates the pattern `value`: NaN first, then infinity, then the bound.
    pub fn new(value: u32) -> (r: Result<PercentSigned, PercentSignedError>)
        ensures
            r is Ok <==> percent_signed_ok(value),
            r matches Ok(n) ==> n@ == value,
            !percent_signed_ok(value) ==> r == Err::<PercentSigned, PercentSignedError>(percent_signed_error(value)),
    {
        proof { lemma_constants(); }
        if nan(value) {
            return Err(PercentSignedError::NotANumber);
        }
        if infinite(value) {
            return Err(PercentSignedError::Infinite);
        }
        if less_than(value, NEG_ONE) || less_than(ONE, value) {
            return Err(PercentSignedError::OutOfBounds);
        }
        Ok(PercentSigned(value))
    }

    /// For a pattern already known to be in the domain.
    pub fn new_unchecked(value: u32) -> (r: PercentSigned)
        requires
            percent_signed_ok(value),
        ensures
            r@ == value,
    {
        PercentSigned(value)
    }

    pub fn unit_neg() -> (r: PercentSigned)
        ensures
            r@ == NEG_ONE,
    {
        proof { lemma_constants(); }
        PercentSigned(NEG_ONE)
    }

    pub fn unit_pos() -> (r: PercentSigned)
        ensures
            r@ == ONE,
    {
        proof { lemma_constants(); }
        PercentSigned(ONE)
    }

    pub fn zero() -> (r: PercentSigned)
        ensures
            r@ == ZERO,
    {
        proof { lemma_constants(); }
        PercentSigned(ZERO)
    }

    /// The float, as the pattern that `to_bits` gives.
    pub fn to_bits(&self) -> (r: u32)
        ensures
            r == self@,
    {
        self.0
    }
}

impl PartialEq for PercentSigned {
    fn eq(&self, other: &PercentSigned) -> (r: bool) {
        equal(self.0, other.0)
    }
}

impl vstd::std_specs::cmp::PartialEqSpecImpl for PercentSigned {
    open spec fn obeys_eq_spec() -> bool {
        true
    }

    open spec fn eq_spec(&self, other: &PercentSigned) -> bool {
        same(self@, other@)
    }
}

impl Eq for PercentSigned {
}

impl PartialOrd for PercentSigned {
    fn partial_cmp(&self, other: &PercentSigned) -> (r: Option<core::cmp::Ordering>) {
        Some(compare(self.0, other.0))
    }
}

impl vstd::std_specs::cmp::PartialOrdSpecImpl for PercentSigned {
    open spec fn obeys_partial_cmp_spec() -> bool {
        true
    }

    open spec fn partial_cmp_spec(&self, other: &PercentSigned) -> Option<core::cmp::Ordering> {
        Some(order(self@, other@))
    }
}

#[derive(Debug, Clone, Copy, PartialEq, Eq, Structural)]
pub enum PercentUnsignedError {
    NotANumber,
    Infinite,
    Negative,
    OutOfBounds,
}

/// The error that `PercentUnsigned::new` reports for a pattern outside its domain:
/// NaN before infinity before the bound.
pub open spec fn percent_unsigned_error(b: u32) -> PercentUnsignedError {
    if is_nan(b) {
        PercentUnsignedError::NotANumber
    } else if is_infinite(b) {
        PercentUnsignedError::Infinite
    } else if less(b, ZERO) {
        PercentUnsignedError::Negative
    } else {
        PercentUnsignedError::OutOfBounds
    }
}

/// A finite float in `[0, 1]`.
#[derive(Debug, Clone, Copy)]
pub struct PercentUnsigned(u32);

impl View for PercentUnsigned {
    type V = u32;

    closed spec fn view(&self) -> u32 {
        self.0
    }
}

impl PercentUnsigned {
    #[verifier::type_invariant]
    pub open spec fn inv(&self) -> bool {
        percent_unsigned_ok(self@)
    }

    /// Validates the pattern `value`: NaN first, then infinity, then the bound.
    pub fn new(value: u32) -> (r: Result<PercentUnsigned, PercentUnsignedError>)
        ensures
            r is Ok <==> percent_unsigned_ok(value),
            r matches Ok(n) ==> n@ == value,
            !percent_unsigned_ok(value) ==> r == Err::<PercentUnsigned, PercentUnsignedError>(percent_unsigned_error(value)),
    {
        proof { lemma_constants(); }
        if nan(value) {
            return Err(PercentUnsignedError::NotANumber);
        }
        if infinite(value) {
            return Err(PercentUnsignedError::Infinite);
        }
        if less_than(value, ZERO) {
            return Err(PercentUnsignedError::Negative);
        }
        if less_than(ONE, value) {
            return Err(PercentUnsignedError::OutOfBounds);
        }
        Ok(PercentUnsigned(value))
    }

    /// For a pattern already known to be in the domain.
    pub fn new_unchecked(value: u32) -> (r: PercentUnsigned)
        requires
            percent_unsigned_ok(value),
        ensures
            r@ == value,
    {
        PercentUnsigned(value)
    }

    pub fn zero() -> (r: PercentUnsigned)
        ensures
            r@ == ZERO,
    {
        proof { lemma_constants(); }
        PercentUnsigned(ZERO)
    }

    pub fn one() -> (r: PercentUnsigned)
        ensures
            r@ == ONE,
    {
        proof { lemma_constants(); }
        PercentUnsigned(ONE)
    }

    /// The float, as the pattern that `to_bits` gives.
    pub fn to_bits(&self) -> (r: u32)
        ensures
            r == self@,
    {
        self.0
    }
}

impl PartialEq for PercentUnsigned {
    fn eq(&self, other: &PercentUnsigned) -> (r: bool) {
        equal(self.0, other.0)
    }
}

impl vstd::std_specs::cmp::PartialEqSpecImpl for PercentUnsigned {
    open spec fn obeys_eq_spec() -> bool {
        true
    }

    open spec fn eq_spec(&self, other: &PercentUnsigned) -> bool {
        same(self@, other@)
    }
}

impl Eq for PercentUnsigned {
}

impl PartialOrd for PercentUnsigned {
    fn partial_cmp(&self, other: &PercentUnsigned) -> (r: Option<core::cmp::Ordering>) {
        Some(compare(self.0, other.0))
    }
}

impl vstd::std_specs::cmp::PartialOrdSpecImpl for PercentUnsigned {
    open spec fn obeys_partial_cmp_spec() -> bool {
        true
    }

    open spec fn partial_cmp_spec(&self, other: &PercentUnsigned) -> Option<core::cmp::Ordering> {
        Some(order(self@, other@))
    }
}

impl From<Positive> for Unsigned {
    fn from(value: Positive) -> (r: Unsigned) {
        proof { use_type_invariant(&value); }
        Unsigned(value.0)
    }
}

impl vstd::std_specs::convert::FromSpecImpl<Positive> for Unsigned {
    open spec fn obeys_from_spec() -> bool {
        true
    }

    closed spec fn from_spec(v: Positive) -> Unsigned {
        Unsigned(v@)
    }
}

/// Widening a `Positive` keeps its pattern.
pub proof fn lemma_unsigned_from_positive(v: Positive)
    ensures
        <Unsigned as vstd::std_specs::convert::FromSpec<Positive>>::from_spec(v)@ == v@,
{
}

/// A NaN is reported as such by every bounded type, whatever bound it would
/// also break.
pub proof fn lemma_nan_reported_first(b: u32)
    requires
        is_nan(b),
    ensures
        !number_ok(b) && !unsigned_ok(b) && !positive_ok(b),
        !percent_signed_ok(b) && !percent_unsigned_ok(b),
        unsigned_error(b) == UnsignedError::NotANumber,
        positive_error(b) == PositiveError::NotANumber,
        percent_signed_error(b) == PercentSignedError::NotANumber,
        percent_unsigned_error(b) == PercentUnsignedError::NotANumber,
{
}

/// An infinity, of either sign, is reported as such before any bound.
pub proof fn lemma_infinity_reported_before_bounds(b: u32)
    requires
        is_infinite(b),
    ensures
        !number_ok(b) && !unsigned_ok(b) && !positive_ok(b),
        !percent_signed_ok(b) && !percent_unsigned_ok(b),
        unsigned_error(b) == UnsignedError::Infinite,
        positive_error(b) == PositiveError::Infinite,
        percent_signed_error(b) == PercentSignedError::Infinite,
        percent_unsigned_error(b) == PercentUnsignedError::Infinite,
{
}

/// The domains by sign and class: zero of either sign is unsigned but not
/// positive.
pub proof fn lemma_domains_by_sign(b: u32)
    ensures
        unsigned_ok(b) <==> is_finite(b) && (!sign_negative(b) || is_zero(b)),
        positive_ok(b) <==> is_finite(b) && !sign_negative(b) && !is_zero(b),
{
    lemma_constants();
    lemma_zero(b);
}

/// The domains nest: a percentage in `[0, 1]` is signed and unsigned, a
/// positive value is unsigned, and all of them are numbers.
pub proof fn lemma_domains_nest(b: u32)
    ensures
        percent_unsigned_ok(b) ==> percent_signed_ok(b) && unsigned_ok(b),
        positive_ok(b) ==> unsigned_ok(b),
        unsigned_ok(b) ==> number_ok(b),
        percent_signed_ok(b) ==> number_ok(b),
{
    lemma_constants();
}

impl PartialEq<Positive> for Unsigned {
    fn eq(&self, other: &Positive) -> (r: bool) {
        equal(self.0, other.0)
    }
}

impl vstd::std_specs::cmp::PartialEqSpecImpl<Positive> for Unsigned {
    open spec fn obeys_eq_spec() -> bool {
        true
    }

    open spec fn eq_spec(&self, other: &Positive) -> bool {
        same(self@, other@)
    }
}

impl PartialOrd<Positive> for Unsigned {
    fn partial_cmp(&self, other: &Positive) -> (r: Option<core::cmp::Ordering>) {
        Some(compare(self.0, other.0))
    }
}

impl vstd::std_specs::cmp::PartialOrdSpecImpl<Positive> for Unsigned {
    open spec fn obeys_partial_cmp_spec() -> bool {
        true
    }

    open spec fn partial_cmp_spec(&self, other: &Positive) -> Option<core::cmp::Ordering> {
        Some(order(self@, other@))
    }
}

} // verus!
