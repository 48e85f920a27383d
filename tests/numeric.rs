use elements::math::{
    Number, NumberError, PercentSigned, PercentSignedError, PercentUnsigned, PercentUnsignedError,
    Positive, PositiveError, Unsigned, UnsignedError,
};

fn b(f: f32) -> u32 {
    f.to_bits()
}

#[test]
fn unsigned_accepts_finite_non_negative() {
    for f in [0.0f32, -0.0, 1.0, 2.5, f32::MAX, f32::MIN_POSITIVE, 1e-45] {
        let u = Unsigned::new(b(f)).unwrap();
        assert_eq!(f32::from_bits(u.to_bits()), f);
    }
}

#[test]
fn unsigned_rejects_in_order() {
    assert_eq!(Unsigned::new(b(f32::NAN)), Err(UnsignedError::NotANumber));
    assert_eq!(Unsigned::new(b(-f32::NAN)), Err(UnsignedError::NotANumber));
    assert_eq!(Unsigned::new(b(f32::INFINITY)), Err(UnsignedError::Infinite));
    assert_eq!(Unsigned::new(b(f32::NEG_INFINITY)), Err(UnsignedError::Infinite));
    assert_eq!(Unsigned::new(b(-1.0)), Err(UnsignedError::Negative));
    assert_eq!(Unsigned::new(b(-1e-45)), Err(UnsignedError::Negative));
}

#[test]
fn positive_accepts_and_rejects() {
    assert!(Positive::new(b(1e-45)).is_ok());
    assert!(Positive::new(b(3.0)).is_ok());
    assert_eq!(Positive::new(b(0.0)), Err(PositiveError::NegativeOrZero));
    assert_eq!(Positive::new(b(-0.0)), Err(PositiveError::NegativeOrZero));
    assert_eq!(Positive::new(b(-2.0)), Err(PositiveError::NegativeOrZero));
    assert_eq!(Positive::new(b(f32::NAN)), Err(PositiveError::NotANumber));
    assert_eq!(Positive::new(b(f32::INFINITY)), Err(PositiveError::Infinite));
}

#[test]
fn percent_signed_bounds() {
    for f in [-1.0f32, -0.5, 0.0, 0.5, 1.0] {
        assert_eq!(f32::from_bits(PercentSigned::new(b(f)).unwrap().to_bits()), f);
    }
    assert_eq!(PercentSigned::new(b(1.0000001)), Err(PercentSignedError::OutOfBounds));
    assert_eq!(PercentSigned::new(b(-1.5)), Err(PercentSignedError::OutOfBounds));
    assert_eq!(PercentSigned::new(b(f32::NAN)), Err(PercentSignedError::NotANumber));
    assert_eq!(PercentSigned::new(b(f32::NEG_INFINITY)), Err(PercentSignedError::Infinite));
}

#[test]
fn percent_unsigned_bounds() {
    for f in [0.0f32, 0.25, 1.0] {
        assert_eq!(f32::from_bits(PercentUnsigned::new(b(f)).unwrap().to_bits()), f);
    }
    assert_eq!(PercentUnsigned::new(b(1.5)), Err(PercentUnsignedError::OutOfBounds));
    assert_eq!(PercentUnsigned::new(b(-0.1)), Err(PercentUnsignedError::Negative));
    assert_eq!(PercentUnsigned::new(b(f32::NAN)), Err(PercentUnsignedError::NotANumber));
    assert_eq!(PercentUnsigned::new(b(f32::INFINITY)), Err(PercentUnsignedError::Infinite));
}

#[test]
fn number_accepts_finite_only() {
    for f in [f32::MIN, -3.5, 0.0, 7.25, f32::MAX] {
        assert_eq!(f32::from_bits(Number::new(b(f)).unwrap().to_bits()), f);
    }
    assert_eq!(Number::new(b(f32::NAN)), Err(NumberError::NotANumber));
    assert_eq!(Number::new(b(f32::INFINITY)), Err(NumberError::Infinite));
    assert_eq!(Number::new(b(f32::NEG_INFINITY)), Err(NumberError::Infinite));
}

#[test]
fn nan_reported_before_bounds() {
    let nan = b(f32::NAN) | 0x8000_0000;
    assert_eq!(Unsigned::new(nan), Err(UnsignedError::NotANumber));
    assert_eq!(Positive::new(nan), Err(PositiveError::NotANumber));
    assert_eq!(PercentSigned::new(nan), Err(PercentSignedError::NotANumber));
    assert_eq!(PercentUnsigned::new(nan), Err(PercentUnsignedError::NotANumber));
    assert_eq!(PercentUnsigned::new(b(f32::INFINITY)), Err(PercentUnsignedError::Infinite));
}

#[test]
fn constants_have_their_values() {
    assert_eq!(f32::from_bits(PercentSigned::unit_neg().to_bits()), -1.0);
    assert_eq!(f32::from_bits(PercentSigned::unit_pos().to_bits()), 1.0);
    assert_eq!(f32::from_bits(PercentSigned::zero().to_bits()), 0.0);
    assert_eq!(f32::from_bits(Unsigned::zero().to_bits()), 0.0);
    assert_eq!(f32::from_bits(Unsigned::one().to_bits()), 1.0);
    assert_eq!(f32::from_bits(Positive::one().to_bits()), 1.0);
    assert_eq!(f32::from_bits(PercentUnsigned::zero().to_bits()), 0.0);
    assert_eq!(f32::from_bits(PercentUnsigned::one().to_bits()), 1.0);
    assert_eq!(f32::from_bits(Number::zero().to_bits()), 0.0);
    assert_eq!(f32::from_bits(Number::one().to_bits()), 1.0);
}

#[test]
fn order_and_equality_are_numeric() {
    let neg_zero = Unsigned::new(b(-0.0)).unwrap();
    assert_eq!(neg_zero, Unsigned::zero());
    let a = Number::new(b(-2.0)).unwrap();
    let c = Number::new(b(-1.0)).unwrap();
    let d = Number::new(b(3.0)).unwrap();
    assert!(a < c && c < d && a < d);
    assert!(d > Number::zero());
    assert_eq!(a.partial_cmp(&a), Some(std::cmp::Ordering::Equal));
    assert!(PercentSigned::unit_neg() < PercentSigned::zero());
    assert!(PercentUnsigned::zero() < PercentUnsigned::one());
}

#[test]
fn unsigned_against_positive() {
    let two = Positive::new(b(2.0)).unwrap();
    let one = Unsigned::one();
    assert!(one < two);
    assert!(Unsigned::new(b(2.0)).unwrap() == two);
    let widened: Unsigned = two.into();
    assert_eq!(f32::from_bits(widened.to_bits()), 2.0);
}

#[test]
fn new_unchecked_keeps_pattern() {
    assert_eq!(Unsigned::new_unchecked(b(4.5)).to_bits(), b(4.5));
    assert_eq!(Positive::new_unchecked(b(4.5)).to_bits(), b(4.5));
    assert_eq!(Number::new_unchecked(b(-4.5)).to_bits(), b(-4.5));
    assert_eq!(PercentSigned::new_unchecked(b(-0.5)).to_bits(), b(-0.5));
    assert_eq!(PercentUnsigned::new_unchecked(b(0.5)).to_bits(), b(0.5));
}
