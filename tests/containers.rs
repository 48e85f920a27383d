use elements::base::{Blank, Layer};
use elements::ieee::{compare, less_than, widest_of};
use elements::layout::{Align, Array, Column, Direction, Flex, FlexError, OverlapPolicy, Reduction, Row, Space};
use elements::math::{PercentSigned, Positive, Unsigned};
use elements::path::{Border, Cap, Join, Stroke};
use elements::base::Shader;
use elements::scroll::Scroll;

fn b(f: f32) -> u32 {
    f.to_bits()
}

#[test]
fn widest_of_empty_is_zero() {
    assert_eq!(widest_of(&vec![]), b(0.0));
}

#[test]
fn widest_of_picks_largest() {
    let sizes = vec![b(3.0), b(10.5), b(0.0), b(7.0)];
    assert_eq!(f32::from_bits(widest_of(&sizes)), 10.5);
    assert_eq!(f32::from_bits(widest_of(&vec![b(-1.0), b(-3.0)])), -1.0);
}

#[test]
fn widest_of_takes_last_of_equals() {
    assert_eq!(widest_of(&vec![b(0.0), b(-0.0)]), b(-0.0));
    assert_eq!(widest_of(&vec![b(-0.0), b(0.0)]), b(0.0));
}

#[test]
fn pattern_order() {
    assert!(less_than(b(-1.0), b(1.0)));
    assert!(less_than(b(1.0), b(f32::INFINITY)));
    assert!(!less_than(b(-0.0), b(0.0)));
    assert_eq!(compare(b(2.0), b(1.0)), std::cmp::Ordering::Greater);
}

#[test]
fn stack_rules() {
    let row = Row::new(vec![Blank, Blank]);
    assert_eq!(row.rules(), (Reduction::Max, Reduction::Sum));
    assert_eq!(row.elements().len(), 2);
    let column = Column::new(vec![Blank]);
    assert_eq!(column.rules(), (Reduction::Sum, Reduction::Max));
}

#[test]
fn array_measures_as_a_stack() {
    let h = Array::new(vec![Blank], Direction::Horizontal);
    let v = Array::new(Vec::<Blank>::new(), Direction::Vertical);
    assert_eq!(h.direction(), Direction::Horizontal);
    assert_eq!(h.rules(), Column::new(vec![Blank]).rules());
    assert_eq!(v.rules(), Row::new(Vec::<Blank>::new()).rules());
    assert_eq!(v.elements().len(), 0);
}

#[test]
fn align_named_anchors() {
    let n = PercentSigned::unit_neg();
    let z = PercentSigned::zero();
    let p = PercentSigned::unit_pos();
    let cases = [
        (Align::left(Blank), n, z),
        (Align::right(Blank), p, z),
        (Align::top(Blank), z, n),
        (Align::bottom(Blank), z, p),
        (Align::center(Blank), z, z),
        (Align::top_left(Blank), n, n),
        (Align::top_right(Blank), p, n),
        (Align::bottom_left(Blank), n, p),
        (Align::bottom_right(Blank), p, p),
    ];
    for (a, x, y) in cases.iter() {
        assert_eq!(a.x().to_bits(), x.to_bits());
        assert_eq!(a.y().to_bits(), y.to_bits());
    }
    let half = PercentSigned::new(b(0.5)).unwrap();
    let a = Align::new(7u8, half, n);
    assert_eq!(*a.inner(), 7u8);
    assert_eq!(a.x(), half);
}

#[test]
fn space_constructors() {
    let s = Unsigned::new(b(4.0)).unwrap();
    let all = Space::all(3u8, s);
    assert!(all.top() == s && all.right() == s && all.bottom() == s && all.left() == s);
    assert_eq!(*all.inner(), 3u8);
    let l = Unsigned::new(b(1.0)).unwrap();
    let r = Unsigned::new(b(2.0)).unwrap();
    let h = Space::horizontal(Blank, l, r);
    assert_eq!(h.left(), l);
    assert_eq!(h.right(), r);
    assert_eq!(h.top().to_bits(), 0);
    assert_eq!(h.bottom().to_bits(), 0);
    let v = Space::vertical(Blank, l, r);
    assert_eq!(v.top(), l);
    assert_eq!(v.bottom(), r);
    assert_eq!(v.left().to_bits(), 0);
    assert_eq!(v.right().to_bits(), 0);
    let t = Space::trbl(Blank, l, r, s, Unsigned::zero());
    assert!(t.top() == l && t.right() == r && t.bottom() == s && t.left() == Unsigned::zero());
}

#[test]
fn flex_checks() {
    assert_eq!(f32::from_bits(Flex::default().to_bits()), 1.0);
    assert_eq!(f32::from_bits(Flex::new(b(2.5)).unwrap().to_bits()), 2.5);
    assert_eq!(Flex::new(b(f32::NAN)), Err(FlexError::NotANumber));
    assert_eq!(Flex::new(b(-1.0)), Err(FlexError::Negative));
    assert_eq!(Flex::new(b(-0.0)), Err(FlexError::Negative));
    assert_eq!(Flex::new(b(f32::NEG_INFINITY)), Err(FlexError::Negative));
    assert_eq!(Flex::new(b(0.0)), Err(FlexError::Zero));
    assert_eq!(Flex::new(b(f32::INFINITY)), Err(FlexError::Infinite));
    assert!(Flex::new(b(1.0)).unwrap() < Flex::new(b(2.0)).unwrap());
}

#[test]
fn overlap_policy_defaults_to_stack() {
    assert_eq!(OverlapPolicy::default(), OverlapPolicy::Stack);
}

#[test]
fn border_and_scroll_wrap_their_child() {
    let stroke = Stroke {
        width: Positive::new(b(1.5)).unwrap(),
        shader: Shader,
        cap: Cap::Round,
        join: Join::Miter(Unsigned::one()),
    };
    let border = Border::new(9u8, stroke);
    assert_eq!(*border.inner(), 9u8);
    assert_eq!(f32::from_bits(border.stroke().width.to_bits()), 1.5);
    assert_eq!(border.stroke().cap, Cap::Round);
    let scroll = Scroll::new(5u8);
    assert_eq!(*scroll.inner(), 5u8);
}
