use health_bar::scalar::{Scalar, CANONICAL_NAN_BITS, INFINITY_BITS, NEGATIVE_ZERO_BITS, ONE_BITS};
use ordered_float::OrderedFloat;

fn scalar(x: f32) -> Scalar {
    Scalar::from_bits(x.to_bits())
}

fn samples() -> Vec<f32> {
    vec![
        0.0,
        -0.0,
        1.0,
        -1.0,
        1.2,
        0.1666,
        0.02,
        f32::MIN_POSITIVE,
        -f32::MIN_POSITIVE,
        f32::from_bits(1),
        f32::from_bits(0x8000_0001),
        f32::MAX,
        f32::MIN,
        f32::INFINITY,
        f32::NEG_INFINITY,
        f32::NAN,
        -f32::NAN,
        f32::from_bits(0x7f80_0001),
        f32::from_bits(0xffff_ffff),
        f32::from_bits(0x7fff_ffff),
    ]
}

#[test]
fn bits_round_trip() {
    assert_eq!(Scalar::from_bits(0x3f99_999a).to_bits(), 0x3f99_999a);
    assert_eq!(Scalar::from_bits(0x3f99_999a), Scalar { bits: 1.2f32.to_bits() });
    assert_eq!(Scalar::zero().to_bits(), 0);
    assert_eq!(ONE_BITS, 1.0f32.to_bits());
    assert_eq!(NEGATIVE_ZERO_BITS, (-0.0f32).to_bits());
    assert_eq!(INFINITY_BITS, f32::INFINITY.to_bits());
}

#[test]
fn classes_agree_with_the_numbers() {
    for x in samples() {
        let s = scalar(x);
        assert_eq!(s.is_nan(), x.is_nan(), "is_nan of {:#x}", x.to_bits());
        assert_eq!(s.is_zero(), x == 0.0, "is_zero of {:#x}", x.to_bits());
        assert_eq!(s.is_positive(), x > 0.0, "is_positive of {:#x}", x.to_bits());
    }
}

#[test]
fn not_a_number_is_neither_zero_nor_positive() {
    let nan = Scalar::from_bits(0x7fc0_0000);
    assert!(nan.is_nan());
    assert!(!nan.is_zero());
    assert!(!nan.is_positive());
}

#[test]
fn infinity_is_positive_and_its_neighbour_is_not_a_number() {
    assert!(Scalar::from_bits(0x7f80_0000).is_positive());
    assert!(!Scalar::from_bits(0x7f80_0000).is_nan());
    assert!(Scalar::from_bits(0x7f80_0001).is_nan());
    assert!(!Scalar::from_bits(0x7f80_0001).is_positive());
    assert!(!Scalar::from_bits(0xff80_0000).is_positive());
    assert!(!Scalar::from_bits(0xff80_0000).is_nan());
    assert!(Scalar::from_bits(0xff80_0001).is_nan());
}

#[test]
fn zeros_are_not_positive() {
    assert!(!Scalar::from_bits(0).is_positive());
    assert!(!Scalar::from_bits(0x8000_0000).is_positive());
    assert!(Scalar::from_bits(1).is_positive());
    assert!(!Scalar::from_bits(0x8000_0001).is_positive());
}

#[test]
fn canonical_bits_of_each_class() {
    assert_eq!(Scalar::from_bits(0xffff_ffff).canonical_bits(), CANONICAL_NAN_BITS);
    assert_eq!(Scalar::from_bits(0x7f80_0001).canonical_bits(), 0x7fc0_0000);
    assert_eq!(Scalar::from_bits(0x8000_0000).canonical_bits(), 0);
    assert_eq!(Scalar::from_bits(0).canonical_bits(), 0);
    assert_eq!(Scalar::from_bits(0x3f99_999a).canonical_bits(), 0x3f99_999a);
    assert_eq!(Scalar::from_bits(0xbf99_999a).canonical_bits(), 0xbf99_999a);
    assert_eq!(Scalar::from_bits(0xff80_0000).canonical_bits(), 0xff80_0000);
}

#[test]
fn canonical_bits_is_idempotent() {
    for x in samples() {
        let once = scalar(x).canonical_bits();
        assert_eq!(Scalar::from_bits(once).canonical_bits(), once);
        assert!(scalar(x).same_number(Scalar::from_bits(once)));
    }
}

#[test]
fn same_number_agrees_with_ordered_floats() {
    for x in samples() {
        for y in samples() {
            assert_eq!(
                scalar(x).same_number(scalar(y)),
                OrderedFloat(x) == OrderedFloat(y),
                "{:#x} and {:#x}",
                x.to_bits(),
                y.to_bits()
            );
        }
    }
}

#[test]
fn same_number_is_same_canonical_bits() {
    for x in samples() {
        for y in samples() {
            assert_eq!(
                scalar(x).same_number(scalar(y)),
                scalar(x).canonical_bits() == scalar(y).canonical_bits()
            );
        }
    }
}

#[test]
fn same_number_is_an_equivalence() {
    let all = samples();
    for x in &all {
        assert!(scalar(*x).same_number(scalar(*x)));
        for y in &all {
            assert_eq!(scalar(*x).same_number(scalar(*y)), scalar(*y).same_number(scalar(*x)));
            for z in &all {
                if scalar(*x).same_number(scalar(*y)) && scalar(*y).same_number(scalar(*z)) {
                    assert!(scalar(*x).same_number(scalar(*z)));
                }
            }
        }
    }
}

#[test]
fn pattern_equality_is_finer_than_sameness() {
    let plus = Scalar::from_bits(0);
    let minus = Scalar::from_bits(0x8000_0000);
    assert_ne!(plus, minus);
    assert!(plus.same_number(minus));
    assert!(!Scalar::from_bits(1).same_number(Scalar::from_bits(0x8000_0001)));
}
