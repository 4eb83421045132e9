use circuitsim::be_solver::{MAX_ITERATIONS, TOLERANCE_BITS};
use circuitsim::scalar::{INFINITY_BITS, ONE_BITS, SIGN_BIT};
use circuitsim::{Expr, Scalar};

fn s(value: f64) -> Scalar {
    Scalar::from_bits(value.to_bits())
}

fn samples() -> Vec<f64> {
    vec![
        0.0,
        -0.0,
        f64::from_bits(1),
        -f64::from_bits(1),
        f64::MIN_POSITIVE,
        -f64::MIN_POSITIVE,
        1e-4,
        0.99e-4,
        1.0,
        -1.0,
        1.0 + f64::EPSILON,
        2.5,
        -2.5,
        1e300,
        -1e300,
        f64::MAX,
        f64::MIN,
        f64::INFINITY,
        f64::NEG_INFINITY,
        f64::NAN,
        -f64::NAN,
        f64::from_bits(0x7FF0_0000_0000_0001),
        f64::from_bits(0xFFFF_FFFF_FFFF_FFFF),
    ]
}

#[test]
fn constants_are_the_patterns_of_their_numbers() {
    assert_eq!(Scalar::zero().to_bits(), 0.0f64.to_bits());
    assert_eq!(Scalar::one().to_bits(), 1.0f64.to_bits());
    assert_eq!(ONE_BITS, 1.0f64.to_bits());
    assert_eq!(SIGN_BIT, (-0.0f64).to_bits());
    assert_eq!(INFINITY_BITS, f64::INFINITY.to_bits());
    assert_eq!(TOLERANCE_BITS, 1e-4f64.to_bits());
    assert_eq!(MAX_ITERATIONS, 1000);
}

#[test]
fn bits_round_trip() {
    for bits in [0u64, 1, 0x3FF0_0000_0000_0000, u64::MAX] {
        assert_eq!(Scalar::from_bits(bits).to_bits(), bits);
        assert_eq!(Scalar::from_bits(bits).bits, bits);
    }
}

#[test]
fn nan_is_recognised() {
    for value in samples() {
        assert_eq!(s(value).is_nan(), value.is_nan(), "{:e}", value);
    }
}

#[test]
fn less_than_agrees_with_doubles() {
    for a in samples() {
        for b in samples() {
            assert_eq!(s(a).is_less_than(s(b)), a < b, "{:e} < {:e}", a, b);
        }
    }
}

#[test]
fn at_most_agrees_with_doubles() {
    for a in samples() {
        for b in samples() {
            assert_eq!(s(a).is_at_most(s(b)), a <= b, "{:e} <= {:e}", a, b);
        }
    }
}

#[test]
fn formulas_are_built_as_written() {
    let a = || Expr::value(s(2.0));
    let b = || Expr::value(s(3.0));
    assert_eq!(a(), Expr::Value(s(2.0)));
    assert_eq!(Expr::neg(a()), Expr::Neg(Box::new(a())));
    assert_eq!(Expr::sum(a(), b()), Expr::Sum(Box::new(a()), Box::new(b())));
    assert_eq!(Expr::difference(a(), b()), Expr::Difference(Box::new(a()), Box::new(b())));
    assert_eq!(Expr::product(a(), b()), Expr::Product(Box::new(a()), Box::new(b())));
    assert_eq!(Expr::quotient(a(), b()), Expr::Quotient(Box::new(a()), Box::new(b())));
    assert_eq!(Expr::exp(a()), Expr::Exp(Box::new(a())));
    assert_ne!(Expr::difference(a(), b()), Expr::difference(b(), a()));
}

#[test]
fn duplicate_copies_the_whole_formula() {
    let formula = Expr::sum(
        Expr::quotient(
            Expr::product(Expr::difference(Expr::value(s(1.0)), Expr::value(s(2.0))), Expr::value(s(3.0))),
            Expr::neg(Expr::value(s(4.0))),
        ),
        Expr::exp(Expr::value(s(5.0))),
    );
    let copy = formula.duplicate();
    assert_eq!(copy, formula);
    assert_eq!(copy.duplicate().duplicate(), formula);
}
