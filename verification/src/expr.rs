//! Formulas over binary64 numbers.
//!
//! The library never rounds a number itself. A value that has to be computed
//! is handed out as an [`Expr`]: the operands and the order of the operations,
//! each of them the IEEE 754 operation on binary64 numbers. Evaluating an
//! `Expr` bottom-up, left operand first, gives the same bits on every run.
use vstd::prelude::*;
use crate::scalar::Scalar;

verus! {

/// A formula over binary64 numbers.
#[derive(Debug, PartialEq, Eq)]
pub enum Expr {
    /// A given number.
    Value(Scalar),
    /// `-a`.
    Neg(Box<Expr>),
    /// `a + b`.
    Sum(Box<Expr>, Box<Expr>),
    /// `a - b`.
    Difference(Box<Expr>, Box<Expr>),
    /// `a * b`.
    Product(Box<Expr>, Box<Expr>),
    /// `a / b`.
    Quotient(Box<Expr>, Box<Expr>),
    /// `e` to the power `a`.
    Exp(Box<Expr>),
    /// The absolute value of `a`.
    Abs(Box<Expr>),
}

impl Expr {
    pub open spec fn value_spec(s: Scalar) -> Expr {
        Expr::Value(s)
    }

    pub open spec fn neg_spec(a: Expr) -> Expr {
        Expr::Neg(Box::new(a))
    }

    pub open spec fn sum_spec(a: Expr, b: Expr) -> Expr {
        Expr::Sum(Box::new(a), Box::new(b))
    }

    pub open spec fn difference_spec(a: Expr, b: Expr) -> Expr {
        Expr::Difference(Box::new(a), Box::new(b))
    }

    pub open spec fn product_spec(a: Expr, b: Expr) -> Expr {
        Expr::Product(Box::new(a), Box::new(b))
    }

    pub open spec fn quotient_spec(a: Expr, b: Expr) -> Expr {
        Expr::Quotient(Box::new(a), Box::new(b))
    }

    pub open spec fn exp_spec(a: Expr) -> Expr {
        Expr::Exp(Box::new(a))
    }

    pub open spec fn abs_spec(a: Expr) -> Expr {
        Expr::Abs(Box::new(a))
    }

    #[verifier::when_used_as_spec(value_spec)]
    pub fn value(s: Scalar) -> (e: Expr)
        ensures
            e == Expr::value_spec(s),
    {
        Expr::Value(s)
    }

    #[verifier::when_used_as_spec(neg_spec)]
    pub fn neg(a: Expr) -> (e: Expr)
        ensures
            e == Expr::neg_spec(a),
    {
        Expr::Neg(Box::new(a))
    }

    #[verifier::when_used_as_spec(sum_spec)]
    pub fn sum(a: Expr, b: Expr) -> (e: Expr)
        ensures
            e == Expr::sum_spec(a, b),
    {
        Expr::Sum(Box::new(a), Box::new(b))
    }

    #[verifier::when_used_as_spec(difference_spec)]
    pub fn difference(a: Expr, b: Expr) -> (e: Expr)
        ensures
            e == Expr::difference_spec(a, b),
    {
        Expr::Difference(Box::new(a), Box::new(b))
    }

    #[verifier::when_used_as_spec(product_spec)]
    pub fn product(a: Expr, b: Expr) -> (e: Expr)
        ensures
            e == Expr::product_spec(a, b),
    {
        Expr::Product(Box::new(a), Box::new(b))
    }

    #[verifier::when_used_as_spec(quotient_spec)]
    pub fn quotient(a: Expr, b: Expr) -> (e: Expr)
        ensures
            e == Expr::quotient_spec(a, b),
    {
        Expr::Quotient(Box::new(a), Box::new(b))
    }

    #[verifier::when_used_as_spec(exp_spec)]
    pub fn exp(a: Expr) -> (e: Expr)
        ensures
            e == Expr::exp_spec(a),
    {
        Expr::Exp(Box::new(a))
    }

    #[verifier::when_used_as_spec(abs_spec)]
    pub fn abs(a: Expr) -> (e: Expr)
        ensures
            e == Expr::abs_spec(a),
    {
        Expr::Abs(Box::new(a))
    }

    /// A copy of the formula.
    pub fn duplicate(&self) -> (e: Expr)
        ensures
            e == *self,
        decreases *self,
    {
        match self {
            Expr::Value(s) => Expr::Value(*s),
            Expr::Neg(a) => Expr::Neg(Box::new(a.duplicate())),
            Expr::Sum(a, b) => Expr::Sum(Box::new(a.duplicate()), Box::new(b.duplicate())),
            Expr::Difference(a, b) => Expr::Difference(
                Box::new(a.duplicate()),
                Box::new(b.duplicate()),
            ),
            Expr::Product(a, b) => Expr::Product(Box::new(a.duplicate()), Box::new(b.duplicate())),
            Expr::Quotient(a, b) => Expr::Quotient(
                Box::new(a.duplicate()),
                Box::new(b.duplicate()),
            ),
            Expr::Exp(a) => Expr::Exp(Box::new(a.duplicate())),
            Expr::Abs(a) => Expr::Abs(Box::new(a.duplicate())),
        }
    }
}

} // verus!
