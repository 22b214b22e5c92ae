//! The rounding arithmetic that the motion models are computed with.
//!
//! The library performs no rounding operation itself. Every sum, difference,
//! product, quotient, sine and cosine is requested from an arithmetic unit: a
//! function from [`Operation`] to [`Real`] that the caller supplies. Contracts
//! say which formula a result was computed from, as a [`Term`], and relate the
//! two through what the unit may return ([`outcomes`], [`evaluates`]). The
//! unit has to accept every operation; nothing else is asked of it.
use vstd::prelude::*;
use crate::binary32::Real;

verus! {

/// One rounding operation on given operands.
#[derive(Clone, Copy, Debug)]
pub enum Operation {
    /// Left operand plus right operand.
    Add(Real, Real),
    /// Left operand minus right operand.
    Sub(Real, Real),
    /// Left operand times right operand.
    Mul(Real, Real),
    /// Left operand divided by right operand.
    Div(Real, Real),
    /// Sine of the operand, in radians.
    Sin(Real),
    /// Cosine of the operand, in radians.
    Cos(Real),
}

/// A formula over given numbers. The shape fixes the order of operations.
pub enum Term {
    /// A given number.
    Value(Real),
    /// The operand with its sign flipped (exact, not requested from the unit).
    Neg(Box<Term>),
    /// The sum of the operands.
    Add(Box<Term>, Box<Term>),
    /// The left operand minus the right one.
    Sub(Box<Term>, Box<Term>),
    /// The product of the operands.
    Mul(Box<Term>, Box<Term>),
    /// The left operand divided by the right one.
    Div(Box<Term>, Box<Term>),
    /// The sine of the operand.
    Sin(Box<Term>),
    /// The cosine of the operand.
    Cos(Box<Term>),
}

/// The formula that is the number `a`.
pub open spec fn val(a: Real) -> Term {
    Term::Value(a)
}

/// `-a`.
pub open spec fn neg(a: Term) -> Term {
    Term::Neg(Box::new(a))
}

/// `a + b`.
pub open spec fn plus(a: Term, b: Term) -> Term {
    Term::Add(Box::new(a), Box::new(b))
}

/// `a - b`.
pub open spec fn minus(a: Term, b: Term) -> Term {
    Term::Sub(Box::new(a), Box::new(b))
}

/// `a * b`.
pub open spec fn times(a: Term, b: Term) -> Term {
    Term::Mul(Box::new(a), Box::new(b))
}

/// `a / b`.
pub open spec fn over(a: Term, b: Term) -> Term {
    Term::Div(Box::new(a), Box::new(b))
}

/// The sine of `a`.
pub open spec fn sin(a: Term) -> Term {
    Term::Sin(Box::new(a))
}

/// The cosine of `a`.
pub open spec fn cos(a: Term) -> Term {
    Term::Cos(Box::new(a))
}

/// The unit accepts every operation.
pub open spec fn total<F: Fn(Operation) -> Real>(unit: &F) -> bool {
    forall|op: Operation| call_requires(unit, (op,))
}

/// What the unit may return: `outcomes(unit)(op, v)` says that `v` is a value
/// that the unit may return for `op`.
pub open spec fn outcomes<F: Fn(Operation) -> Real>(unit: &F) -> spec_fn(Operation, Real) -> bool {
    |op: Operation, v: Real| call_ensures(unit, (op,), v)
}

/// `v` is a value that may be computed for the formula `t`, where `may` says
/// what each operation may return: each operation of `t` is applied to values
/// that may be computed for its operands. Where `may` allows one value for
/// each operation, `v` is the one value of `t`.
pub open spec fn evaluates(may: spec_fn(Operation, Real) -> bool, t: Term, v: Real) -> bool
    decreases t,
{
    match t {
        Term::Value(c) => v == c,
        Term::Neg(a) => evaluates(may, *a, v.negated()),
        Term::Add(a, b) => exists|x: Real, y: Real|
            #![trigger may(Operation::Add(x, y), v)]
            evaluates(may, *a, x) && evaluates(may, *b, y) && may(Operation::Add(x, y), v),
        Term::Sub(a, b) => exists|x: Real, y: Real|
            #![trigger may(Operation::Sub(x, y), v)]
            evaluates(may, *a, x) && evaluates(may, *b, y) && may(Operation::Sub(x, y), v),
        Term::Mul(a, b) => exists|x: Real, y: Real|
            #![trigger may(Operation::Mul(x, y), v)]
            evaluates(may, *a, x) && evaluates(may, *b, y) && may(Operation::Mul(x, y), v),
        Term::Div(a, b) => exists|x: Real, y: Real|
            #![trigger may(Operation::Div(x, y), v)]
            evaluates(may, *a, x) && evaluates(may, *b, y) && may(Operation::Div(x, y), v),
        Term::Sin(a) => exists|x: Real|
            #![trigger may(Operation::Sin(x), v)]
            evaluates(may, *a, x) && may(Operation::Sin(x), v),
        Term::Cos(a) => exists|x: Real|
            #![trigger may(Operation::Cos(x), v)]
            evaluates(may, *a, x) && may(Operation::Cos(x), v),
    }
}

/// Requests one operation from the unit.
pub fn apply<F: Fn(Operation) -> Real>(unit: &F, op: Operation) -> (v: Real)
    requires
        total(unit),
    ensures
        outcomes(unit)(op, v),
{
    unit(op)
}

} // verus!
