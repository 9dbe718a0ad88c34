//! The evaluator: validation and dispatch of one calculation.
//!
//! Evaluation decides everything about a calculation short of the
//! floating-point arithmetic itself: which operation an alias names,
//! and whether a division is rejected because its divisor is exactly
//! zero. A successful evaluation yields a [`Computation`], the canonical
//! operation together with the operands it is to be applied to; carrying
//! that one operation out on the two doubles is the caller's single
//! unverified step.

use crate::op::{op_of, parse_op, Op};
use crate::operand::{Operand, SIGN_BIT};
use vstd::prelude::*;

verus! {

/// Why a calculation failed.
#[derive(Clone, Copy, Debug, PartialEq, Eq, Structural)]
pub enum CalcError {
    /// The operation token names none of the accepted aliases. The
    /// resolver already rejects such a token, so a caller that goes
    /// through it never sees this variant; the evaluator still reports
    /// it explicitly rather than trusting that the two stay in sync.
    UnknownOperation,
    /// A division's divisor is exactly zero.
    DivisionByZero,
}

impl CalcError {
    /// The user-facing message for the error, as printed to the error
    /// stream.
    pub fn message(&self) -> (m: &'static str)
        ensures
            *self == CalcError::DivisionByZero ==> m@ == "Error: Division by zero"@,
            *self == CalcError::UnknownOperation ==> m@ == "Error: Unknown operation"@,
    {
        match self {
            CalcError::DivisionByZero => "Error: Division by zero",
            CalcError::UnknownOperation => "Error: Unknown operation",
        }
    }
}

/// A validated calculation, ready to be carried out: the canonical
/// operation and the two operands, with division by zero ruled out.
#[derive(Clone, Copy, Debug, PartialEq, Eq, Structural)]
pub struct Computation {
    /// The canonical operation to apply.
    pub op: Op,
    /// The first operand.
    pub first: Operand,
    /// The second operand; for a division, a divisor known not to be zero.
    pub second: Operand,
}

/// What dispatch on a canonical operation decides: a division by an
/// exact zero fails, everything else passes the operands through.
pub open spec fn spec_evaluate_op(op: Op, first: Operand, second: Operand) -> Result<
    Computation,
    CalcError,
> {
    if op == Op::Div && second.spec_is_zero() {
        Err(CalcError::DivisionByZero)
    } else {
        Ok(Computation { op, first, second })
    }
}

/// What evaluation of a raw token decides: an unrecognised token is an
/// error, a recognised one dispatches on its canonical operation.
pub open spec fn spec_evaluate(token: Seq<char>, first: Operand, second: Operand) -> Result<
    Computation,
    CalcError,
> {
    match op_of(token) {
        Some(op) => spec_evaluate_op(op, first, second),
        None => Err(CalcError::UnknownOperation),
    }
}

/// Dispatches a canonical operation: fails with [`CalcError::DivisionByZero`]
/// exactly when the operation is a division and the divisor is zero
/// (positive or negative); otherwise succeeds with the operands unchanged.
pub fn evaluate_op(op: Op, first: Operand, second: Operand) -> (r: Result<Computation, CalcError>)
    ensures
        r == spec_evaluate_op(op, first, second),
        r is Err <==> (op == Op::Div && second.spec_is_zero()),
        r is Ok ==> r->Ok_0 == (Computation { op, first, second }),
{
    if op == Op::Div && second.is_zero() {
        Err(CalcError::DivisionByZero)
    } else {
        Ok(Computation { op, first, second })
    }
}

/// Evaluates one calculation from a raw operation token: recognises the
/// alias case-insensitively, then dispatches. Succeeds exactly when the
/// token is an accepted alias and the calculation is not a division by
/// zero; the operands are passed through unchanged.
pub fn evaluate(operation: &str, first: Operand, second: Operand) -> (r: Result<
    Computation,
    CalcError,
>)
    ensures
        r == spec_evaluate(operation@, first, second),
        r == Err::<Computation, CalcError>(CalcError::UnknownOperation) <==> op_of(operation@)
            is None,
        r == Err::<Computation, CalcError>(CalcError::DivisionByZero) <==> (op_of(operation@)
            == Some(Op::Div) && second.spec_is_zero()),
        r is Ok <==> (op_of(operation@) is Some && !(op_of(operation@) == Some(Op::Div)
            && second.spec_is_zero())),
        r is Ok ==> r->Ok_0 == (Computation {
            op: op_of(operation@)->Some_0,
            first,
            second,
        }),
{
    match parse_op(operation) {
        Some(op) => evaluate_op(op, first, second),
        None => Err(CalcError::UnknownOperation),
    }
}

/// Alias equivalence: two tokens that name the same operation evaluate
/// identically on all operands.
pub proof fn lemma_alias_equivalence(s: Seq<char>, t: Seq<char>, first: Operand, second: Operand)
    requires
        op_of(s) == op_of(t),
    ensures
        spec_evaluate(s, first, second) == spec_evaluate(t, first, second),
{
}

/// Division fails with [`CalcError::DivisionByZero`] exactly when the
/// divisor's bit pattern is one of the two IEEE 754 zeros, negative zero
/// included; on every other divisor it succeeds with the operands
/// unchanged.
pub proof fn lemma_division_by_zero(token: Seq<char>, first: Operand, second: Operand)
    requires
        op_of(token) == Some(Op::Div),
    ensures
        spec_evaluate(token, first, second) == Err::<Computation, CalcError>(
            CalcError::DivisionByZero,
        ) <==> (second.bits == 0 || second.bits == SIGN_BIT),
        !second.spec_is_zero() ==> spec_evaluate(token, first, second) == Ok::<
            Computation,
            CalcError,
        >(Computation { op: Op::Div, first, second }),
{
}

/// Every operation other than division is total: it succeeds on all
/// operands and passes them through unchanged.
pub proof fn lemma_total_except_division(token: Seq<char>, op: Op, first: Operand, second: Operand)
    requires
        op_of(token) == Some(op),
        op != Op::Div,
    ensures
        spec_evaluate(token, first, second) == Ok::<Computation, CalcError>(
            Computation { op, first, second },
        ),
{
}

} // verus!
