//! The argument resolver: merging positional and flag inputs.
//!
//! Each of the three logical fields — the operation and the two operands —
//! may arrive positionally, by flag, both ways, or not at all. The fields
//! are merged independently under one fixed rule: the positional value
//! wins, the flag value is the fallback. The merged operation token must
//! name an accepted alias, and both operands must be present; otherwise
//! resolution fails with the matching error. The operand type is generic:
//! the resolver never inspects an operand, it only routes it.

use crate::op::{op_of, parse_op, Op};
use vstd::prelude::*;

verus! {

/// Why resolution of the command-line fields failed.
#[derive(Clone, Copy, Debug, PartialEq, Eq, Structural)]
pub enum ResolveError {
    /// The operation was given neither positionally nor by flag.
    MissingOperation,
    /// The merged operation token names none of the accepted aliases.
    InvalidOperation,
    /// An operand was given neither positionally nor by flag.
    MissingOperand,
}

impl ResolveError {
    /// The user-facing message for the error, as printed to the error
    /// stream.
    pub fn message(&self) -> (m: &'static str)
        ensures
            *self == ResolveError::MissingOperation ==> m@
                == "Error: Operation argument missing"@,
            *self == ResolveError::InvalidOperation ==> m@ == "Error: Invalid operation"@,
            *self == ResolveError::MissingOperand ==> m@ == "Error: missing operand"@,
    {
        match self {
            ResolveError::MissingOperation => "Error: Operation argument missing",
            ResolveError::InvalidOperation => "Error: Invalid operation",
            ResolveError::MissingOperand => "Error: missing operand",
        }
    }
}

/// A fully resolved invocation: the canonical operation and one value for
/// each operand.
#[derive(Debug)]
pub struct Resolved<T> {
    /// The canonical operation the merged token names.
    pub op: Op,
    /// The first operand.
    pub first: T,
    /// The second operand.
    pub second: T,
}

/// The merge rule for one field: the positional value if present,
/// otherwise the flag value.
pub open spec fn spec_pick<T>(positional: Option<T>, flag: Option<T>) -> Option<T> {
    if positional is Some {
        positional
    } else {
        flag
    }
}

/// Merges one field from its two possible sources, positional value first.
pub fn pick_value<T>(positional: Option<T>, flag: Option<T>) -> (r: Option<T>)
    ensures
        r == spec_pick(positional, flag),
        positional is Some ==> r == positional,
        positional is None ==> r == flag,
{
    if positional.is_some() {
        positional
    } else {
        flag
    }
}

/// What resolution decides, field by field: a missing operation, then an
/// unrecognised operation token, then a missing operand each fail with
/// their own error; otherwise the merged values make up the result.
pub open spec fn spec_resolve<'a, T>(
    op_pos: Option<&'a str>,
    op_flag: Option<&'a str>,
    first_pos: Option<T>,
    first_flag: Option<T>,
    second_pos: Option<T>,
    second_flag: Option<T>,
) -> Result<Resolved<T>, ResolveError> {
    match spec_pick(op_pos, op_flag) {
        None => Err(ResolveError::MissingOperation),
        Some(token) => match op_of(token@) {
            None => Err(ResolveError::InvalidOperation),
            Some(op) => match (spec_pick(first_pos, first_flag), spec_pick(
                second_pos,
                second_flag,
            )) {
                (Some(first), Some(second)) => Ok(Resolved { op, first, second }),
                _ => Err(ResolveError::MissingOperand),
            },
        },
    }
}

/// Resolves the three logical fields of an invocation from their
/// positional and flag sources. For each field independently the
/// positional value takes precedence and the flag value is the fallback.
/// Succeeds exactly when an operation token is present and names an
/// accepted alias and both operands are present.
pub fn resolve<'a, T>(
    op_pos: Option<&'a str>,
    op_flag: Option<&'a str>,
    first_pos: Option<T>,
    first_flag: Option<T>,
    second_pos: Option<T>,
    second_flag: Option<T>,
) -> (r: Result<Resolved<T>, ResolveError>)
    ensures
        r == spec_resolve(op_pos, op_flag, first_pos, first_flag, second_pos, second_flag),
{
    let token = match pick_value(op_pos, op_flag) {
        Some(t) => t,
        None => {
            return Err(ResolveError::MissingOperation);
        },
    };
    let op = match parse_op(token) {
        Some(op) => op,
        None => {
            return Err(ResolveError::InvalidOperation);
        },
    };
    let first = match pick_value(first_pos, first_flag) {
        Some(v) => v,
        None => {
            return Err(ResolveError::MissingOperand);
        },
    };
    let second = match pick_value(second_pos, second_flag) {
        Some(v) => v,
        None => {
            return Err(ResolveError::MissingOperand);
        },
    };
    Ok(Resolved { op, first, second })
}

/// Positional precedence: whenever resolution succeeds, every field that
/// was supplied positionally resolves to its positional value, whatever
/// the flags said.
pub proof fn lemma_positional_precedence<'a, T>(
    op_pos: Option<&'a str>,
    op_flag: Option<&'a str>,
    first_pos: Option<T>,
    first_flag: Option<T>,
    second_pos: Option<T>,
    second_flag: Option<T>,
)
    requires
        spec_resolve(op_pos, op_flag, first_pos, first_flag, second_pos, second_flag) is Ok,
    ensures
        ({
            let resolved = spec_resolve(
                op_pos,
                op_flag,
                first_pos,
                first_flag,
                second_pos,
                second_flag,
            )->Ok_0;
            &&& op_pos is Some ==> Some(resolved.op) == op_of(op_pos->Some_0@)
            &&& first_pos is Some ==> resolved.first == first_pos->Some_0
            &&& second_pos is Some ==> resolved.second == second_pos->Some_0
        }),
{
}

/// Early rejection: a merged operation token that names no accepted alias
/// fails resolution with [`ResolveError::InvalidOperation`], whatever the
/// operands — valid, missing, or conflicting — so no such token ever
/// reaches the evaluator.
pub proof fn lemma_invalid_operation_rejected<'a, T>(
    op_pos: Option<&'a str>,
    op_flag: Option<&'a str>,
    first_pos: Option<T>,
    first_flag: Option<T>,
    second_pos: Option<T>,
    second_flag: Option<T>,
)
    requires
        spec_pick(op_pos, op_flag) matches Some(token) && op_of(token@) is None,
    ensures
        spec_resolve(op_pos, op_flag, first_pos, first_flag, second_pos, second_flag)
            == Err::<Resolved<T>, ResolveError>(ResolveError::InvalidOperation),
{
}

} // verus!
