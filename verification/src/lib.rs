//! A verified command-line calculator core.
//!
//! The library holds everything about the calculator that can be decided
//! without floating-point arithmetic: recognising the operation aliases,
//! merging positional and flag arguments with positional precedence, and
//! gating division by an exact zero test on the divisor's IEEE 754 bit
//! pattern. A thin front end parses the command line, runs the one
//! floating-point operation the library has validated, and prints.

pub mod eval;
pub mod op;
pub mod operand;
pub mod resolve;

pub use eval::{evaluate, evaluate_op, CalcError, Computation};
pub use op::{parse_op, Op};
pub use operand::Operand;
pub use resolve::{pick_value, resolve, Resolved, ResolveError};
