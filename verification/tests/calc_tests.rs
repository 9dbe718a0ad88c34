//! End-to-end calculations: evaluation of each operation through every
//! kind of alias, and the division-by-zero error.

use cli_calculator::{evaluate, CalcError, Computation, Op, Operand};

fn operand(x: f64) -> Operand {
    Operand::from_bits(x.to_bits())
}

fn apply(c: &Computation) -> f64 {
    let a = f64::from_bits(c.first.bits);
    let b = f64::from_bits(c.second.bits);
    match c.op {
        Op::Add => a + b,
        Op::Sub => a - b,
        Op::Mul => a * b,
        Op::Div => a / b,
    }
}

fn calc(operation: &str, operand1: f64, operand2: f64) -> Result<f64, &'static str> {
    match evaluate(operation, operand(operand1), operand(operand2)) {
        Ok(c) => Ok(apply(&c)),
        Err(e) => Err(e.message()),
    }
}

#[test]
fn test_addition() {
    let result = calc("add", 2.5, 3.7).unwrap();
    assert_eq!(result, 6.2);
}

#[test]
fn test_addition_plus_sign() {
    let result = calc("+", 2.5, 3.7).unwrap();
    assert_eq!(result, 6.2);
}

#[test]
fn test_addition_addition_uppercase() {
    let result = calc("ADD", 2.5, 3.7).unwrap();
    assert_eq!(result, 6.2);
}

#[test]
fn test_subtraction() {
    let result = calc("sub", 10.0, 4.0).unwrap();
    assert_eq!(result, 6.0);
}

#[test]
fn test_subtraction_minus_sign() {
    let result = calc("-", 10.0, 4.0).unwrap();
    assert_eq!(result, 6.0);
}

#[test]
fn test_subtraction_uppercase() {
    let result = calc("SUB", 10.0, 4.0).unwrap();
    assert_eq!(result, 6.0);
}

#[test]
fn test_multiplication() {
    let result = calc("mul", 3.14, 2.0).unwrap();
    assert_eq!(result, 6.28);
}

#[test]
fn test_division() {
    let result = calc("div", 10.0, 2.0).unwrap();
    assert_eq!(result, 5.0);
}

#[test]
fn test_division_by_zero() {
    let result = calc("div", 10.0, 0.0);
    assert!(result.is_err());
    assert_eq!(result.unwrap_err(), "Error: Division by zero");
}

#[test]
fn test_division_by_negative_zero() {
    let result = calc("div", 10.0, -0.0);
    assert!(result.is_err());
    assert_eq!(result.unwrap_err(), "Error: Division by zero");
}

#[test]
fn test_division_by_near_zero_succeeds() {
    let result = calc("div", 10.0, 1e-300).unwrap();
    assert_eq!(result, 10.0 / 1e-300);
}

#[test]
fn test_unknown_operation_is_an_error() {
    let result = evaluate("pow", operand(2.0), operand(8.0));
    assert_eq!(result.unwrap_err(), CalcError::UnknownOperation);
}

#[test]
fn test_alias_equivalence_per_operation() {
    for aliases in [
        ["add", "ADD", "Add", "+"],
        ["sub", "SUB", "Sub", "-"],
        ["mul", "MUL", "Mul", "*"],
        ["div", "DIV", "dIv", "/"],
    ] {
        let expected = calc(aliases[0], 9.5, 2.5).unwrap();
        for alias in aliases {
            assert_eq!(calc(alias, 9.5, 2.5).unwrap(), expected);
        }
    }
}

#[test]
fn test_addition_commutes() {
    assert_eq!(calc("add", 2.5, 3.7).unwrap(), calc("add", 3.7, 2.5).unwrap());
}

#[test]
fn test_multiplication_commutes() {
    assert_eq!(calc("mul", 3.14, 2.0).unwrap(), calc("mul", 2.0, 3.14).unwrap());
}

#[test]
fn test_subtraction_does_not_commute() {
    assert_eq!(calc("sub", 10.0, 4.0).unwrap(), 6.0);
    assert_eq!(calc("sub", 4.0, 10.0).unwrap(), -6.0);
}

#[test]
fn test_operands_pass_through_unchanged() {
    let c = evaluate("add", operand(2.5), operand(3.7)).unwrap();
    assert_eq!(c.op, Op::Add);
    assert_eq!(c.first.bits, (2.5f64).to_bits());
    assert_eq!(c.second.bits, (3.7f64).to_bits());
}

#[test]
fn test_result_formatting_drops_trailing_zero() {
    let sub = calc("sub", 10.0, 4.0).unwrap();
    assert_eq!(format!("Result: {}", sub), "Result: 6");
    let add = calc("add", 2.5, 3.7).unwrap();
    assert_eq!(format!("Result: {}", add), "Result: 6.2");
    let div = calc("div", 10.0, 2.0).unwrap();
    assert_eq!(format!("Result: {}", div), "Result: 5");
}
