use vstd::prelude::*;

verus! {

/// The calculator tool.
pub struct Calculator {}

/// The operation that the calculator applies to its two numbers.
#[derive(Debug, PartialEq, Eq, Structural, Copy, Clone)]
pub enum CalculatorOperator {
    Add,
    Subtract,
    Multiply,
    Divide,
}

} // verus!
