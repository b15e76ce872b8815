//! Instruction-lowering helpers of the IR backend: the decisions made from operand
//! and declaration types, and the emission helpers that depend on the target alone.

pub mod builtins;
pub mod callables;
pub mod comparisons;
pub mod externs;
