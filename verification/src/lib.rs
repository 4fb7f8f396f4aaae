//! Scalar control-flow operators for a vectorized SQL expression evaluator:
//! NULL-aware null-coalescing and multi-branch conditional selection, generic
//! over the scalar value types the evaluator supports and applied to
//! already-evaluated, type-erased argument values.

pub mod control;
pub mod data_type;
