//! Evaluation of arithmetic expression trees received as JSON values.
//!
//! Leaf values are IEEE-754 binary64 numbers carried as their bit patterns.
//! The floating-point operations themselves are supplied by the caller as a
//! closure; this crate decides which operation is applied to which operands,
//! in which order, and when evaluation fails instead.
pub mod decode;
pub mod eval;
pub mod json;
pub mod reply;
pub mod tree;
