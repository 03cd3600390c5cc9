//! Fallible tensors: a wrapper that holds either a tensor or the error that
//! prevented one, with arithmetic that propagates the first error it meets.
//!
//! The tensor type, its scalar type and its error type are parameters. The
//! wrapper never looks inside a tensor or an error: it decides whether the
//! tensor type's own operation is invoked, on which operands, and which error
//! comes out when it is not.
//!
//! - [`fallible`]: the wrapper, [`MTensor`], with its constructors, `unwrap`
//!   and the short-circuit pair `branch` and `from_residual`.
//! - [`tensor`]: [`TensorOps`], the arithmetic that a tensor type offers.
//! - [`outcome`]: the relations in which the contracts of the arithmetic are
//!   stated.
//! - [`addition`], [`subtraction`], [`multiplication`], [`division`]: the
//!   arithmetic on wrappers, as named functions and as operators.
//! - [`laws`]: what follows of every operation, whatever the tensor type.

pub mod addition;
pub mod division;
pub mod fallible;
pub mod laws;
pub mod multiplication;
pub mod outcome;
pub mod subtraction;
pub mod tensor;

pub use fallible::MTensor;
pub use tensor::TensorOps;
