//! What an operation on fallible operands may give: the relations that the
//! contracts of the arithmetic are stated in.
//!
//! An operand that has failed decides the outcome before the tensor type is
//! asked anything: the leftmost failure is handed on. Only when every
//! operand holds a tensor is the tensor type's own operation applied, and
//! then its result, success or failure, is the outcome.

use crate::tensor::TensorOps;
use vstd::prelude::*;

verus! {

/// `out` is a failure, and its error is `e` or what `E::clone` made of `e`.
pub open spec fn carries<T, E: Clone>(out: Result<T, E>, e: E) -> bool {
    out is Err && cloned(e, out->Err_0)
}

/// Cloning an error of type `E` changes nothing: every clone equals what it
/// was made from. Where this holds, an outcome that carries an error holds
/// that very error.
pub open spec fn clone_is_faithful<E: Clone>() -> bool {
    forall|e: E, c: E| cloned(e, c) ==> c == e
}

/// The outcome `out` of an operation with one fallible operand, where
/// `applied(x, r)` says that the operation on the tensor `x` may return `r`.
pub open spec fn lift1<T, E: Clone>(
    operand: Result<T, E>,
    out: Result<T, E>,
    applied: spec_fn(T, Result<T, E>) -> bool,
) -> bool {
    match operand {
        Err(e) => carries(out, e),
        Ok(x) => applied(x, out),
    }
}

/// The outcome `out` of an operation with two fallible operands, where
/// `applied(x, y, r)` says that the operation on the tensors `x` and `y` may
/// return `r`. A failed `lhs` is handed on whatever `rhs` is.
pub open spec fn lift2<T, E: Clone>(
    lhs: Result<T, E>,
    rhs: Result<T, E>,
    out: Result<T, E>,
    applied: spec_fn(T, T, Result<T, E>) -> bool,
) -> bool {
    match lhs {
        Err(e) => carries(out, e),
        Ok(x) => match rhs {
            Err(e) => carries(out, e),
            Ok(y) => applied(x, y, out),
        },
    }
}

/// `out` is an outcome of `lhs + rhs`.
pub open spec fn add_outcome<T: TensorOps>(
    lhs: Result<T, T::Error>,
    rhs: Result<T, T::Error>,
    out: Result<T, T::Error>,
) -> bool {
    lift2(lhs, rhs, out, |x: T, y: T, r: Result<T, T::Error>| call_ensures(T::add, (&x, &y), r))
}

/// `out` is an outcome of `lhs - rhs`.
pub open spec fn sub_outcome<T: TensorOps>(
    lhs: Result<T, T::Error>,
    rhs: Result<T, T::Error>,
    out: Result<T, T::Error>,
) -> bool {
    lift2(lhs, rhs, out, |x: T, y: T, r: Result<T, T::Error>| call_ensures(T::sub, (&x, &y), r))
}

/// `out` is an outcome of `lhs * rhs`.
pub open spec fn mul_outcome<T: TensorOps>(
    lhs: Result<T, T::Error>,
    rhs: Result<T, T::Error>,
    out: Result<T, T::Error>,
) -> bool {
    lift2(lhs, rhs, out, |x: T, y: T, r: Result<T, T::Error>| call_ensures(T::mul, (&x, &y), r))
}

/// `out` is an outcome of `lhs / rhs`.
pub open spec fn div_outcome<T: TensorOps>(
    lhs: Result<T, T::Error>,
    rhs: Result<T, T::Error>,
    out: Result<T, T::Error>,
) -> bool {
    lift2(lhs, rhs, out, |x: T, y: T, r: Result<T, T::Error>| call_ensures(T::div, (&x, &y), r))
}

/// `out` is an outcome of `lhs + rhs` for a scalar `rhs`.
pub open spec fn add_scalar_outcome<T: TensorOps>(
    lhs: Result<T, T::Error>,
    rhs: T::Scalar,
    out: Result<T, T::Error>,
) -> bool {
    lift1(lhs, out, |x: T, r: Result<T, T::Error>| call_ensures(T::add_scalar, (&x, rhs), r))
}

/// `out` is an outcome of `lhs - rhs` for a scalar `rhs`.
pub open spec fn sub_scalar_outcome<T: TensorOps>(
    lhs: Result<T, T::Error>,
    rhs: T::Scalar,
    out: Result<T, T::Error>,
) -> bool {
    lift1(lhs, out, |x: T, r: Result<T, T::Error>| call_ensures(T::sub_scalar, (&x, rhs), r))
}

/// `out` is an outcome of `lhs * rhs` for a scalar `rhs`.
pub open spec fn mul_scalar_outcome<T: TensorOps>(
    lhs: Result<T, T::Error>,
    rhs: T::Scalar,
    out: Result<T, T::Error>,
) -> bool {
    lift1(lhs, out, |x: T, r: Result<T, T::Error>| call_ensures(T::mul_scalar, (&x, rhs), r))
}

/// `out` is an outcome of `lhs / rhs` for a scalar `rhs`.
pub open spec fn div_scalar_outcome<T: TensorOps>(
    lhs: Result<T, T::Error>,
    rhs: T::Scalar,
    out: Result<T, T::Error>,
) -> bool {
    lift1(lhs, out, |x: T, r: Result<T, T::Error>| call_ensures(T::div_scalar, (&x, rhs), r))
}

/// `out` is an outcome of `lhs + rhs` for a scalar `lhs`.
pub open spec fn scalar_add_outcome<T: TensorOps>(
    lhs: T::Scalar,
    rhs: Result<T, T::Error>,
    out: Result<T, T::Error>,
) -> bool {
    lift1(rhs, out, |y: T, r: Result<T, T::Error>| call_ensures(T::scalar_add, (lhs, &y), r))
}

/// `out` is an outcome of `lhs - rhs` for a scalar `lhs`.
pub open spec fn scalar_sub_outcome<T: TensorOps>(
    lhs: T::Scalar,
    rhs: Result<T, T::Error>,
    out: Result<T, T::Error>,
) -> bool {
    lift1(rhs, out, |y: T, r: Result<T, T::Error>| call_ensures(T::scalar_sub, (lhs, &y), r))
}

/// `out` is an outcome of `lhs * rhs` for a scalar `lhs`.
pub open spec fn scalar_mul_outcome<T: TensorOps>(
    lhs: T::Scalar,
    rhs: Result<T, T::Error>,
    out: Result<T, T::Error>,
) -> bool {
    lift1(rhs, out, |y: T, r: Result<T, T::Error>| call_ensures(T::scalar_mul, (lhs, &y), r))
}

/// `out` is an outcome of `lhs / rhs` for a scalar `lhs`.
pub open spec fn scalar_div_outcome<T: TensorOps>(
    lhs: T::Scalar,
    rhs: Result<T, T::Error>,
    out: Result<T, T::Error>,
) -> bool {
    lift1(rhs, out, |y: T, r: Result<T, T::Error>| call_ensures(T::scalar_div, (lhs, &y), r))
}

/// `out` is an outcome of one of `+`, `-`, `*`, `/` on `lhs` and `rhs`.
pub open spec fn binary_outcome<T: TensorOps>(
    lhs: Result<T, T::Error>,
    rhs: Result<T, T::Error>,
    out: Result<T, T::Error>,
) -> bool {
    ||| add_outcome(lhs, rhs, out)
    ||| sub_outcome(lhs, rhs, out)
    ||| mul_outcome(lhs, rhs, out)
    ||| div_outcome(lhs, rhs, out)
}

/// `out` is an outcome of one of `+`, `-`, `*`, `/` on `lhs` and the scalar
/// `rhs`.
pub open spec fn scalar_right_outcome<T: TensorOps>(
    lhs: Result<T, T::Error>,
    rhs: T::Scalar,
    out: Result<T, T::Error>,
) -> bool {
    ||| add_scalar_outcome(lhs, rhs, out)
    ||| sub_scalar_outcome(lhs, rhs, out)
    ||| mul_scalar_outcome(lhs, rhs, out)
    ||| div_scalar_outcome(lhs, rhs, out)
}

/// `out` is an outcome of one of `+`, `-`, `*`, `/` on the scalar `lhs` and
/// `rhs`.
pub open spec fn scalar_left_outcome<T: TensorOps>(
    lhs: T::Scalar,
    rhs: Result<T, T::Error>,
    out: Result<T, T::Error>,
) -> bool {
    ||| scalar_add_outcome(lhs, rhs, out)
    ||| scalar_sub_outcome(lhs, rhs, out)
    ||| scalar_mul_outcome(lhs, rhs, out)
    ||| scalar_div_outcome(lhs, rhs, out)
}

} // verus!
