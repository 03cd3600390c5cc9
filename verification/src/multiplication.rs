//! Multiplication of fallible tensors.
//!
//! The named functions borrow their operands. The operator `*` is there for
//! the forms that a wrapper on the left can offer: a wrapper or a tensor on
//! the right, each owned or borrowed. A tensor or a scalar on the left, and a
//! scalar on the right, go through the named functions.

use crate::fallible::MTensor;
use crate::outcome::mul_outcome;
use crate::outcome::mul_scalar_outcome;
use crate::outcome::scalar_mul_outcome;
use crate::tensor::TensorOps;
use core::ops::Mul;
use vstd::prelude::*;
use vstd::std_specs::ops::MulSpecImpl;

verus! {

impl<T: TensorOps> MTensor<T, T::Error> {
    /// `self * rhs`, both fallible.
    ///
    /// A failed `self` is handed on; else a failed `rhs`; else the product
    /// is what the tensor type makes of the two tensors.
    pub fn mul_fallible(&self, rhs: &Self) -> (out: Self)
        ensures
            mul_outcome(self.inner, rhs.inner, out.inner),
    {
        let x = match self.operand() {
            Ok(x) => x,
            Err(e) => return MTensor::from(Err(e)),
        };
        let y = match rhs.operand() {
            Ok(y) => y,
            Err(e) => return MTensor::from(Err(e)),
        };
        MTensor::from(x.mul(y))
    }

    /// `self * rhs` for a tensor `rhs`: as if `rhs` were wrapped as a
    /// success.
    pub fn mul_tensor(&self, rhs: &T) -> (out: Self)
        ensures
            mul_outcome(self.inner, Ok(*rhs), out.inner),
    {
        let x = match self.operand() {
            Ok(x) => x,
            Err(e) => return MTensor::from(Err(e)),
        };
        MTensor::from(x.mul(rhs))
    }

    /// `lhs * rhs` for a tensor `lhs`: as if `lhs` were wrapped as a
    /// success.
    pub fn tensor_mul(lhs: &T, rhs: &Self) -> (out: Self)
        ensures
            mul_outcome(Ok(*lhs), rhs.inner, out.inner),
    {
        let y = match rhs.operand() {
            Ok(y) => y,
            Err(e) => return MTensor::from(Err(e)),
        };
        MTensor::from(lhs.mul(y))
    }

    /// `self * rhs` for a scalar `rhs`.
    pub fn mul_scalar(&self, rhs: T::Scalar) -> (out: Self)
        ensures
            mul_scalar_outcome(self.inner, rhs, out.inner),
    {
        let x = match self.operand() {
            Ok(x) => x,
            Err(e) => return MTensor::from(Err(e)),
        };
        MTensor::from(x.mul_scalar(rhs))
    }

    /// `lhs * rhs` for a scalar `lhs`.
    pub fn scalar_mul(lhs: T::Scalar, rhs: &Self) -> (out: Self)
        ensures
            scalar_mul_outcome(lhs, rhs.inner, out.inner),
    {
        let y = match rhs.operand() {
            Ok(y) => y,
            Err(e) => return MTensor::from(Err(e)),
        };
        MTensor::from(T::scalar_mul(lhs, y))
    }
}

// The operator `*`, in each form with a wrapper on the left. Its result is
// whatever the tensor type returns, which no function of the operands
// describes: `obeys_mul_spec` is false throughout, and each form states its
// outcome in an `ensures` of its own.

impl<T: TensorOps> Mul<MTensor<T, T::Error>> for MTensor<T, T::Error> {
    type Output = MTensor<T, T::Error>;

    /// `MTensor * MTensor`.
    fn mul(self, rhs: MTensor<T, T::Error>) -> (out: MTensor<T, T::Error>)
        ensures
            mul_outcome(self.inner, rhs.inner, out.inner),
    {
        MTensor::mul_fallible(&self, &rhs)
    }
}

impl<T: TensorOps> MulSpecImpl<MTensor<T, T::Error>> for MTensor<T, T::Error> {
    open spec fn obeys_mul_spec() -> bool {
        false
    }

    open spec fn mul_req(self, rhs: MTensor<T, T::Error>) -> bool {
        true
    }

    open spec fn mul_spec(self, rhs: MTensor<T, T::Error>) -> MTensor<T, T::Error> {
        arbitrary()
    }
}

impl<'a, T: TensorOps> Mul<&'a MTensor<T, T::Error>> for MTensor<T, T::Error> {
    type Output = MTensor<T, T::Error>;

    /// `MTensor * &MTensor`.
    fn mul(self, rhs: &'a MTensor<T, T::Error>) -> (out: MTensor<T, T::Error>)
        ensures
            mul_outcome(self.inner, rhs.inner, out.inner),
    {
        MTensor::mul_fallible(&self, rhs)
    }
}

impl<'a, T: TensorOps> MulSpecImpl<&'a MTensor<T, T::Error>> for MTensor<T, T::Error> {
    open spec fn obeys_mul_spec() -> bool {
        false
    }

    open spec fn mul_req(self, rhs: &'a MTensor<T, T::Error>) -> bool {
        true
    }

    open spec fn mul_spec(self, rhs: &'a MTensor<T, T::Error>) -> MTensor<T, T::Error> {
        arbitrary()
    }
}

impl<'a, T: TensorOps> Mul<MTensor<T, T::Error>> for &'a MTensor<T, T::Error> {
    type Output = MTensor<T, T::Error>;

    /// `&MTensor * MTensor`.
    fn mul(self, rhs: MTensor<T, T::Error>) -> (out: MTensor<T, T::Error>)
        ensures
            mul_outcome(self.inner, rhs.inner, out.inner),
    {
        MTensor::mul_fallible(self, &rhs)
    }
}

impl<'a, T: TensorOps> MulSpecImpl<MTensor<T, T::Error>> for &'a MTensor<T, T::Error> {
    open spec fn obeys_mul_spec() -> bool {
        false
    }

    open spec fn mul_req(self, rhs: MTensor<T, T::Error>) -> bool {
        true
    }

    open spec fn mul_spec(self, rhs: MTensor<T, T::Error>) -> MTensor<T, T::Error> {
        arbitrary()
    }
}

impl<'a, 'b, T: TensorOps> Mul<&'b MTensor<T, T::Error>> for &'a MTensor<T, T::Error> {
    type Output = MTensor<T, T::Error>;

    /// `&MTensor * &MTensor`.
    fn mul(self, rhs: &'b MTensor<T, T::Error>) -> (out: MTensor<T, T::Error>)
        ensures
            mul_outcome(self.inner, rhs.inner, out.inner),
    {
        MTensor::mul_fallible(self, rhs)
    }
}

impl<'a, 'b, T: TensorOps> MulSpecImpl<&'b MTensor<T, T::Error>> for &'a MTensor<T, T::Error> {
    open spec fn obeys_mul_spec() -> bool {
        false
    }

    open spec fn mul_req(self, rhs: &'b MTensor<T, T::Error>) -> bool {
        true
    }

    open spec fn mul_spec(self, rhs: &'b MTensor<T, T::Error>) -> MTensor<T, T::Error> {
        arbitrary()
    }
}

impl<T: TensorOps> Mul<T> for MTensor<T, T::Error> {
    type Output = MTensor<T, T::Error>;

    /// `MTensor * T`.
    fn mul(self, rhs: T) -> (out: MTensor<T, T::Error>)
        ensures
            mul_outcome(self.inner, Ok(rhs), out.inner),
    {
        MTensor::mul_tensor(&self, &rhs)
    }
}

impl<T: TensorOps> MulSpecImpl<T> for MTensor<T, T::Error> {
    open spec fn obeys_mul_spec() -> bool {
        false
    }

    open spec fn mul_req(self, rhs: T) -> bool {
        true
    }

    open spec fn mul_spec(self, rhs: T) -> MTensor<T, T::Error> {
        arbitrary()
    }
}

impl<'a, T: TensorOps> Mul<&'a T> for MTensor<T, T::Error> {
    type Output = MTensor<T, T::Error>;

    /// `MTensor * &T`.
    fn mul(self, rhs: &'a T) -> (out: MTensor<T, T::Error>)
        ensures
            mul_outcome(self.inner, Ok(*rhs), out.inner),
    {
        MTensor::mul_tensor(&self, rhs)
    }
}

impl<'a, T: TensorOps> MulSpecImpl<&'a T> for MTensor<T, T::Error> {
    open spec fn obeys_mul_spec() -> bool {
        false
    }

    open spec fn mul_req(self, rhs: &'a T) -> bool {
        true
    }

    open spec fn mul_spec(self, rhs: &'a T) -> MTensor<T, T::Error> {
        arbitrary()
    }
}

impl<'a, T: TensorOps> Mul<T> for &'a MTensor<T, T::Error> {
    type Output = MTensor<T, T::Error>;

    /// `&MTensor * T`.
    fn mul(self, rhs: T) -> (out: MTensor<T, T::Error>)
        ensures
            mul_outcome(self.inner, Ok(rhs), out.inner),
    {
        MTensor::mul_tensor(self, &rhs)
    }
}

impl<'a, T: TensorOps> MulSpecImpl<T> for &'a MTensor<T, T::Error> {
    open spec fn obeys_mul_spec() -> bool {
        false
    }

    open spec fn mul_req(self, rhs: T) -> bool {
        true
    }

    open spec fn mul_spec(self, rhs: T) -> MTensor<T, T::Error> {
        arbitrary()
    }
}

impl<'a, 'b, T: TensorOps> Mul<&'b T> for &'a MTensor<T, T::Error> {
    type Output = MTensor<T, T::Error>;

    /// `&MTensor * &T`.
    fn mul(self, rhs: &'b T) -> (out: MTensor<T, T::Error>)
        ensures
            mul_outcome(self.inner, Ok(*rhs), out.inner),
    {
        MTensor::mul_tensor(self, rhs)
    }
}

impl<'a, 'b, T: TensorOps> MulSpecImpl<&'b T> for &'a MTensor<T, T::Error> {
    open spec fn obeys_mul_spec() -> bool {
        false
    }

    open spec fn mul_req(self, rhs: &'b T) -> bool {
        true
    }

    open spec fn mul_spec(self, rhs: &'b T) -> MTensor<T, T::Error> {
        arbitrary()
    }
}

} // verus!
