//! Subtraction of fallible tensors.
//!
//! The named functions borrow their operands. The operator `-` is there for
//! the forms that a wrapper on the left can offer: a wrapper or a tensor on
//! the right, each owned or borrowed. A tensor or a scalar on the left, and a
//! scalar on the right, go through the named functions.

use crate::fallible::MTensor;
use crate::outcome::scalar_sub_outcome;
use crate::outcome::sub_outcome;
use crate::outcome::sub_scalar_outcome;
use crate::tensor::TensorOps;
use core::ops::Sub;
use vstd::prelude::*;
use vstd::std_specs::ops::SubSpecImpl;

verus! {

impl<T: TensorOps> MTensor<T, T::Error> {
    /// `self - rhs`, both fallible.
    ///
    /// A failed `self` is handed on; else a failed `rhs`; else the difference
    /// is what the tensor type makes of the two tensors.
    pub fn sub_fallible(&self, rhs: &Self) -> (out: Self)
        ensures
            sub_outcome(self.inner, rhs.inner, out.inner),
    {
        let x = match self.operand() {
            Ok(x) => x,
            Err(e) => return MTensor::from(Err(e)),
        };
        let y = match rhs.operand() {
            Ok(y) => y,
            Err(e) => return MTensor::from(Err(e)),
        };
        MTensor::from(x.sub(y))
    }

    /// `self - rhs` for a tensor `rhs`: as if `rhs` were wrapped as a
    /// success.
    pub fn sub_tensor(&self, rhs: &T) -> (out: Self)
        ensures
            sub_outcome(self.inner, Ok(*rhs), out.inner),
    {
        let x = match self.operand() {
            Ok(x) => x,
            Err(e) => return MTensor::from(Err(e)),
        };
        MTensor::from(x.sub(rhs))
    }

    /// `lhs - rhs` for a tensor `lhs`: as if `lhs` were wrapped as a
    /// success.
    pub fn tensor_sub(lhs: &T, rhs: &Self) -> (out: Self)
        ensures
            sub_outcome(Ok(*lhs), rhs.inner, out.inner),
    {
        let y = match rhs.operand() {
            Ok(y) => y,
            Err(e) => return MTensor::from(Err(e)),
        };
        MTensor::from(lhs.sub(y))
    }

    /// `self - rhs` for a scalar `rhs`.
    pub fn sub_scalar(&self, rhs: T::Scalar) -> (out: Self)
        ensures
            sub_scalar_outcome(self.inner, rhs, out.inner),
    {
        let x = match self.operand() {
            Ok(x) => x,
            Err(e) => return MTensor::from(Err(e)),
        };
        MTensor::from(x.sub_scalar(rhs))
    }

    /// `lhs - rhs` for a scalar `lhs`.
    pub fn scalar_sub(lhs: T::Scalar, rhs: &Self) -> (out: Self)
        ensures
            scalar_sub_outcome(lhs, rhs.inner, out.inner),
    {
        let y = match rhs.operand() {
            Ok(y) => y,
            Err(e) => return MTensor::from(Err(e)),
        };
        MTensor::from(T::scalar_sub(lhs, y))
    }
}

// The operator `-`, in each form with a wrapper on the left. Its result is
// whatever the tensor type returns, which no function of the operands
// describes: `obeys_sub_spec` is false throughout, and each form states its
// outcome in an `ensures` of its own.

impl<T: TensorOps> Sub<MTensor<T, T::Error>> for MTensor<T, T::Error> {
    type Output = MTensor<T, T::Error>;

    /// `MTensor - MTensor`.
    fn sub(self, rhs: MTensor<T, T::Error>) -> (out: MTensor<T, T::Error>)
        ensures
            sub_outcome(self.inner, rhs.inner, out.inner),
    {
        MTensor::sub_fallible(&self, &rhs)
    }
}

impl<T: TensorOps> SubSpecImpl<MTensor<T, T::Error>> for MTensor<T, T::Error> {
    open spec fn obeys_sub_spec() -> bool {
        false
    }

    open spec fn sub_req(self, rhs: MTensor<T, T::Error>) -> bool {
        true
    }

    open spec fn sub_spec(self, rhs: MTensor<T, T::Error>) -> MTensor<T, T::Error> {
        arbitrary()
    }
}

impl<'a, T: TensorOps> Sub<&'a MTensor<T, T::Error>> for MTensor<T, T::Error> {
    type Output = MTensor<T, T::Error>;

    /// `MTensor - &MTensor`.
    fn sub(self, rhs: &'a MTensor<T, T::Error>) -> (out: MTensor<T, T::Error>)
        ensures
            sub_outcome(self.inner, rhs.inner, out.inner),
    {
        MTensor::sub_fallible(&self, rhs)
    }
}

impl<'a, T: TensorOps> SubSpecImpl<&'a MTensor<T, T::Error>> for MTensor<T, T::Error> {
    open spec fn obeys_sub_spec() -> bool {
        false
    }

    open spec fn sub_req(self, rhs: &'a MTensor<T, T::Error>) -> bool {
        true
    }

    open spec fn sub_spec(self, rhs: &'a MTensor<T, T::Error>) -> MTensor<T, T::Error> {
        arbitrary()
    }
}

impl<'a, T: TensorOps> Sub<MTensor<T, T::Error>> for &'a MTensor<T, T::Error> {
    type Output = MTensor<T, T::Error>;

    /// `&MTensor - MTensor`.
    fn sub(self, rhs: MTensor<T, T::Error>) -> (out: MTensor<T, T::Error>)
        ensures
            sub_outcome(self.inner, rhs.inner, out.inner),
    {
        MTensor::sub_fallible(self, &rhs)
    }
}

impl<'a, T: TensorOps> SubSpecImpl<MTensor<T, T::Error>> for &'a MTensor<T, T::Error> {
    open spec fn obeys_sub_spec() -> bool {
        false
    }

    open spec fn sub_req(self, rhs: MTensor<T, T::Error>) -> bool {
        true
    }

    open spec fn sub_spec(self, rhs: MTensor<T, T::Error>) -> MTensor<T, T::Error> {
        arbitrary()
    }
}

impl<'a, 'b, T: TensorOps> Sub<&'b MTensor<T, T::Error>> for &'a MTensor<T, T::Error> {
    type Output = MTensor<T, T::Error>;

    /// `&MTensor - &MTensor`.
    fn sub(self, rhs: &'b MTensor<T, T::Error>) -> (out: MTensor<T, T::Error>)
        ensures
            sub_outcome(self.inner, rhs.inner, out.inner),
    {
        MTensor::sub_fallible(self, rhs)
    }
}

impl<'a, 'b, T: TensorOps> SubSpecImpl<&'b MTensor<T, T::Error>> for &'a MTensor<T, T::Error> {
    open spec fn obeys_sub_spec() -> bool {
        false
    }

    open spec fn sub_req(self, rhs: &'b MTensor<T, T::Error>) -> bool {
        true
    }

    open spec fn sub_spec(self, rhs: &'b MTensor<T, T::Error>) -> MTensor<T, T::Error> {
        arbitrary()
    }
}

impl<T: TensorOps> Sub<T> for MTensor<T, T::Error> {
    type Output = MTensor<T, T::Error>;

    /// `MTensor - T`.
    fn sub(self, rhs: T) -> (out: MTensor<T, T::Error>)
        ensures
            sub_outcome(self.inner, Ok(rhs), out.inner),
    {
        MTensor::sub_tensor(&self, &rhs)
    }
}

impl<T: TensorOps> SubSpecImpl<T> for MTensor<T, T::Error> {
    open spec fn obeys_sub_spec() -> bool {
        false
    }

    open spec fn sub_req(self, rhs: T) -> bool {
        true
    }

    open spec fn sub_spec(self, rhs: T) -> MTensor<T, T::Error> {
        arbitrary()
    }
}

impl<'a, T: TensorOps> Sub<&'a T> for MTensor<T, T::Error> {
    type Output = MTensor<T, T::Error>;

    /// `MTensor - &T`.
    fn sub(self, rhs: &'a T) -> (out: MTensor<T, T::Error>)
        ensures
            sub_outcome(self.inner, Ok(*rhs), out.inner),
    {
        MTensor::sub_tensor(&self, rhs)
    }
}

impl<'a, T: TensorOps> SubSpecImpl<&'a T> for MTensor<T, T::Error> {
    open spec fn obeys_sub_spec() -> bool {
        false
    }

    open spec fn sub_req(self, rhs: &'a T) -> bool {
        true
    }

    open spec fn sub_spec(self, rhs: &'a T) -> MTensor<T, T::Error> {
        arbitrary()
    }
}

impl<'a, T: TensorOps> Sub<T> for &'a MTensor<T, T::Error> {
    type Output = MTensor<T, T::Error>;

    /// `&MTensor - T`.
    fn sub(self, rhs: T) -> (out: MTensor<T, T::Error>)
        ensures
            sub_outcome(self.inner, Ok(rhs), out.inner),
    {
        MTensor::sub_tensor(self, &rhs)
    }
}

impl<'a, T: TensorOps> SubSpecImpl<T> for &'a MTensor<T, T::Error> {
    open spec fn obeys_sub_spec() -> bool {
        false
    }

    open spec fn sub_req(self, rhs: T) -> bool {
        true
    }

    open spec fn sub_spec(self, rhs: T) -> MTensor<T, T::Error> {
        arbitrary()
    }
}

impl<'a, 'b, T: TensorOps> Sub<&'b T> for &'a MTensor<T, T::Error> {
    type Output = MTensor<T, T::Error>;

    /// `&MTensor - &T`.
    fn sub(self, rhs: &'b T) -> (out: MTensor<T, T::Error>)
        ensures
            sub_outcome(self.inner, Ok(*rhs), out.inner),
    {
        MTensor::sub_tensor(self, rhs)
    }
}

impl<'a, 'b, T: TensorOps> SubSpecImpl<&'b T> for &'a MTensor<T, T::Error> {
    open spec fn obeys_sub_spec() -> bool {
        false
    }

    open spec fn sub_req(self, rhs: &'b T) -> bool {
        true
    }

    open spec fn sub_spec(self, rhs: &'b T) -> MTensor<T, T::Error> {
        arbitrary()
    }
}

} // verus!
