//! Division of fallible tensors.
//!
//! The named functions borrow their operands. The operator `/` is there for
//! the forms that a wrapper on the left can offer: a wrapper or a tensor on
//! the right, each owned or borrowed. A tensor or a scalar on the left, and a
//! scalar on the right, go through the named functions.

use crate::fallible::MTensor;
use crate::outcome::div_outcome;
use crate::outcome::div_scalar_outcome;
use crate::outcome::scalar_div_outcome;
use crate::tensor::TensorOps;
use core::ops::Div;
use vstd::prelude::*;
use vstd::std_specs::ops::DivSpecImpl;

verus! {

impl<T: TensorOps> MTensor<T, T::Error> {
    /// `self / rhs`, both fallible.
    ///
    /// A failed `self` is handed on; else a failed `rhs`; else the quotient
    /// is what the tensor type makes of the two tensors.
    pub fn div_fallible(&self, rhs: &Self) -> (out: Self)
        ensures
            div_outcome(self.inner, rhs.inner, out.inner),
    {
        let x = match self.operand() {
            Ok(x) => x,
            Err(e) => return MTensor::from(Err(e)),
        };
        let y = match rhs.operand() {
            Ok(y) => y,
            Err(e) => return MTensor::from(Err(e)),
        };
        MTensor::from(x.div(y))
    }

    /// `self / rhs` for a tensor `rhs`: as if `rhs` were wrapped as a
    /// success.
    pub fn div_tensor(&self, rhs: &T) -> (out: Self)
        ensures
            div_outcome(self.inner, Ok(*rhs), out.inner),
    {
        let x = match self.operand() {
            Ok(x) => x,
            Err(e) => return MTensor::from(Err(e)),
        };
        MTensor::from(x.div(rhs))
    }

    /// `lhs / rhs` for a tensor `lhs`: as if `lhs` were wrapped as a
    /// success.
    pub fn tensor_div(lhs: &T, rhs: &Self) -> (out: Self)
        ensures
            div_outcome(Ok(*lhs), rhs.inner, out.inner),
    {
        let y = match rhs.operand() {
            Ok(y) => y,
            Err(e) => return MTensor::from(Err(e)),
        };
        MTensor::from(lhs.div(y))
    }

    /// `self / rhs` for a scalar `rhs`.
    pub fn div_scalar(&self, rhs: T::Scalar) -> (out: Self)
        ensures
            div_scalar_outcome(self.inner, rhs, out.inner),
    {
        let x = match self.operand() {
            Ok(x) => x,
            Err(e) => return MTensor::from(Err(e)),
        };
        MTensor::from(x.div_scalar(rhs))
    }

    /// `lhs / rhs` for a scalar `lhs`.
    pub fn scalar_div(lhs: T::Scalar, rhs: &Self) -> (out: Self)
        ensures
            scalar_div_outcome(lhs, rhs.inner, out.inner),
    {
        let y = match rhs.operand() {
            Ok(y) => y,
            Err(e) => return MTensor::from(Err(e)),
        };
        MTensor::from(T::scalar_div(lhs, y))
    }
}

// The operator `/`, in each form with a wrapper on the left. Its result is
// whatever the tensor type returns, which no function of the operands
// describes: `obeys_div_spec` is false throughout, and each form states its
// outcome in an `ensures` of its own.

impl<T: TensorOps> Div<MTensor<T, T::Error>> for MTensor<T, T::Error> {
    type Output = MTensor<T, T::Error>;

    /// `MTensor / MTensor`.
    fn div(self, rhs: MTensor<T, T::Error>) -> (out: MTensor<T, T::Error>)
        ensures
            div_outcome(self.inner, rhs.inner, out.inner),
    {
        MTensor::div_fallible(&self, &rhs)
    }
}

impl<T: TensorOps> DivSpecImpl<MTensor<T, T::Error>> for MTensor<T, T::Error> {
    open spec fn obeys_div_spec() -> bool {
        false
    }

    open spec fn div_req(self, rhs: MTensor<T, T::Error>) -> bool {
        true
    }

    open spec fn div_spec(self, rhs: MTensor<T, T::Error>) -> MTensor<T, T::Error> {
        arbitrary()
    }
}

impl<'a, T: TensorOps> Div<&'a MTensor<T, T::Error>> for MTensor<T, T::Error> {
    type Output = MTensor<T, T::Error>;

    /// `MTensor / &MTensor`.
    fn div(self, rhs: &'a MTensor<T, T::Error>) -> (out: MTensor<T, T::Error>)
        ensures
            div_outcome(self.inner, rhs.inner, out.inner),
    {
        MTensor::div_fallible(&self, rhs)
    }
}

impl<'a, T: TensorOps> DivSpecImpl<&'a MTensor<T, T::Error>> for MTensor<T, T::Error> {
    open spec fn obeys_div_spec() -> bool {
        false
    }

    open spec fn div_req(self, rhs: &'a MTensor<T, T::Error>) -> bool {
        true
    }

    open spec fn div_spec(self, rhs: &'a MTensor<T, T::Error>) -> MTensor<T, T::Error> {
        arbitrary()
    }
}

impl<'a, T: TensorOps> Div<MTensor<T, T::Error>> for &'a MTensor<T, T::Error> {
    type Output = MTensor<T, T::Error>;

    /// `&MTensor / MTensor`.
    fn div(self, rhs: MTensor<T, T::Error>) -> (out: MTensor<T, T::Error>)
        ensures
            div_outcome(self.inner, rhs.inner, out.inner),
    {
        MTensor::div_fallible(self, &rhs)
    }
}

impl<'a, T: TensorOps> DivSpecImpl<MTensor<T, T::Error>> for &'a MTensor<T, T::Error> {
    open spec fn obeys_div_spec() -> bool {
        false
    }

    open spec fn div_req(self, rhs: MTensor<T, T::Error>) -> bool {
        true
    }

    open spec fn div_spec(self, rhs: MTensor<T, T::Error>) -> MTensor<T, T::Error> {
        arbitrary()
    }
}

impl<'a, 'b, T: TensorOps> Div<&'b MTensor<T, T::Error>> for &'a MTensor<T, T::Error> {
    type Output = MTensor<T, T::Error>;

    /// `&MTensor / &MTensor`.
    fn div(self, rhs: &'b MTensor<T, T::Error>) -> (out: MTensor<T, T::Error>)
        ensures
            div_outcome(self.inner, rhs.inner, out.inner),
    {
        MTensor::div_fallible(self, rhs)
    }
}

impl<'a, 'b, T: TensorOps> DivSpecImpl<&'b MTensor<T, T::Error>> for &'a MTensor<T, T::Error> {
    open spec fn obeys_div_spec() -> bool {
        false
    }

    open spec fn div_req(self, rhs: &'b MTensor<T, T::Error>) -> bool {
        true
    }

    open spec fn div_spec(self, rhs: &'b MTensor<T, T::Error>) -> MTensor<T, T::Error> {
        arbitrary()
    }
}

impl<T: TensorOps> Div<T> for MTensor<T, T::Error> {
    type Output = MTensor<T, T::Error>;

    /// `MTensor / T`.
    fn div(self, rhs: T) -> (out: MTensor<T, T::Error>)
        ensures
            div_outcome(self.inner, Ok(rhs), out.inner),
    {
        MTensor::div_tensor(&self, &rhs)
    }
}

impl<T: TensorOps> DivSpecImpl<T> for MTensor<T, T::Error> {
    open spec fn obeys_div_spec() -> bool {
        false
    }

    open spec fn div_req(self, rhs: T) -> bool {
        true
    }

    open spec fn div_spec(self, rhs: T) -> MTensor<T, T::Error> {
        arbitrary()
    }
}

impl<'a, T: TensorOps> Div<&'a T> for MTensor<T, T::Error> {
    type Output = MTensor<T, T::Error>;

    /// `MTensor / &T`.
    fn div(self, rhs: &'a T) -> (out: MTensor<T, T::Error>)
        ensures
            div_outcome(self.inner, Ok(*rhs), out.inner),
    {
        MTensor::div_tensor(&self, rhs)
    }
}

impl<'a, T: TensorOps> DivSpecImpl<&'a T> for MTensor<T, T::Error> {
    open spec fn obeys_div_spec() -> bool {
        false
    }

    open spec fn div_req(self, rhs: &'a T) -> bool {
        true
    }

    open spec fn div_spec(self, rhs: &'a T) -> MTensor<T, T::Error> {
        arbitrary()
    }
}

impl<'a, T: TensorOps> Div<T> for &'a MTensor<T, T::Error> {
    type Output = MTensor<T, T::Error>;

    /// `&MTensor / T`.
    fn div(self, rhs: T) -> (out: MTensor<T, T::Error>)
        ensures
            div_outcome(self.inner, Ok(rhs), out.inner),
    {
        MTensor::div_tensor(self, &rhs)
    }
}

impl<'a, T: TensorOps> DivSpecImpl<T> for &'a MTensor<T, T::Error> {
    open spec fn obeys_div_spec() -> bool {
        false
    }

    open spec fn div_req(self, rhs: T) -> bool {
        true
    }

    open spec fn div_spec(self, rhs: T) -> MTensor<T, T::Error> {
        arbitrary()
    }
}

impl<'a, 'b, T: TensorOps> Div<&'b T> for &'a MTensor<T, T::Error> {
    type Output = MTensor<T, T::Error>;

    /// `&MTensor / &T`.
    fn div(self, rhs: &'b T) -> (out: MTensor<T, T::Error>)
        ensures
            div_outcome(self.inner, Ok(*rhs), out.inner),
    {
        MTensor::div_tensor(self, rhs)
    }
}

impl<'a, 'b, T: TensorOps> DivSpecImpl<&'b T> for &'a MTensor<T, T::Error> {
    open spec fn obeys_div_spec() -> bool {
        false
    }

    open spec fn div_req(self, rhs: &'b T) -> bool {
        true
    }

    open spec fn div_spec(self, rhs: &'b T) -> MTensor<T, T::Error> {
        arbitrary()
    }
}

} // verus!
