//! Addition of fallible tensors.
//!
//! The named functions borrow their operands. The operator `+` is there for
//! the forms that a wrapper on the left can offer: a wrapper or a tensor on
//! the right, each owned or borrowed. A tensor or a scalar on the left, and a
//! scalar on the right, go through the named functions.

use crate::fallible::MTensor;
use crate::outcome::add_outcome;
use crate::outcome::add_scalar_outcome;
use crate::outcome::scalar_add_outcome;
use crate::tensor::TensorOps;
use core::ops::Add;
use vstd::prelude::*;
use vstd::std_specs::ops::AddSpecImpl;

verus! {

impl<T: TensorOps> MTensor<T, T::Error> {
    /// `self + rhs`, both fallible.
    ///
    /// A failed `self` is handed on; else a failed `rhs`; else the sum
    /// is what the tensor type makes of the two tensors.
    pub fn add_fallible(&self, rhs: &Self) -> (out: Self)
        ensures
            add_outcome(self.inner, rhs.inner, out.inner),
    {
        let x = match self.operand() {
            Ok(x) => x,
            Err(e) => return MTensor::from(Err(e)),
        };
        let y = match rhs.operand() {
            Ok(y) => y,
            Err(e) => return MTensor::from(Err(e)),
        };
        MTensor::from(x.add(y))
    }

    /// `self + rhs` for a tensor `rhs`: as if `rhs` were wrapped as a
    /// success.
    pub fn add_tensor(&self, rhs: &T) -> (out: Self)
        ensures
            add_outcome(self.inner, Ok(*rhs), out.inner),
    {
        let x = match self.operand() {
            Ok(x) => x,
            Err(e) => return MTensor::from(Err(e)),
        };
        MTensor::from(x.add(rhs))
    }

    /// `lhs + rhs` for a tensor `lhs`: as if `lhs` were wrapped as a
    /// success.
    pub fn tensor_add(lhs: &T, rhs: &Self) -> (out: Self)
        ensures
            add_outcome(Ok(*lhs), rhs.inner, out.inner),
    {
        let y = match rhs.operand() {
            Ok(y) => y,
            Err(e) => return MTensor::from(Err(e)),
        };
        MTensor::from(lhs.add(y))
    }

    /// `self + rhs` for a scalar `rhs`.
    pub fn add_scalar(&self, rhs: T::Scalar) -> (out: Self)
        ensures
            add_scalar_outcome(self.inner, rhs, out.inner),
    {
        let x = match self.operand() {
            Ok(x) => x,
            Err(e) => return MTensor::from(Err(e)),
        };
        MTensor::from(x.add_scalar(rhs))
    }

    /// `lhs + rhs` for a scalar `lhs`.
    pub fn scalar_add(lhs: T::Scalar, rhs: &Self) -> (out: Self)
        ensures
            scalar_add_outcome(lhs, rhs.inner, out.inner),
    {
        let y = match rhs.operand() {
            Ok(y) => y,
            Err(e) => return MTensor::from(Err(e)),
        };
        MTensor::from(T::scalar_add(lhs, y))
    }
}

// The operator `+`, in each form with a wrapper on the left. Its result is
// whatever the tensor type returns, which no function of the operands
// describes: `obeys_add_spec` is false throughout, and each form states its
// outcome in an `ensures` of its own.

impl<T: TensorOps> Add<MTensor<T, T::Error>> for MTensor<T, T::Error> {
    type Output = MTensor<T, T::Error>;

    /// `MTensor + MTensor`.
    fn add(self, rhs: MTensor<T, T::Error>) -> (out: MTensor<T, T::Error>)
        ensures
            add_outcome(self.inner, rhs.inner, out.inner),
    {
        MTensor::add_fallible(&self, &rhs)
    }
}

impl<T: TensorOps> AddSpecImpl<MTensor<T, T::Error>> for MTensor<T, T::Error> {
    open spec fn obeys_add_spec() -> bool {
        false
    }

    open spec fn add_req(self, rhs: MTensor<T, T::Error>) -> bool {
        true
    }

    open spec fn add_spec(self, rhs: MTensor<T, T::Error>) -> MTensor<T, T::Error> {
        arbitrary()
    }
}

impl<'a, T: TensorOps> Add<&'a MTensor<T, T::Error>> for MTensor<T, T::Error> {
    type Output = MTensor<T, T::Error>;

    /// `MTensor + &MTensor`.
    fn add(self, rhs: &'a MTensor<T, T::Error>) -> (out: MTensor<T, T::Error>)
        ensures
            add_outcome(self.inner, rhs.inner, out.inner),
    {
        MTensor::add_fallible(&self, rhs)
    }
}

impl<'a, T: TensorOps> AddSpecImpl<&'a MTensor<T, T::Error>> for MTensor<T, T::Error> {
    open spec fn obeys_add_spec() -> bool {
        false
    }

    open spec fn add_req(self, rhs: &'a MTensor<T, T::Error>) -> bool {
        true
    }

    open spec fn add_spec(self, rhs: &'a MTensor<T, T::Error>) -> MTensor<T, T::Error> {
        arbitrary()
    }
}

impl<'a, T: TensorOps> Add<MTensor<T, T::Error>> for &'a MTensor<T, T::Error> {
    type Output = MTensor<T, T::Error>;

    /// `&MTensor + MTensor`.
    fn add(self, rhs: MTensor<T, T::Error>) -> (out: MTensor<T, T::Error>)
        ensures
            add_outcome(self.inner, rhs.inner, out.inner),
    {
        MTensor::add_fallible(self, &rhs)
    }
}

impl<'a, T: TensorOps> AddSpecImpl<MTensor<T, T::Error>> for &'a MTensor<T, T::Error> {
    open spec fn obeys_add_spec() -> bool {
        false
    }

    open spec fn add_req(self, rhs: MTensor<T, T::Error>) -> bool {
        true
    }

    open spec fn add_spec(self, rhs: MTensor<T, T::Error>) -> MTensor<T, T::Error> {
        arbitrary()
    }
}

impl<'a, 'b, T: TensorOps> Add<&'b MTensor<T, T::Error>> for &'a MTensor<T, T::Error> {
    type Output = MTensor<T, T::Error>;

    /// `&MTensor + &MTensor`.
    fn add(self, rhs: &'b MTensor<T, T::Error>) -> (out: MTensor<T, T::Error>)
        ensures
            add_outcome(self.inner, rhs.inner, out.inner),
    {
        MTensor::add_fallible(self, rhs)
    }
}

impl<'a, 'b, T: TensorOps> AddSpecImpl<&'b MTensor<T, T::Error>> for &'a MTensor<T, T::Error> {
    open spec fn obeys_add_spec() -> bool {
        false
    }

    open spec fn add_req(self, rhs: &'b MTensor<T, T::Error>) -> bool {
        true
    }

    open spec fn add_spec(self, rhs: &'b MTensor<T, T::Error>) -> MTensor<T, T::Error> {
        arbitrary()
    }
}

impl<T: TensorOps> Add<T> for MTensor<T, T::Error> {
    type Output = MTensor<T, T::Error>;

    /// `MTensor + T`.
    fn add(self, rhs: T) -> (out: MTensor<T, T::Error>)
        ensures
            add_outcome(self.inner, Ok(rhs), out.inner),
    {
        MTensor::add_tensor(&self, &rhs)
    }
}

impl<T: TensorOps> AddSpecImpl<T> for MTensor<T, T::Error> {
    open spec fn obeys_add_spec() -> bool {
        false
    }

    open spec fn add_req(self, rhs: T) -> bool {
        true
    }

    open spec fn add_spec(self, rhs: T) -> MTensor<T, T::Error> {
        arbitrary()
    }
}

impl<'a, T: TensorOps> Add<&'a T> for MTensor<T, T::Error> {
    type Output = MTensor<T, T::Error>;

    /// `MTensor + &T`.
    fn add(self, rhs: &'a T) -> (out: MTensor<T, T::Error>)
        ensures
            add_outcome(self.inner, Ok(*rhs), out.inner),
    {
        MTensor::add_tensor(&self, rhs)
    }
}

impl<'a, T: TensorOps> AddSpecImpl<&'a T> for MTensor<T, T::Error> {
    open spec fn obeys_add_spec() -> bool {
        false
    }

    open spec fn add_req(self, rhs: &'a T) -> bool {
        true
    }

    open spec fn add_spec(self, rhs: &'a T) -> MTensor<T, T::Error> {
        arbitrary()
    }
}

impl<'a, T: TensorOps> Add<T> for &'a MTensor<T, T::Error> {
    type Output = MTensor<T, T::Error>;

    /// `&MTensor + T`.
    fn add(self, rhs: T) -> (out: MTensor<T, T::Error>)
        ensures
            add_outcome(self.inner, Ok(rhs), out.inner),
    {
        MTensor::add_tensor(self, &rhs)
    }
}

impl<'a, T: TensorOps> AddSpecImpl<T> for &'a MTensor<T, T::Error> {
    open spec fn obeys_add_spec() -> bool {
        false
    }

    open spec fn add_req(self, rhs: T) -> bool {
        true
    }

    open spec fn add_spec(self, rhs: T) -> MTensor<T, T::Error> {
        arbitrary()
    }
}

impl<'a, 'b, T: TensorOps> Add<&'b T> for &'a MTensor<T, T::Error> {
    type Output = MTensor<T, T::Error>;

    /// `&MTensor + &T`.
    fn add(self, rhs: &'b T) -> (out: MTensor<T, T::Error>)
        ensures
            add_outcome(self.inner, Ok(*rhs), out.inner),
    {
        MTensor::add_tensor(self, rhs)
    }
}

impl<'a, 'b, T: TensorOps> AddSpecImpl<&'b T> for &'a MTensor<T, T::Error> {
    open spec fn obeys_add_spec() -> bool {
        false
    }

    open spec fn add_req(self, rhs: &'b T) -> bool {
        true
    }

    open spec fn add_spec(self, rhs: &'b T) -> MTensor<T, T::Error> {
        arbitrary()
    }
}

} // verus!
