//! What the wrapper asks of a tensor type.

use vstd::prelude::*;

verus! {

/// The arithmetic of a tensor type.
///
/// Every operation may fail (on incompatible shapes, say) and reports this
/// through its result. No method carries a contract: the wrapper's contracts
/// speak of what an implementation returns through `call_ensures`, so they
/// hold of every implementation, and say exactly as much of a result as the
/// implementation itself does.
pub trait TensorOps: Sized {
    /// The scalars that combine with a tensor.
    type Scalar;

    /// What a failed operation reports. It is cloned when an operand that is
    /// only borrowed hands it on.
    type Error: Clone;

    /// `self + rhs`.
    fn add(&self, rhs: &Self) -> Result<Self, Self::Error>;

    /// `self - rhs`.
    fn sub(&self, rhs: &Self) -> Result<Self, Self::Error>;

    /// `self * rhs`.
    fn mul(&self, rhs: &Self) -> Result<Self, Self::Error>;

    /// `self / rhs`.
    fn div(&self, rhs: &Self) -> Result<Self, Self::Error>;

    /// `self + rhs` for a scalar `rhs`.
    fn add_scalar(&self, rhs: Self::Scalar) -> Result<Self, Self::Error>;

    /// `self - rhs` for a scalar `rhs`.
    fn sub_scalar(&self, rhs: Self::Scalar) -> Result<Self, Self::Error>;

    /// `self * rhs` for a scalar `rhs`.
    fn mul_scalar(&self, rhs: Self::Scalar) -> Result<Self, Self::Error>;

    /// `self / rhs` for a scalar `rhs`.
    fn div_scalar(&self, rhs: Self::Scalar) -> Result<Self, Self::Error>;

    /// `lhs + rhs` for a scalar `lhs`.
    fn scalar_add(lhs: Self::Scalar, rhs: &Self) -> Result<Self, Self::Error>;

    /// `lhs - rhs` for a scalar `lhs`.
    fn scalar_sub(lhs: Self::Scalar, rhs: &Self) -> Result<Self, Self::Error>;

    /// `lhs * rhs` for a scalar `lhs`.
    fn scalar_mul(lhs: Self::Scalar, rhs: &Self) -> Result<Self, Self::Error>;

    /// `lhs / rhs` for a scalar `lhs`.
    fn scalar_div(lhs: Self::Scalar, rhs: &Self) -> Result<Self, Self::Error>;
}

} // verus!
