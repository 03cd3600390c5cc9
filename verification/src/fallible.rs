//! The wrapper type, its constructors and its accessors.

use crate::outcome::carries;
use std::convert::Infallible;
use std::ops::ControlFlow;
use std::ops::Deref;
use std::ops::DerefMut;
use vstd::prelude::*;
use vstd::std_specs::convert::FromSpecImpl;

verus! {

/// A tensor that may have failed to come into being.
///
/// It is in exactly one of two states: success, holding a tensor, or failure,
/// holding the error. `inner` is that state, and the model that every
/// contract of this crate speaks of.
pub struct MTensor<T, E> {
    pub inner: Result<T, E>,
}

impl<T, E> MTensor<T, E> {
    /// The wrapper holds a tensor.
    pub open spec fn is_success(&self) -> bool {
        self.inner is Ok
    }

    /// The wrapper holds an error.
    pub open spec fn is_failure(&self) -> bool {
        self.inner is Err
    }

    /// The tensor of a success.
    pub open spec fn tensor(&self) -> T
        recommends
            self.is_success(),
    {
        self.inner->Ok_0
    }

    /// The error of a failure.
    pub open spec fn error(&self) -> E
        recommends
            self.is_failure(),
    {
        self.inner->Err_0
    }

    /// Hands out the tensor of a success.
    ///
    /// A failure has no tensor to give: asking one for it is a programming
    /// error, which the precondition rules out.
    pub fn unwrap(self) -> (tensor: T)
        requires
            self.is_success(),
        ensures
            self.inner == Ok::<T, E>(tensor),
    {
        match self.inner {
            Ok(tensor) => tensor,
            Err(_) => vstd::pervasive::unreached(),
        }
    }

    /// Wraps a tensor as a success.
    pub fn from_output(output: T) -> (wrapped: Self)
        ensures
            wrapped.inner == Ok::<T, E>(output),
    {
        MTensor { inner: Ok(output) }
    }

    /// Takes the wrapper apart for a caller that stops at the first failure:
    /// a success continues with its tensor, a failure breaks with its error.
    pub fn branch(self) -> (flow: ControlFlow<Result<Infallible, E>, T>)
        ensures
            self.inner matches Ok(tensor) ==> flow matches ControlFlow::Continue(output)
                && output == tensor,
            self.inner matches Err(error) ==> flow matches ControlFlow::Break(residual)
                && residual == Err::<Infallible, E>(error),
    {
        match self.inner {
            Ok(tensor) => ControlFlow::Continue(tensor),
            Err(error) => ControlFlow::Break(Err(error)),
        }
    }

    /// Turns the error with which a caller broke off back into a failure.
    /// The error is the one handed in, untouched.
    pub fn from_residual(residual: Result<Infallible, E>) -> (wrapped: Self)
        ensures
            wrapped.inner == Err::<T, E>(residual->Err_0),
    {
        match residual {
            Err(error) => MTensor { inner: Err(error) },
        }
    }
}

impl<T, E: Clone> MTensor<T, E> {
    /// Borrows the tensor of a success for use as an operand; of a failure it
    /// gives the error, cloned, for the caller to return at once.
    pub fn operand(&self) -> (borrowed: Result<&T, E>)
        ensures
            self.inner matches Ok(tensor) ==> borrowed == Ok::<&T, E>(&tensor),
            self.inner matches Err(error) ==> carries(borrowed, error),
    {
        match &self.inner {
            Ok(tensor) => Ok(tensor),
            Err(error) => Err(error.clone()),
        }
    }
}

impl<T, E> From<Result<T, E>> for MTensor<T, E> {
    /// Wraps the outcome of a tensor operation: `Ok` becomes a success, `Err`
    /// a failure with the same error.
    fn from(value: Result<T, E>) -> (wrapped: Self)
        ensures
            wrapped.inner == value,
    {
        MTensor { inner: value }
    }
}

impl<T, E> FromSpecImpl<Result<T, E>> for MTensor<T, E> {
    open spec fn obeys_from_spec() -> bool {
        true
    }

    open spec fn from_spec(value: Result<T, E>) -> Self {
        MTensor { inner: value }
    }
}

impl<T, E> From<T> for MTensor<T, E> {
    /// Wraps a tensor as a success.
    fn from(value: T) -> (wrapped: Self)
        ensures
            wrapped.inner == Ok::<T, E>(value),
    {
        MTensor { inner: Ok(value) }
    }
}

impl<T, E> FromSpecImpl<T> for MTensor<T, E> {
    open spec fn obeys_from_spec() -> bool {
        true
    }

    open spec fn from_spec(value: T) -> Self {
        MTensor { inner: Ok(value) }
    }
}

impl<T, E> Deref for MTensor<T, E> {
    type Target = Result<T, E>;

    /// The state, so that the methods of `Result` can be called on the wrapper.
    fn deref(&self) -> (state: &Result<T, E>)
        ensures
            *state == self.inner,
    {
        &self.inner
    }
}

impl<T, E> DerefMut for MTensor<T, E> {
    /// The state, open to change: what the caller leaves in it is the
    /// wrapper's state afterwards.
    fn deref_mut(&mut self) -> (state: &mut Result<T, E>)
        ensures
            *state == old(self).inner,
            final(self).inner == *final(state),
    {
        &mut self.inner
    }
}

} // verus!
