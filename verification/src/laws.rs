//! What holds of every fallible tensor and of every operation on them,
//! whatever the tensor type.

use crate::fallible::MTensor;
use crate::outcome::add_outcome;
use crate::outcome::add_scalar_outcome;
use crate::outcome::binary_outcome;
use crate::outcome::carries;
use crate::outcome::clone_is_faithful;
use crate::outcome::div_outcome;
use crate::outcome::div_scalar_outcome;
use crate::outcome::mul_outcome;
use crate::outcome::mul_scalar_outcome;
use crate::outcome::scalar_add_outcome;
use crate::outcome::scalar_div_outcome;
use crate::outcome::scalar_left_outcome;
use crate::outcome::scalar_mul_outcome;
use crate::outcome::scalar_right_outcome;
use crate::outcome::scalar_sub_outcome;
use crate::outcome::sub_outcome;
use crate::outcome::sub_scalar_outcome;
use crate::tensor::TensorOps;
use vstd::prelude::*;
use vstd::std_specs::convert::FromSpec;

verus! {

/// A fallible tensor is in exactly one of its two states, and its state is
/// all there is to it.
pub proof fn lemma_exactly_one_state<T, E>(m: MTensor<T, E>)
    ensures
        m.is_success() != m.is_failure(),
        m.is_success() ==> m.inner == Ok::<T, E>(m.tensor()),
        m.is_failure() ==> m.inner == Err::<T, E>(m.error()),
{
}

/// A wrapped tensor is a success that holds this very tensor: `unwrap` may
/// be called on it, and the only tensor that `unwrap` can return is the one
/// that was wrapped. A wrapped `Result` keeps its state.
pub proof fn lemma_wrapping_keeps_the_value<T, E>(tensor: T, state: Result<T, E>)
    ensures
        <MTensor<T, E> as FromSpec<T>>::from_spec(tensor).is_success(),
        <MTensor<T, E> as FromSpec<T>>::from_spec(tensor).tensor() == tensor,
        <MTensor<T, E> as FromSpec<T>>::from_spec(tensor).inner == Ok::<T, E>(tensor),
        <MTensor<T, E> as FromSpec<Result<T, E>>>::from_spec(state).inner == state,
{
}

/// A failed left operand decides every operation, whatever stands on the
/// right, be it a success, a failure or a scalar: the outcome is a failure
/// and carries the left operand's error.
pub proof fn lemma_failed_left_operand<T: TensorOps>(
    failed: Result<T, T::Error>,
    rhs: Result<T, T::Error>,
    scalar: T::Scalar,
    out: Result<T, T::Error>,
)
    requires
        failed is Err,
        binary_outcome(failed, rhs, out) || scalar_right_outcome(failed, scalar, out),
    ensures
        carries(out, failed->Err_0),
{
}

/// A failed right operand decides every operation whose left operand is a
/// success or a scalar: the outcome is a failure and carries the right
/// operand's error.
pub proof fn lemma_failed_right_operand<T: TensorOps>(
    lhs: Result<T, T::Error>,
    failed: Result<T, T::Error>,
    scalar: T::Scalar,
    out: Result<T, T::Error>,
)
    requires
        failed is Err,
        (lhs is Ok && binary_outcome(lhs, failed, out)) || scalar_left_outcome(scalar, failed, out),
    ensures
        carries(out, failed->Err_0),
{
}

/// Where cloning is faithful, an outcome that carries an error holds that
/// very error.
pub proof fn lemma_carried_error_is_the_same<T, E: Clone>(out: Result<T, E>, e: E)
    requires
        clone_is_faithful::<E>(),
        carries(out, e),
    ensures
        out == Err::<T, E>(e),
{
}

/// With every operand a success, an operation gives what the tensor type's
/// own operation gives on the tensors inside, success or failure, and
/// nothing else.
pub proof fn lemma_successes_are_forwarded<T: TensorOps>(
    x: T,
    y: T,
    scalar: T::Scalar,
    out: Result<T, T::Error>,
)
    ensures
        add_outcome(Ok(x), Ok(y), out) <==> call_ensures(T::add, (&x, &y), out),
        sub_outcome(Ok(x), Ok(y), out) <==> call_ensures(T::sub, (&x, &y), out),
        mul_outcome(Ok(x), Ok(y), out) <==> call_ensures(T::mul, (&x, &y), out),
        div_outcome(Ok(x), Ok(y), out) <==> call_ensures(T::div, (&x, &y), out),
        add_scalar_outcome(Ok(x), scalar, out) <==> call_ensures(T::add_scalar, (&x, scalar), out),
        sub_scalar_outcome(Ok(x), scalar, out) <==> call_ensures(T::sub_scalar, (&x, scalar), out),
        mul_scalar_outcome(Ok(x), scalar, out) <==> call_ensures(T::mul_scalar, (&x, scalar), out),
        div_scalar_outcome(Ok(x), scalar, out) <==> call_ensures(T::div_scalar, (&x, scalar), out),
        scalar_add_outcome(scalar, Ok(x), out) <==> call_ensures(T::scalar_add, (scalar, &x), out),
        scalar_sub_outcome(scalar, Ok(x), out) <==> call_ensures(T::scalar_sub, (scalar, &x), out),
        scalar_mul_outcome(scalar, Ok(x), out) <==> call_ensures(T::scalar_mul, (scalar, &x), out),
        scalar_div_outcome(scalar, Ok(x), out) <==> call_ensures(T::scalar_div, (scalar, &x), out),
{
}

/// The sum of three tensors, taken left to right as `(a + b) + c`: the first
/// sum is what the tensor type makes of `a` and `b`; if that is a tensor
/// `ab`, the whole is what the tensor type makes of `ab` and `c`, and if it
/// is an error, the whole carries it. So a whole that succeeded holds the
/// tensor type's sum of `c` and its sum of `a` and `b`.
pub proof fn lemma_sum_of_three<T: TensorOps>(
    a: T,
    b: T,
    c: T,
    first: Result<T, T::Error>,
    whole: Result<T, T::Error>,
)
    requires
        add_outcome(Ok(a), Ok(b), first),
        add_outcome(first, Ok(c), whole),
    ensures
        call_ensures(T::add, (&a, &b), first),
        first matches Ok(ab) ==> call_ensures(T::add, (&ab, &c), whole),
        first matches Err(e) ==> carries(whole, e),
        whole is Ok ==> first is Ok,
{
}

/// The same where the tensor type's addition is a function `sum` of its
/// operands, and `a`, `b`, `c` are such that both sums succeed: then
/// `(a + b) + c` is a success, and unwrapped it is the tensor
/// `sum(sum(a, b), c)`.
pub proof fn lemma_sum_of_three_is_the_tensor_sum<T: TensorOps>(
    a: T,
    b: T,
    c: T,
    first: Result<T, T::Error>,
    whole: Result<T, T::Error>,
    sum: spec_fn(T, T) -> Result<T, T::Error>,
)
    requires
        forall|x: T, y: T, r: Result<T, T::Error>|
            call_ensures(T::add, (&x, &y), r) ==> r == sum(x, y),
        sum(a, b) is Ok,
        sum(sum(a, b)->Ok_0, c) is Ok,
        add_outcome(Ok(a), Ok(b), first),
        add_outcome(first, Ok(c), whole),
    ensures
        first == sum(a, b),
        whole == sum(sum(a, b)->Ok_0, c),
        whole is Ok,
{
}

/// In `(a op b) op c`, operands are looked at from left to right and the
/// first failure is the outcome: where cloning is faithful, the whole is
/// the failure of `a` if `a` failed; else that of `b` if `b` failed; else
/// what the tensor type made of `a` and `b` if that is an error; else the
/// failure of `c` if `c` failed.
pub proof fn lemma_leftmost_failure_wins<T: TensorOps>(
    a: Result<T, T::Error>,
    b: Result<T, T::Error>,
    c: Result<T, T::Error>,
    first: Result<T, T::Error>,
    whole: Result<T, T::Error>,
)
    requires
        clone_is_faithful::<T::Error>(),
        binary_outcome(a, b, first),
        binary_outcome(first, c, whole),
    ensures
        a is Err ==> whole == a,
        a is Ok && b is Err ==> whole == b,
        a is Ok && b is Ok && first is Err ==> whole == first,
        a is Ok && b is Ok && first is Ok && c is Err ==> whole == c,
{
}

/// An error that entered a chain of operations on the left comes out of it
/// unchanged where cloning is faithful, whatever the operations and their
/// other operands: shown for two steps, each with a fallible tensor or a
/// scalar on the right.
pub proof fn lemma_error_survives_a_chain<T: TensorOps>(
    failed: Result<T, T::Error>,
    rhs1: Result<T, T::Error>,
    scalar1: T::Scalar,
    rhs2: Result<T, T::Error>,
    scalar2: T::Scalar,
    first: Result<T, T::Error>,
    second: Result<T, T::Error>,
)
    requires
        clone_is_faithful::<T::Error>(),
        failed is Err,
        binary_outcome(failed, rhs1, first) || scalar_right_outcome(failed, scalar1, first),
        binary_outcome(first, rhs2, second) || scalar_right_outcome(first, scalar2, second),
    ensures
        first == failed,
        second == failed,
{
}

} // verus!
