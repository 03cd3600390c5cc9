//! The wrapper over a small dense tensor of `f64`, one dimension, on the CPU.

use mtensor::MTensor;
use mtensor::TensorOps;
use std::cell::Cell;
use std::ops::ControlFlow;
use std::ops::Mul;
use std::rc::Rc;

#[derive(Clone, Copy, Debug, PartialEq)]
enum Device {
    Cpu,
}

#[derive(Clone, Debug, PartialEq)]
enum Error {
    ShapeMismatch { op: &'static str, lhs: usize, rhs: usize },
    UnexpectedNumberOfElements { expected: usize, got: usize },
    WithBacktrace { inner: Box<Error>, backtrace: String },
}

impl Error {
    fn bt(self) -> Error {
        match self {
            Error::WithBacktrace { .. } => self,
            other => Error::WithBacktrace {
                inner: Box::new(other),
                backtrace: String::from("at tests::fallible_tensor"),
            },
        }
    }
}

#[derive(Clone, Debug, PartialEq)]
struct Tensor {
    data: Vec<f64>,
}

type Fallible = MTensor<Tensor, Error>;

impl Tensor {
    fn from_slice(data: &[f64], shape: (usize,), _device: &Device) -> Fallible {
        if data.len() != shape.0 {
            let error = Error::UnexpectedNumberOfElements { expected: shape.0, got: data.len() };
            return MTensor::from(Err(error.bt()));
        }
        MTensor::from(Tensor { data: data.to_vec() })
    }

    fn zip(&self, rhs: &Tensor, op: &'static str, f: fn(f64, f64) -> f64) -> Result<Tensor, Error> {
        if self.data.len() != rhs.data.len() {
            let error = Error::ShapeMismatch { op, lhs: self.data.len(), rhs: rhs.data.len() };
            return Err(error.bt());
        }
        let mut data = Vec::new();
        for i in 0..self.data.len() {
            data.push(f(self.data[i], rhs.data[i]));
        }
        Ok(Tensor { data })
    }

    fn map(&self, scalar: f64, f: fn(f64, f64) -> f64) -> Result<Tensor, Error> {
        let mut data = Vec::new();
        for i in 0..self.data.len() {
            data.push(f(self.data[i], scalar));
        }
        Ok(Tensor { data })
    }
}

impl TensorOps for Tensor {
    type Scalar = f64;
    type Error = Error;

    fn add(&self, rhs: &Tensor) -> Result<Tensor, Error> {
        self.zip(rhs, "add", |x, y| x + y)
    }

    fn sub(&self, rhs: &Tensor) -> Result<Tensor, Error> {
        self.zip(rhs, "sub", |x, y| x - y)
    }

    fn mul(&self, rhs: &Tensor) -> Result<Tensor, Error> {
        self.zip(rhs, "mul", |x, y| x * y)
    }

    fn div(&self, rhs: &Tensor) -> Result<Tensor, Error> {
        self.zip(rhs, "div", |x, y| x / y)
    }

    fn add_scalar(&self, rhs: f64) -> Result<Tensor, Error> {
        self.map(rhs, |x, s| x + s)
    }

    fn sub_scalar(&self, rhs: f64) -> Result<Tensor, Error> {
        self.map(rhs, |x, s| x - s)
    }

    fn mul_scalar(&self, rhs: f64) -> Result<Tensor, Error> {
        self.map(rhs, |x, s| x * s)
    }

    fn div_scalar(&self, rhs: f64) -> Result<Tensor, Error> {
        self.map(rhs, |x, s| x / s)
    }

    fn scalar_add(lhs: f64, rhs: &Tensor) -> Result<Tensor, Error> {
        rhs.map(lhs, |y, s| s + y)
    }

    fn scalar_sub(lhs: f64, rhs: &Tensor) -> Result<Tensor, Error> {
        rhs.map(lhs, |y, s| s - y)
    }

    fn scalar_mul(lhs: f64, rhs: &Tensor) -> Result<Tensor, Error> {
        rhs.map(lhs, |y, s| s * y)
    }

    fn scalar_div(lhs: f64, rhs: &Tensor) -> Result<Tensor, Error> {
        rhs.map(lhs, |y, s| s / y)
    }
}

impl Mul<&Tensor> for f64 {
    type Output = Fallible;

    fn mul(self, rhs: &Tensor) -> Fallible {
        MTensor::from(Tensor::scalar_mul(self, rhs))
    }
}

/// A tensor type that does no arithmetic and counts how often it is asked.
struct Probe {
    asked: Rc<Cell<usize>>,
}

impl Probe {
    fn answer(&self) -> Result<Probe, String> {
        self.asked.set(self.asked.get() + 1);
        Ok(Probe { asked: self.asked.clone() })
    }
}

impl TensorOps for Probe {
    type Scalar = i32;
    type Error = String;

    fn add(&self, _rhs: &Probe) -> Result<Probe, String> {
        self.answer()
    }

    fn sub(&self, _rhs: &Probe) -> Result<Probe, String> {
        self.answer()
    }

    fn mul(&self, _rhs: &Probe) -> Result<Probe, String> {
        self.answer()
    }

    fn div(&self, _rhs: &Probe) -> Result<Probe, String> {
        self.answer()
    }

    fn add_scalar(&self, _rhs: i32) -> Result<Probe, String> {
        self.answer()
    }

    fn sub_scalar(&self, _rhs: i32) -> Result<Probe, String> {
        self.answer()
    }

    fn mul_scalar(&self, _rhs: i32) -> Result<Probe, String> {
        self.answer()
    }

    fn div_scalar(&self, _rhs: i32) -> Result<Probe, String> {
        self.answer()
    }

    fn scalar_add(_lhs: i32, rhs: &Probe) -> Result<Probe, String> {
        rhs.answer()
    }

    fn scalar_sub(_lhs: i32, rhs: &Probe) -> Result<Probe, String> {
        rhs.answer()
    }

    fn scalar_mul(_lhs: i32, rhs: &Probe) -> Result<Probe, String> {
        rhs.answer()
    }

    fn scalar_div(_lhs: i32, rhs: &Probe) -> Result<Probe, String> {
        rhs.answer()
    }
}

fn tensor(data: &[f64]) -> Tensor {
    Tensor { data: data.to_vec() }
}

fn success(data: &[f64]) -> Fallible {
    Tensor::from_slice(data, (data.len(),), &Device::Cpu)
}

fn traced(label: &str) -> Error {
    Error::WithBacktrace {
        inner: Box::new(Error::ShapeMismatch { op: "matmul", lhs: 2, rhs: 3 }),
        backtrace: String::from(label),
    }
}

fn failure(label: &str) -> Fallible {
    MTensor::from(Err(traced(label)))
}

fn values(m: Fallible) -> Vec<f64> {
    match m.inner {
        Ok(t) => t.data,
        Err(e) => panic!("expected a tensor, found {:?}", e),
    }
}

fn error_of(m: Fallible) -> Error {
    match m.inner {
        Ok(t) => panic!("expected an error, found {:?}", t),
        Err(e) => e,
    }
}

#[test]
fn test1() {
    let device = Device::Cpu;
    let a: Fallible = Tensor::from_slice(&[1.0, 2.0], (2,), &device);
    let b: Fallible = Tensor::from_slice(&[2.0, 3.0], (2,), &device);
    let c: Fallible = Tensor::from_slice(&[3.0, 4.0], (2,), &device);
    let x: Tensor = Tensor::from_slice(&[3.0, 4.0], (2,), &device).inner.unwrap();

    (&a + &b + &c).unwrap();
    (a + &b + &c).unwrap();
    (&b + c).unwrap();
    (3.0 * &x * &x - 4.0 * &x).sub_scalar(5.0).unwrap();
}

#[test]
fn sum_of_three_tensors_is_elementwise() {
    let a = success(&[1.0, 2.0]);
    let b = success(&[2.0, 3.0]);
    let c = success(&[3.0, 4.0]);
    assert_eq!((&a + &b + &c).unwrap(), tensor(&[6.0, 9.0]));
    assert_eq!((&b + &c).unwrap(), tensor(&[5.0, 7.0]));
    assert_eq!((a + &b + &c).unwrap().data, vec![6.0, 9.0]);
}

#[test]
fn sum_of_three_equals_the_tensor_types_own_sums() {
    let a = tensor(&[0.5, -1.25, 8.0]);
    let b = tensor(&[4.0, 2.5, -3.0]);
    let c = tensor(&[1.0, 1.0, 0.125]);
    let direct = a.add(&b).unwrap().add(&c).unwrap();
    let wrapped = Fallible::from(a.clone()) + Fallible::from(b.clone()) + Fallible::from(c.clone());
    assert_eq!(wrapped.unwrap(), direct);
    assert_eq!(direct.data, vec![5.5, 2.25, 5.125]);
}

#[test]
fn mixed_scalar_tensor_expression_matches_direct_application() {
    let x = tensor(&[3.0, 4.0]);
    let wrapped = (3.0 * &x * &x - 4.0 * &x).sub_scalar(5.0);
    assert_eq!(values(wrapped), vec![10.0, 27.0]);

    let direct = Tensor::scalar_mul(3.0, &x)
        .unwrap()
        .mul(&x)
        .unwrap()
        .sub(&Tensor::scalar_mul(4.0, &x).unwrap())
        .unwrap()
        .sub_scalar(5.0)
        .unwrap();
    assert_eq!(direct.data, vec![10.0, 27.0]);

    let m = Fallible::from(x.clone());
    let named = Fallible::scalar_mul(3.0, &m)
        .mul_fallible(&m)
        .sub_fallible(&Fallible::scalar_mul(4.0, &m))
        .sub_scalar(5.0);
    assert_eq!(named.unwrap(), direct);
}

#[test]
fn unwrap_returns_the_wrapped_tensor() {
    let t = tensor(&[1.5, -2.0, 0.0]);
    let m: Fallible = MTensor::from(t.clone());
    assert_eq!(m.unwrap(), t);
    let n: Fallible = MTensor::from(Ok(t.clone()));
    assert_eq!(n.unwrap(), t);
    let o: Fallible = MTensor::from_output(t.clone());
    assert_eq!(o.unwrap(), t);
}

#[test]
fn from_tensor_is_a_success() {
    let m: Fallible = MTensor::from(tensor(&[7.0]));
    assert!(m.inner.is_ok());
    assert_eq!(m.inner, Ok(tensor(&[7.0])));
}

#[test]
fn from_result_keeps_the_state() {
    let ok: Fallible = MTensor::from(Ok(tensor(&[1.0, 2.0])));
    assert_eq!(ok.inner, Ok(tensor(&[1.0, 2.0])));
    let err: Fallible = MTensor::from(Err(traced("here")));
    assert_eq!(err.inner, Err(traced("here")));
}

#[test]
fn from_output_is_a_success() {
    let m: Fallible = MTensor::from_output(tensor(&[2.0, 4.0]));
    assert_eq!(m.inner, Ok(tensor(&[2.0, 4.0])));
}

#[test]
fn from_slice_rejects_a_wrong_length() {
    let m = Tensor::from_slice(&[1.0, 2.0, 3.0], (2,), &Device::Cpu);
    assert_eq!(
        error_of(m),
        Error::WithBacktrace {
            inner: Box::new(Error::UnexpectedNumberOfElements { expected: 2, got: 3 }),
            backtrace: String::from("at tests::fallible_tensor"),
        }
    );
}

#[test]
fn branch_continues_with_the_tensor_of_a_success() {
    let m = success(&[1.0, 2.0]);
    match m.branch() {
        ControlFlow::Continue(t) => assert_eq!(t, tensor(&[1.0, 2.0])),
        ControlFlow::Break(_) => panic!("a success must continue"),
    }
}

#[test]
fn branch_breaks_with_the_error_of_a_failure() {
    let m = failure("lost");
    match m.branch() {
        ControlFlow::Continue(_) => panic!("a failure must break"),
        ControlFlow::Break(residual) => match residual {
            Ok(never) => match never {},
            Err(e) => assert_eq!(e, traced("lost")),
        },
    }
}

#[test]
fn from_residual_is_a_failure_with_the_same_error() {
    let m: Fallible = MTensor::from_residual(Err(traced("kept")));
    assert!(m.inner.is_err());
    assert_eq!(error_of(m), traced("kept"));
}

fn double_or_leave(m: Fallible) -> Fallible {
    let t = match m.branch() {
        ControlFlow::Continue(t) => t,
        ControlFlow::Break(residual) => return MTensor::from_residual(residual),
    };
    MTensor::from_output(Tensor { data: t.data.iter().map(|v| v * 2.0).collect() })
}

#[test]
fn branch_and_from_residual_short_circuit_a_function() {
    assert_eq!(values(double_or_leave(success(&[1.0, 2.5]))), vec![2.0, 5.0]);
    assert_eq!(error_of(double_or_leave(failure("early"))), traced("early"));
}

#[test]
fn operand_borrows_a_tensor_and_clones_an_error() {
    let m = success(&[4.0]);
    assert_eq!(m.operand(), Ok(&tensor(&[4.0])));
    let f = failure("cloned");
    assert_eq!(f.operand(), Err(traced("cloned")));
    assert_eq!(f.inner, Err(traced("cloned")));
}

#[test]
fn deref_reaches_the_methods_of_result() {
    let m = success(&[1.0]);
    assert!(m.is_ok());
    assert!(!m.is_err());
    assert_eq!(m.as_ref().ok(), Some(&tensor(&[1.0])));
    let f = failure("x");
    assert!(f.is_err());
    assert_eq!(f.as_ref().err(), Some(&traced("x")));
}

#[test]
fn deref_mut_changes_the_state() {
    let mut m = success(&[1.0]);
    *m = Err(traced("replaced"));
    assert_eq!(m.inner, Err(traced("replaced")));
    *m = Ok(tensor(&[9.0]));
    assert_eq!(m.inner, Ok(tensor(&[9.0])));
    if let Ok(t) = m.as_mut() {
        t.data.push(10.0);
    }
    assert_eq!(m.unwrap(), tensor(&[9.0, 10.0]));
}

#[test]
fn named_functions_on_two_fallible_tensors() {
    let a = success(&[8.0, 9.0]);
    let b = success(&[2.0, 3.0]);
    assert_eq!(values(a.add_fallible(&b)), vec![10.0, 12.0]);
    assert_eq!(values(a.sub_fallible(&b)), vec![6.0, 6.0]);
    assert_eq!(values(a.mul_fallible(&b)), vec![16.0, 27.0]);
    assert_eq!(values(a.div_fallible(&b)), vec![4.0, 3.0]);
    assert_eq!(values(b.sub_fallible(&a)), vec![-6.0, -6.0]);
    assert_eq!(values(b.div_fallible(&a)), vec![0.25, 3.0 / 9.0]);
}

#[test]
fn named_functions_with_a_tensor_on_the_right() {
    let a = success(&[8.0, 9.0]);
    let t = tensor(&[2.0, 3.0]);
    assert_eq!(values(a.add_tensor(&t)), vec![10.0, 12.0]);
    assert_eq!(values(a.sub_tensor(&t)), vec![6.0, 6.0]);
    assert_eq!(values(a.mul_tensor(&t)), vec![16.0, 27.0]);
    assert_eq!(values(a.div_tensor(&t)), vec![4.0, 3.0]);
}

#[test]
fn named_functions_with_a_tensor_on_the_left() {
    let t = tensor(&[8.0, 9.0]);
    let b = success(&[2.0, 3.0]);
    assert_eq!(values(Fallible::tensor_add(&t, &b)), vec![10.0, 12.0]);
    assert_eq!(values(Fallible::tensor_sub(&t, &b)), vec![6.0, 6.0]);
    assert_eq!(values(Fallible::tensor_mul(&t, &b)), vec![16.0, 27.0]);
    assert_eq!(values(Fallible::tensor_div(&t, &b)), vec![4.0, 3.0]);
}

#[test]
fn named_functions_with_a_scalar_on_the_right() {
    let a = success(&[8.0, 9.0]);
    assert_eq!(values(a.add_scalar(2.0)), vec![10.0, 11.0]);
    assert_eq!(values(a.sub_scalar(2.0)), vec![6.0, 7.0]);
    assert_eq!(values(a.mul_scalar(2.0)), vec![16.0, 18.0]);
    assert_eq!(values(a.div_scalar(2.0)), vec![4.0, 4.5]);
}

#[test]
fn named_functions_with_a_scalar_on_the_left() {
    let b = success(&[2.0, 4.0]);
    assert_eq!(values(Fallible::scalar_add(8.0, &b)), vec![10.0, 12.0]);
    assert_eq!(values(Fallible::scalar_sub(8.0, &b)), vec![6.0, 4.0]);
    assert_eq!(values(Fallible::scalar_mul(8.0, &b)), vec![16.0, 32.0]);
    assert_eq!(values(Fallible::scalar_div(8.0, &b)), vec![4.0, 2.0]);
}

#[test]
fn operator_add_in_every_form() {
    let a = || success(&[8.0, 9.0]);
    let b = || success(&[2.0, 3.0]);
    let t = || tensor(&[2.0, 3.0]);
    let expected = vec![10.0, 12.0];
    assert_eq!(values(a() + b()), expected);
    assert_eq!(values(a() + &b()), expected);
    assert_eq!(values(&a() + b()), expected);
    assert_eq!(values(&a() + &b()), expected);
    assert_eq!(values(a() + t()), expected);
    assert_eq!(values(a() + &t()), expected);
    assert_eq!(values(&a() + t()), expected);
    assert_eq!(values(&a() + &t()), expected);
}

#[test]
fn operator_sub_in_every_form() {
    let a = || success(&[8.0, 9.0]);
    let b = || success(&[2.0, 3.0]);
    let t = || tensor(&[2.0, 3.0]);
    let expected = vec![6.0, 6.0];
    assert_eq!(values(a() - b()), expected);
    assert_eq!(values(a() - &b()), expected);
    assert_eq!(values(&a() - b()), expected);
    assert_eq!(values(&a() - &b()), expected);
    assert_eq!(values(a() - t()), expected);
    assert_eq!(values(a() - &t()), expected);
    assert_eq!(values(&a() - t()), expected);
    assert_eq!(values(&a() - &t()), expected);
}

#[test]
fn operator_mul_in_every_form() {
    let a = || success(&[8.0, 9.0]);
    let b = || success(&[2.0, 3.0]);
    let t = || tensor(&[2.0, 3.0]);
    let expected = vec![16.0, 27.0];
    assert_eq!(values(a() * b()), expected);
    assert_eq!(values(a() * &b()), expected);
    assert_eq!(values(&a() * b()), expected);
    assert_eq!(values(&a() * &b()), expected);
    assert_eq!(values(a() * t()), expected);
    assert_eq!(values(a() * &t()), expected);
    assert_eq!(values(&a() * t()), expected);
    assert_eq!(values(&a() * &t()), expected);
}

#[test]
fn operator_div_in_every_form() {
    let a = || success(&[8.0, 9.0]);
    let b = || success(&[2.0, 3.0]);
    let t = || tensor(&[2.0, 3.0]);
    let expected = vec![4.0, 3.0];
    assert_eq!(values(a() / b()), expected);
    assert_eq!(values(a() / &b()), expected);
    assert_eq!(values(&a() / b()), expected);
    assert_eq!(values(&a() / &b()), expected);
    assert_eq!(values(a() / t()), expected);
    assert_eq!(values(a() / &t()), expected);
    assert_eq!(values(&a() / t()), expected);
    assert_eq!(values(&a() / &t()), expected);
}

#[test]
fn operands_that_are_borrowed_stay_usable() {
    let a = success(&[1.0, 2.0]);
    let b = success(&[2.0, 3.0]);
    let first = &a + &b;
    let second = &a * &b;
    assert_eq!(values(first), vec![3.0, 5.0]);
    assert_eq!(values(second), vec![2.0, 6.0]);
    assert_eq!(a.inner, Ok(tensor(&[1.0, 2.0])));
    assert_eq!(b.inner, Ok(tensor(&[2.0, 3.0])));
}

#[test]
fn failed_left_operand_is_carried_by_every_operation() {
    let f = failure("left");
    let x = success(&[1.0, 2.0]);
    let t = tensor(&[1.0, 2.0]);
    let e = traced("left");
    assert_eq!(error_of(f.add_fallible(&x)), e);
    assert_eq!(error_of(f.sub_fallible(&x)), e);
    assert_eq!(error_of(f.mul_fallible(&x)), e);
    assert_eq!(error_of(f.div_fallible(&x)), e);
    assert_eq!(error_of(f.add_tensor(&t)), e);
    assert_eq!(error_of(f.sub_tensor(&t)), e);
    assert_eq!(error_of(f.mul_tensor(&t)), e);
    assert_eq!(error_of(f.div_tensor(&t)), e);
    assert_eq!(error_of(f.add_scalar(3.0)), e);
    assert_eq!(error_of(f.sub_scalar(3.0)), e);
    assert_eq!(error_of(f.mul_scalar(3.0)), e);
    assert_eq!(error_of(f.div_scalar(3.0)), e);
    assert_eq!(error_of(&f + &x), e);
    assert_eq!(error_of(&f - &x), e);
    assert_eq!(error_of(&f * &x), e);
    assert_eq!(error_of(&f / &x), e);
    assert_eq!(error_of(&f + &t), e);
    assert_eq!(error_of(&f - &t), e);
    assert_eq!(error_of(&f * &t), e);
    assert_eq!(error_of(&f / &t), e);
    assert_eq!(f.inner, Err(e));
}

#[test]
fn failed_right_operand_is_carried_by_every_operation() {
    let f = failure("right");
    let x = success(&[1.0, 2.0]);
    let t = tensor(&[1.0, 2.0]);
    let e = traced("right");
    assert_eq!(error_of(x.add_fallible(&f)), e);
    assert_eq!(error_of(x.sub_fallible(&f)), e);
    assert_eq!(error_of(x.mul_fallible(&f)), e);
    assert_eq!(error_of(x.div_fallible(&f)), e);
    assert_eq!(error_of(Fallible::tensor_add(&t, &f)), e);
    assert_eq!(error_of(Fallible::tensor_sub(&t, &f)), e);
    assert_eq!(error_of(Fallible::tensor_mul(&t, &f)), e);
    assert_eq!(error_of(Fallible::tensor_div(&t, &f)), e);
    assert_eq!(error_of(Fallible::scalar_add(3.0, &f)), e);
    assert_eq!(error_of(Fallible::scalar_sub(3.0, &f)), e);
    assert_eq!(error_of(Fallible::scalar_mul(3.0, &f)), e);
    assert_eq!(error_of(Fallible::scalar_div(3.0, &f)), e);
    assert_eq!(error_of(&x + &f), e);
    assert_eq!(error_of(&x - &f), e);
    assert_eq!(error_of(&x * &f), e);
    assert_eq!(error_of(&x / &f), e);
    assert_eq!(f.inner, Err(e));
}

#[test]
fn leftmost_failure_wins() {
    let l = failure("left");
    let r = failure("right");
    assert_eq!(error_of(&l + &r), traced("left"));
    assert_eq!(error_of(&r + &l), traced("right"));
    assert_eq!(error_of(l.sub_fallible(&r)), traced("left"));
    assert_eq!(error_of(l.mul_fallible(&r)), traced("left"));
    assert_eq!(error_of(l.div_fallible(&r)), traced("left"));
    let x = success(&[1.0]);
    assert_eq!(error_of(&x + &l + &r), traced("left"));
    assert_eq!(error_of(&x * &r - &l), traced("right"));
}

#[test]
fn failed_operand_keeps_the_tensor_type_from_being_asked() {
    let asked = Rc::new(Cell::new(0));
    let probe = Probe { asked: asked.clone() };
    let x: MTensor<Probe, String> = MTensor::from(Probe { asked: asked.clone() });
    let f: MTensor<Probe, String> = MTensor::from(Err(String::from("failed")));

    assert_eq!(f.add_fallible(&x).inner.err(), Some(String::from("failed")));
    assert_eq!(x.add_fallible(&f).inner.err(), Some(String::from("failed")));
    assert_eq!(f.sub_tensor(&probe).inner.err(), Some(String::from("failed")));
    assert_eq!(MTensor::tensor_mul(&probe, &f).inner.err(), Some(String::from("failed")));
    assert_eq!(f.div_scalar(2).inner.err(), Some(String::from("failed")));
    assert_eq!(MTensor::scalar_div(2, &f).inner.err(), Some(String::from("failed")));
    assert_eq!((&f * &x).inner.err(), Some(String::from("failed")));
    assert_eq!((&x / &f).inner.err(), Some(String::from("failed")));
    assert_eq!((&f - &probe).inner.err(), Some(String::from("failed")));
    assert_eq!(asked.get(), 0);

    assert!(x.add_fallible(&x).inner.is_ok());
    assert_eq!(asked.get(), 1);
    assert!(x.mul_tensor(&probe).inner.is_ok());
    assert!(MTensor::tensor_sub(&probe, &x).inner.is_ok());
    assert!(x.div_scalar(2).inner.is_ok());
    assert!(MTensor::scalar_add(2, &x).inner.is_ok());
    assert!((&x - &x).inner.is_ok());
    assert_eq!(asked.get(), 6);
}

#[test]
fn errors_of_the_tensor_type_pass_through_unchanged() {
    let a = success(&[1.0, 2.0]);
    let b = success(&[1.0, 2.0, 3.0]);
    let mismatch = |op: &'static str| Error::WithBacktrace {
        inner: Box::new(Error::ShapeMismatch { op, lhs: 2, rhs: 3 }),
        backtrace: String::from("at tests::fallible_tensor"),
    };
    assert_eq!(error_of(&a + &b), mismatch("add"));
    assert_eq!(error_of(&a - &b), mismatch("sub"));
    assert_eq!(error_of(&a * &b), mismatch("mul"));
    assert_eq!(error_of(&a / &b), mismatch("div"));
    assert_eq!(error_of(a.add_tensor(&tensor(&[0.0; 3]))), mismatch("add"));
    assert_eq!(error_of(Fallible::tensor_sub(&tensor(&[0.0, 0.0]), &b)), mismatch("sub"));
    assert_eq!(tensor(&[1.0, 2.0]).add(&tensor(&[0.0; 3])).err(), Some(mismatch("add")));
}

#[test]
fn error_trace_survives_a_chain_of_operations() {
    let f = failure("where it began");
    let x = success(&[1.0, 2.0]);
    let t = tensor(&[5.0, 6.0]);
    let out = Fallible::scalar_mul(2.0, &(&(&f + &x) * &t - &x)).div_scalar(4.0);
    assert_eq!(
        error_of(out),
        Error::WithBacktrace {
            inner: Box::new(Error::ShapeMismatch { op: "matmul", lhs: 2, rhs: 3 }),
            backtrace: String::from("where it began"),
        }
    );
}

#[test]
fn division_by_zero_is_left_to_the_tensor_type() {
    let a = success(&[1.0, -1.0]);
    let z = success(&[0.0, 0.0]);
    assert_eq!(values(&a / &z), vec![f64::INFINITY, f64::NEG_INFINITY]);
    assert_eq!(values(a.div_scalar(0.0)), vec![f64::INFINITY, f64::NEG_INFINITY]);
}

#[test]
fn tensors_without_elements_are_tensors_too() {
    let a = success(&[]);
    let b = success(&[]);
    assert_eq!(values(&a + &b), Vec::<f64>::new());
    assert_eq!(values(a.mul_scalar(3.0)), Vec::<f64>::new());
    assert_eq!((&a - &b).unwrap(), tensor(&[]));
}

#[test]
fn multiplication_and_division_bind_tighter_than_addition_and_subtraction() {
    let a = success(&[2.0]);
    let b = success(&[3.0]);
    let c = success(&[4.0]);
    assert_eq!(values(&a + &b * &c), vec![14.0]);
    assert_eq!(values(&a * &b + &c), vec![10.0]);
    assert_eq!(values(&a - &b * &c), vec![-10.0]);
    assert_eq!(values(&a + &c / &a), vec![4.0]);
    assert_eq!(values(&c - &c / &a), vec![2.0]);
    assert_eq!(values(&a + &b * &c), values(a.add_fallible(&b.mul_fallible(&c))));
}

#[test]
fn operators_of_equal_precedence_group_from_the_left() {
    let a = success(&[10.0]);
    let b = success(&[3.0]);
    let c = success(&[2.0]);
    assert_eq!(values(&a - &b - &c), vec![5.0]);
    assert_eq!(values(&a - &b + &c), vec![9.0]);
    assert_eq!(values(&a / &c / &c), vec![2.5]);
    assert_eq!(values(&a / &c * &b), vec![15.0]);
    assert_eq!(values(&a - &b - &c), values(a.sub_fallible(&b).sub_fallible(&c)));
    assert_eq!(values(&a - (&b - &c)), vec![9.0]);
}
