//! Elementwise activation functions and their derivatives.
use vstd::prelude::*;
use num_traits::Float;
use crate::numbers::{
    exact_ops,
    float_exp,
    float_tanh,
    integer_zero,
    negate,
    one_of,
    spec_gt,
    total_ops,
    zero_of,
    Number,
};
use vstd::std_specs::ops::{AddSpec, DivSpec, MulSpec, SubSpec};
use vstd::std_specs::cmp::PartialOrdSpec;
use vstd::std_specs::convert::FromSpec;

verus! {

/// ReLU of `x`: `x` where `x > 0`, zero elsewhere.
pub open spec fn relu_spec<T: Number>(x: T) -> T {
    if spec_gt(x, zero_of::<T>()) {
        x
    } else {
        zero_of::<T>()
    }
}

/// The derivative of ReLU at `x`: one where `x > 0`, zero elsewhere (zero at `x = 0`).
pub open spec fn relu_slope<T: Number>(x: T) -> T {
    if spec_gt(x, zero_of::<T>()) {
        one_of::<T>()
    } else {
        zero_of::<T>()
    }
}

/// Comparison with zero and the constants are the specified ones.
pub open spec fn order_exact<T: Number>() -> bool {
    <T as FromSpec<i8>>::obeys_from_spec() && T::obeys_partial_cmp_spec()
}

/// ReLU's derivative at zero is zero.
pub proof fn law_relu_slope_at_zero<T: Number>()
    requires
        integer_zero::<T>(),
    ensures
        relu_slope(zero_of::<T>()) == zero_of::<T>(),
{
}

/// Where the hyperbolic tangent is zero, its slope `1 - t * t` is one.
pub proof fn law_tanh_slope_at_zero<T: Number>()
    requires
        integer_zero::<T>(),
    ensures
        one_of::<T>().sub_spec(zero_of::<T>().mul_spec(zero_of::<T>())) == one_of::<T>(),
{
    assert(zero_of::<T>().mul_spec(zero_of::<T>()) == zero_of::<T>());
    assert(one_of::<T>().sub_spec(zero_of::<T>()) == one_of::<T>());
}

/// `1 / (1 + e)`: the logistic function, given `e = exp(-x)`.
pub fn logistic_of_exp<T: Number>(e: T) -> (r: T)
    requires
        total_ops::<T>() || (exact_ops::<T>() && one_of::<T>().add_req(e) && one_of::<T>().div_req(
            one_of::<T>().add_spec(e),
        )),
    ensures
        exact_ops::<T>() ==> r == one_of::<T>().div_spec(one_of::<T>().add_spec(e)),
{
    let one = T::one();
    one / (one + e)
}

/// `s * (1 - s)`: the slope of the logistic function where its value is `s`.
pub fn logistic_slope<T: Number>(s: T) -> (r: T)
    requires
        total_ops::<T>() || (exact_ops::<T>() && one_of::<T>().sub_req(s) && s.mul_req(
            one_of::<T>().sub_spec(s),
        )),
    ensures
        exact_ops::<T>() ==> r == s.mul_spec(one_of::<T>().sub_spec(s)),
{
    s * (T::one() - s)
}

/// `1 - t * t`: the slope of the hyperbolic tangent where its value is `t`.
pub fn tanh_slope<T: Number>(t: T) -> (r: T)
    requires
        total_ops::<T>() || (exact_ops::<T>() && t.mul_req(t) && one_of::<T>().sub_req(
            t.mul_spec(t),
        )),
    ensures
        exact_ops::<T>() ==> r == one_of::<T>().sub_spec(t.mul_spec(t)),
{
    T::one() - t * t
}

/// The derivative of ReLU at `x`: one if `x > 0`, otherwise zero.
pub fn relu_derivative<T: Number>(x: T) -> (r: T)
    ensures
        order_exact::<T>() ==> r == relu_slope(x),
{
    let z = T::zero();
    if x > z {
        T::one()
    } else {
        z
    }
}

/// The logistic function `1 / (1 + exp(-x))`: `logistic_of_exp` of the floating-point
/// exponential of `-x`.
pub fn sigmoid<T: Number + Float>(x: T) -> (r: T)
    requires
        total_ops::<T>(),
    ensures
        exists|e: T| call_ensures(logistic_of_exp::<T>, (e,), r),
{
    let e = float_exp(negate(x));
    logistic_of_exp(e)
}

/// Applies `sigmoid` to each input.
pub fn sigmoid_layer<T: Number + Float, const N: usize>(inputs: &[T; N]) -> (outputs: [T; N])
    requires
        total_ops::<T>(),
    ensures
        forall|i: int| 0 <= i < N ==> call_ensures(sigmoid::<T>, (inputs[i],), #[trigger] outputs[i]),
{
    let mut outputs = [<T as Number>::zero();N];
    let mut i: usize = 0;
    while i < N
        invariant
            i <= N,
            total_ops::<T>(),
            forall|k: int| 0 <= k < i ==> call_ensures(sigmoid::<T>, (inputs[k],), #[trigger] outputs[k]),
        decreases N - i,
    {
        outputs[i] = sigmoid(inputs[i]);
        i = i + 1;
    }
    outputs
}

/// ReLU of `x`: `x` if `x > 0`, otherwise zero.
pub fn relu<T: Number>(x: T) -> (r: T)
    ensures
        order_exact::<T>() ==> r == relu_spec(x),
{
    let z = T::zero();
    if x > z {
        x
    } else {
        z
    }
}

/// Applies `relu` to each input.
pub fn relu_layer<T: Number, const N: usize>(inputs: &[T; N]) -> (outputs: [T; N])
    ensures
        forall|i: int| 0 <= i < N ==> call_ensures(relu::<T>, (inputs[i],), #[trigger] outputs[i]),
        order_exact::<T>() ==> forall|i: int| 0 <= i < N ==> outputs[i] == relu_spec(inputs[i]),
{
    let mut outputs = [<T as Number>::zero();N];
    let mut i: usize = 0;
    while i < N
        invariant
            i <= N,
            forall|k: int| 0 <= k < i ==> call_ensures(relu::<T>, (inputs[k],), #[trigger] outputs[k]),
            order_exact::<T>() ==> forall|k: int| 0 <= k < i ==> outputs[k] == relu_spec(inputs[k]),
        decreases N - i,
    {
        outputs[i] = relu(inputs[i]);
        i = i + 1;
    }
    outputs
}

/// The hyperbolic tangent of `x`.
pub fn tanh<T: Number + Float>(x: T) -> T {
    float_tanh(x)
}

/// Applies `tanh` to each input.
pub fn tanh_layer<T: Number + Float, const N: usize>(inputs: &[T; N]) -> (outputs: [T; N])
    ensures
        forall|i: int| 0 <= i < N ==> call_ensures(tanh::<T>, (inputs[i],), #[trigger] outputs[i]),
{
    let mut outputs = [<T as Number>::zero();N];
    let mut i: usize = 0;
    while i < N
        invariant
            i <= N,
            forall|k: int| 0 <= k < i ==> call_ensures(tanh::<T>, (inputs[k],), #[trigger] outputs[k]),
        decreases N - i,
    {
        outputs[i] = tanh(inputs[i]);
        i = i + 1;
    }
    outputs
}

/// The activation functions, applied elementwise to a layer's raw output.
pub enum Activation {
    Sigmoid,
    ReLU,
    Tanh,
}

impl Activation {
    /// Applies the activation to each input.
    pub fn forward<T: Number + Float, const N: usize>(&self, inputs: &[T; N]) -> (outputs: [T; N])
        requires
            total_ops::<T>(),
        ensures
            forall|i: int|
                #![trigger outputs[i]]
                0 <= i < N ==> match *self {
                    Activation::Sigmoid => call_ensures(sigmoid::<T>, (inputs[i],), outputs[i]),
                    Activation::ReLU => call_ensures(relu::<T>, (inputs[i],), outputs[i]),
                    Activation::Tanh => call_ensures(tanh::<T>, (inputs[i],), outputs[i]),
                },
            (*self is ReLU && order_exact::<T>()) ==> forall|i: int|
                0 <= i < N ==> outputs[i] == relu_spec(inputs[i]),
    {
        match self {
            Activation::Sigmoid => sigmoid_layer(inputs),
            Activation::ReLU => relu_layer(inputs),
            Activation::Tanh => tanh_layer(inputs),
        }
    }

    /// The derivative of the activation at `x`: `s * (1 - s)` with `s = sigmoid(x)`;
    /// one or zero for ReLU (zero at `x = 0`); `1 - tanh(x)^2`.
    pub fn derivative<T: Number + Float>(&self, x: T) -> (r: T)
        requires
            total_ops::<T>(),
        ensures
            match *self {
                Activation::Sigmoid => exists|s: T|
                    call_ensures(sigmoid::<T>, (x,), s) && call_ensures(logistic_slope::<T>, (s,), r),
                Activation::ReLU => call_ensures(relu_derivative::<T>, (x,), r),
                Activation::Tanh => exists|t: T|
                    call_ensures(tanh::<T>, (x,), t) && call_ensures(tanh_slope::<T>, (t,), r),
            },
            (*self is ReLU && order_exact::<T>()) ==> r == relu_slope(x),
    {
        match self {
            Activation::Sigmoid => {
                let s = sigmoid(x);
                logistic_slope(s)
            },
            Activation::ReLU => relu_derivative(x),
            Activation::Tanh => {
                let t = tanh(x);
                tanh_slope(t)
            },
        }
    }
}

} // verus!
