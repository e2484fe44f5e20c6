//! Loss functions: mean squared error, cross-entropy and binary cross-entropy, with their
//! per-sample derivatives.
use vstd::prelude::*;
use num_traits::Float;
use crate::numbers::{
    exact_ops,
    float_ln,
    integer_zero,
    negate,
    one_of,
    spec_gt,
    spec_lt,
    total_ops,
    zero_of,
    Number,
};
use vstd::std_specs::cmp::PartialOrdSpec;
use vstd::std_specs::convert::FromSpec;
use vstd::std_specs::ops::{AddSpec, DivSpec, MulSpec, NegSpec, SubSpec};

verus! {

/// The power of ten whose reciprocal is the clamping epsilon (`1e-15`).
pub const EPSILON_DIGITS: usize = 15;

/// `(p[0]-t[0])^2 + ... + (p[k-1]-t[k-1])^2`, accumulated left to right from zero.
pub open spec fn squared_error_sum<T: Number>(p: Seq<T>, t: Seq<T>, k: int) -> T
    decreases k,
{
    if k <= 0 {
        zero_of::<T>()
    } else {
        let d = p[k - 1].sub_spec(t[k - 1]);
        squared_error_sum(p, t, k - 1).add_spec(d.mul_spec(d))
    }
}

/// `k` as a scalar: zero plus one, `k` times.
pub open spec fn count_of<T: Number>(k: int) -> T
    decreases k,
{
    if k <= 0 {
        zero_of::<T>()
    } else {
        count_of::<T>(k - 1).add_spec(one_of::<T>())
    }
}

/// The mean squared error of `p` against `t`.
pub open spec fn mse_spec<T: Number>(p: Seq<T>, t: Seq<T>) -> T {
    squared_error_sum(p, t, p.len() as int).div_spec(count_of::<T>(p.len() as int))
}

/// Every difference, square and running sum of the first `k` terms, and every step of the count,
/// is defined.
pub open spec fn squared_error_fits<T: Number>(p: Seq<T>, t: Seq<T>, k: int) -> bool {
    forall|j: int|
        #![trigger squared_error_sum(p, t, j)]
        0 <= j < k ==> {
            &&& p[j].sub_req(t[j])
            &&& p[j].sub_spec(t[j]).mul_req(p[j].sub_spec(t[j]))
            &&& squared_error_sum(p, t, j).add_req(p[j].sub_spec(t[j]).mul_spec(p[j].sub_spec(t[j])))
            &&& count_of::<T>(j).add_req(one_of::<T>())
        }
}

/// What `mean_squared_error` needs of the scalar type: operators that never trap, or exact
/// operators under which no step overflows and the final division is defined.
pub open spec fn mse_computable<T: Number>(p: Seq<T>, t: Seq<T>) -> bool {
    total_ops::<T>() || (exact_ops::<T>() && squared_error_fits(p, t, p.len() as int)
        && squared_error_sum(p, t, p.len() as int).div_req(count_of::<T>(p.len() as int)))
}

/// The per-sample derivative of the squared error: `2 * (p - t)`.
pub open spec fn mse_slope<T: Number>(p: T, t: T) -> T {
    <T as FromSpec<i8>>::from_spec(2i8).mul_spec(p.sub_spec(t))
}

/// `mse_slope(p, t)` is defined.
pub open spec fn mse_slope_fits<T: Number>(p: T, t: T) -> bool {
    p.sub_req(t) && <T as FromSpec<i8>>::from_spec(2i8).mul_req(p.sub_spec(t))
}

/// What `mse_derivative` needs of the scalar type: operators that never trap, or exact operators
/// under which no slope overflows.
pub open spec fn mse_derivative_computable<T: Number>(p: Seq<T>, t: Seq<T>) -> bool {
    total_ops::<T>() || (exact_ops::<T>() && forall|i: int|
        0 <= i < p.len() ==> #[trigger] mse_slope_fits(p[i], t[i]))
}

/// `x` raised to the lower bound `lo`: `lo` where `x < lo`, else `x`.
pub open spec fn floor_at<T: Number>(x: T, lo: T) -> T {
    if spec_lt(x, lo) {
        lo
    } else {
        x
    }
}

/// `x` clamped into `[lo, hi]`: `lo` where `x < lo`, `hi` where `x > hi`, else `x`.
pub open spec fn clamped<T: Number>(x: T, lo: T, hi: T) -> T {
    if spec_lt(x, lo) {
        lo
    } else if spec_gt(x, hi) {
        hi
    } else {
        x
    }
}

/// The per-sample derivative of cross-entropy: `-t / max(p, eps)`.
pub open spec fn cross_entropy_slope<T: Number>(p: T, t: T) -> T {
    t.neg_spec().div_spec(floor_at(p, eps_of::<T>()))
}

/// `cross_entropy_slope(p, t)` is defined.
pub open spec fn cross_entropy_slope_fits<T: Number>(p: T, t: T) -> bool {
    t.neg_req() && t.neg_spec().div_req(floor_at(p, eps_of::<T>()))
}

/// What `cross_entropy_derivative` needs of the scalar type: operators that never trap, or exact
/// operators under which epsilon and every slope are defined.
pub open spec fn cross_entropy_derivative_computable<T: Number>(p: Seq<T>, t: Seq<T>) -> bool {
    total_ops::<T>() || (exact_ops::<T>() && eps_computable::<T>() && forall|i: int|
        0 <= i < p.len() ==> #[trigger] cross_entropy_slope_fits(p[i], t[i]))
}

/// The per-sample derivative of binary cross-entropy:
/// `-t / clamp(p, eps, 1 - eps) + (1 - t) / max(1 - p, eps)`.
pub open spec fn binary_cross_entropy_slope<T: Number>(p: T, t: T) -> T {
    let eps = eps_of::<T>();
    let one = one_of::<T>();
    let pc = clamped(p, eps, one.sub_spec(eps));
    t.div_spec(pc).neg_spec().add_spec(one.sub_spec(t).div_spec(floor_at(one.sub_spec(p), eps)))
}

/// `binary_cross_entropy_slope(p, t)` is defined.
pub open spec fn binary_cross_entropy_slope_fits<T: Number>(p: T, t: T) -> bool {
    let eps = eps_of::<T>();
    let one = one_of::<T>();
    let pc = clamped(p, eps, one.sub_spec(eps));
    let q = floor_at(one.sub_spec(p), eps);
    &&& t.div_req(pc)
    &&& t.div_spec(pc).neg_req()
    &&& one.sub_req(t)
    &&& one.sub_req(p)
    &&& one.sub_spec(t).div_req(q)
    &&& t.div_spec(pc).neg_spec().add_req(one.sub_spec(t).div_spec(q))
}

/// What `binary_cross_entropy_derivative` needs of the scalar type: operators that never trap,
/// or exact operators under which epsilon, `1 - eps` and every slope are defined.
pub open spec fn binary_cross_entropy_derivative_computable<T: Number>(
    p: Seq<T>,
    t: Seq<T>,
) -> bool {
    total_ops::<T>() || (exact_ops::<T>() && eps_computable::<T>() && one_of::<T>().sub_req(
        eps_of::<T>(),
    ) && forall|i: int|
        0 <= i < p.len() ==> #[trigger] binary_cross_entropy_slope_fits(p[i], t[i]))
}

/// The squared errors of a sequence against itself sum to zero.
proof fn lemma_squared_error_sum_self<T: Number>(p: Seq<T>, k: int)
    requires
        integer_zero::<T>(),
        0 <= k,
    ensures
        squared_error_sum(p, p, k) == zero_of::<T>(),
    decreases k,
{
    if k > 0 {
        lemma_squared_error_sum_self(p, k - 1);
        assert(p[k - 1].sub_spec(p[k - 1]) == zero_of::<T>());
        assert(zero_of::<T>().mul_spec(zero_of::<T>()) == zero_of::<T>());
        assert(zero_of::<T>().add_spec(zero_of::<T>()) == zero_of::<T>());
    }
}

/// The mean squared error of any non-empty sequence against itself is zero.
pub proof fn law_mse_of_equal_is_zero<T: Number>(p: Seq<T>)
    requires
        integer_zero::<T>(),
        p.len() > 0,
        mse_computable(p, p),
    ensures
        mse_spec(p, p) == zero_of::<T>(),
{
    lemma_squared_error_sum_self(p, p.len() as int);
    assert(zero_of::<T>().div_req(count_of::<T>(p.len() as int)));
}

/// Mean squared error: `sum((p[i] - t[i])^2) / n`. The count `n` is formed in the scalar type.
pub fn mean_squared_error<T: Number>(predictions: &[T], targets: &[T]) -> (r: T)
    requires
        predictions@.len() == targets@.len(),
        predictions@.len() > 0,
        mse_computable(predictions@, targets@),
    ensures
        exact_ops::<T>() ==> r == mse_spec(predictions@, targets@),
{
    let n = predictions.len();
    let one = T::one();
    let mut sum = T::zero();
    let mut count = T::zero();
    let mut i: usize = 0;
    while i < n
        invariant
            n == predictions@.len(),
            n == targets@.len(),
            i <= n,
            <T as FromSpec<i8>>::obeys_from_spec() ==> one == one_of::<T>(),
            mse_computable(predictions@, targets@),
            exact_ops::<T>() ==> sum == squared_error_sum(predictions@, targets@, i as int),
            exact_ops::<T>() ==> count == count_of::<T>(i as int),
        decreases n - i,
    {
        proof {
            if !total_ops::<T>() {
                assert(squared_error_sum(predictions@, targets@, i as int).add_req(
                    predictions@[i as int].sub_spec(targets@[i as int]).mul_spec(
                        predictions@[i as int].sub_spec(targets@[i as int]),
                    ),
                ));
            }
        }
        let diff = predictions[i] - targets[i];
        sum = sum + diff * diff;
        count = count + one;
        i = i + 1;
    }
    sum / count
}

/// `10^k` in the scalar type: one multiplied by ten, `k` times.
pub open spec fn ten_power<T: Number>(k: int) -> T
    decreases k,
{
    if k <= 0 {
        one_of::<T>()
    } else {
        ten_power::<T>(k - 1).mul_spec(<T as FromSpec<i8>>::from_spec(10i8))
    }
}

/// The clamping epsilon `1 / 10^15` in the scalar type.
pub open spec fn eps_of<T: Number>() -> T {
    one_of::<T>().div_spec(ten_power::<T>(EPSILON_DIGITS as int))
}

/// What `clamp_epsilon` needs of the scalar type: operators that never trap, or exact operators
/// under which `10^15` and its reciprocal are defined.
pub open spec fn eps_computable<T: Number>() -> bool {
    total_ops::<T>() || (exact_ops::<T>() && (forall|k: int|
        0 <= k < EPSILON_DIGITS ==> #[trigger] ten_power::<T>(k).mul_req(
            <T as FromSpec<i8>>::from_spec(10i8),
        )) && one_of::<T>().div_req(ten_power::<T>(EPSILON_DIGITS as int)))
}

/// The clamping epsilon `1 / 10^15`, formed in the scalar type.
pub fn clamp_epsilon<T: Number>() -> (r: T)
    requires
        eps_computable::<T>(),
    ensures
        exact_ops::<T>() ==> r == eps_of::<T>(),
{
    let ten = T::from(10i8);
    let one = T::one();
    let mut scale = T::one();
    let mut k: usize = 0;
    while k < EPSILON_DIGITS
        invariant
            k <= EPSILON_DIGITS,
            eps_computable::<T>(),
            <T as FromSpec<i8>>::obeys_from_spec() ==> ten == <T as FromSpec<i8>>::from_spec(10i8),
            <T as FromSpec<i8>>::obeys_from_spec() ==> one == one_of::<T>(),
            exact_ops::<T>() ==> scale == ten_power::<T>(k as int),
        decreases EPSILON_DIGITS - k,
    {
        proof {
            if !total_ops::<T>() {
                assert(ten_power::<T>(k as int).mul_req(<T as FromSpec<i8>>::from_spec(10i8)));
            }
        }
        scale = scale * ten;
        k = k + 1;
    }
    one / scale
}

/// `x` raised to the lower bound `lo`.
pub fn raise_to<T: Number>(x: T, lo: T) -> (r: T)
    ensures
        T::obeys_partial_cmp_spec() ==> r == floor_at(x, lo),
{
    if x < lo {
        lo
    } else {
        x
    }
}

/// `x` clamped into `[lo, hi]`: `lo` where `x < lo`, `hi` where `x > hi`, else `x`.
pub fn clamp_into<T: Number>(x: T, lo: T, hi: T) -> (r: T)
    ensures
        T::obeys_partial_cmp_spec() ==> r == clamped(x, lo, hi),
{
    if x < lo {
        lo
    } else if x > hi {
        hi
    } else {
        x
    }
}

/// `0 - t[0] * logs[0] - ... - t[k-1] * logs[k-1]`, accumulated left to right.
pub open spec fn log_loss_sum<T: Number>(t: Seq<T>, logs: Seq<T>, k: int) -> T
    decreases k,
{
    if k <= 0 {
        zero_of::<T>()
    } else {
        log_loss_sum(t, logs, k - 1).sub_spec(t[k - 1].mul_spec(logs[k - 1]))
    }
}

/// The cross-entropy of targets `t` given the logarithms `logs` of the clamped predictions.
pub open spec fn cross_entropy_spec<T: Number>(t: Seq<T>, logs: Seq<T>) -> T {
    log_loss_sum(t, logs, t.len() as int).div_spec(count_of::<T>(t.len() as int))
}

/// What `cross_entropy_of_logs` needs of the scalar type: operators that never trap, or exact
/// operators under which no step overflows and the final division is defined.
pub open spec fn cross_entropy_computable<T: Number>(t: Seq<T>, logs: Seq<T>) -> bool {
    total_ops::<T>() || (exact_ops::<T>() && (forall|j: int|
        #![trigger log_loss_sum(t, logs, j)]
        0 <= j < t.len() ==> {
            &&& t[j].mul_req(logs[j])
            &&& log_loss_sum(t, logs, j).sub_req(t[j].mul_spec(logs[j]))
            &&& count_of::<T>(j).add_req(one_of::<T>())
        }) && log_loss_sum(t, logs, t.len() as int).div_req(count_of::<T>(t.len() as int)))
}

/// The averaged cross-entropy `-sum(t[i] * logs[i]) / n`, given the logarithms of the clamped
/// predictions. The count `n` is formed in the scalar type.
pub fn cross_entropy_of_logs<T: Number>(targets: &[T], logs: &[T]) -> (r: T)
    requires
        targets@.len() == logs@.len(),
        targets@.len() > 0,
        cross_entropy_computable(targets@, logs@),
    ensures
        exact_ops::<T>() ==> r == cross_entropy_spec(targets@, logs@),
{
    let n = targets.len();
    let one = T::one();
    let mut sum = T::zero();
    let mut count = T::zero();
    let mut i: usize = 0;
    while i < n
        invariant
            n == targets@.len(),
            n == logs@.len(),
            i <= n,
            <T as FromSpec<i8>>::obeys_from_spec() ==> one == one_of::<T>(),
            cross_entropy_computable(targets@, logs@),
            exact_ops::<T>() ==> sum == log_loss_sum(targets@, logs@, i as int),
            exact_ops::<T>() ==> count == count_of::<T>(i as int),
        decreases n - i,
    {
        proof {
            if !total_ops::<T>() {
                assert(log_loss_sum(targets@, logs@, i as int).sub_req(
                    targets@[i as int].mul_spec(logs@[i as int]),
                ));
            }
        }
        sum = sum - targets[i] * logs[i];
        count = count + one;
        i = i + 1;
    }
    sum / count
}

/// The natural logarithm of `x`, as the floating-point library computes it.
pub fn natural_log<T: Number + Float>(x: T) -> T {
    float_ln(x)
}

/// How `cross_entropy_loss` forms its logarithms: `clamped[i]` is `predictions[i]` raised to
/// `eps` by `raise_to`, and `logs[i]` is `natural_log` of it.
pub open spec fn clamped_logs<T: Number + Float>(
    predictions: Seq<T>,
    eps: T,
    clamped: Seq<T>,
    logs: Seq<T>,
) -> bool {
    &&& clamped.len() == predictions.len()
    &&& logs.len() == predictions.len()
    &&& forall|i: int|
        0 <= i < predictions.len() ==> call_ensures(
            raise_to::<T>,
            (predictions[i], eps),
            #[trigger] clamped[i],
        ) && call_ensures(natural_log::<T>, (clamped[i],), logs[i])
}

/// Cross-entropy: `-sum(t[i] * ln(max(p[i], eps))) / n`, with `eps = 1e-15` from
/// `clamp_epsilon`: the logarithms of the clamped predictions, handed to `cross_entropy_of_logs`.
pub fn cross_entropy_loss<T: Number + Float>(predictions: &[T], targets: &[T]) -> (r: T)
    requires
        predictions@.len() == targets@.len(),
        predictions@.len() > 0,
        total_ops::<T>(),
    ensures
        exists|eps: T, clamped: Seq<T>, logs: &[T]|
            call_ensures(clamp_epsilon::<T>, (), eps) && #[trigger] clamped_logs(
                predictions@,
                eps,
                clamped,
                logs@,
            ) && call_ensures(cross_entropy_of_logs::<T>, (targets, logs), r),
{
    let eps = clamp_epsilon::<T>();
    let ghost mut clamped: Seq<T> = Seq::empty();
    let mut logs: Vec<T> = Vec::new();
    let mut i: usize = 0;
    while i < predictions.len()
        invariant
            i <= predictions@.len(),
            logs@.len() == i,
            clamped.len() == i,
            forall|k: int|
                0 <= k < i ==> call_ensures(
                    raise_to::<T>,
                    (predictions@[k], eps),
                    #[trigger] clamped[k],
                ) && call_ensures(natural_log::<T>, (clamped[k],), logs@[k]),
        decreases predictions@.len() - i,
    {
        let c = raise_to(predictions[i], eps);
        let v = natural_log(c);
        logs.push(v);
        proof {
            clamped = clamped.push(c);
        }
        i = i + 1;
    }
    let log_slice = logs.as_slice();
    assert(clamped_logs(predictions@, eps, clamped, log_slice@));
    cross_entropy_of_logs(targets, log_slice)
}

/// The binary cross-entropy `-(t * log_p + (1 - t) * log_q)` of target `t`, given the
/// logarithms of the clamped prediction and of its clamped complement.
pub open spec fn binary_cross_entropy_spec<T: Number>(t: T, log_p: T, log_q: T) -> T {
    t.mul_spec(log_p).add_spec(one_of::<T>().sub_spec(t).mul_spec(log_q)).neg_spec()
}

/// What `binary_cross_entropy_of_logs` needs of the scalar type, as for
/// `cross_entropy_computable`.
pub open spec fn binary_cross_entropy_computable<T: Number>(t: T, log_p: T, log_q: T) -> bool {
    total_ops::<T>() || (exact_ops::<T>() && {
        let a = t.mul_spec(log_p);
        let b = one_of::<T>().sub_spec(t).mul_spec(log_q);
        &&& t.mul_req(log_p)
        &&& one_of::<T>().sub_req(t)
        &&& one_of::<T>().sub_spec(t).mul_req(log_q)
        &&& a.add_req(b)
        &&& a.add_spec(b).neg_req()
    })
}

/// `-(t * log_p + (1 - t) * log_q)`, given the logarithms of the clamped prediction and of its
/// clamped complement.
pub fn binary_cross_entropy_of_logs<T: Number>(target: T, log_p: T, log_q: T) -> (r: T)
    requires
        binary_cross_entropy_computable(target, log_p, log_q),
    ensures
        exact_ops::<T>() ==> r == binary_cross_entropy_spec(target, log_p, log_q),
{
    let one = T::one();
    let s = target * log_p + (one - target) * log_q;
    s.neg()
}

/// The arguments that binary cross-entropy takes logarithms of: `prediction` clamped into
/// `[eps, 1 - eps]`, and one minus that, raised to `eps`.
pub fn binary_cross_entropy_log_args<T: Number>(prediction: T, eps: T) -> (r: (T, T))
    requires
        total_ops::<T>() || (exact_ops::<T>() && one_of::<T>().sub_req(eps) && one_of::<T>().sub_req(
            clamped(prediction, eps, one_of::<T>().sub_spec(eps)),
        )),
    ensures
        exact_ops::<T>() ==> r.0 == clamped(prediction, eps, one_of::<T>().sub_spec(eps)),
        exact_ops::<T>() ==> r.1 == floor_at(one_of::<T>().sub_spec(r.0), eps),
{
    let one = T::one();
    let p = clamp_into(prediction, eps, one - eps);
    let one_minus_p = raise_to(one - p, eps);
    (p, one_minus_p)
}

/// Binary cross-entropy of a single prediction:
/// `-(t * ln(p) + (1 - t) * ln(1 - p))`, with `p` clamped into `[eps, 1 - eps]` and `1 - p`
/// raised to `eps` (by `binary_cross_entropy_log_args`), so that both logarithms stay finite.
/// The logarithms are handed to `binary_cross_entropy_of_logs`.
pub fn binary_cross_entropy_loss<T: Number + Float>(prediction: T, target: T) -> (r: T)
    requires
        total_ops::<T>(),
    ensures
        exists|eps: T, args: (T, T), log_p: T, log_q: T|
            #![trigger call_ensures(binary_cross_entropy_log_args::<T>, (prediction, eps), args), call_ensures(binary_cross_entropy_of_logs::<T>, (target, log_p, log_q), r)]
            call_ensures(clamp_epsilon::<T>, (), eps) && call_ensures(
                binary_cross_entropy_log_args::<T>,
                (prediction, eps),
                args,
            ) && call_ensures(natural_log::<T>, (args.0,), log_p) && call_ensures(
                natural_log::<T>,
                (args.1,),
                log_q,
            ) && call_ensures(binary_cross_entropy_of_logs::<T>, (target, log_p, log_q), r),
{
    let eps = clamp_epsilon::<T>();
    let args = binary_cross_entropy_log_args(prediction, eps);
    let log_p = natural_log(args.0);
    let log_q = natural_log(args.1);
    binary_cross_entropy_of_logs(target, log_p, log_q)
}

/// The per-sample derivative of the squared error: `2 * (p[i] - t[i])` for each pair.
pub fn mse_derivative<T: Number>(predictions: &[T], targets: &[T]) -> (d: Vec<T>)
    requires
        predictions@.len() == targets@.len(),
        mse_derivative_computable(predictions@, targets@),
    ensures
        d@.len() == predictions@.len(),
        exact_ops::<T>() ==> forall|i: int|
            0 <= i < d@.len() ==> d@[i] == mse_slope(predictions@[i], targets@[i]),
{
    let two = T::from(2i8);
    let mut d: Vec<T> = Vec::new();
    let mut i: usize = 0;
    while i < predictions.len()
        invariant
            predictions@.len() == targets@.len(),
            i <= predictions@.len(),
            d@.len() == i,
            <T as FromSpec<i8>>::obeys_from_spec() ==> two == <T as FromSpec<i8>>::from_spec(2i8),
            total_ops::<T>() || (exact_ops::<T>() && forall|k: int|
                0 <= k < predictions@.len() ==> #[trigger] mse_slope_fits(
                    predictions@[k],
                    targets@[k],
                )),
            exact_ops::<T>() ==> forall|k: int|
                0 <= k < i ==> d@[k] == mse_slope(predictions@[k], targets@[k]),
        decreases predictions@.len() - i,
    {
        proof {
            if !total_ops::<T>() {
                assert(mse_slope_fits(predictions@[i as int], targets@[i as int]));
            }
        }
        let v = two * (predictions[i] - targets[i]);
        d.push(v);
        i = i + 1;
    }
    d
}

/// The per-sample derivative of cross-entropy: `-t[i] / max(p[i], eps)` for each pair.
pub fn cross_entropy_derivative<T: Number>(predictions: &[T], targets: &[T]) -> (d: Vec<T>)
    requires
        predictions@.len() == targets@.len(),
        cross_entropy_derivative_computable(predictions@, targets@),
    ensures
        d@.len() == predictions@.len(),
        exact_ops::<T>() ==> forall|i: int|
            0 <= i < d@.len() ==> d@[i] == cross_entropy_slope(predictions@[i], targets@[i]),
{
    let eps = clamp_epsilon::<T>();
    let mut d: Vec<T> = Vec::new();
    let mut i: usize = 0;
    while i < predictions.len()
        invariant
            predictions@.len() == targets@.len(),
            i <= predictions@.len(),
            d@.len() == i,
            cross_entropy_derivative_computable(predictions@, targets@),
            exact_ops::<T>() ==> eps == eps_of::<T>(),
            exact_ops::<T>() ==> forall|k: int|
                0 <= k < i ==> d@[k] == cross_entropy_slope(predictions@[k], targets@[k]),
        decreases predictions@.len() - i,
    {
        proof {
            if !total_ops::<T>() {
                assert(cross_entropy_slope_fits(predictions@[i as int], targets@[i as int]));
            }
        }
        let p = raise_to(predictions[i], eps);
        d.push(negate(targets[i]) / p);
        i = i + 1;
    }
    d
}

/// The per-sample derivative of binary cross-entropy:
/// `-t[i] / clamp(p[i], eps, 1 - eps) + (1 - t[i]) / max(1 - p[i], eps)` for each pair.
pub fn binary_cross_entropy_derivative<T: Number>(predictions: &[T], targets: &[T]) -> (d:
    Vec<T>)
    requires
        predictions@.len() == targets@.len(),
        binary_cross_entropy_derivative_computable(predictions@, targets@),
    ensures
        d@.len() == predictions@.len(),
        exact_ops::<T>() ==> forall|i: int|
            0 <= i < d@.len() ==> d@[i] == binary_cross_entropy_slope(
                predictions@[i],
                targets@[i],
            ),
{
    let eps = clamp_epsilon::<T>();
    let one = T::one();
    let hi = one - eps;
    let mut d: Vec<T> = Vec::new();
    let mut i: usize = 0;
    while i < predictions.len()
        invariant
            predictions@.len() == targets@.len(),
            i <= predictions@.len(),
            d@.len() == i,
            binary_cross_entropy_derivative_computable(predictions@, targets@),
            exact_ops::<T>() ==> eps == eps_of::<T>(),
            exact_ops::<T>() ==> one == one_of::<T>(),
            exact_ops::<T>() ==> hi == one_of::<T>().sub_spec(eps_of::<T>()),
            exact_ops::<T>() ==> forall|k: int|
                0 <= k < i ==> d@[k] == binary_cross_entropy_slope(
                    predictions@[k],
                    targets@[k],
                ),
        decreases predictions@.len() - i,
    {
        proof {
            if !total_ops::<T>() {
                assert(binary_cross_entropy_slope_fits(predictions@[i as int], targets@[i as int]));
            }
        }
        let t = targets[i];
        let p = clamp_into(predictions[i], eps, hi);
        let one_minus_p = raise_to(one - predictions[i], eps);
        d.push(negate(t / p) + (one - t) / one_minus_p);
        i = i + 1;
    }
    d
}

/// The loss functions.
pub enum Loss {
    MeanSquaredError,
    CrossEntropy,
    BinaryCrossEntropy,
}

/// The inputs on which `Loss::forward` is defined: two equally long, non-empty sequences, and
/// exactly one pair for binary cross-entropy.
pub open spec fn loss_inputs_valid<T>(kind: Loss, predictions: Seq<T>, targets: Seq<T>) -> bool {
    match kind {
        Loss::BinaryCrossEntropy => predictions.len() == 1 && targets.len() == 1,
        _ => predictions.len() == targets.len() && predictions.len() > 0,
    }
}

impl Loss {
    /// The loss value: the averaged mean squared error or cross-entropy, or the binary
    /// cross-entropy of the single prediction/target pair.
    pub fn forward<T: Number + Float>(&self, predictions: &[T], targets: &[T]) -> (r: T)
        requires
            loss_inputs_valid(*self, predictions@, targets@),
            total_ops::<T>(),
        ensures
            match *self {
                Loss::MeanSquaredError => call_ensures(
                    mean_squared_error::<T>,
                    (predictions, targets),
                    r,
                ),
                Loss::CrossEntropy => call_ensures(cross_entropy_loss::<T>, (predictions, targets), r),
                Loss::BinaryCrossEntropy => call_ensures(
                    binary_cross_entropy_loss::<T>,
                    (predictions[0], targets[0]),
                    r,
                ),
            },
            (*self is MeanSquaredError && exact_ops::<T>()) ==> r == mse_spec(
                predictions@,
                targets@,
            ),
    {
        match self {
            Loss::MeanSquaredError => mean_squared_error(predictions, targets),
            Loss::CrossEntropy => cross_entropy_loss(predictions, targets),
            Loss::BinaryCrossEntropy => binary_cross_entropy_loss(predictions[0], targets[0]),
        }
    }

    /// The derivative of the loss with respect to each prediction, per sample (not averaged).
    pub fn derivative<T: Number>(&self, predictions: &[T], targets: &[T]) -> (d: Vec<T>)
        requires
            predictions@.len() == targets@.len(),
            match *self {
                Loss::MeanSquaredError => mse_derivative_computable(predictions@, targets@),
                Loss::CrossEntropy => cross_entropy_derivative_computable(predictions@, targets@),
                Loss::BinaryCrossEntropy => binary_cross_entropy_derivative_computable(
                    predictions@,
                    targets@,
                ),
            },
        ensures
            d@.len() == predictions@.len(),
            match *self {
                Loss::MeanSquaredError => call_ensures(mse_derivative::<T>, (predictions, targets), d),
                Loss::CrossEntropy => call_ensures(
                    cross_entropy_derivative::<T>,
                    (predictions, targets),
                    d,
                ),
                Loss::BinaryCrossEntropy => call_ensures(
                    binary_cross_entropy_derivative::<T>,
                    (predictions, targets),
                    d,
                ),
            },
            exact_ops::<T>() ==> forall|i: int|
                #![trigger d@[i]]
                0 <= i < d@.len() ==> d@[i] == match *self {
                    Loss::MeanSquaredError => mse_slope(predictions@[i], targets@[i]),
                    Loss::CrossEntropy => cross_entropy_slope(predictions@[i], targets@[i]),
                    Loss::BinaryCrossEntropy => binary_cross_entropy_slope(
                        predictions@[i],
                        targets@[i],
                    ),
                },
    {
        match self {
            Loss::MeanSquaredError => mse_derivative(predictions, targets),
            Loss::CrossEntropy => cross_entropy_derivative(predictions, targets),
            Loss::BinaryCrossEntropy => binary_cross_entropy_derivative(predictions, targets),
        }
    }
}

} // verus!
