//! One training step across a sequence of dense layers: a training-mode forward pass that records
//! each layer's input and pre-activation output, and chain-rule backpropagation over the records.
use vstd::prelude::*;
use num_traits::Float;
use crate::activation_fn::Activation;
use crate::layers::{descend, descend_fits, update_fits, Layer1D};
use crate::loss_fn::Loss;
use crate::numbers::{exact_ops, total_ops, zero_of, Number};
use vstd::std_specs::convert::FromSpec;
use vstd::std_specs::ops::{AddSpec, MulSpec};

verus! {

/// What a training-mode forward pass records for one layer: the input it received and its
/// output before the activation.
pub struct LayerRecord<T: Number, const N: usize> {
    pub input: [T; N],
    pub pre_activation: [T; N],
}

/// The local error signal of output `i`: downstream error times activation slope.
pub open spec fn local_error<T: Number>(error: Seq<T>, slopes: Seq<T>, i: int) -> T {
    error[i].mul_spec(slopes[i])
}

/// `local[0] * weights[0][j] + ... + local[k-1] * weights[k-1][j]`, accumulated from zero, with
/// `local[i] = local_error(error, slopes, i)`: the error that flows back to input `j`.
pub open spec fn back_sum<T: Number, const OUT: usize, const IN: usize>(
    error: Seq<T>,
    slopes: Seq<T>,
    weights: [[T; IN]; OUT],
    j: int,
    k: int,
) -> T
    decreases k,
{
    if k <= 0 {
        zero_of::<T>()
    } else {
        back_sum(error, slopes, weights, j, k - 1).add_spec(
            local_error(error, slopes, k - 1).mul_spec(weights[k - 1][j]),
        )
    }
}

/// Every product, sum and update step of `backprop_step` on these arguments is defined.
pub open spec fn step_fits<T: Number, const OUT: usize, const IN: usize>(
    layer: Layer1D<T, OUT, IN>,
    error: Seq<T>,
    slopes: Seq<T>,
    input: Seq<T>,
    learning_rate: T,
) -> bool {
    &&& forall|i: int| 0 <= i < OUT ==> #[trigger] error[i].mul_req(slopes[i])
    &&& forall|i: int|
        0 <= i < OUT ==> #[trigger] descend_fits(
            layer.biases[i],
            local_error(error, slopes, i),
            learning_rate,
        )
    &&& forall|i: int, j: int|
        #![trigger local_error(error, slopes, i), input[j]]
        0 <= i < OUT && 0 <= j < IN ==> {
            &&& local_error(error, slopes, i).mul_req(input[j])
            &&& descend_fits(
                layer.weights[i][j],
                local_error(error, slopes, i).mul_spec(input[j]),
                learning_rate,
            )
        }
    &&& forall|i: int, j: int|
        #![trigger back_sum(error, slopes, layer.weights, j, i)]
        0 <= i < OUT && 0 <= j < IN ==> {
            &&& local_error(error, slopes, i).mul_req(layer.weights[i][j])
            &&& back_sum(error, slopes, layer.weights, j, i).add_req(
                local_error(error, slopes, i).mul_spec(layer.weights[i][j]),
            )
        }
}

/// What `backprop_step` needs of the scalar type: operators that never trap, or exact operators
/// under which no step overflows.
pub open spec fn step_computable<T: Number, const OUT: usize, const IN: usize>(
    layer: Layer1D<T, OUT, IN>,
    error: Seq<T>,
    slopes: Seq<T>,
    input: Seq<T>,
    learning_rate: T,
) -> bool {
    total_ops::<T>() || (exact_ops::<T>() && step_fits(layer, error, slopes, input, learning_rate))
}

/// One chain-rule step on a single layer. With `local[i] = error[i] * slopes[i]`, where
/// `slopes[i]` is the activation derivative at the layer's pre-activation output `i`:
/// the weight gradient is `local[i] * input[j]`, the bias gradient is `local[i]`, the layer takes
/// one gradient-descent step, and the error returned for the previous layer is
/// `sum over i of local[i] * weights[i][j]` under the weights before the update.
pub fn backprop_step<T: Number, const OUT: usize, const IN: usize>(
    layer: &mut Layer1D<T, OUT, IN>,
    error: &[T; OUT],
    slopes: &[T; OUT],
    input: &[T; IN],
    learning_rate: T,
) -> (upstream: [T; IN])
    requires
        step_computable(*old(layer), error@, slopes@, input@, learning_rate),
    ensures
        exact_ops::<T>() ==> forall|i: int|
            0 <= i < OUT ==> final(layer).biases[i] == descend(
                old(layer).biases[i],
                local_error(error@, slopes@, i),
                learning_rate,
            ),
        exact_ops::<T>() ==> forall|i: int, j: int|
            0 <= i < OUT && 0 <= j < IN ==> final(layer).weights[i][j] == descend(
                old(layer).weights[i][j],
                local_error(error@, slopes@, i).mul_spec(input[j]),
                learning_rate,
            ),
        exact_ops::<T>() ==> forall|j: int|
            0 <= j < IN ==> upstream[j] == back_sum(
                error@,
                slopes@,
                old(layer).weights,
                j,
                OUT as int,
            ),
{
    let ghost start = *layer;
    let zero = T::zero();
    let mut local = [zero;OUT];
    let mut i: usize = 0;
    while i < OUT
        invariant
            i <= OUT,
            step_computable(start, error@, slopes@, input@, learning_rate),
            exact_ops::<T>() ==> forall|k: int|
                0 <= k < i ==> local[k] == local_error(error@, slopes@, k),
        decreases OUT - i,
    {
        proof {
            if !total_ops::<T>() {
                assert(error@[i as int].mul_req(slopes@[i as int]));
            }
        }
        local[i] = error[i] * slopes[i];
        i = i + 1;
    }
    let mut weight_grads = [[zero;IN];OUT];
    i = 0;
    while i < OUT
        invariant
            i <= OUT,
            step_computable(start, error@, slopes@, input@, learning_rate),
            exact_ops::<T>() ==> forall|k: int|
                0 <= k < OUT ==> local[k] == local_error(error@, slopes@, k),
            exact_ops::<T>() ==> forall|k: int, j: int|
                0 <= k < i && 0 <= j < IN ==> weight_grads[k][j] == local_error(
                    error@,
                    slopes@,
                    k,
                ).mul_spec(input[j]),
        decreases OUT - i,
    {
        let mut row = [zero;IN];
        let mut j: usize = 0;
        while j < IN
            invariant
                i < OUT,
                j <= IN,
                step_computable(start, error@, slopes@, input@, learning_rate),
                exact_ops::<T>() ==> forall|k: int|
                    0 <= k < OUT ==> local[k] == local_error(error@, slopes@, k),
                exact_ops::<T>() ==> forall|m: int|
                    0 <= m < j ==> row[m] == local_error(error@, slopes@, i as int).mul_spec(
                        input[m],
                    ),
            decreases IN - j,
        {
            proof {
                if !total_ops::<T>() {
                    let l = local_error(error@, slopes@, i as int);
                    assert(l.mul_req(input@[j as int]) && descend_fits(
                        start.weights[i as int][j as int],
                        l.mul_spec(input@[j as int]),
                        learning_rate,
                    ));
                }
            }
            row[j] = local[i] * input[j];
            j = j + 1;
        }
        weight_grads[i] = row;
        i = i + 1;
    }
    let mut upstream = [zero;IN];
    let mut j: usize = 0;
    while j < IN
        invariant
            j <= IN,
            *layer == start,
            <T as FromSpec<i8>>::obeys_from_spec() ==> zero == zero_of::<T>(),
            step_computable(start, error@, slopes@, input@, learning_rate),
            exact_ops::<T>() ==> forall|k: int|
                0 <= k < OUT ==> local[k] == local_error(error@, slopes@, k),
            exact_ops::<T>() ==> forall|m: int|
                0 <= m < j ==> upstream[m] == back_sum(
                    error@,
                    slopes@,
                    start.weights,
                    m,
                    OUT as int,
                ),
        decreases IN - j,
    {
        let mut acc = zero;
        let mut k: usize = 0;
        while k < OUT
            invariant
                j < IN,
                k <= OUT,
                *layer == start,
                step_computable(start, error@, slopes@, input@, learning_rate),
                exact_ops::<T>() ==> forall|m: int|
                    0 <= m < OUT ==> local[m] == local_error(error@, slopes@, m),
                exact_ops::<T>() ==> acc == back_sum(
                    error@,
                    slopes@,
                    start.weights,
                    j as int,
                    k as int,
                ),
            decreases OUT - k,
        {
            proof {
                if !total_ops::<T>() {
                    assert(back_sum(error@, slopes@, start.weights, j as int, k as int).add_req(
                        local_error(error@, slopes@, k as int).mul_spec(
                            start.weights[k as int][j as int],
                        ),
                    ));
                }
            }
            acc = acc + local[k] * layer.weights[k][j];
            k = k + 1;
        }
        upstream[j] = acc;
        j = j + 1;
    }
    proof {
        if !total_ops::<T>() {
            assert forall|a: int|
                0 <= a < OUT implies #[trigger] descend_fits(
                start.biases[a],
                local[a],
                learning_rate,
            ) by {
                assert(descend_fits(
                    start.biases[a],
                    local_error(error@, slopes@, a),
                    learning_rate,
                ));
            }
            assert forall|a: int, b: int|
                0 <= a < OUT && 0 <= b < IN implies #[trigger] descend_fits(
                start.weights[a][b],
                weight_grads[a][b],
                learning_rate,
            ) by {
                assert(descend_fits(
                    start.weights[a][b],
                    local_error(error@, slopes@, a).mul_spec(input[b]),
                    learning_rate,
                ));
            }
            assert(update_fits(start, weight_grads, local, learning_rate));
        }
    }
    layer.update_weights(&weight_grads, &local, learning_rate);
    upstream
}

/// Training-mode forward pass through `layers`, each followed by `activation`. Records, for each
/// layer, its input and its pre-activation output, and returns the records with the final
/// (activated) output.
pub fn forward_train<T: Number + Float, const N: usize>(
    layers: &Vec<Layer1D<T, N, N>>,
    activation: &Activation,
    input: &[T; N],
) -> (r: (Vec<LayerRecord<T, N>>, [T; N]))
    requires
        total_ops::<T>(),
    ensures
        r.0@.len() == layers@.len(),
        layers@.len() > 0 ==> r.0@[0].input == *input,
        layers@.len() == 0 ==> r.1 == *input,
        forall|l: int|
            0 <= l < layers@.len() ==> call_ensures(
                Layer1D::<T, N, N>::forward,
                (&layers@[l], &r.0@[l].input),
                #[trigger] r.0@[l].pre_activation,
            ),
        forall|l: int|
            0 <= l < layers@.len() - 1 ==> call_ensures(
                Activation::forward::<T, N>,
                (activation, &r.0@[l].pre_activation),
                #[trigger] r.0@[l + 1].input,
            ),
        layers@.len() > 0 ==> call_ensures(
            Activation::forward::<T, N>,
            (activation, &r.0@[layers@.len() - 1].pre_activation),
            r.1,
        ),
{
    let mut records: Vec<LayerRecord<T, N>> = Vec::new();
    let mut x = *input;
    let mut l: usize = 0;
    while l < layers.len()
        invariant
            l <= layers@.len(),
            records@.len() == l,
            total_ops::<T>(),
            l > 0 ==> records@[0].input == *input,
            l == 0 ==> x == *input,
            forall|m: int|
                0 <= m < l ==> call_ensures(
                    Layer1D::<T, N, N>::forward,
                    (&layers@[m], &records@[m].input),
                    #[trigger] records@[m].pre_activation,
                ),
            forall|m: int|
                0 <= m < l - 1 ==> call_ensures(
                    Activation::forward::<T, N>,
                    (activation, &records@[m].pre_activation),
                    #[trigger] records@[m + 1].input,
                ),
            l > 0 ==> call_ensures(
                Activation::forward::<T, N>,
                (activation, &records@[l - 1].pre_activation),
                x,
            ),
        decreases layers@.len() - l,
    {
        let z = layers[l].forward(&x);
        records.push(LayerRecord { input: x, pre_activation: z });
        x = activation.forward(&z);
        l = l + 1;
    }
    (records, x)
}

/// What `backprop_step` does to one layer: `after` is `before` moved one gradient-descent step,
/// and `upstream` is the error handed back through the weights before the update.
pub open spec fn step_result<T: Number, const OUT: usize, const IN: usize>(
    before: Layer1D<T, OUT, IN>,
    after: Layer1D<T, OUT, IN>,
    error: Seq<T>,
    slopes: Seq<T>,
    input: Seq<T>,
    learning_rate: T,
    upstream: Seq<T>,
) -> bool {
    &&& forall|i: int|
        0 <= i < OUT ==> #[trigger] after.biases[i] == descend(
            before.biases[i],
            local_error(error, slopes, i),
            learning_rate,
        )
    &&& forall|i: int, j: int|
        0 <= i < OUT && 0 <= j < IN ==> #[trigger] after.weights[i][j] == descend(
            before.weights[i][j],
            local_error(error, slopes, i).mul_spec(input[j]),
            learning_rate,
        )
    &&& forall|j: int|
        0 <= j < IN ==> #[trigger] upstream[j] == back_sum(
            error,
            slopes,
            before.weights,
            j,
            OUT as int,
        )
}

/// One backward pass over `before` (giving `after`), witnessed by the error vectors and the
/// activation slopes it used: `errors[n]` is the loss `gradient` at the output, `slopes[l]` holds
/// the activation derivatives at layer `l`'s recorded pre-activation output, and layer `l` takes
/// the `backprop_step` from `errors[l + 1]`, handing back `errors[l]`.
pub open spec fn backward_trace<T: Number + Float, const N: usize>(
    before: Seq<Layer1D<T, N, N>>,
    after: Seq<Layer1D<T, N, N>>,
    records: Seq<LayerRecord<T, N>>,
    activation: Activation,
    gradient: Seq<T>,
    errors: Seq<[T; N]>,
    slopes: Seq<[T; N]>,
    learning_rate: T,
) -> bool {
    let n = before.len();
    &&& after.len() == n
    &&& errors.len() == n + 1
    &&& slopes.len() == n
    &&& forall|k: int| 0 <= k < N ==> #[trigger] errors[n as int][k] == gradient[k]
    &&& forall|l: int, k: int|
        0 <= l < n && 0 <= k < N ==> call_ensures(
            Activation::derivative::<T>,
            (&activation, records[l].pre_activation[k]),
            #[trigger] slopes[l][k],
        )
    &&& forall|l: int|
        0 <= l < n ==> #[trigger] step_result(
            before[l],
            after[l],
            errors[l + 1]@,
            slopes[l]@,
            records[l].input@,
            learning_rate,
            errors[l]@,
        )
}

/// One training step by chain-rule backpropagation. The loss derivative of `predictions`
/// against `targets` is the error at the output; then, for each layer from the last to the
/// first, `backprop_step` forms the local error with the activation derivatives at that layer's
/// recorded pre-activation output, updates the layer from its recorded input, and hands the
/// error back to the layer before it.
pub fn backward_pass_1d<T: Number + Float, const N: usize>(
    layers: &mut Vec<Layer1D<T, N, N>>,
    records: &Vec<LayerRecord<T, N>>,
    activation: &Activation,
    loss_fn: Loss,
    predictions: &[T],
    targets: &[T],
    lr: T,
)
    requires
        old(layers)@.len() == records@.len(),
        predictions@.len() == N,
        targets@.len() == N,
        total_ops::<T>(),
    ensures
        final(layers)@.len() == old(layers)@.len(),
        exact_ops::<T>() ==> exists|gradient: Vec<T>, errors: Seq<[T; N]>, slopes: Seq<[T; N]>|
            call_ensures(Loss::derivative::<T>, (&loss_fn, predictions, targets), gradient)
                && #[trigger] backward_trace(
                old(layers)@,
                final(layers)@,
                records@,
                *activation,
                gradient@,
                errors,
                slopes,
                lr,
            ),
{
    let ghost before = layers@;
    let gradients = loss_fn.derivative(predictions, targets);
    let zero = <T as Number>::zero();
    let mut error = [zero;N];
    let mut i: usize = 0;
    while i < N
        invariant
            i <= N,
            gradients@.len() == N,
            forall|k: int| 0 <= k < i ==> error[k] == gradients@[k],
        decreases N - i,
    {
        error[i] = gradients[i];
        i = i + 1;
    }
    let ghost count = layers@.len();
    let ghost mut errs: Seq<[T; N]> = Seq::new((count + 1) as nat, |m: int| error);
    let ghost mut sl: Seq<[T; N]> = Seq::new(count as nat, |m: int| error);
    let mut l = layers.len();
    while l > 0
        invariant
            l <= layers@.len(),
            layers@.len() == count,
            records@.len() == count,
            before.len() == count,
            total_ops::<T>(),
            errs.len() == count + 1,
            sl.len() == count,
            error == errs[l as int],
            gradients@.len() == N,
            forall|k: int| 0 <= k < N ==> #[trigger] errs[count as int][k] == gradients@[k],
            forall|m: int| 0 <= m < l ==> layers@[m] == before[m],
            forall|m: int, k: int|
                l <= m < count && 0 <= k < N ==> call_ensures(
                    Activation::derivative::<T>,
                    (activation, records@[m].pre_activation[k]),
                    #[trigger] sl[m][k],
                ),
            exact_ops::<T>() ==> forall|m: int|
                l <= m < count ==> #[trigger] step_result(
                    before[m],
                    layers@[m],
                    errs[m + 1]@,
                    sl[m]@,
                    records@[m].input@,
                    lr,
                    errs[m]@,
                ),
        decreases l,
    {
        l = l - 1;
        let record = &records[l];
        let mut slopes = [zero;N];
        let mut k: usize = 0;
        while k < N
            invariant
                k <= N,
                l < count,
                records@.len() == count,
                *record == records@[l as int],
                total_ops::<T>(),
                forall|c: int|
                    0 <= c < k ==> call_ensures(
                        Activation::derivative::<T>,
                        (activation, records@[l as int].pre_activation[c]),
                        #[trigger] slopes[c],
                    ),
            decreases N - k,
        {
            slopes[k] = activation.derivative(record.pre_activation[k]);
            k = k + 1;
        }
        let ghost at = layers@[l as int];
        let upstream = backprop_step(&mut layers[l], &error, &slopes, &record.input, lr);
        proof {
            assert(exact_ops::<T>() ==> step_result(
                at,
                layers@[l as int],
                errs[l + 1]@,
                slopes@,
                records@[l as int].input@,
                lr,
                upstream@,
            ));
            errs = errs.update(l as int, upstream);
            sl = sl.update(l as int, slopes);
        }
        error = upstream;
    }
    proof {
        assert(backward_trace(before, layers@, records@, *activation, gradients@, errs, sl, lr)
            || !exact_ops::<T>());
    }
}

} // verus!
