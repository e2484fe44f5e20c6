//! Forward passes of the two layer shapes.
use vstd::prelude::*;
use crate::layers::{Layer1D, Layer2D};
use crate::numbers::{exact_ops, integer_zero, total_ops, zero_of, Number};
use vstd::std_specs::ops::{AddSpec, MulSpec};

verus! {

/// `bias + input[0]*row[0] + ... + input[k-1]*row[k-1]`, accumulated left to right.
pub open spec fn affine_sum<T: Number>(bias: T, input: Seq<T>, row: Seq<T>, k: int) -> T
    decreases k,
{
    if k <= 0 {
        bias
    } else {
        affine_sum(bias, input, row, k - 1).add_spec(input[k - 1].mul_spec(row[k - 1]))
    }
}

/// Each product and each running sum of `affine_sum(bias, input, row, k)` is defined.
pub open spec fn affine_fits<T: Number>(bias: T, input: Seq<T>, row: Seq<T>, k: int) -> bool {
    forall|j: int|
        0 <= j < k ==> {
            &&& input[j].mul_req(row[j])
            &&& #[trigger] affine_sum(bias, input, row, j).add_req(input[j].mul_spec(row[j]))
        }
}

/// The number of leading positions that a window of `size` entries shares with an input of
/// length `len`.
pub open spec fn overlap(len: int, size: int) -> int {
    if len < size {
        len
    } else {
        size
    }
}

/// What `dense_linear` needs of the scalar type: operators that never trap, or exact operators
/// under which no intermediate result overflows.
pub open spec fn dense_computable<T: Number, const OUT: usize, const IN: usize>(
    inputs: [T; IN],
    layer: Layer1D<T, OUT, IN>,
) -> bool {
    total_ops::<T>() || (exact_ops::<T>() && forall|i: int|
        0 <= i < OUT ==> #[trigger] affine_fits(
            layer.biases[i],
            inputs@,
            layer.weights[i]@,
            IN as int,
        ))
}

/// What `dense_conv2d` needs of the scalar type, as for `dense_computable` over the window.
pub open spec fn window_computable<T: Number, const IN: usize, const OUT: usize, const FILTER_SIZE: usize>(
    inputs: [T; IN],
    layer: Layer2D<T, OUT, FILTER_SIZE>,
) -> bool {
    total_ops::<T>() || (exact_ops::<T>() && forall|i: int|
        0 <= i < OUT ==> #[trigger] affine_fits(
            layer.biases[i],
            inputs@,
            layer.filters[i]@,
            overlap(IN as int, FILTER_SIZE as int),
        ))
}

/// Over a row of zeros, every step of `affine_sum` is defined and the sum stays at the bias.
proof fn lemma_affine_sum_zero_row<T: Number>(bias: T, input: Seq<T>, row: Seq<T>, k: int)
    requires
        integer_zero::<T>(),
        0 <= k,
        forall|j: int| 0 <= j < k ==> row[j] == zero_of::<T>(),
    ensures
        affine_sum(bias, input, row, k) == bias,
        affine_fits(bias, input, row, k),
    decreases k,
{
    if k > 0 {
        lemma_affine_sum_zero_row(bias, input, row, k - 1);
        assert(input[k - 1].mul_spec(zero_of::<T>()) == zero_of::<T>());
    }
}

/// A dense layer whose weights are all zero: the forward pass is defined on every input and
/// returns exactly the biases.
pub proof fn law_zero_weights_give_biases<T: Number, const OUT: usize, const IN: usize>(
    layer: Layer1D<T, OUT, IN>,
    inputs: [T; IN],
)
    requires
        integer_zero::<T>(),
        forall|i: int, j: int|
            0 <= i < OUT && 0 <= j < IN ==> layer.weights[i][j] == zero_of::<T>(),
    ensures
        dense_computable(inputs, layer),
        forall|i: int|
            0 <= i < OUT ==> affine_sum(layer.biases[i], inputs@, layer.weights[i]@, IN as int)
                == layer.biases[i],
{
    assert forall|i: int| #![trigger layer.weights[i]] 0 <= i < OUT implies {
        &&& affine_fits(layer.biases[i], inputs@, layer.weights[i]@, IN as int)
        &&& affine_sum(layer.biases[i], inputs@, layer.weights[i]@, IN as int) == layer.biases[i]
    } by {
        assert forall|j: int| 0 <= j < IN implies layer.weights[i]@[j] == zero_of::<T>() by {
            assert(layer.weights[i][j] == zero_of::<T>());
        }
        lemma_affine_sum_zero_row(layer.biases[i], inputs@, layer.weights[i]@, IN as int);
    }
}

/// Accumulates `acc + inputs[j] * row[j]` for `j` in `0..k`, starting from `bias`.
fn accumulate<T: Number, const IN: usize, const W: usize>(
    bias: T,
    inputs: &[T; IN],
    row: &[T; W],
    k: usize,
) -> (r: T)
    requires
        k <= IN,
        k <= W,
        total_ops::<T>() || (exact_ops::<T>() && affine_fits(bias, inputs@, row@, k as int)),
    ensures
        exact_ops::<T>() ==> r == affine_sum(bias, inputs@, row@, k as int),
{
    let mut acc = bias;
    let mut j: usize = 0;
    while j < k
        invariant
            j <= k,
            k <= IN,
            k <= W,
            total_ops::<T>() || (exact_ops::<T>() && affine_fits(bias, inputs@, row@, k as int)),
            exact_ops::<T>() ==> acc == affine_sum(bias, inputs@, row@, j as int),
        decreases k - j,
    {
        let x = inputs[j];
        let w = row[j];
        proof {
            if !total_ops::<T>() {
                assert(affine_sum(bias, inputs@, row@, j as int).add_req(
                    inputs@[j as int].mul_spec(row@[j as int]),
                ));
            }
        }
        let p = x * w;
        acc = acc + p;
        j = j + 1;
    }
    acc
}

/// Dense (fully connected) forward pass:
/// `outputs[i] = biases[i] + sum over j of inputs[j] * weights[i][j]`.
pub fn dense_linear<T: Number, const IN: usize, const OUT: usize>(
    inputs: &[T; IN],
    layer: &Layer1D<T, OUT, IN>,
) -> (outputs: [T; OUT])
    requires
        dense_computable(*inputs, *layer),
    ensures
        exact_ops::<T>() ==> forall|i: int|
            0 <= i < OUT ==> outputs[i] == affine_sum(
                layer.biases[i],
                inputs@,
                layer.weights[i]@,
                IN as int,
            ),
{
    let mut outputs = [T::zero();OUT];
    let mut i: usize = 0;
    while i < OUT
        invariant
            i <= OUT,
            dense_computable(*inputs, *layer),
            exact_ops::<T>() ==> forall|k: int|
                0 <= k < i ==> outputs[k] == affine_sum(
                    layer.biases[k],
                    inputs@,
                    layer.weights[k]@,
                    IN as int,
                ),
        decreases OUT - i,
    {
        proof {
            if !total_ops::<T>() {
                assert(affine_fits(layer.biases[i as int], inputs@, layer.weights[i as int]@, IN as int));
            }
        }
        let v = accumulate(layer.biases[i], inputs, &layer.weights[i], IN);
        outputs[i] = v;
        i = i + 1;
    }
    outputs
}

/// Windowed forward pass: a single window aligned at position 0,
/// `outputs[i] = biases[i] + sum over j < min(IN, FILTER_SIZE) of inputs[j] * filters[i][j]`.
/// Filter positions past the end of the input contribute nothing.
pub fn dense_conv2d<T: Number, const IN: usize, const OUT: usize, const FILTER_SIZE: usize>(
    inputs: &[T; IN],
    layer: &Layer2D<T, OUT, FILTER_SIZE>,
) -> (outputs: [T; OUT])
    requires
        window_computable(*inputs, *layer),
    ensures
        exact_ops::<T>() ==> forall|i: int|
            0 <= i < OUT ==> outputs[i] == affine_sum(
                layer.biases[i],
                inputs@,
                layer.filters[i]@,
                overlap(IN as int, FILTER_SIZE as int),
            ),
{
    let span: usize = if IN < FILTER_SIZE {
        IN
    } else {
        FILTER_SIZE
    };
    let mut outputs = [T::zero();OUT];
    let mut i: usize = 0;
    while i < OUT
        invariant
            i <= OUT,
            span == overlap(IN as int, FILTER_SIZE as int),
            window_computable(*inputs, *layer),
            exact_ops::<T>() ==> forall|k: int|
                0 <= k < i ==> outputs[k] == affine_sum(
                    layer.biases[k],
                    inputs@,
                    layer.filters[k]@,
                    overlap(IN as int, FILTER_SIZE as int),
                ),
        decreases OUT - i,
    {
        proof {
            if !total_ops::<T>() {
                assert(affine_fits(
                    layer.biases[i as int],
                    inputs@,
                    layer.filters[i as int]@,
                    span as int,
                ));
            }
        }
        let v = accumulate(layer.biases[i], inputs, &layer.filters[i], span);
        outputs[i] = v;
        i = i + 1;
    }
    outputs
}

} // verus!
