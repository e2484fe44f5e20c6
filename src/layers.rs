//! The two layer shapes, their in-place gradient-descent update and their construction helpers.
use vstd::prelude::*;
use crate::forward_propagation::{
    affine_sum,
    dense_computable,
    dense_conv2d,
    dense_linear,
    overlap,
    window_computable,
};
use crate::numbers::{exact_ops, integer_zero, total_ops, zero_of, Number};
use vstd::std_specs::convert::FromSpec;
use vstd::std_specs::ops::{MulSpec, SubSpec};

verus! {

/// Fully connected layer with `OUT` outputs and `IN` inputs.
/// `weights[i][j]` is the weight from input `j` to output `i`.
pub struct Layer1D<T: Number, const OUT: usize, const IN: usize> {
    pub weights: [[T; IN]; OUT],
    pub biases: [T; OUT],
}

/// Windowed layer: `FILTERS` filters of `FILTER_SIZE` weights each, one bias per filter.
pub struct Layer2D<T: Number, const FILTERS: usize, const FILTER_SIZE: usize> {
    pub filters: [[T; FILTER_SIZE]; FILTERS],
    pub biases: [T; FILTERS],
}

/// One gradient-descent step on a single parameter: `w - g * lr`.
pub open spec fn descend<T: Number>(w: T, g: T, lr: T) -> T {
    w.sub_spec(g.mul_spec(lr))
}

/// The step `descend(w, g, lr)` is defined.
pub open spec fn descend_fits<T: Number>(w: T, g: T, lr: T) -> bool {
    g.mul_req(lr) && w.sub_req(g.mul_spec(lr))
}

/// Every step of an update of `layer` by the given gradients is defined.
pub open spec fn update_fits<T: Number, const OUT: usize, const IN: usize>(
    layer: Layer1D<T, OUT, IN>,
    weight_grads: [[T; IN]; OUT],
    bias_grads: [T; OUT],
    learning_rate: T,
) -> bool {
    &&& forall|i: int|
        0 <= i < OUT ==> #[trigger] descend_fits(layer.biases[i], bias_grads[i], learning_rate)
    &&& forall|i: int, j: int|
        0 <= i < OUT && 0 <= j < IN ==> #[trigger] descend_fits(
            layer.weights[i][j],
            weight_grads[i][j],
            learning_rate,
        )
}

/// The value at flat position `k` of `values`, or `fill` past its end.
pub open spec fn filled<T>(values: Seq<T>, k: int, fill: T) -> T {
    if k < values.len() {
        values[k]
    } else {
        fill
    }
}

/// A step with a zero gradient or a zero learning rate is defined and leaves the value unchanged.
proof fn lemma_descend_without_step<T: Number>(w: T, g: T, lr: T)
    requires
        integer_zero::<T>(),
        g == zero_of::<T>() || lr == zero_of::<T>(),
    ensures
        descend_fits(w, g, lr),
        descend(w, g, lr) == w,
{
    if g == zero_of::<T>() {
        assert(zero_of::<T>().mul_spec(lr) == zero_of::<T>());
    } else {
        assert(g.mul_spec(zero_of::<T>()) == zero_of::<T>());
    }
    assert(w.sub_spec(zero_of::<T>()) == w);
}

/// An update with all-zero gradients, or with a zero learning rate, is defined and leaves every
/// weight and bias unchanged.
pub proof fn law_update_without_step<T: Number, const OUT: usize, const IN: usize>(
    layer: Layer1D<T, OUT, IN>,
    weight_grads: [[T; IN]; OUT],
    bias_grads: [T; OUT],
    learning_rate: T,
)
    requires
        integer_zero::<T>(),
        learning_rate == zero_of::<T>() || ((forall|i: int, j: int|
            0 <= i < OUT && 0 <= j < IN ==> weight_grads[i][j] == zero_of::<T>()) && (forall|i: int|
            0 <= i < OUT ==> bias_grads[i] == zero_of::<T>())),
    ensures
        update_fits(layer, weight_grads, bias_grads, learning_rate),
        forall|i: int|
            0 <= i < OUT ==> descend(layer.biases[i], bias_grads[i], learning_rate)
                == layer.biases[i],
        forall|i: int, j: int|
            0 <= i < OUT && 0 <= j < IN ==> descend(
                layer.weights[i][j],
                weight_grads[i][j],
                learning_rate,
            ) == layer.weights[i][j],
{
    assert forall|i: int| 0 <= i < OUT implies #[trigger] descend_fits(
        layer.biases[i],
        bias_grads[i],
        learning_rate,
    ) && descend(layer.biases[i], bias_grads[i], learning_rate) == layer.biases[i] by {
        lemma_descend_without_step(layer.biases[i], bias_grads[i], learning_rate);
    }
    assert forall|i: int, j: int| 0 <= i < OUT && 0 <= j < IN implies #[trigger] descend_fits(
        layer.weights[i][j],
        weight_grads[i][j],
        learning_rate,
    ) && descend(layer.weights[i][j], weight_grads[i][j], learning_rate) == layer.weights[i][j] by {
        lemma_descend_without_step(layer.weights[i][j], weight_grads[i][j], learning_rate);
    }
}

impl<T: Number, const OUT: usize, const IN: usize> Layer1D<T, OUT, IN> {
    /// A layer with the given weights and biases.
    pub fn new(weights: [[T; IN]; OUT], biases: [T; OUT]) -> (r: Self)
        ensures
            r.weights == weights,
            r.biases == biases,
    {
        Layer1D { weights, biases }
    }

    /// Forward pass: `outputs = biases + weights * inputs`.
    pub fn forward(&self, inputs: &[T; IN]) -> (outputs: [T; OUT])
        requires
            dense_computable(*inputs, *self),
        ensures
            exact_ops::<T>() ==> forall|i: int|
                0 <= i < OUT ==> outputs[i] == affine_sum(
                    self.biases[i],
                    inputs@,
                    self.weights[i]@,
                    IN as int,
                ),
    {
        dense_linear(inputs, self)
    }

    /// Gradient descent in place: `weights[i][j] -= weight_grads[i][j] * learning_rate` and
    /// `biases[i] -= bias_grads[i] * learning_rate`.
    pub fn update_weights(
        &mut self,
        weight_grads: &[[T; IN]; OUT],
        bias_grads: &[T; OUT],
        learning_rate: T,
    )
        requires
            total_ops::<T>() || (exact_ops::<T>() && update_fits(
                *old(self),
                *weight_grads,
                *bias_grads,
                learning_rate,
            )),
        ensures
            exact_ops::<T>() ==> forall|i: int|
                0 <= i < OUT ==> final(self).biases[i] == descend(
                    old(self).biases[i],
                    bias_grads[i],
                    learning_rate,
                ),
            exact_ops::<T>() ==> forall|i: int, j: int|
                0 <= i < OUT && 0 <= j < IN ==> final(self).weights[i][j] == descend(
                    old(self).weights[i][j],
                    weight_grads[i][j],
                    learning_rate,
                ),
    {
        let ghost start = *self;
        let mut i: usize = 0;
        while i < OUT
            invariant
                i <= OUT,
                total_ops::<T>() || (exact_ops::<T>() && update_fits(
                    start,
                    *weight_grads,
                    *bias_grads,
                    learning_rate,
                )),
                forall|k: int| i <= k < OUT ==> self.biases[k] == start.biases[k],
                forall|k: int| i <= k < OUT ==> self.weights[k] == start.weights[k],
                exact_ops::<T>() ==> forall|k: int|
                    0 <= k < i ==> self.biases[k] == descend(
                        start.biases[k],
                        bias_grads[k],
                        learning_rate,
                    ),
                exact_ops::<T>() ==> forall|k: int, j: int|
                    0 <= k < i && 0 <= j < IN ==> self.weights[k][j] == descend(
                        start.weights[k][j],
                        weight_grads[k][j],
                        learning_rate,
                    ),
            decreases OUT - i,
        {
            proof {
                if !total_ops::<T>() {
                    assert(descend_fits(start.biases[i as int], bias_grads[i as int], learning_rate));
                }
            }
            let step = bias_grads[i] * learning_rate;
            let b = self.biases[i] - step;
            self.biases[i] = b;
            let mut row = self.weights[i];
            let mut j: usize = 0;
            while j < IN
                invariant
                    i < OUT,
                    j <= IN,
                    total_ops::<T>() || (exact_ops::<T>() && update_fits(
                        start,
                        *weight_grads,
                        *bias_grads,
                        learning_rate,
                    )),
                    forall|m: int| j <= m < IN ==> row[m] == start.weights[i as int][m],
                    exact_ops::<T>() ==> forall|m: int|
                        0 <= m < j ==> row[m] == descend(
                            start.weights[i as int][m],
                            weight_grads[i as int][m],
                            learning_rate,
                        ),
                decreases IN - j,
            {
                proof {
                    if !total_ops::<T>() {
                        assert(descend_fits(
                            start.weights[i as int][j as int],
                            weight_grads[i as int][j as int],
                            learning_rate,
                        ));
                    }
                }
                let g = weight_grads[i][j] * learning_rate;
                let w = row[j] - g;
                row[j] = w;
                j = j + 1;
            }
            self.weights[i] = row;
            i = i + 1;
        }
    }
}

impl<T: Number, const FILTERS: usize, const FILTER_SIZE: usize> Layer2D<T, FILTERS, FILTER_SIZE> {
    /// Forward pass of the window over an input of `FILTER_SIZE` values.
    pub fn forward(&self, inputs: &[T; FILTER_SIZE]) -> (outputs: [T; FILTERS])
        requires
            window_computable(*inputs, *self),
        ensures
            exact_ops::<T>() ==> forall|i: int|
                0 <= i < FILTERS ==> outputs[i] == affine_sum(
                    self.biases[i],
                    inputs@,
                    self.filters[i]@,
                    FILTER_SIZE as int,
                ),
    {
        dense_conv2d(inputs, self)
    }
}

/// `matrix` holds `values` row-major, with `fill` past the end of `values`, and every bias is
/// `fill`.
pub open spec fn filled_from<T, const ROWS: usize, const COLS: usize>(
    matrix: [[T; COLS]; ROWS],
    biases: [T; ROWS],
    values: Seq<T>,
    fill: T,
) -> bool {
    &&& forall|i: int, j: int|
        0 <= i < ROWS && 0 <= j < COLS ==> #[trigger] matrix[i][j] == filled(
            values,
            i * COLS + j,
            fill,
        )
    &&& forall|i: int| 0 <= i < ROWS ==> #[trigger] biases[i] == fill
}

/// Fills a `ROWS` x `COLS` matrix row-major from `values`: position `(i, j)` takes
/// `values[i * COLS + j]`, or `fill` where `values` is too short. Surplus values are ignored.
fn fill_matrix<T: Copy, const ROWS: usize, const COLS: usize>(values: &[T], fill: T) -> (m: [[T;
    COLS]; ROWS])
    ensures
        forall|i: int, j: int|
            0 <= i < ROWS && 0 <= j < COLS ==> #[trigger] m[i][j] == filled(
                values@,
                i * COLS + j,
                fill,
            ),
{
    let mut m = [[fill;COLS];ROWS];
    let mut idx: usize = 0;
    let mut i: usize = 0;
    while i < ROWS
        invariant
            i <= ROWS,
            idx as int == overlap(values@.len() as int, i * COLS),
            forall|k: int, j: int|
                0 <= k < i && 0 <= j < COLS ==> #[trigger] m[k][j] == filled(
                    values@,
                    k * COLS + j,
                    fill,
                ),
        decreases ROWS - i,
    {
        let mut row = [fill;COLS];
        let mut j: usize = 0;
        while j < COLS
            invariant
                i < ROWS,
                j <= COLS,
                idx as int == overlap(values@.len() as int, i * COLS + j),
                forall|c: int| 0 <= c < j ==> #[trigger] row[c] == filled(values@, i * COLS + c, fill),
                forall|c: int| j <= c < COLS ==> #[trigger] row[c] == fill,
            decreases COLS - j,
        {
            if idx < values.len() {
                row[j] = values[idx];
                idx = idx + 1;
            }
            j = j + 1;
        }
        m[i] = row;
        proof {
            assert((i + 1) * COLS == i * COLS + COLS) by (nonlinear_arith);
        }
        i = i + 1;
    }
    m
}

/// A dense layer whose weight matrix is filled row-major from `values` (zero where `values` runs
/// out, surplus ignored), with all biases zero.
pub fn linear<T: Number, const N: usize, const IN: usize>(values: &[T]) -> (layer: Layer1D<T, N, IN>)
    ensures
        exists|z: T|
            call_ensures(<T as Number>::zero, (), z) && #[trigger] filled_from(
                layer.weights,
                layer.biases,
                values@,
                z,
            ),
        <T as FromSpec<i8>>::obeys_from_spec() ==> forall|i: int, j: int|
            0 <= i < N && 0 <= j < IN ==> #[trigger] layer.weights[i][j] == filled(
                values@,
                i * IN + j,
                zero_of::<T>(),
            ),
        <T as FromSpec<i8>>::obeys_from_spec() ==> forall|i: int|
            0 <= i < N ==> #[trigger] layer.biases[i] == zero_of::<T>(),
{
    let z = T::zero();
    let weights = fill_matrix::<T, N, IN>(values, z);
    let layer = Layer1D { weights, biases: [z;N] };
    assert(filled_from(layer.weights, layer.biases, values@, z));
    layer
}

/// A windowed layer whose filters are filled row-major from `values` under the same rule as
/// `linear`, with all biases zero.
pub fn conv2d<T: Number, const FILTERS: usize, const FILTER_SIZE: usize>(values: &[T]) -> (layer:
    Layer2D<T, FILTERS, FILTER_SIZE>)
    ensures
        exists|z: T|
            call_ensures(<T as Number>::zero, (), z) && #[trigger] filled_from(
                layer.filters,
                layer.biases,
                values@,
                z,
            ),
        <T as FromSpec<i8>>::obeys_from_spec() ==> forall|i: int, j: int|
            0 <= i < FILTERS && 0 <= j < FILTER_SIZE ==> #[trigger] layer.filters[i][j] == filled(
                values@,
                i * FILTER_SIZE + j,
                zero_of::<T>(),
            ),
        <T as FromSpec<i8>>::obeys_from_spec() ==> forall|i: int|
            0 <= i < FILTERS ==> #[trigger] layer.biases[i] == zero_of::<T>(),
{
    let z = T::zero();
    let filters = fill_matrix::<T, FILTERS, FILTER_SIZE>(values, z);
    let layer = Layer2D { filters, biases: [z;FILTERS] };
    assert(filled_from(layer.filters, layer.biases, values@, z));
    layer
}

} // verus!
