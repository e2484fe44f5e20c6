use neuralnet::activation_fn::Activation;
use neuralnet::back_propagation::{backprop_step, backward_pass_1d, forward_train};
use neuralnet::layers::Layer1D;
use neuralnet::loss_fn::Loss;

#[test]
fn backprop_step_exact_on_integers() {
    let mut layer = Layer1D::<i32, 1, 2>::new([[1, 2]], [0]);
    let upstream = backprop_step(&mut layer, &[3], &[2], &[1, -1], 1);
    // local error 3 * 2 = 6; weight gradients [6, -6]; error handed back uses the old weights
    assert_eq!(layer.weights, [[-5, 8]]);
    assert_eq!(layer.biases, [-6]);
    assert_eq!(upstream, [6, 12]);
}

#[test]
fn backprop_step_sums_over_outputs() {
    let mut layer = Layer1D::<i64, 2, 1>::new([[2], [5]], [1, 1]);
    let upstream = backprop_step(&mut layer, &[1, -1], &[1, 1], &[0], 3);
    assert_eq!(layer.weights, [[2], [5]]);
    assert_eq!(layer.biases, [-2, 4]);
    assert_eq!(upstream, [2 - 5]);
}

#[test]
fn forward_train_records_inputs_and_pre_activations() {
    let layers = vec![
        Layer1D::<f64, 2, 2>::new([[1.0, 0.0], [0.0, -1.0]], [0.0, 0.0]),
        Layer1D::<f64, 2, 2>::new([[2.0, 0.0], [0.0, 2.0]], [1.0, 1.0]),
    ];
    let (records, out) = forward_train(&layers, &Activation::ReLU, &[3.0, 4.0]);
    assert_eq!(records.len(), 2);
    assert_eq!(records[0].input, [3.0, 4.0]);
    assert_eq!(records[0].pre_activation, [3.0, -4.0]);
    assert_eq!(records[1].input, [3.0, 0.0]);
    assert_eq!(records[1].pre_activation, [7.0, 1.0]);
    assert_eq!(out, [7.0, 1.0]);
}

#[test]
fn backward_pass_single_layer() {
    let mut layers = vec![Layer1D::<f64, 1, 1>::new([[2.0]], [0.0])];
    let (records, out) = forward_train(&layers, &Activation::ReLU, &[1.0]);
    assert_eq!(out, [2.0]);
    backward_pass_1d(
        &mut layers,
        &records,
        &Activation::ReLU,
        Loss::MeanSquaredError,
        &out,
        &[1.0],
        0.5,
    );
    // dL/dy = 2 * (2 - 1) = 2, relu' = 1, so both parameters move by 0.5 * 2
    assert_eq!(layers[0].weights, [[1.0]]);
    assert_eq!(layers[0].biases, [-1.0]);
}

#[test]
fn backward_pass_chains_through_two_layers() {
    let mut layers = vec![
        Layer1D::<f64, 1, 1>::new([[1.0]], [0.0]),
        Layer1D::<f64, 1, 1>::new([[3.0]], [0.0]),
    ];
    let (records, out) = forward_train(&layers, &Activation::ReLU, &[2.0]);
    assert_eq!(out, [6.0]);
    backward_pass_1d(
        &mut layers,
        &records,
        &Activation::ReLU,
        Loss::MeanSquaredError,
        &out,
        &[5.0],
        0.1,
    );
    // output layer: error 2 * (6 - 5) = 2, input 2 => w = 3 - 0.1 * 4, b = -0.2
    assert!((layers[1].weights[0][0] - 2.6).abs() < 1e-12);
    assert!((layers[1].biases[0] + 0.2).abs() < 1e-12);
    // first layer: error 2 * 3 (old weight) = 6, input 2 => w = 1 - 0.1 * 12, b = -0.6
    assert!((layers[0].weights[0][0] + 0.2).abs() < 1e-12);
    assert!((layers[0].biases[0] + 0.6).abs() < 1e-12);
}
