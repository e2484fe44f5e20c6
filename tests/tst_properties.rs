use neuralnet::activation_fn::{
    logistic_of_exp, logistic_slope, relu, relu_derivative, sigmoid, tanh, tanh_slope, Activation,
};
use neuralnet::forward_propagation::{dense_conv2d, dense_linear};
use neuralnet::layers::{conv2d, linear, Layer1D, Layer2D};
use neuralnet::loss_fn::{
    binary_cross_entropy_loss, binary_cross_entropy_of_logs, clamp_epsilon, clamp_into,
    cross_entropy_of_logs, mean_squared_error, mse_derivative, raise_to, Loss,
};
use neuralnet::loss_fn::{
    binary_cross_entropy_derivative, binary_cross_entropy_log_args, cross_entropy_derivative,
    natural_log,
};
use neuralnet::numbers::Number;

#[test]
fn sigmoid_stays_inside_the_unit_interval() {
    for x in [-30.0f64, -5.0, -1.0, -0.001, 0.0, 0.001, 1.0, 5.0, 30.0] {
        let s = sigmoid(x);
        assert!(s > 0.0 && s < 1.0, "sigmoid({}) = {}", x, s);
    }
    assert!((sigmoid(0.0f64) - 0.5).abs() < 1e-6);
    assert!((sigmoid(0.0f32) - 0.5).abs() < 1e-6);
}

#[test]
fn relu_keeps_positives_and_zeroes_the_rest() {
    assert_eq!(relu(7i32), 7);
    assert_eq!(relu(0i32), 0);
    assert_eq!(relu(-7i32), 0);
    assert_eq!(relu(2.5f64), 2.5);
    assert_eq!(relu(-2.5f64), 0.0);
    assert_eq!(relu_derivative(0i64), 0);
    assert_eq!(relu_derivative(3i64), 1);
    assert_eq!(Activation::ReLU.derivative(0.0f64), 0.0);
}

#[test]
fn tanh_at_zero_and_its_slope() {
    assert_eq!(tanh(0.0f64), 0.0);
    assert!((Activation::Tanh.derivative(0.0f64) - 1.0).abs() < 1e-12);
    assert_eq!(tanh_slope(0i32), 1);
    assert_eq!(tanh_slope(3i32), -8);
}

#[test]
fn logistic_pieces_on_exact_values() {
    assert_eq!(logistic_of_exp(1.0f64), 0.5);
    assert_eq!(logistic_slope(0.5f64), 0.25);
    assert_eq!(logistic_slope(3i32), -6);
    assert_eq!(logistic_of_exp(0i32), 1);
}

#[test]
fn zero_weights_forward_gives_the_biases() {
    let layer = Layer1D::<i32, 3, 2>::new([[0; 2]; 3], [4, -5, 6]);
    assert_eq!(layer.forward(&[123, -77]), [4, -5, 6]);
    let layer = Layer1D::<f64, 2, 3>::new([[0.0; 3]; 2], [0.25, -1.5]);
    assert_eq!(layer.forward(&[3.0, -2.0, 9.5]), [0.25, -1.5]);
}

#[test]
fn update_with_zero_gradient_changes_nothing() {
    let mut layer = Layer1D::<i32, 2, 2>::new([[1, 2], [3, 4]], [5, 6]);
    layer.update_weights(&[[0; 2]; 2], &[0; 2], 7);
    assert_eq!(layer.weights, [[1, 2], [3, 4]]);
    assert_eq!(layer.biases, [5, 6]);

    let mut layer = Layer1D::<f64, 1, 2>::new([[0.5, -0.5]], [0.1]);
    layer.update_weights(&[[0.0; 2]], &[0.0], 0.3);
    assert_eq!(layer.weights, [[0.5, -0.5]]);
    assert_eq!(layer.biases, [0.1]);
}

#[test]
fn update_with_zero_learning_rate_changes_nothing() {
    let mut layer = Layer1D::<i64, 2, 1>::new([[1], [2]], [3, 4]);
    layer.update_weights(&[[9], [-9]], &[8, -8], 0);
    assert_eq!(layer.weights, [[1], [2]]);
    assert_eq!(layer.biases, [3, 4]);
}

#[test]
fn update_subtracts_gradient_times_rate() {
    let mut layer = Layer1D::<i32, 2, 2>::new([[1, 2], [3, 4]], [5, 6]);
    layer.update_weights(&[[1, -1], [2, 0]], &[3, -2], 2);
    assert_eq!(layer.weights, [[-1, 4], [-1, 4]]);
    assert_eq!(layer.biases, [-1, 10]);
}

#[test]
fn mse_of_a_sequence_against_itself_is_zero() {
    let p = [3i64, -4, 10, 0];
    assert_eq!(mean_squared_error(&p, &p), 0);
    let q = [0.3f64, -2.5, 7.25];
    assert_eq!(mean_squared_error(&q, &q), 0.0);
    assert_eq!(Loss::MeanSquaredError.forward(&q, &q), 0.0);
}

#[test]
fn mse_exact_value() {
    assert_eq!(mean_squared_error(&[1i32, 5, 9], &[3, 5, 3]), 13);
    assert_eq!(mean_squared_error(&[2.0f64, 4.0], &[0.0, 0.0]), 10.0);
}

#[test]
fn cross_entropy_of_a_perfect_prediction_is_zero() {
    let ce = Loss::CrossEntropy.forward(&[1.0f64, 0.0], &[1.0, 0.0]);
    assert!(ce.abs() < 1e-12);
}

#[test]
fn mse_derivative_is_twice_the_difference() {
    let p = [1.5f64, -2.0, 0.25];
    let t = [0.5f64, 1.0, 0.25];
    let d = Loss::MeanSquaredError.derivative(&p, &t);
    assert_eq!(d.len(), 3);
    for i in 0..3 {
        assert_eq!(d[i], 2.0 * (p[i] - t[i]));
    }
    assert_eq!(mse_derivative(&[7i32, -1], &[2, 4]), vec![10, -10]);
    assert_eq!(Loss::MeanSquaredError.derivative(&[7i64, -1], &[2, 4]), vec![10, -10]);
}

#[test]
fn binary_cross_entropy_values() {
    assert!((binary_cross_entropy_loss(0.8f64, 1.0) + 0.8f64.ln()).abs() < 1e-6);
    assert!(binary_cross_entropy_loss(1.0f64, 1.0).abs() < 1e-6);
    assert!((Loss::BinaryCrossEntropy.forward(&[0.8f64], &[1.0]) + 0.8f64.ln()).abs() < 1e-6);
}

#[test]
fn cross_entropy_and_binary_derivatives() {
    let d = Loss::CrossEntropy.derivative(&[0.5f64, 0.0], &[1.0, 1.0]);
    assert_eq!(d[0], -2.0);
    assert_eq!(d[1], -1.0 / 1e-15);
    let d = Loss::BinaryCrossEntropy.derivative(&[0.5f64], &[1.0]);
    assert_eq!(d, vec![-2.0]);
    let d = Loss::BinaryCrossEntropy.derivative(&[0.5f64], &[0.0]);
    assert_eq!(d, vec![2.0]);
}

#[test]
fn clamping_epsilon_is_one_e_minus_fifteen() {
    assert_eq!(clamp_epsilon::<f64>(), 1e-15);
    assert_eq!(clamp_epsilon::<f32>(), 1e-15f64 as f32);
    assert_eq!(clamp_epsilon::<f32>(), 1e-15f32);
    // 1 / 10^15 in integer arithmetic
    assert_eq!(clamp_epsilon::<i64>(), 0);
}

#[test]
fn clamps_on_integers() {
    assert_eq!(raise_to(3i32, 5), 5);
    assert_eq!(raise_to(7i32, 5), 7);
    assert_eq!(clamp_into(-4i32, 0, 10), 0);
    assert_eq!(clamp_into(14i32, 0, 10), 10);
    assert_eq!(clamp_into(6i32, 0, 10), 6);
}

#[test]
fn dense_from_fills_rows_and_zero_biases() {
    let layer = linear::<i32, 4, 1>(&[1, 2]);
    assert_eq!(layer.weights, [[1], [2], [0], [0]]);
    assert_eq!(layer.biases, [0, 0, 0, 0]);
    let layer = linear::<i64, 2, 3>(&[1, 2, 3, 4]);
    assert_eq!(layer.weights, [[1, 2, 3], [4, 0, 0]]);
}

#[test]
fn windowed_from_fills_filters_and_zero_biases() {
    let layer = conv2d::<i32, 3, 2>(&[9, 8, 7]);
    assert_eq!(layer.filters, [[9, 8], [7, 0], [0, 0]]);
    assert_eq!(layer.biases, [0, 0, 0]);
    let layer = conv2d::<i32, 1, 2>(&[]);
    assert_eq!(layer.filters, [[0, 0]]);
}

#[test]
fn dense_end_to_end() {
    let layer = Layer1D::<f64, 1, 2>::new([[0.5, 0.5]], [0.1]);
    let out = layer.forward(&[1.0, 2.0]);
    assert!((out[0] - 1.6).abs() < 1e-12);
    let out = dense_linear::<f64, 2, 1>(&[1.0, 2.0], &layer);
    assert!((out[0] - 1.6).abs() < 1e-12);
}

#[test]
fn windowed_end_to_end_ignores_positions_past_the_input() {
    let layer = Layer2D::<f64, 2, 3> {
        filters: [[1.0, 2.0, 100.0], [-1.0, 0.5, -100.0]],
        biases: [0.5, 1.0],
    };
    let out = dense_conv2d::<f64, 2, 2, 3>(&[2.0, 4.0], &layer);
    assert_eq!(out, [0.5 + 2.0 * 1.0 + 4.0 * 2.0, 1.0 + 2.0 * -1.0 + 4.0 * 0.5]);
    let full = layer.forward(&[2.0, 4.0, 0.0]);
    assert_eq!(full, out);
}

#[test]
fn number_logic_on_i64() {
    assert_eq!(5i64.and(-3), 1);
    assert_eq!(5i64.and(0), 0);
    assert_eq!(0i64.or(0), 0);
    assert_eq!(0i64.or(-2), 1);
    assert_eq!((-2i64).not(), 0);
    assert!(!3i64.lt(3));
    assert!(!3i64.gt(3));
    assert!(!4i64.le(3));
    assert!(!2i64.ge(3));
    assert!(!2i64.eq(3));
    assert!(!2i64.ne(2));
    assert_eq!(i64::zero(), 0);
    assert_eq!(i64::one(), 1);
}

#[test]
fn cross_entropy_from_logarithms_on_integers() {
    // (0 - 1 * -3 - 2 * 4) / 2 = -5 / 2, truncated
    assert_eq!(cross_entropy_of_logs(&[1i32, 2], &[-3, 4]), -2);
    assert_eq!(cross_entropy_of_logs(&[0.5f64, 1.0], &[-2.0, -1.0]), 1.0);
}

#[test]
fn binary_cross_entropy_from_logarithms() {
    assert_eq!(binary_cross_entropy_of_logs(1i32, -2, -7), 2);
    assert_eq!(binary_cross_entropy_of_logs(0i32, -2, -7), 7);
    assert_eq!(binary_cross_entropy_of_logs(0.5f64, -2.0, -4.0), 3.0);
}

#[test]
fn cross_entropy_derivative_on_integers() {
    // eps is 0 in integer arithmetic, so the slope is -t / p
    assert_eq!(cross_entropy_derivative(&[2i64, 4], &[6, -8]), vec![-3, 2]);
}

#[test]
fn binary_cross_entropy_derivative_uses_one_minus_the_raw_prediction() {
    // -(0 / eps) + (1 - 0) / max(1 - 0, eps)
    assert_eq!(binary_cross_entropy_derivative(&[0.0f64], &[0.0]), vec![1.0]);
    assert_eq!(Loss::BinaryCrossEntropy.derivative(&[0.0f64], &[0.0]), vec![1.0]);
    // p above 1 - eps: 1 - p is raised to eps
    let d = binary_cross_entropy_derivative(&[1.0f64], &[0.0]);
    assert_eq!(d, vec![-(0.0 / (1.0 - 1e-15)) + 1.0 / 1e-15]);
}

#[test]
fn binary_cross_entropy_log_arguments() {
    let eps = clamp_epsilon::<f64>();
    assert_eq!(binary_cross_entropy_log_args(0.0f64, eps), (eps, 1.0 - eps));
    assert_eq!(binary_cross_entropy_log_args(0.25f64, eps), (0.25, 0.75));
    assert_eq!(binary_cross_entropy_log_args(5i32, 1), (0, 1));
}

#[test]
fn natural_log_values() {
    assert_eq!(natural_log(1.0f64), 0.0);
    assert!((natural_log(std::f64::consts::E) - 1.0).abs() < 1e-12);
}
