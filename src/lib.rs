//! A small, shape-checked feed-forward neural-network core: a numeric abstraction over scalar
//! representations, dense and windowed layers, activations, losses and gradient-descent updates.
pub mod numbers;
pub mod layers;
pub mod forward_propagation;
pub mod activation_fn;
pub mod loss_fn;
pub mod back_propagation;
