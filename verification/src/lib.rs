//! A feed-forward neural network that is evaluated, not trained: layers of
//! neurons, an activation policy, and a reader of topology descriptions.

pub mod activation;
pub mod builder;
pub mod document;
pub mod laws;
pub mod layer;
pub mod network;
pub mod neuron;
pub mod scalar;
pub mod topology;

pub use activation::SigmoidFunction;
pub use builder::NetworkBuilder;
pub use layer::Layer;
pub use network::Network;
pub use neuron::Neuron;
pub use scalar::{Numeral, Scalar};
