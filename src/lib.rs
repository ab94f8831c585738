//! A two-dimensional convolution followed by a clamped ReLU, expressed as an
//! arithmetic circuit: column layout, gate and lookup descriptions, witness
//! synthesis, and an evaluator for the circuit's constraints.
pub mod assignment;
pub mod chip;
pub mod circuit;
pub mod dims;
pub mod field;
pub mod layout;
pub mod lookup;
pub mod soundness;
