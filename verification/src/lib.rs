//! Forward-mode automatic differentiation for Langevin ensembles.
//!
//! A dual number carries a value together with its first-order sensitivity;
//! the integrator advances such a state through an Euler–Maruyama scheme, and
//! the writer lays the finished ensemble out as a two-column array file.

pub mod drift;
pub mod integrator;
pub mod node;
pub mod npy;
pub mod phase;
pub mod scalar;
