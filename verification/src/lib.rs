//! Core of a disaster-scene image classifier: dataset indexing with
//! lexicographic label assignment, stochastic training-time augmentation,
//! batch assembly with pinned tensor shapes, the shape calculus of the
//! convolutional model, and the inference-time prediction rule.
//!
//! Image decoding, file-system scanning, and the floating-point tensor
//! arithmetic of the compute backend live outside this crate; the logic
//! here is verified against narrow contracts at those boundaries.

pub mod augmentation;
pub mod data;
pub mod dataset;
pub mod image_ops;
pub mod inference;
pub mod model;
mod sampling;
pub mod training;
