//! Lazy convex sets: sets known through their support functions, composed
//! without ever being materialised, and overapproximated by halfspace
//! polytopes.
//!
//! Real numbers are carried as IEEE 754 binary64 bit patterns
//! ([`scalar::Scalar`]). The library orders them, lays them out in matrices
//! and linear programs, picks the answer of a convex hull, and decides which
//! sampled halfspaces an overapproximation keeps. It performs no rounding
//! arithmetic: sums, products, square roots, random draws and the solving of
//! linear programs are the caller's part, and reach the library as plain
//! values.
pub mod convex;
pub mod error;
pub mod lazy_operation;
pub mod linear_program;
pub mod matrix;
pub mod overapproximate;
pub mod scalar;
pub mod support;
