//! Exact-arithmetic core of a lattice gauge-theory simulator.
//!
//! Gauge links on the lattice are 3x3 complex matrices; Monte Carlo
//! proposals are built by embedding SU(2) blocks into SU(3).  This crate
//! verifies the algebraic kernel — complex scalars, color vectors, 3x3
//! matrices, the SU(2)-subgroup embedding, and the 4D lattice with its
//! sweep protocol — over exact integer scalars, so every algebraic
//! contract is a theorem rather than an approximation.  Floating-point
//! consumers mirror these formulas outside the verified core.

pub mod color;
pub mod lattice;
pub mod complex;
pub mod cvector;
pub mod matrix;

pub use complex::Complex;
pub use cvector::CVector;
pub use lattice::Lattice;
pub use matrix::Matrix;
