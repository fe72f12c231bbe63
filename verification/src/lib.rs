//! Predictive Functional Control for linear discrete-time plants.
//!
//! The crate is generic over the scalar type: every arithmetic operation the
//! control law performs is routed through the [`scalar::Scalar`] capability
//! trait, so any compliant numeric backend can supply the real-number
//! arithmetic, the matrix exponential and the matrix inverse. The control
//! logic itself — model validation, zero-order-hold discretization, the
//! offline gain design and the online update law — is verified here, exactly
//! relative to the backend's operations.

use vstd::prelude::*;

pub mod designer;
pub mod discretize;
pub mod matrix;
pub mod model;
pub mod scalar;

verus! {

/// The model's matrix dimensions are mutually inconsistent.
#[derive(Clone, Copy, Debug, PartialEq, Eq, Structural)]
pub struct ValidationError;

/// A design- or discretization-time argument is out of range.
#[derive(Clone, Copy, Debug, PartialEq, Eq, Structural)]
pub struct PreconditionError;

/// The offline design's Gram matrix could not be inverted.
#[derive(Clone, Copy, Debug, PartialEq, Eq, Structural)]
pub struct SingularMatrixError;

/// Everything that can go wrong while designing a controller.
#[derive(Clone, Copy, Debug, PartialEq, Eq, Structural)]
pub enum DesignError {
    Precondition(PreconditionError),
    SingularMatrix(SingularMatrixError),
}

} // verus!
