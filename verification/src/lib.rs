//! Univariate linear regression by batch gradient descent on z-score
//! normalized columns.
//!
//! The numeric values live in polars float columns and stay opaque to the
//! verifier: each is identified by its bit pattern, and the arithmetic steps
//! are named by uninterpreted spec functions (see `column`). On top of that
//! boundary the library proves the structure of the pipeline: what
//! normalization returns, how the fixed-iteration descent folds its update
//! step, when each operation fails, and that a failed call leaves the model
//! untouched.

use vstd::prelude::*;

mod column;
mod model;
mod normalize;
mod scalar;

pub use column::column_from_ints;
pub use model::gradient_descent;
pub use model::descent_step;
pub use model::LinearRegressionModel;
pub use normalize::normalize;
pub use scalar::column_at;
pub use scalar::Scalar;

verus! {

/// The ways a request can be rejected; every error is detected before any
/// parameter is written.
#[derive(Clone, Copy, Debug, PartialEq, Eq, Structural)]
pub enum ModelError {
    /// The feature and target columns have different lengths.
    ShapeMismatch,
    /// Fewer than two samples, or a constant column: the sample standard
    /// deviation is unusable and normalization would divide by zero.
    DegenerateInput,
    /// A learning rate that is not strictly positive.
    InvalidHyperparameter,
}

} // verus!
