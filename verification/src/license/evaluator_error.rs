//! The evaluation error, under the name of its own module.
pub use crate::license::errors::EvaluationError;
