//! The failures that reading a `multipart/form-data` stream can report.
//!
//! Every fault is one value of [`ParseError`]. Its message is a function of the
//! variant and of the context it carries, never of the failure it wraps; the
//! wrapped failure is reached through [`ParseError::source`]. Two errors are equal
//! exactly when their messages are.

pub mod cause;
pub mod decimal;
pub mod error;
pub mod laws;
pub mod quote;

pub use cause::{BoxError, Cause};
pub use error::ParseError;
