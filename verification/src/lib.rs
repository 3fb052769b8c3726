//! Classification of the failures of query evaluation.
//!
//! Every failure that reaches the boundary of the evaluation pipeline is an
//! [`Error`]: either a storage failure, carried opaquely as a
//! [`StorageError`], or an [`EvaluateError`]. An `Error` is made once, where
//! the failure happens, and is read once, at the boundary: its
//! [`ErrorCode`] is what clients and monitoring see, and its description is
//! what logs show.

pub mod error;
pub mod error_code;
pub mod evaluate;
pub mod storage;
pub mod text;

pub use error::{Error, ErrorInner, ErrorView};
pub use error_code::ErrorCode;
pub use evaluate::{DeadlineError, EvaluateError, EvaluateErrorView};
pub use storage::StorageError;
