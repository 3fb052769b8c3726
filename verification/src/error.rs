//! The one error type of the evaluation pipeline.

use vstd::prelude::*;
use vstd::std_specs::convert::FromSpecImpl;

pub use crate::error_code::ErrorCode;
pub use crate::evaluate::{EvaluateError, EvaluateErrorView};
pub use crate::storage::StorageError;
use crate::text::prefixed;

verus! {

/// `From<T> for T` of std, through which every type converts into itself.
/// Not proved: that it returns its argument unchanged, as std documents.
pub assume_specification<T>[ <T as From<T>>::from ](t: T) -> (same: T)
    ensures
        same == t,
;

/// Where a failure comes from: the storage layer or evaluation.
#[derive(Debug)]
pub enum ErrorInner {
    /// A failure of the storage layer.
    Storage(StorageError),
    /// A failure of evaluation.
    Evaluate(EvaluateError),
}

/// The error of every fallible step of the pipeline. It owns its content
/// through one box, so that it is as large as a pointer whatever it holds.
#[derive(Debug)]
pub struct Error(pub Box<ErrorInner>);

/// The result of a fallible step of the pipeline.
pub type Result<V> = std::result::Result<V, Error>;

/// What an [`Error`] or an [`ErrorInner`] is: a storage failure as it is
/// carried, or the view of an evaluation failure.
pub enum ErrorView {
    Storage(StorageError),
    Evaluate(EvaluateErrorView),
}

impl ErrorView {
    /// The class of the error: the one storage class, or the evaluation class
    /// with the numeric code of the failure.
    pub open spec fn error_code(self) -> ErrorCode {
        match self {
            ErrorView::Storage(_) => ErrorCode::Storage,
            ErrorView::Evaluate(failure) => ErrorCode::Evaluate(failure.code()),
        }
    }

    /// Whether `text` is a description of the error: the description of the
    /// failure behind the name of the layer it comes from.
    pub open spec fn described_by(self, text: Seq<char>) -> bool {
        match self {
            ErrorView::Storage(failure) => storage_described_by(failure, text),
            ErrorView::Evaluate(failure) => text == evaluate_error_text(failure.description()),
        }
    }
}

impl View for ErrorInner {
    type V = ErrorView;

    open spec fn view(&self) -> ErrorView {
        match self {
            ErrorInner::Storage(failure) => ErrorView::Storage(*failure),
            ErrorInner::Evaluate(failure) => ErrorView::Evaluate(failure@),
        }
    }
}

impl View for Error {
    type V = ErrorView;

    open spec fn view(&self) -> ErrorView {
        self.0@
    }
}

/// Whether `text` describes the storage failure `failure`.
pub open spec fn storage_described_by(failure: StorageError, text: Seq<char>) -> bool {
    exists|inner: String|
        #![trigger failure.described_by(inner)]
        failure.described_by(inner) && text == storage_error_text(inner@)
}

/// The description of a storage failure that describes itself as `inner`.
pub open spec fn storage_error_text(inner: Seq<char>) -> Seq<char> {
    "Storage error: "@ + inner
}

/// The description of an evaluation failure that describes itself as `inner`.
pub open spec fn evaluate_error_text(inner: Seq<char>) -> Seq<char> {
    "Evaluate error: "@ + inner
}

/// Returns the description of a storage failure that describes itself as
/// `inner`.
pub fn storage_error_message(inner: &str) -> (text: String)
    ensures
        text@ == storage_error_text(inner@),
{
    prefixed("Storage error: ", inner)
}

/// Returns the description of an evaluation failure that describes itself as
/// `inner`.
pub fn evaluate_error_message(inner: &str) -> (text: String)
    ensures
        text@ == evaluate_error_text(inner@),
{
    prefixed("Evaluate error: ", inner)
}

impl ErrorInner {
    /// Returns the description of the failure, behind the name of the layer
    /// it comes from.
    pub fn to_string(&self) -> (text: String)
        ensures
            self@.described_by(text@),
    {
        match self {
            ErrorInner::Storage(failure) => {
                let inner = failure.to_string();
                assert(failure.described_by(inner));
                storage_error_message(inner.as_str())
            },
            ErrorInner::Evaluate(failure) => {
                let inner = failure.to_string();
                evaluate_error_message(inner.as_str())
            },
        }
    }
}

impl From<ErrorInner> for Error {
    /// Boxes the content.
    fn from(inner: ErrorInner) -> (error: Self)
        ensures
            error == Error(Box::new(inner)),
    {
        Error(Box::new(inner))
    }
}

impl FromSpecImpl<ErrorInner> for Error {
    open spec fn obeys_from_spec() -> bool {
        true
    }

    open spec fn from_spec(inner: ErrorInner) -> Self {
        Error(Box::new(inner))
    }
}

impl From<Box<ErrorInner>> for Error {
    /// Takes the box as it is.
    fn from(inner: Box<ErrorInner>) -> (error: Self)
        ensures
            error == Error(inner),
    {
        Error(inner)
    }
}

impl FromSpecImpl<Box<ErrorInner>> for Error {
    open spec fn obeys_from_spec() -> bool {
        true
    }

    open spec fn from_spec(inner: Box<ErrorInner>) -> Self {
        Error(inner)
    }
}

impl From<StorageError> for Error {
    /// A storage failure becomes an error of the storage layer.
    fn from(failure: StorageError) -> (error: Self)
        ensures
            error == Error::of_storage(failure),
    {
        Error(Box::new(ErrorInner::Storage(failure)))
    }
}

impl FromSpecImpl<StorageError> for Error {
    open spec fn obeys_from_spec() -> bool {
        true
    }

    open spec fn from_spec(failure: StorageError) -> Self {
        Error::of_storage(failure)
    }
}

impl From<EvaluateError> for Error {
    /// An evaluation failure becomes an error of evaluation.
    fn from(failure: EvaluateError) -> (error: Self)
        ensures
            error == Error::of_evaluate(failure),
    {
        Error(Box::new(ErrorInner::Evaluate(failure)))
    }
}

impl FromSpecImpl<EvaluateError> for Error {
    open spec fn obeys_from_spec() -> bool {
        true
    }

    open spec fn from_spec(failure: EvaluateError) -> Self {
        Error::of_evaluate(failure)
    }
}

impl Error {
    /// The error that holds the storage failure `failure`.
    pub open spec fn of_storage(failure: StorageError) -> Error {
        Error(Box::new(ErrorInner::Storage(failure)))
    }

    /// The error that holds the evaluation failure `failure`.
    pub open spec fn of_evaluate(failure: EvaluateError) -> Error {
        Error(Box::new(ErrorInner::Evaluate(failure)))
    }

    /// Converts any source that converts into an [`EvaluateError`]: the
    /// source is converted, and the failure it gives is wrapped as a failure
    /// of evaluation.
    ///
    /// The origin of an error is never guessed from the type of its source.
    /// `Error::from` takes a value that states its origin: an [`ErrorInner`],
    /// a [`StorageError`] or an [`EvaluateError`]. This function classifies
    /// every source as evaluation, and a `StorageError` does not convert into
    /// an `EvaluateError`, so no storage failure comes this way.
    pub fn from_evaluate<S: Into<EvaluateError>>(source: S) -> (error: Error)
        ensures
            *error.0 matches ErrorInner::Evaluate(failure) && call_ensures(
                <S as Into<EvaluateError>>::into,
                (source,),
                failure,
            ),
    {
        let failure: EvaluateError = source.into();
        Error::from(failure)
    }

    /// Returns the class of the error. A storage failure has the storage
    /// class; an evaluation failure has the class it gives itself.
    pub fn error_code(&self) -> (class: ErrorCode)
        ensures
            class == self@.error_code(),
    {
        match &*self.0 {
            ErrorInner::Storage(_) => ErrorCode::Storage,
            ErrorInner::Evaluate(failure) => failure.error_code(),
        }
    }

    /// Returns the description of the error, which is that of its content.
    pub fn to_string(&self) -> (text: String)
        ensures
            self@.described_by(text@),
    {
        self.0.to_string()
    }
}

/// The class of a wrapped storage failure is the storage class, whatever the
/// failure carries.
pub proof fn lemma_storage_error_has_storage_class(failure: StorageError)
    ensures
        Error::of_storage(failure)@.error_code() == ErrorCode::Storage,
{
}

/// The class of a wrapped evaluation failure holds the numeric code of the
/// failure.
pub proof fn lemma_evaluate_error_keeps_code(failure: EvaluateError)
    ensures
        Error::of_evaluate(failure)@.error_code() == ErrorCode::Evaluate(failure@.code()),
{
}

/// An evaluation failure that goes through [`Error::from_evaluate`] becomes
/// the same error as through `Error::from`, with the failure's own code.
pub proof fn lemma_from_evaluate_agrees_with_from(failure: EvaluateError, error: Error)
    requires
        call_ensures(Error::from_evaluate::<EvaluateError>, (failure,), error),
    ensures
        error == Error::of_evaluate(failure),
        error@.error_code() == ErrorCode::Evaluate(failure@.code()),
{
}

} // verus!
