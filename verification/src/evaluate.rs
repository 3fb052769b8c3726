//! Failures of expression and codec evaluation.

use std::str::Utf8Error;
use std::string::FromUtf8Error;

use vstd::prelude::*;
use vstd::std_specs::convert::FromSpecImpl;

use crate::error_code::ErrorCode;
use crate::text::{contains, lemma_contains_after_prefix, prefixed};

verus! {

/// `std::str::Utf8Error`, of which nothing is read but its diagnostic text.
#[verifier::external_type_specification]
#[verifier::external_body]
pub struct ExUtf8Error(Utf8Error);

/// `std::string::FromUtf8Error`, of which nothing is read but its diagnostic
/// text.
#[verifier::external_type_specification]
#[verifier::external_body]
pub struct ExFromUtf8Error(FromUtf8Error);

/// Numeric code of an evaluation that ran past its deadline.
pub const CODE_DEADLINE_EXCEEDED: i32 = 9007;

/// Numeric code of a string that is not valid in its character set.
pub const CODE_INVALID_CHARACTER_STRING: i32 = 1300;

/// Numeric code of a failure that has no class of its own.
pub const CODE_UNKNOWN: i32 = 10000;

/// The signal that a computation ran past its deadline. It carries nothing.
#[derive(Clone, Copy, Debug, PartialEq, Eq, Structural)]
pub struct DeadlineError;

/// A failure inside expression or codec evaluation.
#[derive(Debug)]
pub enum EvaluateError {
    /// The evaluation was stopped because it exceeded its deadline.
    DeadlineExceeded,
    /// A string is not valid in the named character set.
    InvalidCharacterString { charset: String },
    /// A failure that already carries a numeric code of its caller's choosing.
    Custom { code: i32, msg: String },
    /// Any other failure, with a free-form description.
    Other(String),
}

/// What an [`EvaluateError`] is, with each text as a sequence of characters.
pub enum EvaluateErrorView {
    DeadlineExceeded,
    InvalidCharacterString { charset: Seq<char> },
    Custom { code: i32, msg: Seq<char> },
    Other(Seq<char>),
}

impl EvaluateErrorView {
    /// The numeric code of the failure.
    pub open spec fn code(self) -> i32 {
        match self {
            EvaluateErrorView::DeadlineExceeded => 9007,
            EvaluateErrorView::InvalidCharacterString { .. } => 1300,
            EvaluateErrorView::Custom { code, .. } => code,
            EvaluateErrorView::Other(_) => 10000,
        }
    }

    /// The description of the failure, as it is shown to a reader.
    pub open spec fn description(self) -> Seq<char> {
        match self {
            EvaluateErrorView::DeadlineExceeded => {
                "Execution terminated due to exceeding the deadline"@
            },
            EvaluateErrorView::InvalidCharacterString { charset } => {
                "Invalid "@ + charset + " character string"@
            },
            EvaluateErrorView::Custom { msg, .. } => msg,
            EvaluateErrorView::Other(text) => text,
        }
    }
}

impl View for EvaluateError {
    type V = EvaluateErrorView;

    open spec fn view(&self) -> EvaluateErrorView {
        match self {
            EvaluateError::DeadlineExceeded => EvaluateErrorView::DeadlineExceeded,
            EvaluateError::InvalidCharacterString { charset } => {
                EvaluateErrorView::InvalidCharacterString { charset: charset@ }
            },
            EvaluateError::Custom { code, msg } => {
                EvaluateErrorView::Custom { code: *code, msg: msg@ }
            },
            EvaluateError::Other(text) => EvaluateErrorView::Other(text@),
        }
    }
}

impl EvaluateError {
    /// Returns the numeric code of this failure. A `Custom` failure gives back
    /// the code it was made with, unchanged.
    pub fn code(&self) -> (code: i32)
        ensures
            code == self@.code(),
    {
        match self {
            EvaluateError::InvalidCharacterString { .. } => CODE_INVALID_CHARACTER_STRING,
            EvaluateError::DeadlineExceeded => CODE_DEADLINE_EXCEEDED,
            EvaluateError::Custom { code, .. } => *code,
            EvaluateError::Other(_) => CODE_UNKNOWN,
        }
    }

    /// Returns the class of this failure: the evaluation class with the
    /// failure's numeric code.
    pub fn error_code(&self) -> (class: ErrorCode)
        ensures
            class == ErrorCode::Evaluate(self@.code()),
    {
        ErrorCode::Evaluate(self.code())
    }

    /// Returns the description of this failure.
    pub fn to_string(&self) -> (text: String)
        ensures
            text@ == self@.description(),
    {
        match self {
            EvaluateError::DeadlineExceeded => {
                String::from_str("Execution terminated due to exceeding the deadline")
            },
            EvaluateError::InvalidCharacterString { charset } => {
                prefixed("Invalid ", charset.as_str()).concat(" character string")
            },
            EvaluateError::Custom { msg, .. } => msg.clone(),
            EvaluateError::Other(text) => text.clone(),
        }
    }

    /// Makes the catch-all failure from the description of a failure that has
    /// no structure of its own.
    pub fn from_description(description: String) -> (error: EvaluateError)
        ensures
            error == EvaluateError::Other(description),
    {
        EvaluateError::Other(description)
    }
}

/// The text in front of the diagnostic of an input that is not valid UTF-8.
pub open spec fn invalid_input_text(diagnostic: Seq<char>) -> Seq<char> {
    "invalid input value: "@ + diagnostic
}

/// Makes the failure for an input whose decoding gave `diagnostic`: the
/// catch-all failure, described by the diagnostic behind a fixed prefix.
pub fn invalid_input(diagnostic: &str) -> (error: EvaluateError)
    ensures
        error@ == EvaluateErrorView::Other(invalid_input_text(diagnostic@)),
{
    EvaluateError::Other(prefixed("invalid input value: ", diagnostic))
}

/// The text that the `Debug` impl of `std::str::Utf8Error` writes for `err`.
pub uninterp spec fn utf8_error_debug(err: Utf8Error) -> Seq<char>;

/// The text that the `Debug` impl of `std::string::FromUtf8Error` writes for
/// `err`.
pub uninterp spec fn from_utf8_error_debug(err: FromUtf8Error) -> Seq<char>;

/// Formats a `std::str::Utf8Error` with its `Debug` impl. Not proved: that
/// the text depends on the value of the error alone, which is all that
/// [`utf8_error_debug`] says of it.
#[verifier::external_body]
fn utf8_error_diagnostic(err: &Utf8Error) -> (text: String)
    ensures
        text@ == utf8_error_debug(*err),
{
    format!("{:?}", err)
}

/// Formats a `std::string::FromUtf8Error` with its `Debug` impl. Not proved:
/// that the text depends on the value of the error alone, which is all that
/// [`from_utf8_error_debug`] says of it.
#[verifier::external_body]
fn from_utf8_error_diagnostic(err: &FromUtf8Error) -> (text: String)
    ensures
        text@ == from_utf8_error_debug(*err),
{
    format!("{:?}", err)
}

impl From<DeadlineError> for EvaluateError {
    /// An expired deadline is always `DeadlineExceeded`.
    fn from(signal: DeadlineError) -> (error: Self)
        ensures
            error == EvaluateError::DeadlineExceeded,
    {
        EvaluateError::DeadlineExceeded
    }
}

impl FromSpecImpl<DeadlineError> for EvaluateError {
    open spec fn obeys_from_spec() -> bool {
        true
    }

    open spec fn from_spec(signal: DeadlineError) -> Self {
        EvaluateError::DeadlineExceeded
    }
}

impl From<Utf8Error> for EvaluateError {
    /// Bytes that are not valid UTF-8 give the catch-all failure, described
    /// by the decoder's diagnostic.
    fn from(err: Utf8Error) -> (error: Self)
        ensures
            error@ == EvaluateErrorView::Other(invalid_input_text(utf8_error_debug(err))),
    {
        let diagnostic = utf8_error_diagnostic(&err);
        invalid_input(diagnostic.as_str())
    }
}

/// The conversion builds a new string, and two strings with one view need not
/// be one value: `from` states the view of its result and obeys no `from_spec`.
impl FromSpecImpl<Utf8Error> for EvaluateError {
    open spec fn obeys_from_spec() -> bool {
        false
    }

    open spec fn from_spec(err: Utf8Error) -> Self {
        choose|error: EvaluateError|
            error@ == EvaluateErrorView::Other(invalid_input_text(utf8_error_debug(err)))
    }
}

impl From<FromUtf8Error> for EvaluateError {
    /// Bytes that cannot become a string give the catch-all failure,
    /// described by the decoder's diagnostic.
    fn from(err: FromUtf8Error) -> (error: Self)
        ensures
            error@ == EvaluateErrorView::Other(invalid_input_text(from_utf8_error_debug(err))),
    {
        let diagnostic = from_utf8_error_diagnostic(&err);
        invalid_input(diagnostic.as_str())
    }
}

/// As for `Utf8Error`: `from` states the view of its result.
impl FromSpecImpl<FromUtf8Error> for EvaluateError {
    open spec fn obeys_from_spec() -> bool {
        false
    }

    open spec fn from_spec(err: FromUtf8Error) -> Self {
        choose|error: EvaluateError|
            error@ == EvaluateErrorView::Other(invalid_input_text(from_utf8_error_debug(err)))
    }
}

/// The description of a failure made by [`invalid_input`] contains the
/// diagnostic it was made from.
pub proof fn lemma_invalid_input_keeps_diagnostic(diagnostic: Seq<char>)
    ensures
        contains(
            EvaluateErrorView::Other(invalid_input_text(diagnostic)).description(),
            diagnostic,
        ),
{
    lemma_contains_after_prefix("invalid input value: "@, diagnostic);
}

/// Whatever `Utf8Error` is converted, the result is the catch-all failure and
/// its description contains the error's diagnostic text.
pub proof fn lemma_utf8_error_keeps_diagnostic(err: Utf8Error, converted: EvaluateError)
    requires
        call_ensures(<EvaluateError as From<Utf8Error>>::from, (err,), converted),
    ensures
        converted@ is Other,
        contains(converted@.description(), utf8_error_debug(err)),
{
    lemma_invalid_input_keeps_diagnostic(utf8_error_debug(err));
}

/// Whatever `FromUtf8Error` is converted, the result is the catch-all failure
/// and its description contains the error's diagnostic text.
pub proof fn lemma_from_utf8_error_keeps_diagnostic(err: FromUtf8Error, converted: EvaluateError)
    requires
        call_ensures(<EvaluateError as From<FromUtf8Error>>::from, (err,), converted),
    ensures
        converted@ is Other,
        contains(converted@.description(), from_utf8_error_debug(err)),
{
    lemma_invalid_input_keeps_diagnostic(from_utf8_error_debug(err));
}

} // verus!
