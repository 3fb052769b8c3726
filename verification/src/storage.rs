//! Failures of the storage layer.

use anyhow::Error as AnyhowError;
use vstd::prelude::*;
use vstd::std_specs::convert::FromSpecImpl;
use vstd::string::to_string_from_display_ensures;

verus! {

/// `anyhow::Error`, carried as an opaque value.
#[verifier::external_type_specification]
#[verifier::external_body]
pub struct ExAnyhowError(AnyhowError);

/// A failure that comes from the storage layer. It carries the underlying
/// failure as it came and is never classified further.
#[derive(Debug)]
pub struct StorageError(pub AnyhowError);

impl From<AnyhowError> for StorageError {
    /// Any failure can enter as a storage failure; it is kept unchanged.
    fn from(err: AnyhowError) -> (error: Self)
        ensures
            error == StorageError(err),
    {
        StorageError(err)
    }
}

impl FromSpecImpl<AnyhowError> for StorageError {
    open spec fn obeys_from_spec() -> bool {
        true
    }

    open spec fn from_spec(err: AnyhowError) -> Self {
        StorageError(err)
    }
}

impl StorageError {
    /// Whether `text` is what the `Display` impl of the underlying failure
    /// writes for it. Nothing more is known of the text: the failure decides.
    pub open spec fn described_by(&self, text: String) -> bool {
        to_string_from_display_ensures::<AnyhowError>(&self.0, text)
    }

    /// Returns the description that the underlying failure gives of itself.
    pub fn to_string(&self) -> (text: String)
        ensures
            self.described_by(text),
    {
        self.0.to_string()
    }
}

} // verus!
