use anni_provider::ProviderError;
use vstd::prelude::*;

verus! {

#[verifier::external_type_specification]
#[verifier::external_body]
pub struct ExProviderError(ProviderError);

/// A content lookup that the provider could not serve.
#[derive(Debug)]
pub enum Error {
    AnniError(ProviderError),
}

impl From<ProviderError> for Error {
    fn from(error: ProviderError) -> (r: Error) {
        Error::AnniError(error)
    }
}

impl vstd::std_specs::convert::FromSpecImpl<ProviderError> for Error {
    open spec fn obeys_from_spec() -> bool {
        true
    }

    open spec fn from_spec(error: ProviderError) -> Error {
        Error::AnniError(error)
    }
}

/// The HTTP status of a failed lookup: the item is reported as not found.
pub const NOT_FOUND: u16 = 404;

impl Error {
    /// The status the HTTP layer answers with; the response is marked
    /// private, and its body describes the provider's error.
    pub fn status_code(&self) -> (r: u16)
        ensures
            r == NOT_FOUND,
    {
        match self {
            Error::AnniError(_) => NOT_FOUND,
        }
    }
}

} // verus!
