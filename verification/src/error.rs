//! The ways in which a resolution can fail.

use vstd::prelude::*;
use vstd::string::*;

verus! {

/// Why a resolution stopped. Reads of collection fields never fail a
/// resolution; every other failure ends it.
#[derive(Clone, Copy, Debug, PartialEq, Eq, Structural)]
pub enum ResolveError {
    /// A read of a collection field failed at the registry.
    ContractCall,
    /// The registry gave no URI for the token.
    TokenUri,
    /// The request for a document or an image got no response.
    Fetch,
    /// The metadata document is not JSON.
    Parse,
    /// A required key of the metadata document is absent, or holds a value of
    /// another type than the one required.
    MissingField,
    /// The bytes fetched are no image of a known format.
    Decode,
    /// The image could not be written.
    Io,
}

impl ResolveError {
    /// The sentence that reports this failure.
    pub open spec fn spec_message(self) -> Seq<char> {
        match self {
            ResolveError::ContractCall => "the registry did not answer a read of a collection field"@,
            ResolveError::TokenUri => "the registry gave no URI for the token"@,
            ResolveError::Fetch => "the request got no response"@,
            ResolveError::Parse => "the metadata document is not valid JSON"@,
            ResolveError::MissingField => "the metadata document lacks a required field"@,
            ResolveError::Decode => "the bytes are not an image of a known format"@,
            ResolveError::Io => "the image could not be written"@,
        }
    }

    /// The sentence that reports this failure.
    pub fn message(&self) -> (text: String)
        ensures
            text@ == self.spec_message(),
    {
        match self {
            ResolveError::ContractCall => String::from_str(
                "the registry did not answer a read of a collection field",
            ),
            ResolveError::TokenUri => String::from_str("the registry gave no URI for the token"),
            ResolveError::Fetch => String::from_str("the request got no response"),
            ResolveError::Parse => String::from_str("the metadata document is not valid JSON"),
            ResolveError::MissingField => String::from_str(
                "the metadata document lacks a required field",
            ),
            ResolveError::Decode => String::from_str("the bytes are not an image of a known format"),
            ResolveError::Io => String::from_str("the image could not be written"),
        }
    }
}

} // verus!
