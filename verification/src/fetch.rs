//! From the response to a request for a metadata document to the document.

use crate::error::ResolveError;
use crate::json::{document_of, parse, Json};
use vstd::prelude::*;

verus! {

/// The document that a response carries. `None` stands for a request that
/// got no response, `Some` for the body that came back.
pub open spec fn document_from(response: Option<Seq<char>>) -> Result<Json, ResolveError> {
    match response {
        None => Err(ResolveError::Fetch),
        Some(body) => match document_of(body) {
            Some(tree) => Ok(tree),
            None => Err(ResolveError::Parse),
        },
    }
}

/// Reads the document out of the response to one request. A request without
/// a response fails as [`ResolveError::Fetch`], a body that is not JSON as
/// [`ResolveError::Parse`]; nothing is asked a second time.
pub fn fetched_document(response: Option<&str>) -> (document: Result<Json, ResolveError>)
    ensures
        document == document_from(
            match response {
                Some(body) => Some(body@),
                None => None,
            },
        ),
{
    match response {
        None => Err(ResolveError::Fetch),
        Some(body) => parse(body),
    }
}

} // verus!
