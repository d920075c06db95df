//! Resolution of one token: from the URI that the registry reports and the
//! document found there to the token's metadata.

use crate::error::ResolveError;
use crate::fetch::{document_from, fetched_document};
use crate::json::{document_of, Json};
use crate::u256::{decimal, U256};
use crate::uri::{resolved, UriResolver};
use vstd::prelude::*;
use vstd::string::*;

verus! {

/// One trait of a token.
#[derive(Debug, PartialEq, Eq)]
pub struct Attribute {
    /// The name of the trait.
    pub trait_type: String,
    /// What the token has for it.
    pub value: String,
}

impl View for Attribute {
    type V = (Seq<char>, Seq<char>);

    open spec fn view(&self) -> (Seq<char>, Seq<char>) {
        (self.trait_type@, self.value@)
    }
}

/// What is known of one token once it is resolved.
#[derive(Debug, PartialEq, Eq)]
pub struct TokenMetadata {
    /// The token's number, in decimal.
    pub token_id: String,
    /// The address of the metadata document, as the registry reports it.
    pub token_uri: String,
    /// The document's `image` field, as it stands there.
    pub image_uri: String,
    /// The token's traits, in the order of the document.
    pub attributes: Vec<Attribute>,
}

/// A token's metadata as plain values.
pub struct TokenView {
    pub token_id: Seq<char>,
    pub token_uri: Seq<char>,
    pub image_uri: Seq<char>,
    pub attributes: Seq<(Seq<char>, Seq<char>)>,
}

/// The traits that `attributes` hold, in their order.
pub open spec fn attribute_views(attributes: Seq<Attribute>) -> Seq<(Seq<char>, Seq<char>)> {
    Seq::new(attributes.len(), |i: int| attributes[i]@)
}

impl View for TokenMetadata {
    type V = TokenView;

    open spec fn view(&self) -> TokenView {
        TokenView {
            token_id: self.token_id@,
            token_uri: self.token_uri@,
            image_uri: self.image_uri@,
            attributes: attribute_views(self.attributes@),
        }
    }
}

/// The trait that one element of `attributes` writes: its `trait_type` and
/// its `value`, both strings. Nothing where either is absent or no string.
pub open spec fn attribute_of(item: Json) -> Option<(Seq<char>, Seq<char>)> {
    match (item.text_member("trait_type"@), item.text_member("value"@)) {
        (Some(trait_type), Some(value)) => Some((trait_type, value)),
        _ => None,
    }
}

/// The traits that the elements of `attributes` write, in the order of the
/// document. Nothing where one element writes none.
pub open spec fn attributes_of(items: Seq<Json>) -> Option<Seq<(Seq<char>, Seq<char>)>> {
    if forall|i: int| 0 <= i < items.len() ==> (#[trigger] attribute_of(items[i])) is Some {
        Some(Seq::new(items.len(), |i: int| attribute_of(items[i])->Some_0))
    } else {
        None
    }
}

/// The metadata of token `token_id`, whose document at `token_uri` is
/// `document`. The document must hold a string under `image` and an array
/// under `attributes`, each element of which writes a trait.
pub open spec fn token_of(token_id: nat, token_uri: Seq<char>, document: Json) -> Result<
    TokenView,
    ResolveError,
> {
    match document.text_member("image"@) {
        None => Err(ResolveError::MissingField),
        Some(image_uri) => match document.member("attributes"@) {
            None => Err(ResolveError::MissingField),
            Some(listed) => match listed.items() {
                None => Err(ResolveError::MissingField),
                Some(items) => match attributes_of(items) {
                    None => Err(ResolveError::MissingField),
                    Some(attributes) => Ok(
                        TokenView { token_id: decimal(token_id), token_uri, image_uri, attributes },
                    ),
                },
            },
        },
    }
}

/// Whether `outcome` is what `wanted` says: the same failure, or metadata
/// with the same contents.
pub open spec fn token_matches(
    outcome: Result<TokenMetadata, ResolveError>,
    wanted: Result<TokenView, ResolveError>,
) -> bool {
    match outcome {
        Ok(token) => wanted == Ok::<TokenView, ResolveError>(token@),
        Err(e) => wanted == Err::<TokenView, ResolveError>(e),
    }
}

/// The trait that `item` writes.
pub fn attribute_from(item: &Json) -> (attribute: Option<Attribute>)
    ensures
        match attribute {
            Some(a) => attribute_of(*item) == Some(a@),
            None => attribute_of(*item) is None,
        },
{
    match item.get_str("trait_type") {
        None => None,
        Some(trait_type) => match item.get_str("value") {
            None => None,
            Some(value) => Some(
                Attribute {
                    trait_type: String::from_str(trait_type),
                    value: String::from_str(value),
                },
            ),
        },
    }
}

/// The traits that `items` write, in their order.
pub fn attributes_from(items: &Vec<Json>) -> (attributes: Option<Vec<Attribute>>)
    ensures
        match attributes {
            Some(list) => attributes_of(items@) == Some(attribute_views(list@)),
            None => attributes_of(items@) is None,
        },
{
    let mut list: Vec<Attribute> = Vec::new();
    let mut at: usize = 0;
    while at < items.len()
        invariant
            at <= items.len(),
            list.len() == at,
            forall|k: int| 0 <= k < at ==> attribute_of(items@[k]) == Some(#[trigger] list@[k]@),
        decreases items.len() - at,
    {
        match attribute_from(&items[at]) {
            None => {
                assert(attribute_of(items@[at as int]) is None);
                return None;
            },
            Some(attribute) => {
                list.push(attribute);
            },
        }
        at += 1;
    }
    proof {
        assert forall|i: int| 0 <= i < items@.len() implies (#[trigger] attribute_of(
            items@[i],
        )) is Some by {
            assert(attribute_of(items@[i]) == Some(list@[i]@));
        }
        assert(attributes_of(items@)->Some_0 =~= attribute_views(list@));
    }
    Some(list)
}

/// The metadata of token `token_id` out of its document. Fails as
/// [`ResolveError::MissingField`] where `image` is absent or no string, where
/// `attributes` is absent or no array, and where an element of `attributes`
/// lacks a string under `trait_type` or under `value`.
pub fn token_from_document(token_id: &U256, token_uri: &str, document: &Json) -> (outcome: Result<
    TokenMetadata,
    ResolveError,
>)
    ensures
        token_matches(outcome, token_of(token_id@, token_uri@, *document)),
        document.text_member("image"@) is None ==> outcome == Err::<TokenMetadata, ResolveError>(
            ResolveError::MissingField,
        ),
{
    let image_uri = match document.get_str("image") {
        None => {
            return Err(ResolveError::MissingField);
        },
        Some(image) => String::from_str(image),
    };
    let items = match document.get("attributes") {
        None => {
            return Err(ResolveError::MissingField);
        },
        Some(listed) => match listed.as_array() {
            None => {
                return Err(ResolveError::MissingField);
            },
            Some(items) => items,
        },
    };
    match attributes_from(items) {
        None => Err(ResolveError::MissingField),
        Some(attributes) => Ok(
            TokenMetadata {
                token_id: token_id.to_decimal(),
                token_uri: String::from_str(token_uri),
                image_uri,
                attributes,
            },
        ),
    }
}

/// A document that holds no string under `image` gives no metadata: the
/// resolution fails as [`ResolveError::MissingField`], whatever else the
/// document holds.
pub proof fn lemma_missing_image_fails(token_id: nat, token_uri: Seq<char>, document: Json)
    requires
        document.text_member("image"@) is None,
    ensures
        token_of(token_id, token_uri, document) == Err::<TokenView, ResolveError>(
            ResolveError::MissingField,
        ),
{
}

/// The traits of a token stand in the order of the document: there are as
/// many as `attributes` has elements, and the `i`-th is the one that the
/// `i`-th element writes.
pub proof fn lemma_attributes_keep_order(items: Seq<Json>, i: int)
    requires
        attributes_of(items) is Some,
        0 <= i < items.len(),
    ensures
        attributes_of(items)->Some_0.len() == items.len(),
        attribute_of(items[i]) == Some(attributes_of(items)->Some_0[i]),
{
}

/// The request for a token's metadata document: made once the registry has
/// reported the token's URI, and answered by the document's text.
#[derive(Debug, PartialEq, Eq)]
pub struct TokenRequest {
    /// The token's number.
    pub token_id: U256,
    /// The URI that the registry reports.
    pub token_uri: String,
    /// The address to fetch the document from.
    pub url: String,
}

/// What the registry's answer to a read of the token's URI leads to: the
/// address to fetch, or the end of the resolution where the read failed.
pub open spec fn request_of(gateway: Seq<char>, uri_read: Option<Seq<char>>) -> Result<
    (Seq<char>, Seq<char>),
    ResolveError,
> {
    match uri_read {
        None => Err(ResolveError::TokenUri),
        Some(token_uri) => Ok((token_uri, resolved(gateway, token_uri))),
    }
}

/// The metadata that the response to `token_uri`'s request leads to.
pub open spec fn completed(token_id: nat, token_uri: Seq<char>, response: Option<Seq<char>>) -> Result<
    TokenView,
    ResolveError,
> {
    match document_from(response) {
        Err(e) => Err(e),
        Ok(document) => token_of(token_id, token_uri, document),
    }
}

/// A response whose document holds no string under `image` completes no
/// token: the resolution fails as [`ResolveError::MissingField`].
pub proof fn lemma_response_without_image_fails(
    token_id: nat,
    token_uri: Seq<char>,
    body: Seq<char>,
)
    requires
        document_of(body) matches Some(document) && document.text_member("image"@) is None,
    ensures
        completed(token_id, token_uri, Some(body)) == Err::<TokenView, ResolveError>(
            ResolveError::MissingField,
        ),
{
}

/// Resolves single tokens, fetching through one gateway.
pub struct TokenResolver {
    /// Where content-addressed references are fetched.
    pub uris: UriResolver,
}

impl TokenResolver {
    /// A resolver that fetches through `uris`.
    pub fn new(uris: UriResolver) -> (resolver: TokenResolver)
        ensures
            resolver.uris == uris,
    {
        TokenResolver { uris }
    }

    /// First step: from the registry's answer to the read of the token's URI
    /// to the request for the document. `None` stands for a read that failed:
    /// the resolution then ends as [`ResolveError::TokenUri`], and no address
    /// is made up. A URI that the registry did report is taken as it is, an
    /// empty one too.
    pub fn request(&self, token_id: U256, uri_read: Option<String>) -> (outcome: Result<
        TokenRequest,
        ResolveError,
    >)
        ensures
            match outcome {
                Ok(request) => uri_read is Some && request.token_id == token_id
                    && request.token_uri == uri_read->Some_0 && request.url@ == resolved(
                    self.uris.gateway@,
                    request.token_uri@,
                ),
                Err(e) => uri_read is None && e == ResolveError::TokenUri,
            },
    {
        match uri_read {
            None => Err(ResolveError::TokenUri),
            Some(token_uri) => {
                let url = self.uris.resolve(token_uri.as_str());
                Ok(TokenRequest { token_id, token_uri, url })
            },
        }
    }

    /// Second step: from the response to the request to the token's metadata.
    /// `None` stands for a request that got no response.
    pub fn complete(&self, request: &TokenRequest, response: Option<&str>) -> (outcome: Result<
        TokenMetadata,
        ResolveError,
    >)
        ensures
            token_matches(
                outcome,
                completed(
                    request.token_id@,
                    request.token_uri@,
                    match response {
                        Some(body) => Some(body@),
                        None => None,
                    },
                ),
            ),
    {
        match fetched_document(response) {
            Err(e) => Err(e),
            Ok(document) => token_from_document(
                &request.token_id,
                request.token_uri.as_str(),
                &document,
            ),
        }
    }
}

} // verus!
