//! What a view of a collection, and of one of its tokens, shows: the rows of
//! its tables, and whether the token's image is rendered below them.

use crate::collection::CollectionMetadata;
use crate::token::{attribute_views, TokenMetadata, TokenView};
use crate::u256::decimal;
use vstd::prelude::*;
use vstd::string::*;

verus! {

/// One row of a table: a key and what is shown for it.
#[derive(Debug, PartialEq, Eq)]
pub struct Row {
    pub key: String,
    pub value: String,
}

impl View for Row {
    type V = (Seq<char>, Seq<char>);

    open spec fn view(&self) -> (Seq<char>, Seq<char>) {
        (self.key@, self.value@)
    }
}

/// The rows that `rows` hold, in their order.
pub open spec fn row_views(rows: Seq<Row>) -> Seq<(Seq<char>, Seq<char>)> {
    Seq::new(rows.len(), |i: int| rows[i]@)
}

/// The table of a collection that lives at `address`.
pub open spec fn collection_table(collection: CollectionMetadata, address: Seq<char>) -> Seq<
    (Seq<char>, Seq<char>),
> {
    seq![
        ("Name"@, collection.name@),
        ("Address"@, address),
        ("Uri"@, collection.base_uri@),
        ("Symbol"@, collection.symbol@),
        ("Total Supply"@, decimal(collection.total_supply@)),
    ]
}

/// The table of one token.
pub open spec fn token_table(token: TokenView) -> Seq<(Seq<char>, Seq<char>)> {
    seq![
        ("Token ID"@, token.token_id),
        ("Token Uri"@, token.token_uri),
        ("Image Url"@, token.image_uri),
    ]
}

/// A row that shows `value` for `key`.
pub fn row(key: &str, value: &str) -> (row: Row)
    ensures
        row@ == (key@, value@),
{
    Row { key: String::from_str(key), value: String::from_str(value) }
}

/// The rows of the table of a collection that lives at `address`.
pub fn collection_rows(collection: &CollectionMetadata, address: &str) -> (rows: Vec<Row>)
    ensures
        row_views(rows@) == collection_table(*collection, address@),
{
    let total_supply = collection.total_supply.to_decimal();
    let mut rows: Vec<Row> = Vec::new();
    rows.push(row("Name", collection.name.as_str()));
    rows.push(row("Address", address));
    rows.push(row("Uri", collection.base_uri.as_str()));
    rows.push(row("Symbol", collection.symbol.as_str()));
    rows.push(row("Total Supply", total_supply.as_str()));
    assert(row_views(rows@) =~= collection_table(*collection, address@));
    rows
}

/// The rows of the table of one token.
pub fn token_rows(token: &TokenMetadata) -> (rows: Vec<Row>)
    ensures
        row_views(rows@) == token_table(token@),
{
    let mut rows: Vec<Row> = Vec::new();
    rows.push(row("Token ID", token.token_id.as_str()));
    rows.push(row("Token Uri", token.token_uri.as_str()));
    rows.push(row("Image Url", token.image_uri.as_str()));
    assert(row_views(rows@) =~= token_table(token@));
    rows
}

/// The rows of the table of a token's attributes: one for each, in the order
/// of the metadata, with the trait as key.
pub fn attribute_rows(token: &TokenMetadata) -> (rows: Vec<Row>)
    ensures
        row_views(rows@) == token@.attributes,
{
    let mut rows: Vec<Row> = Vec::new();
    let mut at: usize = 0;
    while at < token.attributes.len()
        invariant
            at <= token.attributes.len(),
            rows.len() == at,
            forall|k: int| 0 <= k < at ==> (#[trigger] rows@[k])@ == token.attributes@[k]@,
        decreases token.attributes.len() - at,
    {
        let attribute = &token.attributes[at];
        rows.push(row(attribute.trait_type.as_str(), attribute.value.as_str()));
        at += 1;
    }
    assert(row_views(rows@) =~= attribute_views(token.attributes@));
    rows
}

/// The image that a view renders below its tables.
#[derive(Debug, PartialEq, Eq)]
pub struct RenderRequest {
    /// The image reference of the token's metadata.
    pub image_uri: String,
    /// How many attributes the table above the image holds.
    pub attribute_count: usize,
}

/// What a view shows of one token.
#[derive(Debug, PartialEq, Eq)]
pub struct TokenReport {
    /// The table of the token.
    pub rows: Vec<Row>,
    /// The table of its attributes.
    pub attributes: Vec<Row>,
    /// The image to render, where one was asked for.
    pub image: Option<RenderRequest>,
}

/// What a view shows.
#[derive(Debug, PartialEq, Eq)]
pub struct Report {
    /// The table of the collection.
    pub collection: Vec<Row>,
    /// The tables of the token, where one was asked for.
    pub token: Option<TokenReport>,
}

/// Whether `shown` is what a view shows of `token`: its two tables, and a
/// request for its image exactly where `show_image` asks for one.
pub open spec fn shows_token(shown: TokenReport, token: TokenMetadata, show_image: bool) -> bool {
    &&& row_views(shown.rows@) == token_table(token@)
    &&& row_views(shown.attributes@) == token@.attributes
    &&& shown.image is Some <==> show_image
    &&& shown.image matches Some(request) ==> request.image_uri@ == token.image_uri@
        && request.attribute_count == token.attributes.len()
}

/// What a view shows of `token`. The image is rendered only where
/// `show_image` asks for it.
pub fn token_report(token: &TokenMetadata, show_image: bool) -> (report: TokenReport)
    ensures
        shows_token(report, *token, show_image),
        !show_image ==> report.image is None,
{
    let image = if show_image {
        Some(
            RenderRequest {
                image_uri: token.image_uri.clone(),
                attribute_count: token.attributes.len(),
            },
        )
    } else {
        None
    };
    TokenReport { rows: token_rows(token), attributes: attribute_rows(token), image }
}

/// What a view of the collection at `address` shows: always the table of the
/// collection; the tables of `token` where one was resolved; and its image
/// only where `show_image` asks for it.
pub fn report(
    collection: &CollectionMetadata,
    address: &str,
    token: Option<&TokenMetadata>,
    show_image: bool,
) -> (report: Report)
    ensures
        row_views(report.collection@) == collection_table(*collection, address@),
        match (token, report.token) {
            (Some(t), Some(shown)) => shows_token(shown, *t, show_image),
            (None, None) => true,
            _ => false,
        },
        !show_image ==> (report.token matches Some(shown) ==> shown.image is None),
{
    let shown = match token {
        Some(t) => Some(token_report(t, show_image)),
        None => None,
    };
    Report { collection: collection_rows(collection, address), token: shown }
}

} // verus!
