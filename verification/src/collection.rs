//! Collection metadata out of four reads of the registry.

use crate::u256::U256;
use vstd::prelude::*;
use vstd::string::*;

verus! {

/// What a registry says of itself. It serves display only, so a field that
/// could not be read holds the zero of its type.
#[derive(Debug, PartialEq, Eq)]
pub struct CollectionMetadata {
    /// The collection's name.
    pub name: String,
    /// Its symbol.
    pub symbol: String,
    /// The base of its token URIs.
    pub base_uri: String,
    /// How many tokens it holds.
    pub total_supply: U256,
}

/// The outcome of the four reads, each on its own: `Some` with what the
/// registry answered, `None` where the read failed.
#[derive(Debug, PartialEq, Eq)]
pub struct CollectionReads {
    pub name: Option<String>,
    pub symbol: Option<String>,
    pub base_uri: Option<String>,
    pub total_supply: Option<U256>,
}

/// The text that a read gave, or the empty text where it failed.
pub open spec fn text_or_empty(read: Option<String>) -> Seq<char> {
    match read {
        Some(text) => text@,
        None => Seq::empty(),
    }
}

/// The number that a read gave, or zero where it failed.
pub open spec fn count_or_zero(read: Option<U256>) -> nat {
    match read {
        Some(count) => count@,
        None => 0,
    }
}

/// What a read gave, or the empty text where it failed.
pub fn text_read(read: Option<String>) -> (text: String)
    ensures
        text@ == text_or_empty(read),
{
    match read {
        Some(text) => text,
        None => String::new(),
    }
}

/// The collection's metadata out of the four reads. No failed read ends the
/// resolution: each field is what its own read gave, or the zero of its type,
/// whatever became of the other three.
pub fn resolve_collection(reads: CollectionReads) -> (collection: CollectionMetadata)
    ensures
        collection.name@ == text_or_empty(reads.name),
        collection.symbol@ == text_or_empty(reads.symbol),
        collection.base_uri@ == text_or_empty(reads.base_uri),
        collection.total_supply@ == count_or_zero(reads.total_supply),
        reads.name is None ==> collection.name@ == Seq::<char>::empty(),
        reads.symbol is None ==> collection.symbol@ == Seq::<char>::empty(),
        reads.base_uri is None ==> collection.base_uri@ == Seq::<char>::empty(),
        reads.total_supply is None ==> collection.total_supply@ == 0,
{
    let total_supply = match reads.total_supply {
        Some(count) => count,
        None => U256::zero(),
    };
    CollectionMetadata {
        name: text_read(reads.name),
        symbol: text_read(reads.symbol),
        base_uri: text_read(reads.base_uri),
        total_supply,
    }
}

} // verus!
