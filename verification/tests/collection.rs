use nft_resolver::collection::{resolve_collection, text_read, CollectionMetadata, CollectionReads};
use nft_resolver::u256::U256;

fn some(s: &str) -> Option<String> {
    Some(String::from(s))
}

#[test]
fn every_read_answered() {
    let collection = resolve_collection(CollectionReads {
        name: some("Apes"),
        symbol: some("APE"),
        base_uri: some("ipfs://QmBase/"),
        total_supply: Some(U256::from_u64(10000)),
    });
    assert_eq!(
        collection,
        CollectionMetadata {
            name: String::from("Apes"),
            symbol: String::from("APE"),
            base_uri: String::from("ipfs://QmBase/"),
            total_supply: U256::from_u64(10000),
        }
    );
}

#[test]
fn every_read_failed() {
    let collection = resolve_collection(CollectionReads {
        name: None,
        symbol: None,
        base_uri: None,
        total_supply: None,
    });
    assert_eq!(collection.name, "");
    assert_eq!(collection.symbol, "");
    assert_eq!(collection.base_uri, "");
    assert_eq!(collection.total_supply, U256::zero());
}

#[test]
fn one_failed_read_leaves_the_others() {
    let collection = resolve_collection(CollectionReads {
        name: some("Apes"),
        symbol: some("APE"),
        base_uri: None,
        total_supply: Some(U256::from_u64(3)),
    });
    assert_eq!(collection.name, "Apes");
    assert_eq!(collection.symbol, "APE");
    assert_eq!(collection.base_uri, "");
    assert_eq!(collection.total_supply, U256::from_u64(3));

    let collection = resolve_collection(CollectionReads {
        name: None,
        symbol: some("APE"),
        base_uri: some("b"),
        total_supply: None,
    });
    assert_eq!(collection.name, "");
    assert_eq!(collection.symbol, "APE");
    assert_eq!(collection.base_uri, "b");
    assert_eq!(collection.total_supply, U256::zero());
}

#[test]
fn text_read_defaults_to_empty() {
    assert_eq!(text_read(some("x")), "x");
    assert_eq!(text_read(some("")), "");
    assert_eq!(text_read(None), "");
}
