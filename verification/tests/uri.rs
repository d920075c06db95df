use nft_resolver::uri::{starts_with, UriResolver, IPFS_GATEWAY, IPFS_SCHEME};

#[test]
fn content_addressed_reference_goes_through_the_gateway() {
    let resolver = UriResolver::new();
    assert_eq!(
        resolver.resolve("ipfs://QmHash/1.json"),
        "https://gateway.ipfs.io/ipfs/QmHash/1.json"
    );
}

#[test]
fn scheme_alone_resolves_to_the_gateway() {
    let resolver = UriResolver::new();
    assert_eq!(resolver.resolve("ipfs://"), "https://gateway.ipfs.io/ipfs/");
}

#[test]
fn other_schemes_come_back_unchanged() {
    let resolver = UriResolver::new();
    assert_eq!(resolver.resolve("https://example.com/1.json"), "https://example.com/1.json");
    assert_eq!(resolver.resolve("http://example.com/ipfs://x"), "http://example.com/ipfs://x");
    assert_eq!(resolver.resolve("data:application/json,{}"), "data:application/json,{}");
}

#[test]
fn near_misses_of_the_scheme_come_back_unchanged() {
    let resolver = UriResolver::new();
    assert_eq!(resolver.resolve(""), "");
    assert_eq!(resolver.resolve("ipfs:/"), "ipfs:/");
    assert_eq!(resolver.resolve("ipfs:/x/y"), "ipfs:/x/y");
    assert_eq!(resolver.resolve("IPFS://QmHash"), "IPFS://QmHash");
    assert_eq!(resolver.resolve(" ipfs://QmHash"), " ipfs://QmHash");
}

#[test]
fn only_the_first_scheme_is_stripped() {
    let resolver = UriResolver::new();
    assert_eq!(
        resolver.resolve("ipfs://ipfs://QmHash"),
        "https://gateway.ipfs.io/ipfs/ipfs://QmHash"
    );
}

#[test]
fn remainder_is_not_validated() {
    let resolver = UriResolver::new();
    assert_eq!(
        resolver.resolve("ipfs://not a hash \u{1F600}/\u{e9}"),
        "https://gateway.ipfs.io/ipfs/not a hash \u{1F600}/\u{e9}"
    );
}

#[test]
fn another_gateway_replaces_the_scheme() {
    let resolver = UriResolver::with_gateway(String::from("http://localhost:8080/ipfs/"));
    assert_eq!(resolver.gateway, "http://localhost:8080/ipfs/");
    assert_eq!(resolver.resolve("ipfs://QmHash"), "http://localhost:8080/ipfs/QmHash");
    assert_eq!(resolver.resolve("https://example.com/a"), "https://example.com/a");
}

#[test]
fn default_resolver_holds_the_default_gateway() {
    assert_eq!(IPFS_SCHEME, "ipfs://");
    assert_eq!(IPFS_GATEWAY, "https://gateway.ipfs.io/ipfs/");
    assert_eq!(UriResolver::new().gateway, IPFS_GATEWAY);
}

#[test]
fn prefix_test_compares_characters() {
    assert!(starts_with("ipfs://x", "ipfs://"));
    assert!(starts_with("abc", ""));
    assert!(starts_with("", ""));
    assert!(starts_with("\u{e9}t\u{e9}", "\u{e9}t"));
    assert!(!starts_with("", "a"));
    assert!(!starts_with("ab", "abc"));
    assert!(!starts_with("abd", "abc"));
    assert!(!starts_with("e\u{301}", "\u{e9}"));
}
