use nft_resolver::error::ResolveError;
use nft_resolver::fetch::fetched_document;
use nft_resolver::json::{parse, Json};
use nft_resolver::token::{
    attribute_from, attributes_from, token_from_document, Attribute, TokenMetadata, TokenRequest,
    TokenResolver,
};
use nft_resolver::u256::U256;
use nft_resolver::uri::UriResolver;

fn text(s: &str) -> Json {
    Json::Text(String::from(s))
}

fn object(entries: Vec<(&str, Json)>) -> Json {
    Json::Object(entries.into_iter().map(|(key, value)| (String::from(key), value)).collect())
}

fn attribute(trait_type: &str, value: &str) -> Attribute {
    Attribute { trait_type: String::from(trait_type), value: String::from(value) }
}

fn trait_entry(trait_type: &str, value: &str) -> Json {
    object(vec![("trait_type", text(trait_type)), ("value", text(value))])
}

fn resolver() -> TokenResolver {
    TokenResolver::new(UriResolver::new())
}

const EYES_AND_HAT: &str = "{\"image\": \"ipfs://QmImage/7.png\", \"attributes\": [{\"trait_type\":\"Eyes\",\"value\":\"Blue\"},{\"trait_type\":\"Hat\",\"value\":\"Red\"}]}";

#[test]
fn fetched_document_reads_the_body() {
    assert_eq!(fetched_document(Some("{\"a\": null}")), Ok(object(vec![("a", Json::Null)])));
}

#[test]
fn fetched_document_fails_without_a_response() {
    assert_eq!(fetched_document(None), Err(ResolveError::Fetch));
}

#[test]
fn fetched_document_fails_on_malformed_json() {
    assert_eq!(fetched_document(Some("not json")), Err(ResolveError::Parse));
    assert_eq!(fetched_document(Some("")), Err(ResolveError::Parse));
}

#[test]
fn attribute_ordering_is_preserved() {
    let document = parse(EYES_AND_HAT).unwrap();
    let token = token_from_document(&U256::from_u64(7), "ipfs://QmMeta/7", &document).unwrap();
    assert_eq!(token.attributes, vec![attribute("Eyes", "Blue"), attribute("Hat", "Red")]);
}

#[test]
fn attributes_are_not_sorted() {
    let document = object(vec![
        ("image", text("i")),
        (
            "attributes",
            Json::Array(vec![
                trait_entry("Zeta", "1"),
                trait_entry("Alpha", "2"),
                trait_entry("Zeta", "0"),
            ]),
        ),
    ]);
    let token = token_from_document(&U256::zero(), "u", &document).unwrap();
    assert_eq!(
        token.attributes,
        vec![attribute("Zeta", "1"), attribute("Alpha", "2"), attribute("Zeta", "0")]
    );
}

#[test]
fn token_holds_what_the_document_says() {
    let document = parse(EYES_AND_HAT).unwrap();
    let token = token_from_document(&U256::from_u64(7), "ipfs://QmMeta/7", &document);
    assert_eq!(
        token,
        Ok(TokenMetadata {
            token_id: String::from("7"),
            token_uri: String::from("ipfs://QmMeta/7"),
            image_uri: String::from("ipfs://QmImage/7.png"),
            attributes: vec![attribute("Eyes", "Blue"), attribute("Hat", "Red")],
        })
    );
}

#[test]
fn image_uri_is_kept_as_it_stands() {
    let document = object(vec![("image", text("ipfs://QmImage")), ("attributes", Json::Array(vec![]))]);
    let token = token_from_document(&U256::zero(), "u", &document).unwrap();
    assert_eq!(token.image_uri, "ipfs://QmImage");
    assert_eq!(token.attributes, vec![]);
}

#[test]
fn token_id_is_rendered_in_decimal() {
    let document = object(vec![("image", text("i")), ("attributes", Json::Array(vec![]))]);
    let id = U256::from_limbs(0, 1, 0, 0);
    assert_eq!(token_from_document(&id, "u", &document).unwrap().token_id, "18446744073709551616");
    let largest = U256::from_limbs(u64::MAX, u64::MAX, u64::MAX, u64::MAX);
    assert_eq!(
        token_from_document(&largest, "u", &document).unwrap().token_id,
        "115792089237316195423570985008687907853269984665640564039457584007913129639935"
    );
}

#[test]
fn document_without_image_is_a_missing_field() {
    let document = parse("{\"attributes\": []}").unwrap();
    assert_eq!(
        token_from_document(&U256::from_u64(1), "u", &document),
        Err(ResolveError::MissingField)
    );
}

#[test]
fn image_of_another_type_is_a_missing_field() {
    for image in [Json::Null, Json::Number(String::from("1")), Json::Array(vec![]), Json::Bool(true)] {
        let document = object(vec![("image", image), ("attributes", Json::Array(vec![]))]);
        assert_eq!(
            token_from_document(&U256::zero(), "u", &document),
            Err(ResolveError::MissingField)
        );
    }
}

#[test]
fn document_without_attributes_is_a_missing_field() {
    let document = parse("{\"image\": \"i\"}").unwrap();
    assert_eq!(token_from_document(&U256::zero(), "u", &document), Err(ResolveError::MissingField));
}

#[test]
fn attributes_of_another_type_are_a_missing_field() {
    for attributes in [Json::Null, text("[]"), object(vec![]), Json::Number(String::from("0"))] {
        let document = object(vec![("image", text("i")), ("attributes", attributes)]);
        assert_eq!(
            token_from_document(&U256::zero(), "u", &document),
            Err(ResolveError::MissingField)
        );
    }
}

#[test]
fn one_bad_attribute_fails_the_token() {
    let bad = vec![
        object(vec![("trait_type", text("Eyes"))]),
        object(vec![("value", text("Blue"))]),
        object(vec![("trait_type", text("Eyes")), ("value", Json::Number(String::from("3")))]),
        object(vec![("trait_type", Json::Null), ("value", text("Blue"))]),
        text("Eyes"),
        Json::Null,
    ];
    for item in bad {
        let document = object(vec![
            ("image", text("i")),
            ("attributes", Json::Array(vec![trait_entry("Hat", "Red"), item])),
        ]);
        assert_eq!(
            token_from_document(&U256::zero(), "u", &document),
            Err(ResolveError::MissingField)
        );
    }
}

#[test]
fn document_that_is_no_object_is_a_missing_field() {
    for document in [Json::Null, Json::Array(vec![]), text("image")] {
        assert_eq!(
            token_from_document(&U256::zero(), "u", &document),
            Err(ResolveError::MissingField)
        );
    }
}

#[test]
fn attribute_from_wants_both_strings() {
    assert_eq!(attribute_from(&trait_entry("Eyes", "Blue")), Some(attribute("Eyes", "Blue")));
    assert_eq!(
        attribute_from(&object(vec![
            ("value", text("Blue")),
            ("display_type", text("x")),
            ("trait_type", text("Eyes")),
        ])),
        Some(attribute("Eyes", "Blue"))
    );
    assert_eq!(attribute_from(&object(vec![("trait_type", text("Eyes"))])), None);
    assert_eq!(attribute_from(&object(vec![])), None);
    assert_eq!(attribute_from(&Json::Array(vec![])), None);
}

#[test]
fn attributes_from_keeps_length_and_order() {
    assert_eq!(attributes_from(&vec![]), Some(vec![]));
    assert_eq!(
        attributes_from(&vec![trait_entry("b", "2"), trait_entry("a", "1")]),
        Some(vec![attribute("b", "2"), attribute("a", "1")])
    );
    assert_eq!(attributes_from(&vec![trait_entry("b", "2"), Json::Null]), None);
    assert_eq!(attributes_from(&vec![Json::Null, trait_entry("b", "2")]), None);
}

#[test]
fn request_resolves_the_reported_uri() {
    let request = resolver().request(U256::from_u64(5), Some(String::from("ipfs://QmMeta/5")));
    assert_eq!(
        request,
        Ok(TokenRequest {
            token_id: U256::from_u64(5),
            token_uri: String::from("ipfs://QmMeta/5"),
            url: String::from("https://gateway.ipfs.io/ipfs/QmMeta/5"),
        })
    );
    let plain = resolver().request(U256::zero(), Some(String::from("https://host/0.json"))).unwrap();
    assert_eq!(plain.url, "https://host/0.json");
    assert_eq!(plain.token_uri, "https://host/0.json");
}

#[test]
fn failed_uri_read_ends_the_resolution() {
    assert_eq!(resolver().request(U256::from_u64(5), None), Err(ResolveError::TokenUri));
}

#[test]
fn empty_uri_is_taken_as_reported() {
    let request = resolver().request(U256::zero(), Some(String::new())).unwrap();
    assert_eq!(request.token_uri, "");
    assert_eq!(request.url, "");
}

#[test]
fn complete_builds_the_token_from_the_response() {
    let resolver = resolver();
    let request = resolver.request(U256::from_u64(7), Some(String::from("ipfs://QmMeta/7"))).unwrap();
    assert_eq!(
        resolver.complete(&request, Some(EYES_AND_HAT)),
        Ok(TokenMetadata {
            token_id: String::from("7"),
            token_uri: String::from("ipfs://QmMeta/7"),
            image_uri: String::from("ipfs://QmImage/7.png"),
            attributes: vec![attribute("Eyes", "Blue"), attribute("Hat", "Red")],
        })
    );
}

#[test]
fn complete_passes_each_failure_on() {
    let resolver = resolver();
    let request = resolver.request(U256::from_u64(7), Some(String::from("https://h/7"))).unwrap();
    assert_eq!(resolver.complete(&request, None), Err(ResolveError::Fetch));
    assert_eq!(resolver.complete(&request, Some("<html>")), Err(ResolveError::Parse));
    assert_eq!(resolver.complete(&request, Some("{\"attributes\": []}")), Err(ResolveError::MissingField));
    assert_eq!(resolver.complete(&request, Some("{\"image\": \"i\"}")), Err(ResolveError::MissingField));
    assert_eq!(
        resolver.complete(&request, Some("{\"image\": \"i\", \"attributes\": [{\"trait_type\": \"a\", \"value\": 1}]}")),
        Err(ResolveError::MissingField)
    );
}
