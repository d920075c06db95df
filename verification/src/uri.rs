//! Rewriting of content-addressed references into addresses that can be
//! fetched over HTTP(S).

use vstd::prelude::*;
use vstd::string::*;

verus! {

/// The scheme that marks a content-addressed reference.
pub const IPFS_SCHEME: &'static str = "ipfs://";

/// The gateway through which content-addressed references are fetched by
/// default.
pub const IPFS_GATEWAY: &'static str = "https://gateway.ipfs.io/ipfs/";

/// Whether `uri` begins with the content-addressed scheme.
pub open spec fn is_content_addressed(uri: Seq<char>) -> bool {
    IPFS_SCHEME@.is_prefix_of(uri)
}

/// The address under which `uri` is fetched through `gateway`: the gateway
/// followed by what stands behind the scheme, or `uri` itself where it has
/// another scheme.
pub open spec fn resolved(gateway: Seq<char>, uri: Seq<char>) -> Seq<char> {
    if is_content_addressed(uri) {
        gateway + uri.skip(IPFS_SCHEME@.len() as int)
    } else {
        uri
    }
}

/// Whether `text` begins with `prefix`.
pub fn starts_with(text: &str, prefix: &str) -> (found: bool)
    ensures
        found == prefix@.is_prefix_of(text@),
{
    let wanted: usize = prefix.unicode_len();
    if text.unicode_len() < wanted {
        return false;
    }
    let mut at: usize = 0;
    while at < wanted
        invariant
            at <= wanted,
            wanted == prefix@.len(),
            wanted <= text@.len(),
            forall|k: int| 0 <= k < at ==> text@[k] == prefix@[k],
        decreases wanted - at,
    {
        if text.get_char(at) != prefix.get_char(at) {
            assert(prefix@[at as int] != text@.subrange(0, prefix@.len() as int)[at as int]);
            return false;
        }
        at += 1;
    }
    assert(prefix@ =~= text@.subrange(0, prefix@.len() as int));
    true
}

/// Turns references into fetchable addresses through one gateway.
pub struct UriResolver {
    /// The address that replaces the content-addressed scheme.
    pub gateway: String,
}

impl UriResolver {
    /// A resolver that goes through the default gateway.
    pub fn new() -> (resolver: UriResolver)
        ensures
            resolver.gateway@ == IPFS_GATEWAY@,
    {
        UriResolver { gateway: String::from_str(IPFS_GATEWAY) }
    }

    /// A resolver that goes through `gateway`.
    pub fn with_gateway(gateway: String) -> (resolver: UriResolver)
        ensures
            resolver.gateway == gateway,
    {
        UriResolver { gateway }
    }

    /// The address under which `uri` is fetched. A reference with another
    /// scheme comes back as it is; nothing behind the scheme is looked at.
    pub fn resolve(&self, uri: &str) -> (url: String)
        ensures
            url@ == resolved(self.gateway@, uri@),
            !is_content_addressed(uri@) ==> url@ == uri@,
            is_content_addressed(uri@) ==> url@ == self.gateway@ + uri@.skip(7),
    {
        proof {
            reveal_strlit("ipfs://");
        }
        if starts_with(uri, IPFS_SCHEME) {
            let rest = uri.substring_char(7, uri.unicode_len());
            let mut url = self.gateway.clone();
            url.append(rest);
            url
        } else {
            String::from_str(uri)
        }
    }
}

/// A reference that does not begin with the content-addressed scheme resolves
/// to itself, whatever the gateway.
pub proof fn lemma_other_schemes_unchanged(gateway: Seq<char>, uri: Seq<char>)
    requires
        !is_content_addressed(uri),
    ensures
        resolved(gateway, uri) == uri,
{
}

/// The scheme followed by any `rest` resolves to the gateway followed by
/// `rest`.
pub proof fn lemma_scheme_replaced_by_gateway(gateway: Seq<char>, rest: Seq<char>)
    ensures
        is_content_addressed(IPFS_SCHEME@ + rest),
        resolved(gateway, IPFS_SCHEME@ + rest) == gateway + rest,
{
    let uri = IPFS_SCHEME@ + rest;
    assert(uri.subrange(0, IPFS_SCHEME@.len() as int) =~= IPFS_SCHEME@);
    assert(uri.skip(IPFS_SCHEME@.len() as int) =~= rest);
}

/// Through the default gateway, `ipfs://` followed by any `rest` resolves to
/// `https://gateway.ipfs.io/ipfs/` followed by `rest`.
pub proof fn lemma_default_gateway_rewrite(rest: Seq<char>)
    ensures
        resolved(IPFS_GATEWAY@, "ipfs://"@ + rest) == "https://gateway.ipfs.io/ipfs/"@ + rest,
{
    lemma_scheme_replaced_by_gateway(IPFS_GATEWAY@, rest);
}

} // verus!
