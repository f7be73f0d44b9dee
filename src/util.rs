//! Rewriting of content-addressed locators into gateway URLs.

use vstd::prelude::*;

verus! {

/// The public HTTP gateway that serves IPFS content.
pub const IPFS_GATEWAY: &'static str = "https://ipfs.io/ipfs/";

/// The scheme prefix of an IPFS locator.
pub const IPFS_SCHEME: &'static str = "ipfs://";

/// The message of the error for a locator outside the IPFS scheme.
pub const INVALID_IPFS_HASH: &'static str = "Invalid IPFS hash, must start with 'ipfs://' prefix";

/// The characters of the IPFS scheme prefix.
pub open spec fn ipfs_scheme() -> Seq<char> {
    "ipfs://"@
}

/// The characters of the gateway base URL.
pub open spec fn ipfs_gateway() -> Seq<char> {
    "https://ipfs.io/ipfs/"@
}

/// `s` starts with the IPFS scheme prefix.
pub open spec fn is_ipfs_uri(s: Seq<char>) -> bool {
    s.len() >= ipfs_scheme().len() && s.subrange(0, ipfs_scheme().len() as int) == ipfs_scheme()
}

/// The gateway URL for an IPFS locator: the gateway base followed by the content id.
pub open spec fn gateway_url(s: Seq<char>) -> Seq<char> {
    ipfs_gateway() + s.subrange(ipfs_scheme().len() as int, s.len() as int)
}

/// Rewrites an `ipfs://<cid>` locator into `https://ipfs.io/ipfs/<cid>`; any other
/// form is rejected.
pub fn ipfs_to_http(ipfs_hash: &str) -> (r: Result<String, &'static str>)
    ensures
        is_ipfs_uri(ipfs_hash@) <==> r is Ok,
        r matches Ok(url) ==> url@ == gateway_url(ipfs_hash@),
        r matches Err(m) ==> m@ == "Invalid IPFS hash, must start with 'ipfs://' prefix"@,
{
    proof {
        reveal_strlit("ipfs://");
        reveal_strlit("https://ipfs.io/ipfs/");
    }
    let scheme = IPFS_SCHEME;
    let n: usize = scheme.unicode_len();
    let len: usize = ipfs_hash.unicode_len();
    if len < n {
        return Err(INVALID_IPFS_HASH);
    }
    let mut i: usize = 0;
    while i < n
        invariant
            n == ipfs_scheme().len(),
            scheme@ == ipfs_scheme(),
            n <= len,
            len == ipfs_hash@.len(),
            i <= n,
            forall|j: int| 0 <= j < i ==> ipfs_hash@[j] == ipfs_scheme()[j],
        decreases n - i,
    {
        if ipfs_hash.get_char(i) != scheme.get_char(i) {
            assert(ipfs_hash@.subrange(0, n as int)[i as int] != ipfs_scheme()[i as int]);
            return Err(INVALID_IPFS_HASH);
        }
        i = i + 1;
    }
    assert(ipfs_hash@.subrange(0, n as int) =~= ipfs_scheme());
    let hash = ipfs_hash.substring_char(n, len);
    let url = String::from_str(IPFS_GATEWAY).concat(hash);
    Ok(url)
}

/// An IPFS locator with content id `cid` is accepted, and resolves to the gateway
/// base URL followed by `cid`.
pub proof fn ipfs_locator_resolves(cid: Seq<char>)
    ensures
        is_ipfs_uri(ipfs_scheme() + cid),
        gateway_url(ipfs_scheme() + cid) == ipfs_gateway() + cid,
{
    let s = ipfs_scheme() + cid;
    assert(s.subrange(0, ipfs_scheme().len() as int) =~= ipfs_scheme());
    assert(s.subrange(ipfs_scheme().len() as int, s.len() as int) =~= cid);
}

} // verus!
