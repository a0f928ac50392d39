//! Entry-point selectors.
//!
//! A selector addresses one entry point of a program. It is the first eight
//! bytes of the SHA-256 digest of `namespace:name`, so two programs that agree
//! on the two strings agree on the selector without sharing anything else.

use vstd::prelude::*;
use vstd::string::StringSliceAdditionalSpecFns;

verus! {

/// Number of bytes in a selector.
pub const SELECTOR_BYTES: usize = 8;

/// The byte that separates namespace and name in a preimage: an ASCII colon.
pub const SEPARATOR: u8 = 0x3a;

/// The namespace under which a program's public entry points are named.
pub const GLOBAL_NAMESPACE: &'static str = "global";

/// The SHA-256 digest of a byte string.
pub uninterp spec fn sha256(data: Seq<u8>) -> Seq<u8>;

/// The bytes that are hashed for `(namespace, name)`: the namespace, a colon,
/// the name.
pub open spec fn preimage(namespace: Seq<u8>, name: Seq<u8>) -> Seq<u8> {
    namespace + seq![SEPARATOR] + name
}

/// The selector that a digest gives: its first eight bytes.
pub open spec fn selector_of_digest(digest: Seq<u8>) -> Seq<u8> {
    digest.subrange(0, SELECTOR_BYTES as int)
}

/// The selector of the entry point `name` in `namespace`, both given as their
/// UTF-8 bytes.
pub open spec fn sighash(namespace: Seq<u8>, name: Seq<u8>) -> Seq<u8> {
    selector_of_digest(sha256(preimage(namespace, name)))
}

/// Calls `solana_program::hash::hash` and takes the digest's bytes with
/// `Hash::to_bytes`. Trusted: the 32 bytes returned are the SHA-256 digest of
/// `data`, a function of `data` alone.
#[verifier::external_body]
fn sha256_digest(data: &[u8]) -> (digest: [u8; 32])
    ensures
        digest@ == sha256(data@),
{
    solana_program::hash::hash(data).to_bytes()
}

/// Builds the bytes that are hashed for `(namespace, name)`.
pub fn selector_preimage(namespace: &str, name: &str) -> (bytes: Vec<u8>)
    ensures
        bytes@ == preimage(namespace.spec_bytes(), name.spec_bytes()),
{
    let mut bytes: Vec<u8> = Vec::new();
    bytes.extend_from_slice(namespace.as_bytes());
    bytes.push(SEPARATOR);
    bytes.extend_from_slice(name.as_bytes());
    assert(bytes@ =~= preimage(namespace.spec_bytes(), name.spec_bytes()));
    bytes
}

/// Cuts a digest down to a selector: its first eight bytes, in order.
pub fn selector_from_digest(digest: &[u8; 32]) -> (selector: [u8; 8])
    ensures
        selector@ == selector_of_digest(digest@),
{
    let mut selector: [u8; 8] = [0u8; 8];
    let mut i: usize = 0;
    while i < SELECTOR_BYTES
        invariant
            i <= SELECTOR_BYTES,
            forall|j: int| 0 <= j < i ==> selector@[j] == digest@[j],
        decreases SELECTOR_BYTES - i,
    {
        selector[i] = digest[i];
        i += 1;
    }
    assert(selector@ =~= selector_of_digest(digest@));
    selector
}

/// Compares two selectors byte by byte.
pub fn same_selector(a: &[u8; 8], b: &[u8; 8]) -> (same: bool)
    ensures
        same == (a@ == b@),
{
    let mut i: usize = 0;
    while i < SELECTOR_BYTES
        invariant
            i <= SELECTOR_BYTES,
            forall|j: int| 0 <= j < i ==> a@[j] == b@[j],
        decreases SELECTOR_BYTES - i,
    {
        if a[i] != b[i] {
            return false;
        }
        i += 1;
    }
    assert(a@ =~= b@);
    true
}

/// Derives the selector of the entry point `name` in `namespace`.
///
/// The result depends on the two strings alone: every caller, in every
/// process, gets the same eight bytes for the same pair.
pub fn get_sighash(namespace: &str, name: &str) -> (selector: [u8; 8])
    ensures
        selector@ == sighash(namespace.spec_bytes(), name.spec_bytes()),
{
    let bytes = selector_preimage(namespace, name);
    let digest = sha256_digest(bytes.as_slice());
    selector_from_digest(&digest)
}

/// Determinism: whatever two calls of `get_sighash` return for one pair of
/// strings is the same eight bytes.
pub proof fn lemma_sighash_deterministic(
    namespace: &str,
    name: &str,
    first: [u8; 8],
    second: [u8; 8],
)
    requires
        first@ == sighash(namespace.spec_bytes(), name.spec_bytes()),
        second@ == sighash(namespace.spec_bytes(), name.spec_bytes()),
    ensures
        first == second,
{
    assert(first@ =~= second@);
}

/// Under one namespace, different names are hashed from different bytes: two
/// names can share a selector only where the hash function collides.
pub proof fn lemma_preimage_separates_names(namespace: Seq<u8>, first: Seq<u8>, second: Seq<u8>)
    requires
        first != second,
    ensures
        preimage(namespace, first) != preimage(namespace, second),
{
    let skip = namespace.len() + 1;
    let a = preimage(namespace, first);
    let b = preimage(namespace, second);
    assert(a.subrange(skip as int, a.len() as int) =~= first);
    assert(b.subrange(skip as int, b.len() as int) =~= second);
}

/// Where neither namespace holds a colon, the hashed bytes tell the pair they
/// were built from: equal preimages come from equal namespaces and equal
/// names.
pub proof fn lemma_preimage_injective(
    namespace_a: Seq<u8>,
    name_a: Seq<u8>,
    namespace_b: Seq<u8>,
    name_b: Seq<u8>,
)
    requires
        !namespace_a.contains(SEPARATOR),
        !namespace_b.contains(SEPARATOR),
        preimage(namespace_a, name_a) == preimage(namespace_b, name_b),
    ensures
        namespace_a == namespace_b,
        name_a == name_b,
{
    let a = preimage(namespace_a, name_a);
    let b = preimage(namespace_b, name_b);
    let la = namespace_a.len() as int;
    let lb = namespace_b.len() as int;
    assert(a[la] == SEPARATOR);
    assert(b[lb] == SEPARATOR);
    if la < lb {
        assert(b[la] == namespace_b[la]);
        assert(namespace_b.contains(SEPARATOR));
    }
    if lb < la {
        assert(a[lb] == namespace_a[lb]);
        assert(namespace_a.contains(SEPARATOR));
    }
    assert(namespace_a =~= a.subrange(0, la));
    assert(namespace_b =~= b.subrange(0, lb));
    assert(name_a =~= a.subrange(la + 1, a.len() as int));
    assert(name_b =~= b.subrange(lb + 1, b.len() as int));
}

} // verus!
