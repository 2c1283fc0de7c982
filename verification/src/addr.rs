//! Identities and storage addresses, and the deterministic derivation of the
//! address that holds a user's favorites record.

use vstd::prelude::*;

verus! {

/// An identity or storage address on the host ledger: an opaque byte string.
/// User identities and record addresses share one address space.
#[derive(Debug)]
pub struct Address {
    bytes: Vec<u8>,
}

impl View for Address {
    type V = Seq<u8>;

    closed spec fn view(&self) -> Seq<u8> {
        self.bytes@
    }
}

impl Address {
    /// Wraps raw identity or address bytes.
    pub fn new(bytes: Vec<u8>) -> (r: Address)
        ensures
            r@ == bytes@,
    {
        Address { bytes }
    }

    /// The raw bytes of this address.
    pub fn bytes(&self) -> (r: &Vec<u8>)
        ensures
            r@ == self@,
    {
        &self.bytes
    }
}

impl Clone for Address {
    fn clone(&self) -> (r: Address)
        ensures
            r@ == self@,
    {
        let n = self.bytes.len();
        let mut bytes: Vec<u8> = Vec::new();
        let mut i: usize = 0;
        while i < n
            invariant
                i <= n,
                n == self.bytes@.len(),
                bytes@ == self.bytes@.subrange(0, i as int),
            decreases n - i,
        {
            bytes.push(self.bytes[i]);
            i = i + 1;
            proof {
                assert(bytes@ =~= self.bytes@.subrange(0, i as int));
            }
        }
        proof {
            assert(bytes@ =~= self.bytes@);
        }
        Address { bytes }
    }
}

impl PartialEq for Address {
    fn eq(&self, other: &Address) -> (r: bool) {
        if self.bytes.len() != other.bytes.len() {
            return false;
        }
        let n = self.bytes.len();
        let mut i: usize = 0;
        while i < n
            invariant
                i <= n,
                n == self.bytes@.len(),
                n == other.bytes@.len(),
                forall|j: int| 0 <= j < i ==> self.bytes@[j] == other.bytes@[j],
            decreases n - i,
        {
            if self.bytes[i] != other.bytes[i] {
                return false;
            }
            i = i + 1;
        }
        proof {
            assert(self.bytes@ =~= other.bytes@);
        }
        true
    }
}

impl vstd::std_specs::cmp::PartialEqSpecImpl for Address {
    open spec fn obeys_eq_spec() -> bool {
        true
    }

    open spec fn eq_spec(&self, other: &Address) -> bool {
        self@ == other@
    }
}

/// The fixed namespace tag under which a user's favorites record is
/// addressed: the UTF-8 bytes of `"favorites"`.
pub open spec fn favorites_tag() -> Seq<u8> {
    seq![102u8, 97u8, 118u8, 111u8, 114u8, 105u8, 116u8, 101u8, 115u8]
}

fn favorites_tag_bytes() -> (r: Vec<u8>)
    ensures
        r@ == favorites_tag(),
{
    let mut v: Vec<u8> = Vec::new();
    v.push(102u8);
    v.push(97u8);
    v.push(118u8);
    v.push(111u8);
    v.push(114u8);
    v.push(105u8);
    v.push(116u8);
    v.push(101u8);
    v.push(115u8);
    proof {
        assert(v@ =~= favorites_tag());
    }
    v
}

/// The host's address-derivation digest for a namespace tag followed by key
/// material.  It is a fixed function of the two byte strings; the trusted
/// wrapper below is the only place that says anything about it.
pub uninterp spec fn address_hash(tag: Seq<u8>, key: Seq<u8>) -> Seq<u8>;

/// The derived location of a user's favorites record.
pub open spec fn favorites_address_of(user: Seq<u8>) -> Seq<u8> {
    address_hash(favorites_tag(), user)
}

/// Relies on `solana_sha256_hasher::hashv`: the SHA-256 digest of the
/// concatenation of the given byte slices, a pure function of its arguments
/// alone, returned as a 32-byte hash.
#[verifier::external_body]
fn hash_tag_and_key(tag: &[u8], key: &[u8]) -> (r: Vec<u8>)
    ensures
        r@ == address_hash(tag@, key@),
        r@.len() == 32,
{
    solana_sha256_hasher::hashv(&[tag, key]).to_bytes().to_vec()
}

/// Computes the unique storage address of `user`'s favorites record: the
/// host digest of the `"favorites"` namespace tag and the user's identity.
pub fn derive_favorites_address(user: &Address) -> (r: Address)
    ensures
        r@ == favorites_address_of(user@),
        r@.len() == 32,
{
    let tag = favorites_tag_bytes();
    let digest = hash_tag_and_key(tag.as_slice(), user.bytes.as_slice());
    Address { bytes: digest }
}

} // verus!
