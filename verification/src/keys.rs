//! Key derivation: the deterministic, collision-free mapping from a
//! collection identifier and an asset identifier (and, for offers, the
//! offerer's identity) to the record key the stores are addressed by. A key
//! is an opaque token: never parsed, only compared for equality.

use vstd::bytes::*;
use vstd::prelude::*;

use crate::hexenc::{hex_encode, hex_of, lemma_hex_of_injective};

verus! {

/// The key of an asset's listing or auction slot: the hexadecimal rendering
/// of the collection identifier followed by the asset identifier in
/// fixed-width little-endian bytes.
pub open spec fn listing_key_spec(collection: Seq<u8>, token_id: u64) -> Seq<char> {
    hex_of(collection + spec_u64_to_le_bytes(token_id))
}

/// The key of an offer slot: as a listing key, with the offerer's identity
/// between the collection and the asset identifier.
pub open spec fn offer_key_spec(collection: Seq<u8>, token_id: u64, offerer: u64) -> Seq<char> {
    hex_of(collection + spec_u64_to_le_bytes(offerer) + spec_u64_to_le_bytes(token_id))
}

/// Derives the record key of an asset's listing or auction slot.
pub fn get_listing_key(collection: &Vec<u8>, token_id: u64) -> (r: String)
    ensures
        r@ == listing_key_spec(collection@, token_id),
{
    let mut bytes: Vec<u8> = Vec::new();
    bytes.extend_from_slice(collection.as_slice());
    let mut id_bytes = u64_to_le_bytes(token_id);
    bytes.append(&mut id_bytes);
    assert(bytes@ =~= collection@ + spec_u64_to_le_bytes(token_id));
    hex_encode(bytes.as_slice())
}

/// Derives the record key of an offer slot.
pub fn get_offer_key(collection: &Vec<u8>, token_id: u64, offerer: u64) -> (r: String)
    ensures
        r@ == offer_key_spec(collection@, token_id, offerer),
{
    let mut bytes: Vec<u8> = Vec::new();
    bytes.extend_from_slice(collection.as_slice());
    let mut offerer_bytes = u64_to_le_bytes(offerer);
    bytes.append(&mut offerer_bytes);
    let mut id_bytes = u64_to_le_bytes(token_id);
    bytes.append(&mut id_bytes);
    assert(bytes@ =~= collection@ + spec_u64_to_le_bytes(offerer) + spec_u64_to_le_bytes(token_id));
    hex_encode(bytes.as_slice())
}

/// Key derivation is collision-resistant: distinct (collection, asset) pairs
/// always derive distinct listing keys, so repeated derivation from the same
/// inputs — and only from the same inputs — reaches the same record slot.
pub proof fn lemma_listing_key_injective(c1: Seq<u8>, t1: u64, c2: Seq<u8>, t2: u64)
    requires
        listing_key_spec(c1, t1) == listing_key_spec(c2, t2),
    ensures
        c1 == c2,
        t1 == t2,
{
    lemma_auto_spec_u64_to_from_le_bytes();
    let a1 = c1 + spec_u64_to_le_bytes(t1);
    let a2 = c2 + spec_u64_to_le_bytes(t2);
    lemma_hex_of_injective(a1, a2);
    assert(c1.len() == c2.len());
    assert(c1 =~= a1.subrange(0, c1.len() as int));
    assert(c2 =~= a2.subrange(0, c2.len() as int));
    assert(spec_u64_to_le_bytes(t1) =~= a1.subrange(c1.len() as int, a1.len() as int));
    assert(spec_u64_to_le_bytes(t2) =~= a2.subrange(c2.len() as int, a2.len() as int));
    assert(spec_u64_from_le_bytes(spec_u64_to_le_bytes(t1)) == spec_u64_from_le_bytes(
        spec_u64_to_le_bytes(t2),
    ));
}

/// Offer keys are collision-resistant in all three components.
pub proof fn lemma_offer_key_injective(
    c1: Seq<u8>,
    t1: u64,
    o1: u64,
    c2: Seq<u8>,
    t2: u64,
    o2: u64,
)
    requires
        offer_key_spec(c1, t1, o1) == offer_key_spec(c2, t2, o2),
    ensures
        c1 == c2,
        t1 == t2,
        o1 == o2,
{
    lemma_auto_spec_u64_to_from_le_bytes();
    let a1 = c1 + spec_u64_to_le_bytes(o1) + spec_u64_to_le_bytes(t1);
    let a2 = c2 + spec_u64_to_le_bytes(o2) + spec_u64_to_le_bytes(t2);
    lemma_hex_of_injective(a1, a2);
    assert(c1.len() == c2.len());
    assert(c1 =~= a1.subrange(0, c1.len() as int));
    assert(c2 =~= a2.subrange(0, c2.len() as int));
    assert(spec_u64_to_le_bytes(o1) =~= a1.subrange(c1.len() as int, c1.len() + 8 as int));
    assert(spec_u64_to_le_bytes(o2) =~= a2.subrange(c2.len() as int, c2.len() + 8 as int));
    assert(spec_u64_to_le_bytes(t1) =~= a1.subrange(c1.len() + 8 as int, a1.len() as int));
    assert(spec_u64_to_le_bytes(t2) =~= a2.subrange(c2.len() + 8 as int, a2.len() as int));
    assert(spec_u64_from_le_bytes(spec_u64_to_le_bytes(o1)) == spec_u64_from_le_bytes(
        spec_u64_to_le_bytes(o2),
    ));
    assert(spec_u64_from_le_bytes(spec_u64_to_le_bytes(t1)) == spec_u64_from_le_bytes(
        spec_u64_to_le_bytes(t2),
    ));
}

} // verus!
