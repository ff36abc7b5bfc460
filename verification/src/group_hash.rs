//! Hashing byte strings to points of the prime-order subgroup.

use vstd::prelude::*;

use crate::byteops::push_bytes;
use crate::crypto::blake2s_hash;
use crate::crypto::blake2s_of;
use crate::crypto::clear_cofactor_of;
use crate::crypto::cofactor_clear;
use crate::crypto::identity_check;
use crate::crypto::point_check;
use crate::crypto::point_decodable;
use crate::crypto::point_is_identity;
use crate::crypto::subgroup_decodable;

verus! {

/// First-block prefix mixed into every group hash: the ASCII bytes of the
/// 64-character hexadecimal seed string
/// `096b36a5804bfacef1691e173c366a47ff5ba84a44f26ddd7e8d9f79d5b42df0`.
pub const GH_FIRST_BLOCK: [u8; 64] = [
    0x30, 0x39, 0x36, 0x62, 0x33, 0x36, 0x61, 0x35, 0x38, 0x30, 0x34, 0x62, 0x66, 0x61, 0x63, 0x65,
    0x66, 0x31, 0x36, 0x39, 0x31, 0x65, 0x31, 0x37, 0x33, 0x63, 0x33, 0x36, 0x36, 0x61, 0x34, 0x37,
    0x66, 0x66, 0x35, 0x62, 0x61, 0x38, 0x34, 0x61, 0x34, 0x34, 0x66, 0x32, 0x36, 0x64, 0x64, 0x64,
    0x37, 0x65, 0x38, 0x64, 0x39, 0x66, 0x37, 0x39, 0x64, 0x35, 0x62, 0x34, 0x32, 0x64, 0x66, 0x30,
];

/// The group hash of `tag` under an 8-byte personalization: the BLAKE2s
/// digest of the seed block and the tag, decoded as a curve point and
/// cleared of its cofactor; `None` when the digest is not a canonical point
/// encoding or the cleared point is the identity.
pub open spec fn spec_group_hash(tag: Seq<u8>, personalization: Seq<u8>) -> Option<Seq<u8>> {
    let digest = blake2s_of(personalization, GH_FIRST_BLOCK@ + tag);
    if point_decodable(digest) {
        let p = clear_cofactor_of(digest);
        if point_is_identity(p) {
            None
        } else {
            Some(p)
        }
    } else {
        None
    }
}

/// Hashes `tag` to a point of the prime-order subgroup, or `None` when the
/// digest does not decode to a usable point.
pub fn group_hash(tag: &[u8], personalization: &[u8; 8]) -> (r: Option<[u8; 32]>)
    ensures
        (match r {
            Some(p) => spec_group_hash(tag@, personalization@) == Some(p@) && subgroup_decodable(
                p@,
            ) && !point_is_identity(p@),
            None => spec_group_hash(tag@, personalization@) is None,
        }),
{
    let mut data: Vec<u8> = Vec::new();
    push_bytes(&mut data, GH_FIRST_BLOCK.as_slice());
    push_bytes(&mut data, tag);
    let digest = blake2s_hash(personalization, data.as_slice());
    if point_check(&digest) {
        let p = cofactor_clear(&digest);
        if identity_check(&p) {
            None
        } else {
            Some(p)
        }
    } else {
        None
    }
}

/// The first nonce from `from` upwards (exclusive bound 256) whose group
/// hash of `tag` extended by that nonce byte succeeds, with its point.
pub open spec fn spec_find_group_hash(tag: Seq<u8>, personalization: Seq<u8>, from: nat) -> Option<
    Seq<u8>,
>
    decreases 256 - from,
{
    if from >= 256 {
        None
    } else {
        match spec_group_hash(tag.push(from as u8), personalization) {
            Some(p) => Some(p),
            None => spec_find_group_hash(tag, personalization, from + 1),
        }
    }
}

/// Derives a fixed generator: hashes `tag` extended by an increasing nonce
/// byte until a usable point comes out; `None` if all 256 nonces fail.
pub fn find_group_hash(tag: &[u8], personalization: &[u8; 8]) -> (r: Option<[u8; 32]>)
    ensures
        (match r {
            Some(p) => spec_find_group_hash(tag@, personalization@, 0) == Some(p@)
                && subgroup_decodable(p@) && !point_is_identity(p@),
            None => spec_find_group_hash(tag@, personalization@, 0) is None,
        }),
{
    let mut nonce: usize = 0;
    while nonce < 256
        invariant
            nonce <= 256,
            spec_find_group_hash(tag@, personalization@, 0) == spec_find_group_hash(
                tag@,
                personalization@,
                nonce as nat,
            ),
        decreases 256 - nonce,
    {
        let mut candidate: Vec<u8> = Vec::new();
        push_bytes(&mut candidate, tag);
        candidate.push(nonce as u8);
        proof {
            assert(candidate@ =~= tag@.push(nonce as u8));
        }
        match group_hash(candidate.as_slice(), personalization) {
            Some(p) => {
                return Some(p);
            },
            None => {
            },
        }
        nonce = nonce + 1;
    }
    None
}

} // verus!
