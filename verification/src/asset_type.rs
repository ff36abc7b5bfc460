//! Asset types, identified by an opaque 32-byte identifier that must resolve
//! to a value-commitment generator point.

use vstd::prelude::*;

use crate::byteops::push_bytes;
use crate::crypto::blake2s_hash;
use crate::crypto::blake2s_of;
use crate::crypto::point_is_identity;
use crate::crypto::subgroup_decodable;
use crate::group_hash::group_hash;
use crate::group_hash::spec_group_hash;
use vstd::pervasive::unreached;

verus! {

/// Personalization under which an asset identifier is hashed to its
/// value-commitment generator: the ASCII bytes of `MASP__v_`.
pub const VALUE_COMMITMENT_GENERATOR_PERSONALIZATION: [u8; 8] = [
    0x4d, 0x41, 0x53, 0x50, 0x5f, 0x5f, 0x76, 0x5f,
];

/// Personalization under which an asset name is hashed to its identifier:
/// the ASCII bytes of `MASP__t_`.
pub const ASSET_IDENTIFIER_PERSONALIZATION: [u8; 8] = [
    0x4d, 0x41, 0x53, 0x50, 0x5f, 0x5f, 0x74, 0x5f,
];

/// An asset type: a 32-byte identifier known to resolve to a generator
/// point of the prime-order subgroup.
#[derive(Clone, Copy, Debug)]
pub struct AssetType {
    identifier: [u8; 32],
}

impl AssetType {
    /// Every constructed asset type resolves to a generator point.
    #[verifier::type_invariant]
    spec fn type_wf(self) -> bool {
        AssetType::identifier_valid(self.identifier@)
    }

    /// Whether a 32-byte identifier resolves to a generator point.
    pub open spec fn identifier_valid(identifier: Seq<u8>) -> bool {
        spec_group_hash(identifier, VALUE_COMMITMENT_GENERATOR_PERSONALIZATION@) is Some
    }

    /// The identifier bytes.
    pub closed spec fn spec_identifier(self) -> Seq<u8> {
        self.identifier@
    }

    /// Resolves an identifier; `None` exactly when it does not hash to a
    /// usable generator point.
    pub fn from_identifier(identifier: &[u8; 32]) -> (r: Option<AssetType>)
        ensures
            (match r {
                Some(a) => AssetType::identifier_valid(identifier@) && a.spec_identifier()
                    == identifier@,
                None => !AssetType::identifier_valid(identifier@),
            }),
    {
        match group_hash(identifier.as_slice(), &VALUE_COMMITMENT_GENERATOR_PERSONALIZATION) {
            Some(_) => Some(AssetType { identifier: *identifier }),
            None => None,
        }
    }

    /// The identifier of this asset type.
    pub fn get_identifier(&self) -> (r: &[u8; 32])
        ensures
            r@ == self.spec_identifier(),
    {
        &self.identifier
    }

    /// The generator point for this asset's value commitments.
    pub open spec fn spec_asset_generator(self) -> Seq<u8> {
        spec_group_hash(
            self.spec_identifier(),
            VALUE_COMMITMENT_GENERATOR_PERSONALIZATION@,
        ).unwrap()
    }

    /// The generator point for this asset's value commitments.
    pub fn asset_generator(&self) -> (r: [u8; 32])
        ensures
            r@ == self.spec_asset_generator(),
            subgroup_decodable(r@),
            !point_is_identity(r@),
    {
        proof {
            use_type_invariant(self);
        }
        match group_hash(self.identifier.as_slice(), &VALUE_COMMITMENT_GENERATOR_PERSONALIZATION) {
            Some(p) => p,
            None => unreached(),
        }
    }

    /// Derives the asset type for a name: the identifier is the BLAKE2s hash
    /// of the name extended by the first nonce byte that makes it resolve;
    /// `None` if all 256 nonces fail.
    pub fn new(name: &[u8]) -> (r: Option<AssetType>)
        ensures
            (match r {
                Some(a) => spec_asset_type_for_name(name@, 0) == Some(a.spec_identifier()),
                None => spec_asset_type_for_name(name@, 0) is None,
            }),
    {
        let mut nonce: usize = 0;
        while nonce < 256
            invariant
                nonce <= 256,
                spec_asset_type_for_name(name@, 0) == spec_asset_type_for_name(
                    name@,
                    nonce as nat,
                ),
            decreases 256 - nonce,
        {
            let mut data: Vec<u8> = Vec::new();
            push_bytes(&mut data, name);
            data.push(nonce as u8);
            proof {
                assert(data@ =~= name@.push(nonce as u8));
            }
            let digest = blake2s_hash(&ASSET_IDENTIFIER_PERSONALIZATION, data.as_slice());
            match AssetType::from_identifier(&digest) {
                Some(a) => {
                    return Some(a);
                },
                None => {
                },
            }
            nonce = nonce + 1;
        }
        None
    }
}

/// The identifier derived for an asset name from the first nonce (searched
/// upwards from `from`, exclusive bound 256) whose hash resolves.
pub open spec fn spec_asset_type_for_name(name: Seq<u8>, from: nat) -> Option<Seq<u8>>
    decreases 256 - from,
{
    if from >= 256 {
        None
    } else {
        let identifier = blake2s_of(ASSET_IDENTIFIER_PERSONALIZATION@, name.push(from as u8));
        if AssetType::identifier_valid(identifier) {
            Some(identifier)
        } else {
            spec_asset_type_for_name(name, from + 1)
        }
    }
}

} // verus!
