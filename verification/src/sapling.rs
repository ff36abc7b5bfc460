//! Key and address model of the shielded pool: diversifiers, viewing keys,
//! incoming viewing keys, payment addresses, notes and value commitments.

use vstd::prelude::*;

use crate::asset_type::AssetType;
use crate::asset_type::VALUE_COMMITMENT_GENERATOR_PERSONALIZATION;
use crate::byteops::{array_eq, push_bytes, read_array};
use crate::crypto::blake2b_hash;
use crate::crypto::blake2b_of;
use crate::crypto::blake2s_hash;
use crate::crypto::blake2s_of;
use crate::crypto::clear_cofactor_of;
use crate::crypto::cofactor_clear;
use crate::crypto::identity_check;
use crate::crypto::point_add;
use crate::crypto::point_add_of;
use crate::crypto::point_check;
use crate::crypto::point_decodable;
use crate::crypto::point_is_identity;
use crate::crypto::point_mul;
use crate::crypto::point_mul_of;
use crate::crypto::random_scalar;
use crate::crypto::scalar_canonical;
use crate::crypto::scalar_check;
use crate::crypto::scalar_from_wide;
use crate::crypto::scalar_from_wide_of;
use crate::crypto::scalar_of_u64;
use crate::crypto::scalar_u64;
use crate::crypto::subgroup_check;
use crate::crypto::subgroup_decodable;
use crate::group_hash::find_group_hash;
use crate::group_hash::group_hash;
use crate::group_hash::spec_find_group_hash;
use crate::group_hash::spec_group_hash;
use vstd::pervasive::unreached;

verus! {

/// Personalization of the diversifier group hash: ASCII `MASP__gd`.
pub const KEY_DIVERSIFICATION_PERSONALIZATION: [u8; 8] = [
    0x4d, 0x41, 0x53, 0x50, 0x5f, 0x5f, 0x67, 0x64,
];

/// Personalization of the incoming-viewing-key hash: ASCII `MASP__iv`.
pub const CRH_IVK_PERSONALIZATION: [u8; 8] = [0x4d, 0x41, 0x53, 0x50, 0x5f, 0x5f, 0x69, 0x76];

/// Personalization under which the fixed spend-authorization generator is
/// derived: ASCII `MASP__G_`, with the one-byte tag `G`.
pub const SPENDING_KEY_GENERATOR_PERSONALIZATION: [u8; 8] = [
    0x4d, 0x41, 0x53, 0x50, 0x5f, 0x5f, 0x47, 0x5f,
];

/// Tag of the spend-authorization generator: ASCII `G`.
pub const SPENDING_KEY_GENERATOR_TAG: [u8; 1] = [0x47];

/// Personalization under which the fixed proof-generation generator is
/// derived: ASCII `MASP__H_`, with the one-byte tag `H`.
pub const PROOF_GENERATION_KEY_GENERATOR_PERSONALIZATION: [u8; 8] = [
    0x4d, 0x41, 0x53, 0x50, 0x5f, 0x5f, 0x48, 0x5f,
];

/// Tag of the proof-generation generator: ASCII `H`.
pub const PROOF_GENERATION_KEY_GENERATOR_TAG: [u8; 1] = [0x48];

/// Tag of the fixed value-commitment randomness generator: ASCII `r`.
pub const RANDOMNESS_GENERATOR_TAG: [u8; 1] = [0x72];

/// Personalization of the expansion hash that derives scalars from a note's
/// rseed: ASCII `MASP__ExpandSeed`.
pub const PRF_EXPAND_PERSONALIZATION: [u8; 16] = [
    0x4d, 0x41, 0x53, 0x50, 0x5f, 0x5f, 0x45, 0x78, 0x70, 0x61, 0x6e, 0x64, 0x53, 0x65, 0x65, 0x64,
];

/// Personalization of the note-commitment hash: ASCII `MASP__NoteCommit`.
pub const NOTE_COMMITMENT_PERSONALIZATION: [u8; 16] = [
    0x4d, 0x41, 0x53, 0x50, 0x5f, 0x5f, 0x4e, 0x6f, 0x74, 0x65, 0x43, 0x6f, 0x6d, 0x6d, 0x69, 0x74,
];

/// Largest value a note may carry.
pub const MAX_MONEY: u64 = 0x7fff_ffff_ffff_ffff;

/// Mathematical model of a payment address: the diversifier bytes and the
/// encoded diversified transmission key.
#[verifier::ext_equal]
pub ghost struct AddressModel {
    pub diversifier: Seq<u8>,
    pub pk_d: Seq<u8>,
}

/// Mathematical model of a note's rseed.
pub ghost enum RseedModel {
    BeforeZip212(Seq<u8>),
    AfterZip212(Seq<u8>),
}

/// Mathematical model of a note.
#[verifier::ext_equal]
pub ghost struct NoteModel {
    pub asset_identifier: Seq<u8>,
    pub value: u64,
    pub rseed: RseedModel,
    pub g_d: Seq<u8>,
    pub pk_d: Seq<u8>,
}

/// An 11-byte diversifier tag. Whether it is valid, i.e. maps to a base
/// point, is re-derivable from the bytes alone.
#[derive(Clone, Copy, Debug)]
pub struct Diversifier(pub [u8; 11]);

impl Diversifier {
    /// The diversified base point `g_d`, or `None` for an invalid
    /// diversifier.
    pub open spec fn spec_g_d(self) -> Option<Seq<u8>> {
        spec_group_hash(self.0@, KEY_DIVERSIFICATION_PERSONALIZATION@)
    }

    /// The diversified base point `g_d`, or `None` for an invalid
    /// diversifier.
    pub fn g_d(&self) -> (r: Option<[u8; 32]>)
        ensures
            (match r {
                Some(p) => self.spec_g_d() == Some(p@) && subgroup_decodable(p@)
                    && !point_is_identity(p@),
                None => self.spec_g_d() is None,
            }),
    {
        group_hash(self.0.as_slice(), &KEY_DIVERSIFICATION_PERSONALIZATION)
    }
}

/// An incoming viewing key: the canonical encoding of the recipient's
/// private key-agreement scalar.
#[derive(Clone, Copy, Debug)]
pub struct SaplingIvk {
    repr: [u8; 32],
}

impl SaplingIvk {
    /// The stored encoding is always canonical.
    #[verifier::type_invariant]
    spec fn type_wf(self) -> bool {
        scalar_canonical(self.repr@)
    }

    /// The canonical scalar encoding.
    pub closed spec fn spec_repr(self) -> Seq<u8> {
        self.repr@
    }

    /// Wraps the canonical encoding of a scalar; `None` when the bytes are
    /// not canonical.
    pub fn from_repr(repr: &[u8; 32]) -> (r: Option<SaplingIvk>)
        ensures
            (match r {
                Some(k) => scalar_canonical(repr@) && k.spec_repr() == repr@,
                None => !scalar_canonical(repr@),
            }),
    {
        if scalar_check(repr) {
            Some(SaplingIvk { repr: *repr })
        } else {
            None
        }
    }

    /// The scalar's canonical encoding.
    pub fn to_repr(&self) -> (r: [u8; 32])
        ensures
            r@ == self.spec_repr(),
            scalar_canonical(r@),
    {
        proof {
            use_type_invariant(self);
        }
        self.repr
    }

    /// The payment address this key derives for a diversifier, if any.
    pub fn to_payment_address(&self, diversifier: Diversifier) -> (r: Option<PaymentAddress>)
        ensures
            (match r {
                Some(a) => spec_ivk_to_payment_address(self.spec_repr(), diversifier.0@) == Some(
                    a@,
                ),
                None => spec_ivk_to_payment_address(self.spec_repr(), diversifier.0@) is None,
            }),
    {
        proof {
            use_type_invariant(self);
        }
        match diversifier.g_d() {
            Some(g_d) => {
                let pk_d = point_mul(&g_d, &self.repr);
                PaymentAddress::from_parts(diversifier, &pk_d)
            },
            None => None,
        }
    }
}

/// The address an incoming viewing key derives for a diversifier: `g_d`
/// times the key, rejected when the diversifier or the resulting
/// transmission key is unusable.
pub open spec fn spec_ivk_to_payment_address(ivk: Seq<u8>, diversifier: Seq<u8>) -> Option<
    AddressModel,
> {
    match spec_group_hash(diversifier, KEY_DIVERSIFICATION_PERSONALIZATION@) {
        Some(g_d) => spec_from_parts(diversifier, point_mul_of(g_d, ivk)),
        None => None,
    }
}

/// A key used to derive the nullifier for a note.
#[derive(Clone, Copy, Debug)]
pub struct NullifierDerivingKey(pub [u8; 32]);

/// A full viewing key: the spend-authorization validating key `ak` and the
/// nullifier-deriving key `nk`, both encoded subgroup points.
#[derive(Clone, Copy, Debug)]
pub struct ViewingKey {
    pub ak: [u8; 32],
    pub nk: NullifierDerivingKey,
}

/// Why parsing a viewing key failed.
#[derive(Clone, Copy, Debug, PartialEq, Eq, Structural)]
pub enum ViewingKeyDecodingError {
    /// Fewer than 64 bytes of input.
    Truncated,
    /// `ak` is not a prime-order point (or is the identity).
    AkNotPrimeOrder,
    /// `nk` is not a prime-order point (or is the identity).
    NkNotPrimeOrder,
}

/// The incoming-viewing-key scalar derived from `ak` and `nk`: their hash,
/// with the top five bits cleared so the result encodes a scalar.
pub open spec fn spec_ivk_repr(ak: Seq<u8>, nk: Seq<u8>) -> Seq<u8> {
    let h = blake2s_of(CRH_IVK_PERSONALIZATION@, ak + nk);
    h.update(31, (h[31] & 0x07) as u8)
}

impl ViewingKey {
    /// Derives the incoming viewing key: hash `ak` and `nk`, then clear the
    /// five most significant bits so the bytes encode a scalar.
    pub fn ivk(&self) -> (r: SaplingIvk)
        ensures
            r.spec_repr() == spec_ivk_repr(self.ak@, self.nk.0@),
    {
        let mut data: Vec<u8> = Vec::new();
        push_bytes(&mut data, self.ak.as_slice());
        push_bytes(&mut data, self.nk.0.as_slice());
        let mut h = blake2s_hash(&CRH_IVK_PERSONALIZATION, data.as_slice());
        let top = h[31];
        let masked = top & 0x07;
        proof {
            assert((top & 0x07) < 8) by (bit_vector);
        }
        h[31] = masked;
        let ok = scalar_check(&h);
        if ok {
            SaplingIvk { repr: h }
        } else {
            unreached()
        }
    }

    /// The payment address this key derives for a diversifier, if any.
    pub fn to_payment_address(&self, diversifier: Diversifier) -> (r: Option<PaymentAddress>)
        ensures
            (match r {
                Some(a) => spec_ivk_to_payment_address(
                    spec_ivk_repr(self.ak@, self.nk.0@),
                    diversifier.0@,
                ) == Some(a@),
                None => spec_ivk_to_payment_address(
                    spec_ivk_repr(self.ak@, self.nk.0@),
                    diversifier.0@,
                ) is None,
            }),
    {
        self.ivk().to_payment_address(diversifier)
    }

    /// The randomized validating key `ak + [ar] G`, where `G` is the fixed
    /// spend-authorization generator; `None` when `ar` is not canonical,
    /// `ak` is not a subgroup point, or the generator cannot be derived.
    pub fn rk(&self, ar: &[u8; 32]) -> (r: Option<[u8; 32]>)
        ensures
            (match r {
                Some(p) => spec_rk(self.ak@, ar@) == Some(p@),
                None => spec_rk(self.ak@, ar@) is None,
            }),
    {
        if !scalar_check(ar) {
            return None;
        }
        if !subgroup_check(&self.ak) {
            return None;
        }
        match find_group_hash(
            SPENDING_KEY_GENERATOR_TAG.as_slice(),
            &SPENDING_KEY_GENERATOR_PERSONALIZATION,
        ) {
            Some(g) => {
                let t = point_mul(&g, ar);
                Some(point_add(&self.ak, &t))
            },
            None => None,
        }
    }

    /// Parses a viewing key from 64 bytes: `ak` and `nk` must each be a
    /// non-identity prime-order point.
    pub fn read(bytes: &[u8]) -> (r: Result<ViewingKey, ViewingKeyDecodingError>)
        ensures
            (match r {
                Ok(vk) => bytes@.len() >= 64 && vk.ak@ == bytes@.subrange(0, 32) && vk.nk.0@
                    == bytes@.subrange(32, 64) && subgroup_decodable(vk.ak@) && !point_is_identity(
                    vk.ak@,
                ) && subgroup_decodable(vk.nk.0@) && !point_is_identity(vk.nk.0@),
                Err(e) => {
                    &&& (e == ViewingKeyDecodingError::Truncated <==> bytes@.len() < 64)
                    &&& (e == ViewingKeyDecodingError::AkNotPrimeOrder <==> bytes@.len() >= 64 && !(
                    subgroup_decodable(bytes@.subrange(0, 32)) && !point_is_identity(
                        bytes@.subrange(0, 32),
                    )))
                    &&& (e == ViewingKeyDecodingError::NkNotPrimeOrder <==> bytes@.len() >= 64
                        && subgroup_decodable(bytes@.subrange(0, 32)) && !point_is_identity(
                        bytes@.subrange(0, 32),
                    ) && !(subgroup_decodable(bytes@.subrange(32, 64)) && !point_is_identity(
                        bytes@.subrange(32, 64),
                    )))
                },
            }),
    {
        if bytes.len() < 64 {
            return Err(ViewingKeyDecodingError::Truncated);
        }
        let ak = read_array::<32>(bytes, 0);
        let nk = read_array::<32>(bytes, 32);
        if !subgroup_check(&ak) {
            return Err(ViewingKeyDecodingError::AkNotPrimeOrder);
        }
        if identity_check(&ak) {
            return Err(ViewingKeyDecodingError::AkNotPrimeOrder);
        }
        if !subgroup_check(&nk) {
            return Err(ViewingKeyDecodingError::NkNotPrimeOrder);
        }
        if identity_check(&nk) {
            return Err(ViewingKeyDecodingError::NkNotPrimeOrder);
        }
        Ok(ViewingKey { ak, nk: NullifierDerivingKey(nk) })
    }

    /// The 64-byte encoding: `ak` followed by `nk`.
    pub fn to_bytes(&self) -> (r: [u8; 64])
        ensures
            r@ == self.ak@ + self.nk.0@,
    {
        let mut data: Vec<u8> = Vec::new();
        push_bytes(&mut data, self.ak.as_slice());
        push_bytes(&mut data, self.nk.0.as_slice());
        read_array::<64>(data.as_slice(), 0)
    }
}

/// The randomized validating key `ak + [ar] G`.
pub open spec fn spec_rk(ak: Seq<u8>, ar: Seq<u8>) -> Option<Seq<u8>> {
    if scalar_canonical(ar) && subgroup_decodable(ak) {
        match spec_find_group_hash(
            SPENDING_KEY_GENERATOR_TAG@,
            SPENDING_KEY_GENERATOR_PERSONALIZATION@,
            0,
        ) {
            Some(g) => Some(point_add_of(ak, point_mul_of(g, ar))),
            None => None,
        }
    } else {
        None
    }
}

/// A proof-generation key: `ak` and the proof-authorizing scalar `nsk`.
#[derive(Clone, Debug)]
pub struct ProofGenerationKey {
    pub ak: [u8; 32],
    pub nsk: [u8; 32],
}

impl ProofGenerationKey {
    /// Derives the viewing key: `nk` is `[nsk] H` for the fixed
    /// proof-generation generator `H`; `None` when `nsk` is not canonical
    /// or the generator cannot be derived.
    pub fn to_viewing_key(&self) -> (r: Option<ViewingKey>)
        ensures
            (match r {
                Some(vk) => spec_to_viewing_key(self.ak@, self.nsk@) == Some(
                    (vk.ak@, vk.nk.0@),
                ),
                None => spec_to_viewing_key(self.ak@, self.nsk@) is None,
            }),
    {
        if !scalar_check(&self.nsk) {
            return None;
        }
        match find_group_hash(
            PROOF_GENERATION_KEY_GENERATOR_TAG.as_slice(),
            &PROOF_GENERATION_KEY_GENERATOR_PERSONALIZATION,
        ) {
            Some(h) => Some(
                ViewingKey { ak: self.ak, nk: NullifierDerivingKey(point_mul(&h, &self.nsk)) },
            ),
            None => None,
        }
    }
}

/// The `(ak, nk)` pair a proof-generation key derives.
pub open spec fn spec_to_viewing_key(ak: Seq<u8>, nsk: Seq<u8>) -> Option<(Seq<u8>, Seq<u8>)> {
    if scalar_canonical(nsk) {
        match spec_find_group_hash(
            PROOF_GENERATION_KEY_GENERATOR_TAG@,
            PROOF_GENERATION_KEY_GENERATOR_PERSONALIZATION@,
            0,
        ) {
            Some(h) => Some((ak, point_mul_of(h, nsk))),
            None => None,
        }
    } else {
        None
    }
}

/// A payment address: a diversifier and a diversified transmission key that
/// is a non-identity point of the prime-order subgroup.
#[derive(Clone, Copy, Debug)]
pub struct PaymentAddress {
    pub(crate) pk_d: [u8; 32],
    pub(crate) diversifier: Diversifier,
}

impl View for PaymentAddress {
    type V = AddressModel;

    open(crate) spec fn view(&self) -> AddressModel {
        AddressModel { diversifier: self.diversifier.0@, pk_d: self.pk_d@ }
    }
}

/// Whether a transmission key may stand in a payment address: a point of
/// the prime-order subgroup that is not the identity.
pub open spec fn spec_pk_d_valid(pk_d: Seq<u8>) -> bool {
    subgroup_decodable(pk_d) && !point_is_identity(pk_d)
}

/// The address built from a diversifier and a claimed transmission key,
/// rejected when the key is unusable.
pub open spec fn spec_from_parts(diversifier: Seq<u8>, pk_d: Seq<u8>) -> Option<AddressModel> {
    if spec_pk_d_valid(pk_d) {
        Some(AddressModel { diversifier, pk_d })
    } else {
        None
    }
}

/// The address parsed from its 43-byte encoding: the diversifier must map
/// to a base point and the transmission key must be usable.
pub open spec fn spec_address_from_bytes(bytes: Seq<u8>) -> Option<AddressModel> {
    let d = bytes.subrange(0, 11);
    let pk = bytes.subrange(11, 43);
    if spec_group_hash(d, KEY_DIVERSIFICATION_PERSONALIZATION@) is Some {
        spec_from_parts(d, pk)
    } else {
        None
    }
}

impl PartialEq for PaymentAddress {
    /// Addresses are equal when their encodings are.
    fn eq(&self, other: &Self) -> (r: bool) {
        array_eq(&self.pk_d, &other.pk_d) && array_eq(&self.diversifier.0, &other.diversifier.0)
    }
}

impl vstd::std_specs::cmp::PartialEqSpecImpl for PaymentAddress {
    open spec fn obeys_eq_spec() -> bool {
        true
    }

    open spec fn eq_spec(&self, other: &Self) -> bool {
        self@ == other@
    }
}

impl PaymentAddress {
    /// The stored transmission key is always usable.
    #[verifier::type_invariant]
    spec fn type_wf(self) -> bool {
        spec_pk_d_valid(self.pk_d@)
    }

    /// Builds an address from a diversifier and an encoded transmission
    /// key; `None` when the key is not a non-identity subgroup point.
    pub fn from_parts(diversifier: Diversifier, pk_d: &[u8; 32]) -> (r: Option<PaymentAddress>)
        ensures
            (match r {
                Some(a) => spec_from_parts(diversifier.0@, pk_d@) == Some(a@),
                None => spec_from_parts(diversifier.0@, pk_d@) is None,
            }),
    {
        if !subgroup_check(pk_d) {
            return None;
        }
        if identity_check(pk_d) {
            return None;
        }
        Some(PaymentAddress { pk_d: *pk_d, diversifier })
    }

    /// Parses an address from its 43-byte encoding, re-validating that the
    /// diversifier maps to a point at all.
    pub fn from_bytes(bytes: &[u8; 43]) -> (r: Option<PaymentAddress>)
        ensures
            (match r {
                Some(a) => spec_address_from_bytes(bytes@) == Some(a@),
                None => spec_address_from_bytes(bytes@) is None,
            }),
    {
        let diversifier = Diversifier(read_array::<11>(bytes.as_slice(), 0));
        match diversifier.g_d() {
            Some(_) => {
                let pk_d = read_array::<32>(bytes.as_slice(), 11);
                PaymentAddress::from_parts(diversifier, &pk_d)
            },
            None => None,
        }
    }

    /// The 43-byte encoding: diversifier followed by the transmission key.
    pub fn to_bytes(&self) -> (r: [u8; 43])
        ensures
            r@ == self@.diversifier + self@.pk_d,
    {
        let mut data: Vec<u8> = Vec::new();
        push_bytes(&mut data, self.diversifier.0.as_slice());
        push_bytes(&mut data, self.pk_d.as_slice());
        read_array::<43>(data.as_slice(), 0)
    }

    /// The diversifier of this address.
    pub fn diversifier(&self) -> (r: &Diversifier)
        ensures
            r.0@ == self@.diversifier,
    {
        &self.diversifier
    }

    /// The encoded transmission key of this address.
    pub fn pk_d(&self) -> (r: &[u8; 32])
        ensures
            r@ == self@.pk_d,
            spec_pk_d_valid(r@),
    {
        proof {
            use_type_invariant(self);
        }
        &self.pk_d
    }

    /// The diversified base point of this address's diversifier, if any.
    pub fn g_d(&self) -> (r: Option<[u8; 32]>)
        ensures
            (match r {
                Some(p) => spec_group_hash(self@.diversifier, KEY_DIVERSIFICATION_PERSONALIZATION@)
                    == Some(p@) && subgroup_decodable(p@),
                None => spec_group_hash(
                    self@.diversifier,
                    KEY_DIVERSIFICATION_PERSONALIZATION@,
                ) is None,
            }),
    {
        self.diversifier.g_d()
    }

    /// Builds the note this address receives; `None` when the diversifier
    /// does not map to a base point.
    pub fn create_note(&self, asset_type: AssetType, value: u64, rseed: Rseed) -> (r: Option<Note>)
        ensures
            (match r {
                Some(n) => spec_create_note(self@, asset_type.spec_identifier(), value, rseed@)
                    == Some(n@),
                None => spec_create_note(
                    self@,
                    asset_type.spec_identifier(),
                    value,
                    rseed@,
                ) is None,
            }),
    {
        proof {
            use_type_invariant(self);
        }
        match self.g_d() {
            Some(g_d) => Some(
                Note { asset_type, value, rseed, g_d, pk_d: self.pk_d },
            ),
            None => None,
        }
    }
}

/// The note an address receives for an asset, value and rseed: `None` when
/// the address's diversifier does not map to a base point.
pub open spec fn spec_create_note(
    addr: AddressModel,
    asset_identifier: Seq<u8>,
    value: u64,
    rseed: RseedModel,
) -> Option<NoteModel> {
    match spec_group_hash(addr.diversifier, KEY_DIVERSIFICATION_PERSONALIZATION@) {
        Some(g_d) => Some(
            NoteModel { asset_identifier, value, rseed, g_d, pk_d: addr.pk_d },
        ),
        None => None,
    }
}

/// A note's commitment randomness source: a scalar used directly, or 32
/// opaque bytes from which both the randomness and the ephemeral secret are
/// derived by further hashing.
#[derive(Clone, Copy, Debug)]
pub enum Rseed {
    BeforeZip212([u8; 32]),
    AfterZip212([u8; 32]),
}

impl View for Rseed {
    type V = RseedModel;

    open spec fn view(&self) -> RseedModel {
        match *self {
            Rseed::BeforeZip212(r) => RseedModel::BeforeZip212(r@),
            Rseed::AfterZip212(r) => RseedModel::AfterZip212(r@),
        }
    }
}

/// The expansion hash: a 64-byte domain-separated hash of a seed and a tag.
pub open spec fn spec_prf_expand(sk: Seq<u8>, t: Seq<u8>) -> Seq<u8> {
    blake2b_of(64, PRF_EXPAND_PERSONALIZATION@, sk + t)
}

/// The commitment randomness of a note: the stored scalar before the
/// upgrade, a derived scalar after it.
pub open spec fn spec_rcm_of(rseed: RseedModel) -> Seq<u8> {
    match rseed {
        RseedModel::BeforeZip212(r) => r,
        RseedModel::AfterZip212(s) => scalar_from_wide_of(spec_prf_expand(s, seq![5u8])),
    }
}

/// The ephemeral secret a note's rseed determines, if any: notes from
/// before the upgrade carry none.
pub open spec fn spec_derive_esk_of(rseed: RseedModel) -> Option<Seq<u8>> {
    match rseed {
        RseedModel::BeforeZip212(_) => None,
        RseedModel::AfterZip212(s) => Some(scalar_from_wide_of(spec_prf_expand(s, seq![4u8]))),
    }
}

/// The note commitment: a domain-separated hash binding the note's base
/// point, transmission key, value, asset identifier and commitment
/// randomness.
pub open spec fn spec_cmu_of(n: NoteModel) -> Seq<u8> {
    blake2b_of(
        32,
        NOTE_COMMITMENT_PERSONALIZATION@,
        n.g_d + n.pk_d + vstd::bytes::spec_u64_to_le_bytes(n.value) + n.asset_identifier
            + spec_rcm_of(n.rseed),
    )
}

/// A note: an asset type, a bounded value, the commitment randomness
/// source, and the recipient's diversified base point and transmission key.
#[derive(Clone, Copy, Debug)]
pub struct Note {
    pub(crate) asset_type: AssetType,
    pub(crate) value: u64,
    pub(crate) rseed: Rseed,
    pub(crate) g_d: [u8; 32],
    pub(crate) pk_d: [u8; 32],
}

impl View for Note {
    type V = NoteModel;

    open(crate) spec fn view(&self) -> NoteModel {
        NoteModel {
            asset_identifier: self.asset_type.spec_identifier(),
            value: self.value,
            rseed: self.rseed@,
            g_d: self.g_d@,
            pk_d: self.pk_d@,
        }
    }
}

impl PartialEq for Note {
    /// Notes are equal when all their fields are.
    fn eq(&self, other: &Self) -> (r: bool) {
        let rseed_eq = match (&self.rseed, &other.rseed) {
            (Rseed::BeforeZip212(a), Rseed::BeforeZip212(b)) => array_eq(a, b),
            (Rseed::AfterZip212(a), Rseed::AfterZip212(b)) => array_eq(a, b),
            _ => false,
        };
        rseed_eq && self.value == other.value && array_eq(
            self.asset_type.get_identifier(),
            other.asset_type.get_identifier(),
        ) && array_eq(&self.g_d, &other.g_d) && array_eq(&self.pk_d, &other.pk_d)
    }
}

impl vstd::std_specs::cmp::PartialEqSpecImpl for Note {
    open spec fn obeys_eq_spec() -> bool {
        true
    }

    open spec fn eq_spec(&self, other: &Self) -> bool {
        self@ == other@
    }
}

impl Note {
    /// The stored base point and transmission key are always subgroup
    /// points.
    #[verifier::type_invariant]
    pub(crate) open spec fn type_wf(self) -> bool {
        subgroup_decodable(self.g_d@) && subgroup_decodable(self.pk_d@)
    }

    /// The note's value.
    pub fn value(&self) -> (r: u64)
        ensures
            r == self@.value,
    {
        self.value
    }

    /// The note's asset type.
    pub fn asset_type(&self) -> (r: AssetType)
        ensures
            r.spec_identifier() == self@.asset_identifier,
    {
        self.asset_type
    }

    /// The note's rseed.
    pub fn rseed(&self) -> (r: &Rseed)
        ensures
            r@ == self@.rseed,
    {
        &self.rseed
    }

    /// The note's commitment randomness.
    pub fn rcm(&self) -> (r: [u8; 32])
        ensures
            r@ == spec_rcm_of(self@.rseed),
    {
        match &self.rseed {
            Rseed::BeforeZip212(r) => *r,
            Rseed::AfterZip212(s) => {
                let mut data: Vec<u8> = Vec::new();
                push_bytes(&mut data, s.as_slice());
                data.push(5u8);
                proof {
                    assert(data@ =~= s@ + seq![5u8]);
                }
                let wide = blake2b_hash(64, &PRF_EXPAND_PERSONALIZATION, data.as_slice());
                let wide_arr = read_array::<64>(wide.as_slice(), 0);
                proof {
                    assert(wide_arr@ =~= wide@);
                }
                scalar_from_wide(&wide_arr)
            },
        }
    }

    /// The ephemeral secret this note's rseed determines, if any.
    pub fn derive_esk(&self) -> (r: Option<[u8; 32]>)
        ensures
            (match r {
                Some(esk) => spec_derive_esk_of(self@.rseed) == Some(esk@) && scalar_canonical(
                    esk@,
                ),
                None => spec_derive_esk_of(self@.rseed) is None,
            }),
    {
        match &self.rseed {
            Rseed::BeforeZip212(_) => None,
            Rseed::AfterZip212(s) => {
                let mut data: Vec<u8> = Vec::new();
                push_bytes(&mut data, s.as_slice());
                data.push(4u8);
                proof {
                    assert(data@ =~= s@ + seq![4u8]);
                }
                let wide = blake2b_hash(64, &PRF_EXPAND_PERSONALIZATION, data.as_slice());
                let wide_arr = read_array::<64>(wide.as_slice(), 0);
                proof {
                    assert(wide_arr@ =~= wide@);
                }
                Some(scalar_from_wide(&wide_arr))
            },
        }
    }

    /// The ephemeral secret used to encrypt this note: derived from the
    /// rseed when it determines one, freshly random otherwise.
    pub fn generate_or_derive_esk(&self) -> (r: [u8; 32])
        ensures
            scalar_canonical(r@),
            (self@.rseed matches RseedModel::AfterZip212(_) ==> Some(r@) == spec_derive_esk_of(
                self@.rseed,
            )),
    {
        match self.derive_esk() {
            Some(esk) => esk,
            None => random_scalar(),
        }
    }

    /// The note commitment.
    pub fn cmu(&self) -> (r: [u8; 32])
        ensures
            r@ == spec_cmu_of(self@),
    {
        let mut data: Vec<u8> = Vec::new();
        push_bytes(&mut data, self.g_d.as_slice());
        push_bytes(&mut data, self.pk_d.as_slice());
        let value_bytes = vstd::bytes::u64_to_le_bytes(self.value);
        push_bytes(&mut data, value_bytes.as_slice());
        push_bytes(&mut data, self.asset_type.get_identifier().as_slice());
        let rcm = self.rcm();
        push_bytes(&mut data, rcm.as_slice());
        let digest = blake2b_hash(32, &NOTE_COMMITMENT_PERSONALIZATION, data.as_slice());
        read_array::<32>(digest.as_slice(), 0)
    }
}

/// A note value in range: at most `MAX_MONEY`.
#[derive(Clone, Copy, Debug, PartialEq, Eq)]
pub struct NoteValue {
    value: u64,
}

impl NoteValue {
    /// The stored value is always in range.
    #[verifier::type_invariant]
    spec fn type_wf(self) -> bool {
        self.value <= MAX_MONEY
    }

    /// The value.
    pub closed spec fn spec_value(self) -> u64 {
        self.value
    }

    /// Wraps a value; `Err` when it exceeds `MAX_MONEY`.
    pub fn try_from(value: u64) -> (r: Result<NoteValue, ()>)
        ensures
            (match r {
                Ok(v) => value <= MAX_MONEY && v.spec_value() == value,
                Err(_) => value > MAX_MONEY,
            }),
    {
        if value <= MAX_MONEY {
            Ok(NoteValue { value })
        } else {
            Err(())
        }
    }

    /// The wrapped value, which is at most `MAX_MONEY`.
    pub fn into_u64(self) -> (r: u64)
        ensures
            r == self.spec_value(),
            r <= MAX_MONEY,
    {
        proof {
            use_type_invariant(&self);
        }
        self.value
    }
}

/// A value commitment: the asset's generator, the committed value and the
/// commitment randomness.
#[derive(Clone, Debug)]
pub struct ValueCommitment {
    pub asset_generator: [u8; 32],
    pub value: u64,
    pub randomness: [u8; 32],
}

/// The fixed randomness generator of value commitments, derived by hashing
/// its tag.
pub open spec fn spec_randomness_generator() -> Option<Seq<u8>> {
    spec_find_group_hash(
        RANDOMNESS_GENERATOR_TAG@,
        VALUE_COMMITMENT_GENERATOR_PERSONALIZATION@,
        0,
    )
}

/// The commitment `[value] clear_cofactor(asset_generator) + [randomness] R`
/// for the fixed randomness generator `R`; `None` when a component is not
/// usable or the generator cannot be derived.
pub open spec fn spec_value_commitment(cv: ValueCommitment) -> Option<Seq<u8>> {
    if point_decodable(cv.asset_generator@) && scalar_canonical(cv.randomness@) {
        match spec_randomness_generator() {
            Some(r_gen) => Some(
                point_add_of(
                    point_mul_of(clear_cofactor_of(cv.asset_generator@), scalar_of_u64(cv.value)),
                    point_mul_of(r_gen, cv.randomness@),
                ),
            ),
            None => None,
        }
    } else {
        None
    }
}

impl ValueCommitment {
    /// Computes the commitment point.
    pub fn commitment(&self) -> (r: Option<[u8; 32]>)
        ensures
            (match r {
                Some(p) => spec_value_commitment(*self) == Some(p@) && subgroup_decodable(p@),
                None => spec_value_commitment(*self) is None,
            }),
    {
        if !point_check(&self.asset_generator) {
            return None;
        }
        if !scalar_check(&self.randomness) {
            return None;
        }
        match find_group_hash(
            RANDOMNESS_GENERATOR_TAG.as_slice(),
            &VALUE_COMMITMENT_GENERATOR_PERSONALIZATION,
        ) {
            Some(r_gen) => {
                let base = cofactor_clear(&self.asset_generator);
                let value_scalar = scalar_u64(self.value);
                let value_part = point_mul(&base, &value_scalar);
                let randomness_part = point_mul(&r_gen, &self.randomness);
                Some(point_add(&value_part, &randomness_part))
            },
            None => None,
        }
    }
}

impl AssetType {
    /// The value commitment for this asset at the given value and
    /// randomness.
    pub fn value_commitment(&self, value: u64, randomness: &[u8; 32]) -> (r: ValueCommitment)
        ensures
            r.asset_generator@ == self.spec_asset_generator(),
            r.value == value,
            r.randomness@ == randomness@,
    {
        ValueCommitment { asset_generator: self.asset_generator(), value, randomness: *randomness }
    }
}

} // verus!
