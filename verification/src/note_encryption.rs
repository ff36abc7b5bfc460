//! The note-encryption engine: key agreement, key derivation, the plaintext
//! codecs, the height-dependent version gate, the encryption context, the
//! four decryption paths and their batched variants.

use vstd::prelude::*;

use ff::PrimeField;
use group::GroupEncoding;

use crate::byteops::{array_eq, push_bytes, read_array};
use crate::crypto::aead_open;
use crate::crypto::aead_open_of;
use crate::crypto::aead_seal;
use crate::crypto::aead_seal_of;
use crate::crypto::blake2b_hash;
use crate::crypto::blake2b_of;
use crate::crypto::chacha_block1_of;
use crate::crypto::chacha_block1_xor;
use crate::crypto::ka_agree_of;
use crate::crypto::point_check;
use crate::crypto::point_decodable;
use crate::crypto::point_is_identity;
use crate::crypto::point_mul_of;
use crate::crypto::scalar_canonical;
use crate::crypto::subgroup_decodable;
use crate::asset_type::AssetType;
use crate::consensus::Network;
use crate::consensus::NetworkUpgrade;
use crate::consensus::ZIP212_GRACE_PERIOD;
use crate::crypto::point_mul;
use crate::crypto::random_bytes;
use crate::crypto::scalar_check;
use crate::crypto::subgroup_check;
use crate::group_hash::spec_group_hash;
use crate::keys::OutgoingViewingKey;
use crate::memo::MemoBytes;
use crate::sapling::spec_cmu_of;
use crate::sapling::spec_create_note;
use crate::sapling::spec_derive_esk_of;
use crate::sapling::spec_from_parts;
use crate::sapling::AddressModel;
use crate::sapling::Diversifier;
use crate::sapling::Note;
use crate::sapling::NoteModel;
use crate::sapling::NoteValue;
use crate::sapling::PaymentAddress;
use crate::sapling::Rseed;
use crate::sapling::RseedModel;
use crate::sapling::SaplingIvk;
use crate::sapling::KEY_DIVERSIFICATION_PERSONALIZATION;
use crate::sapling::MAX_MONEY;
use crate::MEMO_SIZE;

verus! {

/// Bytes of the memo-less prefix of a note plaintext: one lead byte, the
/// 11-byte diversifier, the 8-byte value, the 32-byte asset identifier and
/// the 32-byte rseed.
pub const COMPACT_NOTE_SIZE: usize = 84;

/// Bytes of a full note plaintext: the compact prefix plus the memo.
pub const NOTE_PLAINTEXT_SIZE: usize = COMPACT_NOTE_SIZE + MEMO_SIZE;

/// Bytes of the authentication tag appended to each ciphertext.
pub const AEAD_TAG_SIZE: usize = 16;

/// Bytes of the main note ciphertext, tag included.
pub const ENC_CIPHERTEXT_SIZE: usize = NOTE_PLAINTEXT_SIZE + AEAD_TAG_SIZE;

/// Bytes of an outgoing plaintext: the 32-byte `pk_d` followed by the
/// 32-byte ephemeral secret scalar.
pub const OUT_PLAINTEXT_SIZE: usize = 64;

/// Bytes of the outgoing ciphertext, tag included.
pub const OUT_CIPHERTEXT_SIZE: usize = OUT_PLAINTEXT_SIZE + AEAD_TAG_SIZE;

/// Personalization of the note-encryption key-derivation hash: the ASCII
/// bytes of `MASP__SaplingKDF`.
pub const KDF_SAPLING_PERSONALIZATION: [u8; 16] = [
    0x4d, 0x41, 0x53, 0x50, 0x5f, 0x5f, 0x53, 0x61, 0x70, 0x6c, 0x69, 0x6e, 0x67, 0x4b, 0x44, 0x46,
];

/// Personalization of the outgoing-cipher-key derivation hash: the ASCII
/// bytes of `MASP__Derive_ock`.
pub const PRF_OCK_PERSONALIZATION: [u8; 16] = [
    0x4d, 0x41, 0x53, 0x50, 0x5f, 0x5f, 0x44, 0x65, 0x72, 0x69, 0x76, 0x65, 0x5f, 0x6f, 0x63, 0x6b,
];

/// An outgoing cipher key: the 32-byte symmetric key protecting the outgoing
/// plaintext; derived, handed to a delegate, never stored long-term.
#[derive(Clone, Copy, Debug)]
pub struct OutgoingCipherKey(pub [u8; 32]);

/// Key agreement for note encryption: `[8 * esk] pk_d`.
///
/// Relies on jubjub scalar multiplication followed by cofactor clearing; the
/// result always lies in the prime-order subgroup, whatever the subgroup of
/// the input point, and is returned in canonical encoding.
#[verifier::external_body]
pub fn sapling_ka_agree(esk: &[u8; 32], pk_d: &[u8; 32]) -> (r: [u8; 32])
    requires
        scalar_canonical(esk@),
        point_decodable(pk_d@) || subgroup_decodable(pk_d@),
    ensures
        r@ == ka_agree_of(esk@, pk_d@),
        subgroup_decodable(r@),
{
    let p = jubjub::ExtendedPoint::from_bytes(pk_d).unwrap();
    let s = jubjub::Fr::from_repr(*esk).unwrap();
    group::cofactor::CofactorGroup::clear_cofactor(&(p * s)).to_bytes()
}

/// The symmetric key derived from a shared secret and the ephemeral key
/// bytes exactly as they appeared on the wire.
pub open spec fn spec_kdf_sapling(dhsecret: Seq<u8>, ephemeral_key: Seq<u8>) -> Seq<u8> {
    blake2b_of(32, KDF_SAPLING_PERSONALIZATION@, dhsecret + ephemeral_key)
}

/// Key derivation for note encryption: a domain-separated 32-byte hash over
/// the shared secret's encoding and the raw ephemeral-key bytes.
pub fn kdf_sapling(dhsecret: &[u8; 32], ephemeral_key: &[u8; 32]) -> (r: [u8; 32])
    ensures
        r@ == spec_kdf_sapling(dhsecret@, ephemeral_key@),
{
    let mut data: Vec<u8> = Vec::new();
    push_bytes(&mut data, dhsecret.as_slice());
    push_bytes(&mut data, ephemeral_key.as_slice());
    let digest = blake2b_hash(32, &KDF_SAPLING_PERSONALIZATION, data.as_slice());
    read_array::<32>(digest.as_slice(), 0)
}

/// The outgoing cipher key derived from an outgoing viewing key, the value
/// commitment, the note commitment and the ephemeral key bytes.
pub open spec fn spec_prf_ock(ovk: Seq<u8>, cv: Seq<u8>, cmu: Seq<u8>, ephemeral_key: Seq<u8>) -> Seq<
    u8,
> {
    blake2b_of(32, PRF_OCK_PERSONALIZATION@, ovk + cv + cmu + ephemeral_key)
}

/// PRF^ock: derives the outgoing cipher key as a domain-separated 32-byte
/// hash over the outgoing viewing key, the value-commitment bytes, the
/// note-commitment bytes and the ephemeral-key bytes.
pub fn prf_ock(
    ovk: &OutgoingViewingKey,
    cv: &[u8; 32],
    cmu_bytes: &[u8; 32],
    ephemeral_key: &[u8; 32],
) -> (r: OutgoingCipherKey)
    ensures
        r.0@ == spec_prf_ock(ovk.0@, cv@, cmu_bytes@, ephemeral_key@),
{
    let mut data: Vec<u8> = Vec::new();
    push_bytes(&mut data, ovk.0.as_slice());
    push_bytes(&mut data, cv.as_slice());
    push_bytes(&mut data, cmu_bytes.as_slice());
    push_bytes(&mut data, ephemeral_key.as_slice());
    let digest = blake2b_hash(32, &PRF_OCK_PERSONALIZATION, data.as_slice());
    OutgoingCipherKey(read_array::<32>(digest.as_slice(), 0))
}

/// Which note-plaintext lead byte the consensus rules accept at a height:
/// only 0x01 before the upgrade activates, both 0x01 and 0x02 from the
/// activation height through the grace window, and only 0x02 afterwards.
pub open spec fn spec_plaintext_version_is_valid(params: Network, height: u32, leadbyte: u8) -> bool {
    if params.spec_is_active(height) {
        let grace_end = params.spec_activation_height().unwrap() + ZIP212_GRACE_PERIOD;
        if height < grace_end {
            leadbyte == 0x01 || leadbyte == 0x02
        } else {
            leadbyte == 0x02
        }
    } else {
        leadbyte == 0x01
    }
}

/// Whether the given lead byte is acceptable in a note plaintext at the
/// given height. A pure function of its arguments, re-evaluated for every
/// candidate height.
pub fn plaintext_version_is_valid(params: &Network, height: u32, leadbyte: u8) -> (r: bool)
    ensures
        r == spec_plaintext_version_is_valid(*params, height, leadbyte),
{
    if params.is_nu_active(NetworkUpgrade::Canopy, height) {
        let activation = params.activation_height(NetworkUpgrade::Canopy).unwrap();
        let grace_end: u64 = activation as u64 + ZIP212_GRACE_PERIOD as u64;
        if (height as u64) < grace_end {
            leadbyte == 0x01 || leadbyte == 0x02
        } else {
            leadbyte == 0x02
        }
    } else {
        leadbyte == 0x01
    }
}

/// The version gate at its interval boundaries, for a network whose upgrade
/// activates at `activation`: lead byte 0x02 is rejected just below the
/// activation height and accepted from it on; lead byte 0x01 is accepted
/// through the grace window and rejected from its end, where 0x02 is the
/// only acceptable byte.
pub proof fn lemma_version_gate_boundaries(params: Network, activation: u32)
    requires
        params.canopy_activation == Some(activation),
        activation >= 1,
        activation + ZIP212_GRACE_PERIOD <= u32::MAX,
    ensures
        !spec_plaintext_version_is_valid(params, (activation - 1) as u32, 0x02),
        spec_plaintext_version_is_valid(params, activation, 0x02),
        spec_plaintext_version_is_valid(
            params,
            (activation + ZIP212_GRACE_PERIOD - 1) as u32,
            0x02,
        ),
        spec_plaintext_version_is_valid(params, (activation - 1) as u32, 0x01),
        spec_plaintext_version_is_valid(params, activation, 0x01),
        !spec_plaintext_version_is_valid(params, (activation + ZIP212_GRACE_PERIOD) as u32, 0x01),
        spec_plaintext_version_is_valid(params, (activation + ZIP212_GRACE_PERIOD) as u32, 0x02),
        forall|b: u8|
            #[trigger] spec_plaintext_version_is_valid(
                params,
                (activation + ZIP212_GRACE_PERIOD) as u32,
                b,
            ) ==> b == 0x02,
{
}

/// A shielded output as the decryption paths see it: the value commitment,
/// the claimed note commitment, the ephemeral key bytes as they appeared on
/// the wire, and the two ciphertexts.
#[derive(Clone, Debug)]
pub struct OutputDescription {
    pub cv: [u8; 32],
    pub cmu: [u8; 32],
    pub ephemeral_key: [u8; 32],
    pub enc_ciphertext: [u8; ENC_CIPHERTEXT_SIZE],
    pub out_ciphertext: [u8; OUT_CIPHERTEXT_SIZE],
}

/// A compact output: what a lightweight scanner keeps, with only the
/// memo-less prefix of the main ciphertext and no authentication tag.
#[derive(Clone, Debug)]
pub struct CompactOutputDescription {
    pub cmu: [u8; 32],
    pub ephemeral_key: [u8; 32],
    pub enc_ciphertext: [u8; COMPACT_NOTE_SIZE],
}

impl CompactOutputDescription {
    /// Truncates a full output to its compact form.
    pub fn from_output(output: &OutputDescription) -> (r: CompactOutputDescription)
        ensures
            r.cmu@ == output.cmu@,
            r.ephemeral_key@ == output.ephemeral_key@,
            r.enc_ciphertext@ == output.enc_ciphertext@.subrange(0, COMPACT_NOTE_SIZE as int),
    {
        CompactOutputDescription {
            cmu: output.cmu,
            ephemeral_key: output.ephemeral_key,
            enc_ciphertext: read_array::<COMPACT_NOTE_SIZE>(output.enc_ciphertext.as_slice(), 0),
        }
    }
}

/// Model of a transmission-key validation strategy: recipient-side
/// recomputation from the incoming viewing key, or sender-side verification
/// of a claimed key against the wire ephemeral key.
pub ghost enum ValidationModel {
    ByIvk { ivk: Seq<u8> },
    ByEsk { pk_d: Seq<u8>, esk: Seq<u8>, ephemeral_key: Seq<u8> },
}

/// A transmission-key validation strategy for the shared plaintext parser.
pub(crate) enum PkdValidation {
    ByIvk(SaplingIvk),
    ByEsk { pk_d: [u8; 32], esk: [u8; 32], ephemeral_key: [u8; 32] },
}

impl View for PkdValidation {
    type V = ValidationModel;

    open(crate) spec fn view(&self) -> ValidationModel {
        match *self {
            PkdValidation::ByIvk(ivk) => ValidationModel::ByIvk { ivk: ivk.spec_repr() },
            PkdValidation::ByEsk { pk_d, esk, ephemeral_key } => ValidationModel::ByEsk {
                pk_d: pk_d@,
                esk: esk@,
                ephemeral_key: ephemeral_key@,
            },
        }
    }
}

/// The validated transmission key for a diversifier: recomputed as
/// `[ivk] g_d` on the recipient side, or the claimed key on the sender
/// side, accepted only if `[esk] g_d` re-encodes to the wire ephemeral key.
pub open spec fn spec_validated_pk_d(diversifier: Seq<u8>, validation: ValidationModel) -> Option<
    Seq<u8>,
> {
    match spec_group_hash(diversifier, KEY_DIVERSIFICATION_PERSONALIZATION@) {
        Some(g_d) => match validation {
            ValidationModel::ByIvk { ivk } => Some(point_mul_of(g_d, ivk)),
            ValidationModel::ByEsk { pk_d, esk, ephemeral_key } => {
                if point_mul_of(g_d, esk) == ephemeral_key {
                    Some(pk_d)
                } else {
                    None
                }
            },
        },
        None => None,
    }
}

/// What parsing a note plaintext yields: the note and recipient address, or
/// nothing when the lead byte fails the version gate, the value is out of
/// range, the asset identifier does not resolve, a pre-upgrade rseed is not
/// a canonical scalar, the diversifier maps to no point, the validation
/// strategy rejects, or the transmission key is unusable.
pub open spec fn spec_parse_note_plaintext(
    params: Network,
    height: u32,
    plaintext: Seq<u8>,
    validation: ValidationModel,
) -> Option<(NoteModel, AddressModel)> {
    if plaintext.len() < COMPACT_NOTE_SIZE {
        None
    } else if !spec_plaintext_version_is_valid(params, height, plaintext[0]) {
        None
    } else {
        let diversifier = plaintext.subrange(1, 12);
        let value = vstd::bytes::spec_u64_from_le_bytes(plaintext.subrange(12, 20));
        let asset_identifier = plaintext.subrange(20, 52);
        let r = plaintext.subrange(52, COMPACT_NOTE_SIZE as int);
        if value > MAX_MONEY {
            None
        } else if !AssetType::identifier_valid(asset_identifier) {
            None
        } else if plaintext[0] == 0x01 && !scalar_canonical(r) {
            None
        } else {
            let rseed = if plaintext[0] == 0x01 {
                RseedModel::BeforeZip212(r)
            } else {
                RseedModel::AfterZip212(r)
            };
            match spec_validated_pk_d(diversifier, validation) {
                Some(pk_d) => match spec_from_parts(diversifier, pk_d) {
                    Some(to) => match spec_create_note(to, asset_identifier, value, rseed) {
                        Some(note) => Some((note, to)),
                        None => None,
                    },
                    None => None,
                },
                None => None,
            }
        }
    }
}

/// Parses the memo-less prefix of a note plaintext, validating the version
/// byte, the value bound, the asset identifier, the rseed and the
/// transmission key, in that order.
pub(crate) fn sapling_parse_note_plaintext_without_memo(
    domain: &SaplingDomain,
    plaintext: &[u8],
    validation: &PkdValidation,
) -> (r: Option<(Note, PaymentAddress)>)
    requires
        plaintext@.len() >= COMPACT_NOTE_SIZE,
        (validation@ matches ValidationModel::ByEsk { esk, .. } ==> scalar_canonical(esk)),
    ensures
        (match r {
            Some(t) => spec_parse_note_plaintext(
                domain.spec_params(),
                domain.spec_height(),
                plaintext@,
                validation@,
            ) == Some((t.0@, t.1@)),
            None => spec_parse_note_plaintext(
                domain.spec_params(),
                domain.spec_height(),
                plaintext@,
                validation@,
            ) is None,
        }),
{
    let lead = plaintext[0];
    if !plaintext_version_is_valid(&domain.params, domain.height, lead) {
        return None;
    }
    let diversifier = Diversifier(read_array::<11>(plaintext, 1));
    let value_bytes = read_array::<8>(plaintext, 12);
    let value = vstd::bytes::u64_from_le_bytes(value_bytes.as_slice());
    let value = match NoteValue::try_from(value) {
        Ok(v) => v.into_u64(),
        Err(_) => {
            return None;
        },
    };
    let asset_bytes = read_array::<32>(plaintext, 20);
    let asset_type = match AssetType::from_identifier(&asset_bytes) {
        Some(a) => a,
        None => {
            return None;
        },
    };
    let r_bytes = read_array::<32>(plaintext, 52);
    let rseed = if lead == 0x01 {
        if !scalar_check(&r_bytes) {
            return None;
        }
        Rseed::BeforeZip212(r_bytes)
    } else {
        Rseed::AfterZip212(r_bytes)
    };
    let pk_d = match validation {
        PkdValidation::ByIvk(ivk) => {
            match diversifier.g_d() {
                Some(g_d) => {
                    let ivk_repr = ivk.to_repr();
                    point_mul(&g_d, &ivk_repr)
                },
                None => {
                    return None;
                },
            }
        },
        PkdValidation::ByEsk { pk_d, esk, ephemeral_key } => {
            match diversifier.g_d() {
                Some(g_d) => {
                    let epk = point_mul(&g_d, esk);
                    if array_eq(&epk, ephemeral_key) {
                        *pk_d
                    } else {
                        return None;
                    }
                },
                None => {
                    return None;
                },
            }
        },
    };
    let to = match PaymentAddress::from_parts(diversifier, &pk_d) {
        Some(a) => a,
        None => {
            return None;
        },
    };
    let note = match to.create_note(asset_type, value, rseed) {
        Some(n) => n,
        None => {
            return None;
        },
    };
    Some((note, to))
}

/// The note-encryption and decryption engine for one block height on one
/// network.
#[derive(Clone, Copy, Debug)]
pub struct SaplingDomain {
    pub(crate) params: Network,
    pub(crate) height: u32,
}

impl SaplingDomain {
    /// The network parameters this engine was built with.
    pub open(crate) spec fn spec_params(self) -> Network {
        self.params
    }

    /// The block height this engine was built for.
    pub open(crate) spec fn spec_height(self) -> u32 {
        self.height
    }

    /// An engine for the given parameters and height.
    pub fn for_height(params: Network, height: u32) -> (r: SaplingDomain)
        ensures
            r.spec_params() == params,
            r.spec_height() == height,
    {
        SaplingDomain { params, height }
    }

    /// The ephemeral secret a note's rseed determines, if any.
    pub fn derive_esk(note: &Note) -> (r: Option<[u8; 32]>)
        ensures
            (match r {
                Some(esk) => spec_derive_esk_of(note@.rseed) == Some(esk@) && scalar_canonical(
                    esk@,
                ),
                None => spec_derive_esk_of(note@.rseed) is None,
            }),
    {
        note.derive_esk()
    }

    /// The note's diversified transmission key.
    pub fn get_pk_d(note: &Note) -> (r: [u8; 32])
        ensures
            r@ == note@.pk_d,
            subgroup_decodable(r@),
    {
        proof {
            use_type_invariant(note);
        }
        note.pk_d
    }

    /// The ephemeral public key `[esk] g_d` for the note's base point.
    pub fn ka_derive_public(note: &Note, esk: &[u8; 32]) -> (r: [u8; 32])
        requires
            scalar_canonical(esk@),
        ensures
            r@ == point_mul_of(note@.g_d, esk@),
            subgroup_decodable(r@),
    {
        proof {
            use_type_invariant(note);
        }
        point_mul(&note.g_d, esk)
    }

    /// Key agreement on the encryption side: the ephemeral secret against
    /// the recipient's transmission key.
    pub fn ka_agree_enc(esk: &[u8; 32], pk_d: &[u8; 32]) -> (r: [u8; 32])
        requires
            scalar_canonical(esk@),
            subgroup_decodable(pk_d@),
        ensures
            r@ == ka_agree_of(esk@, pk_d@),
            subgroup_decodable(r@),
    {
        sapling_ka_agree(esk, pk_d)
    }

    /// Key agreement on the decryption side: the incoming viewing key
    /// against the output's ephemeral public key.
    pub fn ka_agree_dec(ivk: &SaplingIvk, epk: &[u8; 32]) -> (r: [u8; 32])
        requires
            point_decodable(epk@),
        ensures
            r@ == ka_agree_of(ivk.spec_repr(), epk@),
            subgroup_decodable(r@),
    {
        let ivk_repr = ivk.to_repr();
        sapling_ka_agree(&ivk_repr, epk)
    }

    /// Parses the output's ephemeral key bytes; `None` for non-canonical or
    /// off-curve encodings, which are always rejected.
    pub fn epk(ephemeral_key: &[u8; 32]) -> (r: Option<[u8; 32]>)
        ensures
            (match r {
                Some(p) => point_decodable(ephemeral_key@) && p@ == ephemeral_key@,
                None => !point_decodable(ephemeral_key@),
            }),
    {
        if point_check(ephemeral_key) {
            Some(*ephemeral_key)
        } else {
            None
        }
    }

    /// Encodes the full note plaintext: lead byte, diversifier, value,
    /// asset identifier, rseed bytes and memo.
    pub fn note_plaintext_bytes(note: &Note, to: &PaymentAddress, memo: &MemoBytes) -> (r: Vec<u8>)
        ensures
            r@ == spec_note_plaintext(note@, to@, memo@),
            r@.len() == NOTE_PLAINTEXT_SIZE,
    {
        let mut out: Vec<u8> = Vec::new();
        let lead: u8 = match &note.rseed {
            Rseed::BeforeZip212(_) => 0x01,
            Rseed::AfterZip212(_) => 0x02,
        };
        out.push(lead);
        proof {
            assert(out@ =~= seq![spec_lead_byte(note@.rseed)]);
        }
        push_bytes(&mut out, to.diversifier().0.as_slice());
        let value_bytes = vstd::bytes::u64_to_le_bytes(note.value());
        push_bytes(&mut out, value_bytes.as_slice());
        push_bytes(&mut out, note.asset_type().get_identifier().as_slice());
        match &note.rseed {
            Rseed::BeforeZip212(r) => push_bytes(&mut out, r.as_slice()),
            Rseed::AfterZip212(r) => push_bytes(&mut out, r.as_slice()),
        }
        push_bytes(&mut out, memo.as_array().as_slice());
        out
    }

    /// Encodes the outgoing plaintext: the transmission key followed by the
    /// ephemeral secret.
    pub fn outgoing_plaintext_bytes(note: &Note, esk: &[u8; 32]) -> (r: Vec<u8>)
        ensures
            r@ == note@.pk_d + esk@,
            r@.len() == OUT_PLAINTEXT_SIZE,
    {
        let mut out: Vec<u8> = Vec::new();
        push_bytes(&mut out, SaplingDomain::get_pk_d(note).as_slice());
        push_bytes(&mut out, esk.as_slice());
        out
    }

    /// Parses a plaintext with the recipient-side validation strategy,
    /// recomputing the transmission key from the incoming viewing key.
    pub fn parse_note_plaintext_without_memo_ivk(
        &self,
        ivk: &SaplingIvk,
        plaintext: &[u8],
    ) -> (r: Option<(Note, PaymentAddress)>)
        requires
            plaintext@.len() >= COMPACT_NOTE_SIZE,
        ensures
            (match r {
                Some(t) => spec_parse_note_plaintext(
                    self.spec_params(),
                    self.spec_height(),
                    plaintext@,
                    (ValidationModel::ByIvk { ivk: ivk.spec_repr() }),
                ) == Some((t.0@, t.1@)),
                None => spec_parse_note_plaintext(
                    self.spec_params(),
                    self.spec_height(),
                    plaintext@,
                    (ValidationModel::ByIvk { ivk: ivk.spec_repr() }),
                ) is None,
            }),
    {
        sapling_parse_note_plaintext_without_memo(self, plaintext, &PkdValidation::ByIvk(*ivk))
    }

    /// Parses a plaintext with the sender-side validation strategy,
    /// verifying the claimed transmission key through the ephemeral key.
    pub fn parse_note_plaintext_without_memo_ovk(
        &self,
        pk_d: &[u8; 32],
        esk: &[u8; 32],
        ephemeral_key: &[u8; 32],
        plaintext: &[u8],
    ) -> (r: Option<(Note, PaymentAddress)>)
        requires
            plaintext@.len() >= COMPACT_NOTE_SIZE,
            scalar_canonical(esk@),
        ensures
            (match r {
                Some(t) => spec_parse_note_plaintext(
                    self.spec_params(),
                    self.spec_height(),
                    plaintext@,
                    (ValidationModel::ByEsk {
                        pk_d: pk_d@,
                        esk: esk@,
                        ephemeral_key: ephemeral_key@,
                    }),
                ) == Some((t.0@, t.1@)),
                None => spec_parse_note_plaintext(
                    self.spec_params(),
                    self.spec_height(),
                    plaintext@,
                    (ValidationModel::ByEsk {
                        pk_d: pk_d@,
                        esk: esk@,
                        ephemeral_key: ephemeral_key@,
                    }),
                ) is None,
            }),
    {
        sapling_parse_note_plaintext_without_memo(
            self,
            plaintext,
            &PkdValidation::ByEsk { pk_d: *pk_d, esk: *esk, ephemeral_key: *ephemeral_key },
        )
    }

    /// The extracted commitment of a note.
    pub fn cmstar(note: &Note) -> (r: [u8; 32])
        ensures
            r@ == spec_cmu_of(note@),
    {
        note.cmu()
    }

    /// The transmission key carried in an outgoing plaintext; `None` when
    /// its bytes are not a prime-order point.
    pub fn extract_pk_d(op: &[u8]) -> (r: Option<[u8; 32]>)
        requires
            op@.len() == OUT_PLAINTEXT_SIZE,
        ensures
            (match r {
                Some(p) => subgroup_decodable(op@.subrange(0, 32)) && p@ == op@.subrange(0, 32),
                None => !subgroup_decodable(op@.subrange(0, 32)),
            }),
    {
        let pk_d = read_array::<32>(op, 0);
        if subgroup_check(&pk_d) {
            Some(pk_d)
        } else {
            None
        }
    }

    /// The ephemeral secret carried in an outgoing plaintext; `None` when
    /// its bytes are not a canonical scalar.
    pub fn extract_esk(op: &[u8]) -> (r: Option<[u8; 32]>)
        requires
            op@.len() == OUT_PLAINTEXT_SIZE,
        ensures
            (match r {
                Some(esk) => scalar_canonical(op@.subrange(32, 64)) && esk@ == op@.subrange(
                    32,
                    64,
                ),
                None => !scalar_canonical(op@.subrange(32, 64)),
            }),
    {
        let esk = read_array::<32>(op, 32);
        if scalar_check(&esk) {
            Some(esk)
        } else {
            None
        }
    }

    /// The memo carried in the trailing bytes of a full note plaintext.
    pub fn extract_memo(&self, plaintext: &[u8]) -> (r: MemoBytes)
        requires
            plaintext@.len() == NOTE_PLAINTEXT_SIZE,
        ensures
            r@ == plaintext@.subrange(COMPACT_NOTE_SIZE as int, NOTE_PLAINTEXT_SIZE as int),
    {
        MemoBytes(read_array::<MEMO_SIZE>(plaintext, COMPACT_NOTE_SIZE))
    }
}

/// The lead byte a note's rseed variant dictates.
pub open spec fn spec_lead_byte(rseed: RseedModel) -> u8 {
    match rseed {
        RseedModel::BeforeZip212(_) => 0x01,
        RseedModel::AfterZip212(_) => 0x02,
    }
}

/// The 32 rseed bytes written into a note plaintext.
pub open spec fn spec_rseed_bytes(rseed: RseedModel) -> Seq<u8> {
    match rseed {
        RseedModel::BeforeZip212(r) => r,
        RseedModel::AfterZip212(r) => r,
    }
}

/// The full note-plaintext encoding: lead byte, diversifier, little-endian
/// value, asset identifier, rseed bytes, memo.
pub open spec fn spec_note_plaintext(note: NoteModel, to: AddressModel, memo: Seq<u8>) -> Seq<u8> {
    seq![spec_lead_byte(note.rseed)] + to.diversifier + vstd::bytes::spec_u64_to_le_bytes(
        note.value,
    ) + note.asset_identifier + spec_rseed_bytes(note.rseed) + memo
}

/// An encryption context for one note: the one-time ephemeral secret and
/// public key, the optional outgoing viewing key, and the note, recipient
/// and memo to encrypt. Each context's symmetric key is used exactly once,
/// which is what makes the fixed all-zero nonce sound.
pub struct NoteEncryption {
    esk: [u8; 32],
    epk: [u8; 32],
    ovk: Option<OutgoingViewingKey>,
    note: Note,
    to: PaymentAddress,
    memo: MemoBytes,
}

impl NoteEncryption {
    /// The ephemeral secret is a scalar and the ephemeral public key is its
    /// multiple of the note's base point.
    #[verifier::type_invariant]
    spec fn type_wf(self) -> bool {
        scalar_canonical(self.esk@) && self.epk@ == point_mul_of(self.note@.g_d, self.esk@)
    }

    /// The ephemeral secret's encoding.
    pub closed spec fn spec_esk(self) -> Seq<u8> {
        self.esk@
    }

    /// The ephemeral public key's encoding.
    pub closed spec fn spec_epk(self) -> Seq<u8> {
        self.epk@
    }

    /// The outgoing viewing key's bytes, if one was supplied.
    pub closed spec fn spec_ovk(self) -> Option<Seq<u8>> {
        match self.ovk {
            Some(ovk) => Some(ovk.0@),
            None => None,
        }
    }

    /// The note being encrypted.
    pub closed spec fn spec_note(self) -> NoteModel {
        self.note@
    }

    /// The recipient address.
    pub closed spec fn spec_to(self) -> AddressModel {
        self.to@
    }

    /// The memo being encrypted.
    pub closed spec fn spec_memo(self) -> Seq<u8> {
        self.memo@
    }

    /// Builds a context around a given ephemeral secret.
    pub fn new_with_esk(
        esk: [u8; 32],
        ovk: Option<OutgoingViewingKey>,
        note: Note,
        to: PaymentAddress,
        memo: MemoBytes,
    ) -> (r: NoteEncryption)
        requires
            scalar_canonical(esk@),
        ensures
            r.spec_esk() == esk@,
            r.spec_epk() == point_mul_of(note@.g_d, esk@),
            (match ovk {
                Some(o) => r.spec_ovk() == Some(o.0@),
                None => r.spec_ovk() is None,
            }),
            r.spec_note() == note@,
            r.spec_to() == to@,
            r.spec_memo() == memo@,
    {
        let epk = SaplingDomain::ka_derive_public(&note, &esk);
        NoteEncryption { esk, epk, ovk, note, to, memo }
    }

    /// The ephemeral public key to carry on the wire.
    pub fn epk(&self) -> (r: &[u8; 32])
        ensures
            r@ == self.spec_epk(),
    {
        &self.epk
    }

    /// Encrypts the note plaintext: agree on the shared secret, derive the
    /// symmetric key, and seal the encoded plaintext under it.
    pub fn encrypt_note_plaintext(&self) -> (r: [u8; ENC_CIPHERTEXT_SIZE])
        ensures
            r@ == aead_seal_of(
                spec_kdf_sapling(
                    ka_agree_of(self.spec_esk(), self.spec_note().pk_d),
                    self.spec_epk(),
                ),
                spec_note_plaintext(self.spec_note(), self.spec_to(), self.spec_memo()),
            ),
    {
        proof {
            use_type_invariant(self);
        }
        let shared_secret = SaplingDomain::ka_agree_enc(
            &self.esk,
            &SaplingDomain::get_pk_d(&self.note),
        );
        let key = kdf_sapling(&shared_secret, &self.epk);
        let plaintext = SaplingDomain::note_plaintext_bytes(&self.note, &self.to, &self.memo);
        let ciphertext = aead_seal(&key, plaintext.as_slice());
        let out = read_array::<ENC_CIPHERTEXT_SIZE>(ciphertext.as_slice(), 0);
        proof {
            assert(out@ =~= ciphertext@);
        }
        out
    }

    /// Encrypts the outgoing plaintext under the outgoing cipher key derived
    /// from the supplied outgoing viewing key; with no such key, a
    /// ciphertext-shaped value is still produced, sealed under fresh random
    /// bytes, so it carries no recoverable secret.
    pub fn encrypt_outgoing_plaintext(&self, cv: &[u8; 32], cmu: &[u8; 32]) -> (r: [u8;
        OUT_CIPHERTEXT_SIZE])
        ensures
            (match self.spec_ovk() {
                Some(ovk_bytes) => r@ == aead_seal_of(
                    spec_prf_ock(ovk_bytes, cv@, cmu@, self.spec_epk()),
                    self.spec_note().pk_d + self.spec_esk(),
                ),
                None => true,
            }),
    {
        proof {
            use_type_invariant(self);
        }
        match &self.ovk {
            Some(ovk) => {
                let ock = prf_ock(ovk, cv, cmu, &self.epk);
                let op = SaplingDomain::outgoing_plaintext_bytes(&self.note, &self.esk);
                let ciphertext = aead_seal(&ock.0, op.as_slice());
                let out = read_array::<OUT_CIPHERTEXT_SIZE>(ciphertext.as_slice(), 0);
                proof {
                    assert(out@ =~= ciphertext@);
                }
                out
            },
            None => {
                let ock = random_bytes(32);
                let op = random_bytes(OUT_PLAINTEXT_SIZE);
                let ock_arr = read_array::<32>(ock.as_slice(), 0);
                let ciphertext = aead_seal(&ock_arr, op.as_slice());
                read_array::<OUT_CIPHERTEXT_SIZE>(ciphertext.as_slice(), 0)
            },
        }
    }
}

/// Creates a new encryption context for the given note.
///
/// Passing `None` for `ovk` is the case in which the sender cannot later
/// recover the note. The ephemeral secret is derived from the note's rseed
/// when that determines one, and freshly random otherwise.
pub fn sapling_note_encryption(
    ovk: Option<OutgoingViewingKey>,
    note: Note,
    to: PaymentAddress,
    memo: MemoBytes,
) -> (r: NoteEncryption)
    ensures
        r.spec_note() == note@,
        r.spec_to() == to@,
        r.spec_memo() == memo@,
        (match ovk {
            Some(o) => r.spec_ovk() == Some(o.0@),
            None => r.spec_ovk() is None,
        }),
        scalar_canonical(r.spec_esk()),
        (note@.rseed matches RseedModel::AfterZip212(_) ==> Some(r.spec_esk())
            == spec_derive_esk_of(note@.rseed)),
        r.spec_epk() == point_mul_of(note@.g_d, r.spec_esk()),
{
    let esk = note.generate_or_derive_esk();
    NoteEncryption::new_with_esk(esk, ovk, note, to, memo)
}

/// Whether an executable full-decryption result carries exactly the models
/// that a specification-level result prescribes.
pub open spec fn decryption_matches(
    r: Option<(Note, PaymentAddress, MemoBytes)>,
    s: Option<(NoteModel, AddressModel, Seq<u8>)>,
) -> bool {
    match r {
        Some(t) => s == Some((t.0@, t.1@, t.2@)),
        None => s is None,
    }
}

/// Whether an executable compact-decryption result carries exactly the
/// models that a specification-level result prescribes.
pub open spec fn compact_decryption_matches(
    r: Option<(Note, PaymentAddress)>,
    s: Option<(NoteModel, AddressModel)>,
) -> bool {
    match r {
        Some(t) => s == Some((t.0@, t.1@)),
        None => s is None,
    }
}

/// Full trial decryption once the symmetric key is fixed: open the main
/// ciphertext, parse the plaintext with the recipient-side validation,
/// check the recomputed commitment against the claimed one, and recover
/// the memo from the trailing bytes.
pub open spec fn spec_try_note_decryption_with_key(
    params: Network,
    height: u32,
    ivk: Seq<u8>,
    cmu: Seq<u8>,
    enc_ciphertext: Seq<u8>,
    key: Seq<u8>,
) -> Option<(NoteModel, AddressModel, Seq<u8>)> {
    match aead_open_of(key, enc_ciphertext) {
        Some(pt) => {
            if pt.len() == NOTE_PLAINTEXT_SIZE {
                match spec_parse_note_plaintext(
                    params,
                    height,
                    pt,
                    (ValidationModel::ByIvk { ivk }),
                ) {
                    Some((note, to)) => {
                        if spec_cmu_of(note) == cmu {
                            Some(
                                (
                                    note,
                                    to,
                                    pt.subrange(COMPACT_NOTE_SIZE as int, NOTE_PLAINTEXT_SIZE as int),
                                ),
                            )
                        } else {
                            None
                        }
                    },
                    None => None,
                }
            } else {
                None
            }
        },
        None => None,
    }
}

/// Full trial decryption with the recipient's incoming viewing key: parse
/// the wire ephemeral key (rejecting non-canonical encodings), agree on the
/// shared secret, derive the symmetric key, and finish as
/// `spec_try_note_decryption_with_key`.
pub open spec fn spec_try_note_decryption(
    params: Network,
    height: u32,
    ivk: Seq<u8>,
    ephemeral_key: Seq<u8>,
    cmu: Seq<u8>,
    enc_ciphertext: Seq<u8>,
) -> Option<(NoteModel, AddressModel, Seq<u8>)> {
    if enc_ciphertext.len() == ENC_CIPHERTEXT_SIZE && point_decodable(ephemeral_key) {
        spec_try_note_decryption_with_key(
            params,
            height,
            ivk,
            cmu,
            enc_ciphertext,
            spec_kdf_sapling(ka_agree_of(ivk, ephemeral_key), ephemeral_key),
        )
    } else {
        None
    }
}

/// Shared tail of full trial decryption, batched or not, once the
/// symmetric key has been derived.
fn try_note_decryption_inner(
    domain: &SaplingDomain,
    ivk: &SaplingIvk,
    cmu: &[u8; 32],
    enc_ciphertext: &[u8; ENC_CIPHERTEXT_SIZE],
    key: &[u8; 32],
) -> (r: Option<(Note, PaymentAddress, MemoBytes)>)
    ensures
        decryption_matches(
            r,
            spec_try_note_decryption_with_key(
                domain.spec_params(),
                domain.spec_height(),
                ivk.spec_repr(),
                cmu@,
                enc_ciphertext@,
                key@,
            ),
        ),
{
    let plaintext = match aead_open(key, enc_ciphertext.as_slice()) {
        Some(p) => p,
        None => {
            return None;
        },
    };
    let parsed = domain.parse_note_plaintext_without_memo_ivk(ivk, plaintext.as_slice());
    let (note, to) = match parsed {
        Some(t) => t,
        None => {
            return None;
        },
    };
    let computed_cmu = note.cmu();
    if !array_eq(&computed_cmu, cmu) {
        return None;
    }
    let memo = domain.extract_memo(plaintext.as_slice());
    Some((note, to, memo))
}

/// Trial decryption of a full output with an incoming viewing key. Returns
/// the note, recipient address and memo on success and `None` on any
/// failure, with all failure reasons collapsed into that one outcome.
pub fn try_sapling_note_decryption(
    params: &Network,
    height: u32,
    ivk: &SaplingIvk,
    output: &OutputDescription,
) -> (r: Option<(Note, PaymentAddress, MemoBytes)>)
    ensures
        decryption_matches(
            r,
            spec_try_note_decryption(
                *params,
                height,
                ivk.spec_repr(),
                output.ephemeral_key@,
                output.cmu@,
                output.enc_ciphertext@,
            ),
        ),
{
    let domain = SaplingDomain::for_height(*params, height);
    let epk = match SaplingDomain::epk(&output.ephemeral_key) {
        Some(p) => p,
        None => {
            return None;
        },
    };
    let shared_secret = SaplingDomain::ka_agree_dec(ivk, &epk);
    let key = kdf_sapling(&shared_secret, &output.ephemeral_key);
    try_note_decryption_inner(&domain, ivk, &output.cmu, &output.enc_ciphertext, &key)
}

/// Compact trial decryption with the recipient's incoming viewing key: the
/// memo-less ciphertext prefix is deciphered with the raw keystream (there
/// is no tag to check), parsed, and held against the claimed commitment.
pub open spec fn spec_try_compact_note_decryption(
    params: Network,
    height: u32,
    ivk: Seq<u8>,
    ephemeral_key: Seq<u8>,
    cmu: Seq<u8>,
    enc_ciphertext: Seq<u8>,
) -> Option<(NoteModel, AddressModel)> {
    if enc_ciphertext.len() == COMPACT_NOTE_SIZE && point_decodable(ephemeral_key) {
        let key = spec_kdf_sapling(ka_agree_of(ivk, ephemeral_key), ephemeral_key);
        let pt = chacha_block1_of(key, enc_ciphertext);
        if pt.len() == COMPACT_NOTE_SIZE {
            match spec_parse_note_plaintext(params, height, pt, (ValidationModel::ByIvk { ivk })) {
                Some((note, to)) => {
                    if spec_cmu_of(note) == cmu {
                        Some((note, to))
                    } else {
                        None
                    }
                },
                None => None,
            }
        } else {
            None
        }
    } else {
        None
    }
}

/// Trial decryption of a compact output with an incoming viewing key, for
/// lightweight scanning: as the full path through plaintext parsing, on the
/// memo-truncated ciphertext, with no memo recovery.
pub fn try_sapling_compact_note_decryption(
    params: &Network,
    height: u32,
    ivk: &SaplingIvk,
    output: &CompactOutputDescription,
) -> (r: Option<(Note, PaymentAddress)>)
    ensures
        compact_decryption_matches(
            r,
            spec_try_compact_note_decryption(
                *params,
                height,
                ivk.spec_repr(),
                output.ephemeral_key@,
                output.cmu@,
                output.enc_ciphertext@,
            ),
        ),
{
    let domain = SaplingDomain::for_height(*params, height);
    let epk = match SaplingDomain::epk(&output.ephemeral_key) {
        Some(p) => p,
        None => {
            return None;
        },
    };
    let shared_secret = SaplingDomain::ka_agree_dec(ivk, &epk);
    let key = kdf_sapling(&shared_secret, &output.ephemeral_key);
    let plaintext = chacha_block1_xor(&key, output.enc_ciphertext.as_slice());
    let parsed = domain.parse_note_plaintext_without_memo_ivk(ivk, plaintext.as_slice());
    let (note, to) = match parsed {
        Some(t) => t,
        None => {
            return None;
        },
    };
    let computed_cmu = note.cmu();
    if !array_eq(&computed_cmu, &output.cmu) {
        return None;
    }
    Some((note, to))
}

/// Sender-side recovery once the outgoing cipher key is fixed: open the
/// outgoing ciphertext to obtain the transmission key and ephemeral secret,
/// re-derive the symmetric key from them, open the main ciphertext, parse
/// the plaintext with the sender-side validation, and check the commitment.
pub open spec fn spec_try_output_recovery_with_ock(
    params: Network,
    height: u32,
    ock: Seq<u8>,
    cmu: Seq<u8>,
    ephemeral_key: Seq<u8>,
    enc_ciphertext: Seq<u8>,
    out_ciphertext: Seq<u8>,
) -> Option<(NoteModel, AddressModel, Seq<u8>)> {
    if enc_ciphertext.len() == ENC_CIPHERTEXT_SIZE && out_ciphertext.len()
        == OUT_CIPHERTEXT_SIZE {
        match aead_open_of(ock, out_ciphertext) {
            Some(op) => {
                if op.len() == OUT_PLAINTEXT_SIZE {
                    let pk_d = op.subrange(0, 32);
                    let esk = op.subrange(32, OUT_PLAINTEXT_SIZE as int);
                    if subgroup_decodable(pk_d) && scalar_canonical(esk) {
                        let key = spec_kdf_sapling(ka_agree_of(esk, pk_d), ephemeral_key);
                        match aead_open_of(key, enc_ciphertext) {
                            Some(pt) => {
                                if pt.len() == NOTE_PLAINTEXT_SIZE {
                                    match spec_parse_note_plaintext(
                                        params,
                                        height,
                                        pt,
                                        (ValidationModel::ByEsk { pk_d, esk, ephemeral_key }),
                                    ) {
                                        Some((note, to)) => {
                                            if spec_cmu_of(note) == cmu {
                                                Some(
                                                    (
                                                        note,
                                                        to,
                                                        pt.subrange(
                                                            COMPACT_NOTE_SIZE as int,
                                                            NOTE_PLAINTEXT_SIZE as int,
                                                        ),
                                                    ),
                                                )
                                            } else {
                                                None
                                            }
                                        },
                                        None => None,
                                    }
                                } else {
                                    None
                                }
                            },
                            None => None,
                        }
                    } else {
                        None
                    }
                } else {
                    None
                }
            },
            None => None,
        }
    } else {
        None
    }
}

/// Sender-side recovery through an outgoing viewing key: derive the
/// outgoing cipher key with PRF^ock, then recover as with a pre-derived
/// key.
pub open spec fn spec_try_output_recovery(
    params: Network,
    height: u32,
    ovk: Seq<u8>,
    cv: Seq<u8>,
    cmu: Seq<u8>,
    ephemeral_key: Seq<u8>,
    enc_ciphertext: Seq<u8>,
    out_ciphertext: Seq<u8>,
) -> Option<(NoteModel, AddressModel, Seq<u8>)> {
    spec_try_output_recovery_with_ock(
        params,
        height,
        spec_prf_ock(ovk, cv, cmu, ephemeral_key),
        cmu,
        ephemeral_key,
        enc_ciphertext,
        out_ciphertext,
    )
}

/// Recovery of the full note plaintext with a pre-derived outgoing cipher
/// key, so a delegate can recover on the sender's behalf without learning
/// the outgoing viewing key. Returns the note, recipient address and memo,
/// or `None` on any failure.
pub fn try_sapling_output_recovery_with_ock(
    params: &Network,
    height: u32,
    ock: &OutgoingCipherKey,
    output: &OutputDescription,
) -> (r: Option<(Note, PaymentAddress, MemoBytes)>)
    ensures
        decryption_matches(
            r,
            spec_try_output_recovery_with_ock(
                *params,
                height,
                ock.0@,
                output.cmu@,
                output.ephemeral_key@,
                output.enc_ciphertext@,
                output.out_ciphertext@,
            ),
        ),
{
    let domain = SaplingDomain::for_height(*params, height);
    let op = match aead_open(&ock.0, output.out_ciphertext.as_slice()) {
        Some(p) => p,
        None => {
            return None;
        },
    };
    let pk_d = match SaplingDomain::extract_pk_d(op.as_slice()) {
        Some(p) => p,
        None => {
            return None;
        },
    };
    let esk = match SaplingDomain::extract_esk(op.as_slice()) {
        Some(e) => e,
        None => {
            return None;
        },
    };
    let shared_secret = SaplingDomain::ka_agree_enc(&esk, &pk_d);
    let key = kdf_sapling(&shared_secret, &output.ephemeral_key);
    let plaintext = match aead_open(&key, output.enc_ciphertext.as_slice()) {
        Some(p) => p,
        None => {
            return None;
        },
    };
    let parsed = domain.parse_note_plaintext_without_memo_ovk(
        &pk_d,
        &esk,
        &output.ephemeral_key,
        plaintext.as_slice(),
    );
    let (note, to) = match parsed {
        Some(t) => t,
        None => {
            return None;
        },
    };
    let computed_cmu = note.cmu();
    if !array_eq(&computed_cmu, &output.cmu) {
        return None;
    }
    let memo = domain.extract_memo(plaintext.as_slice());
    Some((note, to, memo))
}

/// Recovery of the full note plaintext by the sender, deriving the
/// outgoing cipher key from the outgoing viewing key and the output's
/// commitments. Returns the note, recipient address and memo, or `None` on
/// any failure.
pub fn try_sapling_output_recovery(
    params: &Network,
    height: u32,
    ovk: &OutgoingViewingKey,
    output: &OutputDescription,
) -> (r: Option<(Note, PaymentAddress, MemoBytes)>)
    ensures
        decryption_matches(
            r,
            spec_try_output_recovery(
                *params,
                height,
                ovk.0@,
                output.cv@,
                output.cmu@,
                output.ephemeral_key@,
                output.enc_ciphertext@,
                output.out_ciphertext@,
            ),
        ),
{
    let ock = prf_ock(ovk, &output.cv, &output.cmu, &output.ephemeral_key);
    try_sapling_output_recovery_with_ock(params, height, &ock, output)
}

/// What one batch-KDF entry owes its input: a symmetric key for a present
/// shared secret, and the "no shared secret" sentinel passed through
/// untouched.
pub open spec fn kdf_item_ok(item: (Option<[u8; 32]>, [u8; 32]), out: Option<[u8; 32]>) -> bool {
    match item.0 {
        Some(s) => out matches Some(key) && key@ == spec_kdf_sapling(s@, item.1@),
        None => out is None,
    }
}

/// What one batch-parsed ephemeral key owes its input: the original bytes
/// are kept, and the parsed point is present exactly when the single-item
/// parser would accept the encoding.
pub open spec fn epk_item_ok(ephemeral_key: [u8; 32], out: (Option<[u8; 32]>, [u8; 32])) -> bool {
    out.1@ == ephemeral_key@ && (if point_decodable(ephemeral_key@) {
        out.0 matches Some(p) && p@ == ephemeral_key@
    } else {
        out.0 is None
    })
}

/// What one batched shared-secret entry owes its pair: key agreement for a
/// parseable ephemeral key, the sentinel otherwise.
pub open spec fn shared_secret_item_ok(
    ivk: SaplingIvk,
    ephemeral_key: [u8; 32],
    item: (Option<[u8; 32]>, [u8; 32]),
) -> bool {
    item.1@ == ephemeral_key@ && (if point_decodable(ephemeral_key@) {
        item.0 matches Some(s) && s@ == ka_agree_of(ivk.spec_repr(), ephemeral_key@)
    } else {
        item.0 is None
    })
}

impl SaplingDomain {
    /// Derives a symmetric key for every (shared secret, ephemeral key)
    /// pair, item by item as the single-item derivation would, passing the
    /// "no shared secret" sentinel straight through.
    pub fn batch_kdf(items: Vec<(Option<[u8; 32]>, [u8; 32])>) -> (r: Vec<Option<[u8; 32]>>)
        ensures
            r@.len() == items@.len(),
            forall|k: int| 0 <= k < items@.len() ==> #[trigger] kdf_item_ok(items@[k], r@[k]),
    {
        let mut out: Vec<Option<[u8; 32]>> = Vec::new();
        let mut i: usize = 0;
        while i < items.len()
            invariant
                i <= items@.len(),
                out@.len() == i,
                forall|k: int| 0 <= k < i ==> #[trigger] kdf_item_ok(items@[k], out@[k]),
            decreases items@.len() - i,
        {
            match &items[i].0 {
                Some(s) => {
                    let key = kdf_sapling(s, &items[i].1);
                    out.push(Some(key));
                },
                None => {
                    out.push(None);
                },
            }
            i = i + 1;
        }
        out
    }

    /// Parses a batch of raw ephemeral keys in one amortized pass,
    /// item by item as the single-item parser would, returning each parsed
    /// point beside the original bytes.
    pub fn batch_epk(ephemeral_keys: Vec<[u8; 32]>) -> (r: Vec<(Option<[u8; 32]>, [u8; 32])>)
        ensures
            r@.len() == ephemeral_keys@.len(),
            forall|k: int|
                0 <= k < ephemeral_keys@.len() ==> #[trigger] epk_item_ok(
                    ephemeral_keys@[k],
                    r@[k],
                ),
    {
        let valid = crate::crypto::batch_point_check(&ephemeral_keys);
        let mut out: Vec<(Option<[u8; 32]>, [u8; 32])> = Vec::new();
        let mut i: usize = 0;
        while i < ephemeral_keys.len()
            invariant
                i <= ephemeral_keys@.len(),
                valid@.len() == ephemeral_keys@.len(),
                forall|k: int|
                    0 <= k < ephemeral_keys@.len() ==> #[trigger] valid@[k] == point_decodable(
                        ephemeral_keys@[k]@,
                    ),
                out@.len() == i,
                forall|k: int| 0 <= k < i ==> #[trigger] epk_item_ok(ephemeral_keys@[k], out@[k]),
            decreases ephemeral_keys@.len() - i,
        {
            let key = ephemeral_keys[i];
            if valid[i] {
                out.push((Some(key), key));
            } else {
                out.push((None, key));
            }
            i = i + 1;
        }
        out
    }
}

/// The single-item trial-decryption outcome that position `k` of the batch
/// result must reproduce: the batch walks keys in the outer loop and
/// outputs in the inner one.
pub open spec fn spec_batch_entry(
    ivks: Seq<SaplingIvk>,
    outputs: Seq<(SaplingDomain, OutputDescription)>,
    k: int,
) -> Option<(NoteModel, AddressModel, Seq<u8>)> {
    let m = outputs.len() as int;
    let domain = outputs[k % m].0;
    let output = outputs[k % m].1;
    spec_try_note_decryption(
        domain.spec_params(),
        domain.spec_height(),
        ivks[k / m].spec_repr(),
        output.ephemeral_key@,
        output.cmu@,
        output.enc_ciphertext@,
    )
}

/// Trial decryption of every (incoming viewing key, output) pair, with the
/// ephemeral-key parsing and key derivation amortized across the batch.
/// Entry `i * outputs.len() + j` equals, element for element, what the
/// single-item trial decryption returns for key `i` and output `j`.
pub fn batch_try_note_decryption(
    ivks: &Vec<SaplingIvk>,
    outputs: &Vec<(SaplingDomain, OutputDescription)>,
) -> (r: Vec<Option<(Note, PaymentAddress, MemoBytes)>>)
    requires
        ivks@.len() * outputs@.len() <= usize::MAX,
    ensures
        r@.len() == ivks@.len() * outputs@.len(),
        forall|k: int|
            0 <= k < r@.len() ==> #[trigger] decryption_matches(
                r@[k],
                spec_batch_entry(ivks@, outputs@, k),
            ),
{
    let n = ivks.len();
    let m = outputs.len();
    let mut ephemeral_keys: Vec<[u8; 32]> = Vec::new();
    let mut j: usize = 0;
    while j < m
        invariant
            j <= m,
            m == outputs@.len(),
            ephemeral_keys@.len() == j,
            forall|jj: int|
                0 <= jj < j ==> #[trigger] ephemeral_keys@[jj] == outputs@[jj].1.ephemeral_key,
        decreases m - j,
    {
        ephemeral_keys.push(outputs[j].1.ephemeral_key);
        j = j + 1;
    }
    let ghost eks_view = ephemeral_keys@;
    let epks = SaplingDomain::batch_epk(ephemeral_keys);
    proof {
        assert forall|jj: int|
            0 <= jj < m implies #[trigger] epk_item_ok(
            outputs@[jj].1.ephemeral_key,
            epks@[jj],
        ) by {
            assert(eks_view[jj] == outputs@[jj].1.ephemeral_key);
            assert(epk_item_ok(eks_view[jj], epks@[jj]));
        }
    }
    let mut items: Vec<(Option<[u8; 32]>, [u8; 32])> = Vec::new();
    let mut i: usize = 0;
    while i < n
        invariant
            i <= n,
            n == ivks@.len(),
            m == outputs@.len(),
            n * m <= usize::MAX,
            epks@.len() == m,
            forall|jj: int|
                0 <= jj < m ==> #[trigger] epk_item_ok(outputs@[jj].1.ephemeral_key, epks@[jj]),
            items@.len() == i * m,
            forall|k: int|
                0 <= k < i * m ==> #[trigger] shared_secret_item_ok(
                    ivks@[k / (m as int)],
                    outputs@[k % (m as int)].1.ephemeral_key,
                    items@[k],
                ),
        decreases n - i,
    {
        let mut j: usize = 0;
        while j < m
            invariant
                j <= m,
                i < n,
                n == ivks@.len(),
                m == outputs@.len(),
                n * m <= usize::MAX,
                epks@.len() == m,
                forall|jj: int|
                    0 <= jj < m ==> #[trigger] epk_item_ok(outputs@[jj].1.ephemeral_key, epks@[jj]),
                items@.len() == i * m + j,
                forall|k: int|
                    0 <= k < i * m + j ==> #[trigger] shared_secret_item_ok(
                        ivks@[k / (m as int)],
                        outputs@[k % (m as int)].1.ephemeral_key,
                        items@[k],
                    ),
            decreases m - j,
        {
            proof {
                assert(epk_item_ok(outputs@[j as int].1.ephemeral_key, epks@[j as int]));
            }
            let ghost items_before = items@;
            match &epks[j].0 {
                Some(p) => {
                    let s = SaplingDomain::ka_agree_dec(&ivks[i], p);
                    items.push((Some(s), epks[j].1));
                },
                None => {
                    items.push((None, epks[j].1));
                },
            }
            proof {
                let ghost idx = i * m + j;
                vstd::arithmetic::div_mod::lemma_fundamental_div_mod_converse(
                    idx,
                    m as int,
                    i as int,
                    j as int,
                );
                assert forall|k: int|
                    0 <= k < i * m + j + 1 implies #[trigger] shared_secret_item_ok(
                    ivks@[k / (m as int)],
                    outputs@[k % (m as int)].1.ephemeral_key,
                    items@[k],
                ) by {
                    if k < i * m + j {
                        assert(shared_secret_item_ok(
                            ivks@[k / (m as int)],
                            outputs@[k % (m as int)].1.ephemeral_key,
                            items_before[k],
                        ));
                        assert(items@[k] == items_before[k]);
                    } else {
                        assert(k == idx);
                        assert(ivks@[k / (m as int)] == ivks@[i as int]);
                        assert(outputs@[k % (m as int)].1.ephemeral_key == outputs@[j as int].1.ephemeral_key);
                    }
                }
            }
            j = j + 1;
        }
        proof {
            assert((i + 1) * m == i * m + m) by (nonlinear_arith);
        }
        i = i + 1;
    }
    let ghost items_view = items@;
    let keys = SaplingDomain::batch_kdf(items);
    let mut out: Vec<Option<(Note, PaymentAddress, MemoBytes)>> = Vec::new();
    let mut i: usize = 0;
    while i < n
        invariant
            i <= n,
            n == ivks@.len(),
            m == outputs@.len(),
            n * m <= usize::MAX,
            keys@.len() == n * m,
            items_view.len() == n * m,
            forall|k: int|
                0 <= k < n * m ==> #[trigger] shared_secret_item_ok(
                    ivks@[k / (m as int)],
                    outputs@[k % (m as int)].1.ephemeral_key,
                    items_view[k],
                ),
            forall|k: int| 0 <= k < n * m ==> #[trigger] kdf_item_ok(items_view[k], keys@[k]),
            out@.len() == i * m,
            forall|k: int|
                0 <= k < i * m ==> #[trigger] decryption_matches(
                    out@[k],
                    spec_batch_entry(ivks@, outputs@, k),
                ),
        decreases n - i,
    {
        let mut j: usize = 0;
        while j < m
            invariant
                j <= m,
                i < n,
                n == ivks@.len(),
                m == outputs@.len(),
                n * m <= usize::MAX,
                keys@.len() == n * m,
                items_view.len() == n * m,
                forall|k: int|
                    0 <= k < n * m ==> #[trigger] shared_secret_item_ok(
                        ivks@[k / (m as int)],
                        outputs@[k % (m as int)].1.ephemeral_key,
                        items_view[k],
                    ),
                forall|k: int| 0 <= k < n * m ==> #[trigger] kdf_item_ok(items_view[k], keys@[k]),
                out@.len() == i * m + j,
                forall|k: int|
                    0 <= k < i * m + j ==> #[trigger] decryption_matches(
                        out@[k],
                        spec_batch_entry(ivks@, outputs@, k),
                    ),
            decreases m - j,
        {
            proof {
                assert(i * m + j < n * m) by (nonlinear_arith)
                    requires
                        0 <= i < n,
                        0 <= j < m,
                ;
            }
            let idx = i * m + j;
            proof {
                vstd::arithmetic::div_mod::lemma_fundamental_div_mod_converse(
                    idx as int,
                    m as int,
                    i as int,
                    j as int,
                );
                assert(shared_secret_item_ok(
                    ivks@[idx as int / (m as int)],
                    outputs@[idx as int % (m as int)].1.ephemeral_key,
                    items_view[idx as int],
                ));
                assert(kdf_item_ok(items_view[idx as int], keys@[idx as int]));
            }
            let entry: Option<(Note, PaymentAddress, MemoBytes)> = match &keys[idx] {
                Some(key) => try_note_decryption_inner(
                    &outputs[j].0,
                    &ivks[i],
                    &outputs[j].1.cmu,
                    &outputs[j].1.enc_ciphertext,
                    key,
                ),
                None => None,
            };
            proof {
                assert(decryption_matches(entry, spec_batch_entry(ivks@, outputs@, idx as int)));
            }
            out.push(entry);
            j = j + 1;
        }
        proof {
            assert((i + 1) * m == i * m + m) by (nonlinear_arith);
        }
        i = i + 1;
    }
    out
}

/// Hypotheses under which a note, address and memo encode cleanly: field
/// widths in range, a lead byte acceptable at this height, a bounded
/// value, a resolvable asset identifier, a canonical pre-upgrade rseed, a
/// diversifier that maps to the note's base point, and a usable
/// transmission key shared with the address.
pub open spec fn spec_note_encodable(
    params: Network,
    height: u32,
    note: NoteModel,
    to: AddressModel,
    memo: Seq<u8>,
) -> bool {
    &&& memo.len() == MEMO_SIZE
    &&& to.diversifier.len() == 11
    &&& note.asset_identifier.len() == 32
    &&& spec_rseed_bytes(note.rseed).len() == 32
    &&& spec_plaintext_version_is_valid(params, height, spec_lead_byte(note.rseed))
    &&& note.value <= MAX_MONEY
    &&& AssetType::identifier_valid(note.asset_identifier)
    &&& (note.rseed matches RseedModel::BeforeZip212(r) ==> scalar_canonical(r))
    &&& spec_group_hash(to.diversifier, KEY_DIVERSIFICATION_PERSONALIZATION@) == Some(note.g_d)
    &&& to.pk_d == note.pk_d
    &&& subgroup_decodable(note.pk_d)
    &&& !point_is_identity(note.pk_d)
}

/// The plaintext codec round-trips: encoding a note, its recipient address
/// and a memo, then parsing the encoding back with any validation strategy
/// that accepts the note's transmission key for its diversifier, recovers
/// exactly the note and address that were encoded.
pub proof fn lemma_note_plaintext_parses(
    params: Network,
    height: u32,
    note: NoteModel,
    to: AddressModel,
    memo: Seq<u8>,
    validation: ValidationModel,
)
    requires
        spec_note_encodable(params, height, note, to, memo),
        spec_validated_pk_d(to.diversifier, validation) == Some(note.pk_d),
    ensures
        spec_parse_note_plaintext(params, height, spec_note_plaintext(note, to, memo), validation)
            == Some((note, to)),
{
    vstd::bytes::lemma_auto_spec_u64_to_from_le_bytes();
    let pt = spec_note_plaintext(note, to, memo);
    let value_bytes = vstd::bytes::spec_u64_to_le_bytes(note.value);
    assert(value_bytes.len() == 8);
    assert(pt.len() == NOTE_PLAINTEXT_SIZE);
    assert(pt[0] == spec_lead_byte(note.rseed));
    assert(pt.subrange(1, 12) =~= to.diversifier);
    assert(pt.subrange(12, 20) =~= value_bytes);
    assert(pt.subrange(20, 52) =~= note.asset_identifier);
    assert(pt.subrange(52, COMPACT_NOTE_SIZE as int) =~= spec_rseed_bytes(note.rseed));
    assert(vstd::bytes::spec_u64_from_le_bytes(pt.subrange(12, 20)) == note.value);
    let parsed_rseed = if pt[0] == 0x01 {
        RseedModel::BeforeZip212(pt.subrange(52, COMPACT_NOTE_SIZE as int))
    } else {
        RseedModel::AfterZip212(pt.subrange(52, COMPACT_NOTE_SIZE as int))
    };
    assert(parsed_rseed == note.rseed);
    assert(spec_from_parts(to.diversifier, note.pk_d) == Some(to));
    assert(spec_create_note(to, note.asset_identifier, note.value, note.rseed) == Some(note));
}

/// The codec round trip through the recipient's eyes: a plaintext encoded
/// for an address derived from `ivk` parses back to the same note and
/// address when validated by recomputing the transmission key from `ivk`.
pub proof fn lemma_note_plaintext_roundtrip(
    params: Network,
    height: u32,
    ivk: Seq<u8>,
    note: NoteModel,
    to: AddressModel,
    memo: Seq<u8>,
)
    requires
        spec_note_encodable(params, height, note, to, memo),
        point_mul_of(note.g_d, ivk) == note.pk_d,
    ensures
        spec_parse_note_plaintext(
            params,
            height,
            spec_note_plaintext(note, to, memo),
            (ValidationModel::ByIvk { ivk }),
        ) == Some((note, to)),
{
    lemma_note_plaintext_parses(params, height, note, to, memo, (ValidationModel::ByIvk { ivk }));
}

/// Full trial decryption inverts encryption. The two cryptographic facts
/// that the curve and the cipher supply stand as hypotheses: the key
/// agreements on the two sides of the protocol meet, and the sealed
/// ciphertext opens back to its plaintext (the sealing primitive
/// establishes the latter at every call). Under them, decrypting the
/// encryption of a note with the matching incoming viewing key yields
/// exactly that note, address and memo.
pub proof fn lemma_decrypt_inverts_encrypt(
    params: Network,
    height: u32,
    ivk: Seq<u8>,
    esk: Seq<u8>,
    note: NoteModel,
    to: AddressModel,
    memo: Seq<u8>,
)
    requires
        spec_note_encodable(params, height, note, to, memo),
        point_mul_of(note.g_d, ivk) == note.pk_d,
        point_decodable(point_mul_of(note.g_d, esk)),
        ka_agree_of(ivk, point_mul_of(note.g_d, esk)) == ka_agree_of(esk, note.pk_d),
        aead_seal_of(
            spec_kdf_sapling(ka_agree_of(esk, note.pk_d), point_mul_of(note.g_d, esk)),
            spec_note_plaintext(note, to, memo),
        ).len() == ENC_CIPHERTEXT_SIZE,
        aead_open_of(
            spec_kdf_sapling(ka_agree_of(esk, note.pk_d), point_mul_of(note.g_d, esk)),
            aead_seal_of(
                spec_kdf_sapling(ka_agree_of(esk, note.pk_d), point_mul_of(note.g_d, esk)),
                spec_note_plaintext(note, to, memo),
            ),
        ) == Some(spec_note_plaintext(note, to, memo)),
    ensures
        spec_try_note_decryption(
            params,
            height,
            ivk,
            point_mul_of(note.g_d, esk),
            spec_cmu_of(note),
            aead_seal_of(
                spec_kdf_sapling(ka_agree_of(esk, note.pk_d), point_mul_of(note.g_d, esk)),
                spec_note_plaintext(note, to, memo),
            ),
        ) == Some((note, to, memo)),
{
    vstd::bytes::lemma_auto_spec_u64_to_from_le_bytes();
    let epk = point_mul_of(note.g_d, esk);
    let key = spec_kdf_sapling(ka_agree_of(esk, note.pk_d), epk);
    let pt = spec_note_plaintext(note, to, memo);
    assert(pt.len() == NOTE_PLAINTEXT_SIZE);
    assert(spec_kdf_sapling(ka_agree_of(ivk, epk), epk) == key);
    lemma_note_plaintext_roundtrip(params, height, ivk, note, to, memo);
    assert(pt.subrange(COMPACT_NOTE_SIZE as int, NOTE_PLAINTEXT_SIZE as int) =~= memo);
}

/// Sender-side recovery inverts encryption. The cipher's inversions stand
/// as hypotheses (the sealing primitive establishes them at every call):
/// the outgoing ciphertext opens to the transmission key and ephemeral
/// secret, and the main ciphertext opens to the note plaintext. Under
/// them, recovery with the outgoing cipher key yields exactly the note,
/// address and memo that were encrypted.
pub proof fn lemma_recovery_inverts_encrypt(
    params: Network,
    height: u32,
    ock: Seq<u8>,
    esk: Seq<u8>,
    note: NoteModel,
    to: AddressModel,
    memo: Seq<u8>,
    enc_ciphertext: Seq<u8>,
    out_ciphertext: Seq<u8>,
)
    requires
        spec_note_encodable(params, height, note, to, memo),
        note.pk_d.len() == 32,
        esk.len() == 32,
        scalar_canonical(esk),
        out_ciphertext.len() == OUT_CIPHERTEXT_SIZE,
        enc_ciphertext.len() == ENC_CIPHERTEXT_SIZE,
        aead_open_of(ock, out_ciphertext) == Some(note.pk_d + esk),
        aead_open_of(
            spec_kdf_sapling(ka_agree_of(esk, note.pk_d), point_mul_of(note.g_d, esk)),
            enc_ciphertext,
        ) == Some(spec_note_plaintext(note, to, memo)),
    ensures
        spec_try_output_recovery_with_ock(
            params,
            height,
            ock,
            spec_cmu_of(note),
            point_mul_of(note.g_d, esk),
            enc_ciphertext,
            out_ciphertext,
        ) == Some((note, to, memo)),
{
    vstd::bytes::lemma_auto_spec_u64_to_from_le_bytes();
    let ephemeral_key = point_mul_of(note.g_d, esk);
    let op = note.pk_d + esk;
    assert(op.len() == OUT_PLAINTEXT_SIZE);
    assert(op.subrange(0, 32) =~= note.pk_d);
    assert(op.subrange(32, OUT_PLAINTEXT_SIZE as int) =~= esk);
    let pt = spec_note_plaintext(note, to, memo);
    assert(pt.len() == NOTE_PLAINTEXT_SIZE);
    let validation = ValidationModel::ByEsk { pk_d: note.pk_d, esk, ephemeral_key };
    assert(spec_validated_pk_d(to.diversifier, validation) == Some(note.pk_d));
    lemma_note_plaintext_parses(params, height, note, to, memo, validation);
    assert(pt.subrange(COMPACT_NOTE_SIZE as int, NOTE_PLAINTEXT_SIZE as int) =~= memo);
}

/// Recovery through an outgoing viewing key and recovery through the
/// outgoing cipher key independently derived from the same commitment data
/// are one and the same computation.
pub proof fn lemma_recovery_via_derived_ock(
    params: Network,
    height: u32,
    ovk: Seq<u8>,
    cv: Seq<u8>,
    cmu: Seq<u8>,
    ephemeral_key: Seq<u8>,
    enc_ciphertext: Seq<u8>,
    out_ciphertext: Seq<u8>,
)
    ensures
        spec_try_output_recovery(
            params,
            height,
            ovk,
            cv,
            cmu,
            ephemeral_key,
            enc_ciphertext,
            out_ciphertext,
        ) == spec_try_output_recovery_with_ock(
            params,
            height,
            spec_prf_ock(ovk, cv, cmu, ephemeral_key),
            cmu,
            ephemeral_key,
            enc_ciphertext,
            out_ciphertext,
        ),
{
}

} // verus!
