//! Trusted boundary around the cryptographic primitives.
//!
//! Every function here is an `external_body` wrapper around one primitive of
//! an outside crate, stated over byte strings. Curve points and scalars are
//! carried through the library in their canonical 32-byte encodings, so the
//! wrappers decode, operate, and re-encode. The uninterpreted spec functions
//! name the results; the verified code never assumes anything about them
//! beyond what the wrappers state.

use vstd::prelude::*;

use chacha20::cipher::{NewCipher, StreamCipher, StreamCipherSeek};
use chacha20poly1305::aead::{Aead, NewAead};
use ff::{Field, PrimeField};
use group::cofactor::CofactorGroup;
use group::{Group, GroupEncoding};
use rand_core::RngCore;

verus! {

/// The BLAKE2b hash of `data` with the given output length and 16-byte
/// personalization string.
pub uninterp spec fn blake2b_of(hash_length: usize, personal: Seq<u8>, data: Seq<u8>) -> Seq<u8>;

/// The 32-byte BLAKE2s hash of `data` with the given 8-byte personalization.
pub uninterp spec fn blake2s_of(personal: Seq<u8>, data: Seq<u8>) -> Seq<u8>;

/// ChaCha20-Poly1305 encryption of `plaintext` under `key` with the all-zero
/// nonce and empty associated data; the 16-byte tag is appended.
pub uninterp spec fn aead_seal_of(key: Seq<u8>, plaintext: Seq<u8>) -> Seq<u8>;

/// ChaCha20-Poly1305 decryption under `key` with the all-zero nonce; `None`
/// exactly when the trailing tag does not authenticate the ciphertext.
pub uninterp spec fn aead_open_of(key: Seq<u8>, ciphertext: Seq<u8>) -> Option<Seq<u8>>;

/// XOR of `data` with the ChaCha20 keystream for `key` and the all-zero
/// nonce, starting at the second 64-byte block.
pub uninterp spec fn chacha_block1_of(key: Seq<u8>, data: Seq<u8>) -> Seq<u8>;

/// Whether 32 bytes are the canonical little-endian encoding of a scalar,
/// that is, of a value below the prime order of the subgroup.
pub uninterp spec fn scalar_canonical(repr: Seq<u8>) -> bool;

/// The canonical encoding of the scalar obtained by reducing a 512-bit
/// little-endian integer modulo the prime order of the subgroup.
pub uninterp spec fn scalar_from_wide_of(wide: Seq<u8>) -> Seq<u8>;

/// The canonical encoding of the scalar equal to the given integer.
pub uninterp spec fn scalar_of_u64(value: u64) -> Seq<u8>;

/// Whether 32 bytes are the canonical encoding of a point on the curve.
pub uninterp spec fn point_decodable(repr: Seq<u8>) -> bool;

/// Whether 32 bytes are the canonical encoding of a point of the prime-order
/// subgroup.
pub uninterp spec fn subgroup_decodable(repr: Seq<u8>) -> bool;

/// Whether the encoded subgroup point is the group identity.
pub uninterp spec fn point_is_identity(repr: Seq<u8>) -> bool;

/// The canonical encoding of the subgroup point times the scalar.
pub uninterp spec fn point_mul_of(point: Seq<u8>, scalar: Seq<u8>) -> Seq<u8>;

/// The canonical encoding of the subgroup generator times the scalar.
pub uninterp spec fn generator_mul_of(scalar: Seq<u8>) -> Seq<u8>;

/// The canonical encoding of the sum of two subgroup points.
pub uninterp spec fn point_add_of(a: Seq<u8>, b: Seq<u8>) -> Seq<u8>;

/// The canonical encoding of the curve point multiplied by the cofactor,
/// which always lies in the prime-order subgroup.
pub uninterp spec fn clear_cofactor_of(point: Seq<u8>) -> Seq<u8>;

/// The canonical encoding of `[8 * scalar] point`: scalar multiplication of
/// an arbitrary curve point followed by cofactor clearing.
pub uninterp spec fn ka_agree_of(scalar: Seq<u8>, point: Seq<u8>) -> Seq<u8>;

/// Relies on blake2b_simd (Params, State): the BLAKE2b hash of `data` with
/// output length `hash_length` and the 16-byte personalization; it depends on
/// the arguments alone and has exactly `hash_length` bytes.
#[verifier::external_body]
pub(crate) fn blake2b_hash(hash_length: usize, personal: &[u8; 16], data: &[u8]) -> (r: Vec<u8>)
    requires
        1 <= hash_length <= 64,
    ensures
        r@ == blake2b_of(hash_length, personal@, data@),
        r@.len() == hash_length,
{
    blake2b_simd::Params::new()
        .hash_length(hash_length)
        .personal(personal)
        .to_state()
        .update(data)
        .finalize()
        .as_bytes()
        .to_vec()
}

/// Relies on blake2s_simd (Params, State): the 32-byte BLAKE2s hash of
/// `data` with the 8-byte personalization; it depends on the arguments alone.
#[verifier::external_body]
pub(crate) fn blake2s_hash(personal: &[u8; 8], data: &[u8]) -> (r: [u8; 32])
    ensures
        r@ == blake2s_of(personal@, data@),
{
    let digest = blake2s_simd::Params::new()
        .hash_length(32)
        .personal(personal)
        .to_state()
        .update(data)
        .finalize();
    let mut out = [0u8; 32];
    out.copy_from_slice(digest.as_bytes());
    out
}

/// Relies on chacha20poly1305 (Aead::encrypt): one-shot ChaCha20-Poly1305
/// encryption with the all-zero nonce and no associated data; the 16-byte tag
/// is appended, and decryption under the same key inverts it. The all-zero
/// nonce is sound only because every key handed here is used exactly once.
#[verifier::external_body]
pub(crate) fn aead_seal(key: &[u8; 32], plaintext: &[u8]) -> (r: Vec<u8>)
    requires
        plaintext@.len() <= 0xffff_ffff,
    ensures
        r@ == aead_seal_of(key@, plaintext@),
        r@.len() == plaintext@.len() + 16,
        aead_open_of(key@, r@) == Some(plaintext@),
{
    let cipher = chacha20poly1305::ChaCha20Poly1305::new(chacha20poly1305::Key::from_slice(key));
    cipher
        .encrypt(chacha20poly1305::Nonce::from_slice(&[0u8; 12]), plaintext)
        .unwrap()
}

/// Relies on chacha20poly1305 (Aead::decrypt): one-shot decryption with the
/// all-zero nonce and no associated data; returns the plaintext exactly when
/// the trailing 16-byte tag authenticates the ciphertext under this key, and
/// is deterministic in its arguments.
#[verifier::external_body]
pub(crate) fn aead_open(key: &[u8; 32], ciphertext: &[u8]) -> (r: Option<Vec<u8>>)
    ensures
        (match r {
            Some(p) => aead_open_of(key@, ciphertext@) == Some(p@) && p@.len() + 16
                == ciphertext@.len(),
            None => aead_open_of(key@, ciphertext@) is None,
        }),
{
    let cipher = chacha20poly1305::ChaCha20Poly1305::new(chacha20poly1305::Key::from_slice(key));
    cipher
        .decrypt(chacha20poly1305::Nonce::from_slice(&[0u8; 12]), ciphertext)
        .ok()
}

/// Relies on chacha20 (ChaCha20, StreamCipherSeek): XOR of `data` with the
/// keystream for `key` and the all-zero nonce, starting at byte offset 64
/// (the first block is reserved for the Poly1305 key in the AEAD
/// construction). Deterministic in its arguments; the length bound keeps
/// the cipher's 32-bit block counter from overflowing.
#[verifier::external_body]
pub(crate) fn chacha_block1_xor(key: &[u8; 32], data: &[u8]) -> (r: Vec<u8>)
    requires
        data@.len() <= 0xffff_ffff,
    ensures
        r@ == chacha_block1_of(key@, data@),
        r@.len() == data@.len(),
{
    let mut buf = data.to_vec();
    let mut cipher = chacha20::ChaCha20::new(
        chacha20::Key::from_slice(key),
        chacha20::Nonce::from_slice(&[0u8; 12]),
    );
    cipher.seek(64);
    cipher.apply_keystream(&mut buf);
    buf
}

/// Relies on jubjub::Fr::from_repr: whether the 32 bytes canonically encode a
/// scalar, i.e. are the little-endian encoding of a value below the subgroup
/// order. The order's most significant byte is 0x0e, so an encoding whose
/// last byte is below 0x08 is always canonical.
#[verifier::external_body]
pub(crate) fn scalar_check(repr: &[u8; 32]) -> (r: bool)
    ensures
        r == scalar_canonical(repr@),
        repr@[31] < 8 ==> r,
{
    bool::from(jubjub::Fr::from_repr(*repr).is_some())
}

/// Relies on jubjub::Fr::from_bytes_wide and to_repr: reduction of a 512-bit
/// little-endian integer modulo the subgroup order, returned canonically.
#[verifier::external_body]
pub(crate) fn scalar_from_wide(wide: &[u8; 64]) -> (r: [u8; 32])
    ensures
        r@ == scalar_from_wide_of(wide@),
        scalar_canonical(r@),
{
    jubjub::Fr::from_bytes_wide(wide).to_repr()
}

/// Relies on jubjub::Fr::from and to_repr: the canonical encoding of the
/// scalar equal to the given integer.
#[verifier::external_body]
pub(crate) fn scalar_u64(value: u64) -> (r: [u8; 32])
    ensures
        r@ == scalar_of_u64(value),
        scalar_canonical(r@),
{
    jubjub::Fr::from(value).to_repr()
}

/// Relies on jubjub::ExtendedPoint::from_bytes: whether the 32 bytes are the
/// canonical encoding of a point on the curve (non-canonical encodings are
/// rejected).
#[verifier::external_body]
pub(crate) fn point_check(repr: &[u8; 32]) -> (r: bool)
    ensures
        r == point_decodable(repr@),
{
    bool::from(jubjub::ExtendedPoint::from_bytes(repr).is_some())
}

/// Relies on jubjub::SubgroupPoint::from_bytes: as `point_check`, with the
/// decoded point additionally required to lie in the prime-order subgroup.
#[verifier::external_body]
pub(crate) fn subgroup_check(repr: &[u8; 32]) -> (r: bool)
    ensures
        r == subgroup_decodable(repr@),
{
    bool::from(jubjub::SubgroupPoint::from_bytes(repr).is_some())
}

/// Relies on jubjub::SubgroupPoint::is_identity on the decoded point.
#[verifier::external_body]
pub(crate) fn identity_check(repr: &[u8; 32]) -> (r: bool)
    requires
        subgroup_decodable(repr@),
    ensures
        r == point_is_identity(repr@),
{
    bool::from(jubjub::SubgroupPoint::from_bytes(repr).unwrap().is_identity())
}

/// Relies on jubjub scalar multiplication (SubgroupPoint * Fr): the subgroup
/// is closed under it, and the result is returned in canonical encoding.
#[verifier::external_body]
pub(crate) fn point_mul(point: &[u8; 32], scalar: &[u8; 32]) -> (r: [u8; 32])
    requires
        subgroup_decodable(point@),
        scalar_canonical(scalar@),
    ensures
        r@ == point_mul_of(point@, scalar@),
        subgroup_decodable(r@),
{
    let p = jubjub::SubgroupPoint::from_bytes(point).unwrap();
    let s = jubjub::Fr::from_repr(*scalar).unwrap();
    (p * s).to_bytes()
}

/// Relies on jubjub: the prime-order subgroup generator times the scalar,
/// in canonical encoding.
#[verifier::external_body]
pub(crate) fn generator_mul(scalar: &[u8; 32]) -> (r: [u8; 32])
    requires
        scalar_canonical(scalar@),
    ensures
        r@ == generator_mul_of(scalar@),
        subgroup_decodable(r@),
{
    let s = jubjub::Fr::from_repr(*scalar).unwrap();
    (jubjub::SubgroupPoint::generator() * s).to_bytes()
}

/// Relies on jubjub point addition: the subgroup is closed under it, and the
/// result is returned in canonical encoding.
#[verifier::external_body]
pub(crate) fn point_add(a: &[u8; 32], b: &[u8; 32]) -> (r: [u8; 32])
    requires
        subgroup_decodable(a@),
        subgroup_decodable(b@),
    ensures
        r@ == point_add_of(a@, b@),
        subgroup_decodable(r@),
{
    let pa = jubjub::SubgroupPoint::from_bytes(a).unwrap();
    let pb = jubjub::SubgroupPoint::from_bytes(b).unwrap();
    (pa + pb).to_bytes()
}

/// Relies on jubjub CofactorGroup::clear_cofactor (multiplication by the
/// cofactor 8), which maps any curve point into the prime-order subgroup.
#[verifier::external_body]
pub(crate) fn cofactor_clear(point: &[u8; 32]) -> (r: [u8; 32])
    requires
        point_decodable(point@),
    ensures
        r@ == clear_cofactor_of(point@),
        subgroup_decodable(r@),
{
    let p = jubjub::ExtendedPoint::from_bytes(point).unwrap();
    p.clear_cofactor().to_bytes()
}

/// Relies on jubjub::AffinePoint::batch_from_bytes, documented to decode each
/// element exactly as `from_bytes` does while amortizing the field inversions;
/// `ExtendedPoint::from_bytes` decodes through the same affine parser.
#[verifier::external_body]
pub(crate) fn batch_point_check(reprs: &Vec<[u8; 32]>) -> (r: Vec<bool>)
    ensures
        r@.len() == reprs@.len(),
        forall|i: int| 0 <= i < reprs@.len() ==> #[trigger] r@[i] == point_decodable(reprs@[i]@),
{
    jubjub::AffinePoint::batch_from_bytes(reprs.iter().copied())
        .into_iter()
        .map(|p| bool::from(p.is_some()))
        .collect()
}

/// Relies on rand_core::OsRng and jubjub::Fr::random: a fresh random scalar;
/// nothing is assumed of the value beyond canonicity of its encoding.
#[verifier::external_body]
pub(crate) fn random_scalar() -> (r: [u8; 32])
    ensures
        scalar_canonical(r@),
{
    jubjub::Fr::random(rand_core::OsRng).to_repr()
}

/// Relies on rand_core::OsRng: fresh random bytes; nothing is assumed of the
/// values.
#[verifier::external_body]
pub(crate) fn random_bytes(count: usize) -> (r: Vec<u8>)
    ensures
        r@.len() == count,
{
    let mut out = vec![0u8; count];
    rand_core::OsRng.fill_bytes(&mut out);
    out
}

} // verus!
