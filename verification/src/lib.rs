//! In-band secret distribution for a shielded transaction pool.
//!
//! A sender encrypts a note (value, asset type, randomness, recipient
//! diversifier) so that only the intended recipient can recover it, while the
//! sender can later recover the same plaintext from chain data alone, and any
//! party holding a decryption key can scan outputs for notes addressed to it.

pub mod asset_type;
pub mod byteops;
pub mod consensus;
pub mod crypto;
pub mod group_hash;
pub mod keys;
pub mod memo;
pub mod note_encryption;
pub mod sapling;

use vstd::prelude::*;

verus! {

/// Number of bytes in the memo field carried at the end of a note plaintext.
pub const MEMO_SIZE: usize = 512;

} // verus!
