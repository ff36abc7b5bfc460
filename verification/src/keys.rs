//! Outgoing viewing keys.

use vstd::prelude::*;

verus! {

/// An outgoing viewing key: 32 raw bytes used as a hash key by the sender's
/// recovery path, never as a curve scalar.
#[derive(Clone, Copy, Debug)]
pub struct OutgoingViewingKey(pub [u8; 32]);

} // verus!
