//! Consensus parameters: the activation schedule of the network upgrade that
//! governs which note-plaintext lead byte is acceptable at a given height.

use vstd::prelude::*;

verus! {

/// The network upgrade that governs the note-plaintext version gate.
#[derive(Clone, Copy, Debug)]
pub enum NetworkUpgrade {
    Canopy,
}

/// Number of blocks, starting at the upgrade's activation height, during
/// which both note-plaintext lead bytes are accepted.
pub const ZIP212_GRACE_PERIOD: u32 = 32256;

/// A network's consensus parameters: the height at which the governing
/// upgrade activates, or `None` if it never activates on this network.
#[derive(Clone, Copy, Debug)]
pub struct Network {
    pub canopy_activation: Option<u32>,
}

impl Network {
    /// The activation height of the governing upgrade.
    pub open spec fn spec_activation_height(self) -> Option<u32> {
        self.canopy_activation
    }

    /// Whether the governing upgrade is active at `height`.
    pub open spec fn spec_is_active(self, height: u32) -> bool {
        match self.canopy_activation {
            Some(h) => height >= h,
            None => false,
        }
    }

    /// The height at which the given upgrade activates, if ever.
    pub fn activation_height(&self, _nu: NetworkUpgrade) -> (r: Option<u32>)
        ensures
            r == self.spec_activation_height(),
    {
        self.canopy_activation
    }

    /// Whether the given upgrade is active at `height`.
    pub fn is_nu_active(&self, _nu: NetworkUpgrade, height: u32) -> (r: bool)
        ensures
            r == self.spec_is_active(height),
    {
        match self.canopy_activation {
            Some(h) => height >= h,
            None => false,
        }
    }
}

} // verus!
