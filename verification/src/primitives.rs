//! Plain values that a transaction hands to the estimator: the state of the
//! relayers that await their reward, and the size of a storage proof.

use bp_messages::MessageNonce;
use vstd::prelude::*;

verus! {

/// What a delivery confirmation says of the relayers that have delivered
/// messages and were not rewarded yet.
#[derive(Clone, Copy, Debug, PartialEq, Eq, Structural)]
pub struct UnrewardedRelayersState {
    /// Number of entries in the set of unrewarded relayers.
    pub unrewarded_relayer_entries: MessageNonce,
    /// Number of messages that all the entries cover together.
    pub total_messages: MessageNonce,
}

/// The size that a proof of `bytes` bytes is accounted with: its length, or
/// `u32::MAX` where the length does not fit.
pub open spec fn spec_precomputed_size(bytes: usize) -> u32 {
    if bytes <= u32::MAX {
        bytes as u32
    } else {
        u32::MAX
    }
}

/// Calls `bp_runtime::Size::size` on a `bp_runtime::PreComputedSize`, which
/// converts the length to `u32` and gives `u32::MAX` where that fails.
#[verifier::external_body]
pub(crate) fn precomputed_size(bytes: usize) -> (size: u32)
    ensures
        size == spec_precomputed_size(bytes),
{
    bp_runtime::Size::size(&bp_runtime::PreComputedSize(bytes))
}

} // verus!
