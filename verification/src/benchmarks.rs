//! The measured costs of the canonical transactions.
//!
//! A chain configuration supplies eight measurements. Everything else in this
//! crate is derived from them.

use crate::weight::Weight;
use vstd::prelude::*;

verus! {

/// The measured cost of each canonical transaction, as plain values.
#[derive(Clone, Copy, Debug, PartialEq, Eq, Structural)]
pub struct BenchmarkSamples {
    /// Delivery of one message.
    pub receive_single_message_proof: Weight,
    /// Delivery of two messages.
    pub receive_two_messages_proof: Weight,
    /// Delivery of one message together with the state of the outbound lane.
    pub receive_single_message_proof_with_outbound_lane_state: Weight,
    /// Delivery of one message whose proof takes 1 KiB.
    pub receive_single_message_proof_1_kb: Weight,
    /// Delivery of one message whose proof takes 16 KiB.
    pub receive_single_message_proof_16_kb: Weight,
    /// Confirmation of one message delivered by one relayer.
    pub receive_delivery_proof_for_single_message: Weight,
    /// Confirmation of two messages delivered by one relayer.
    pub receive_delivery_proof_for_two_messages_by_single_relayer: Weight,
    /// Confirmation of two messages delivered by two relayers.
    pub receive_delivery_proof_for_two_messages_by_two_relayers: Weight,
}

/// Source of the measured costs of one chain configuration.
///
/// Each method returns the same weight on every call: the one that
/// [`WeightInfo::samples`] holds for it. An implementation that is written
/// outside the verifier gives `samples` as an ordinary function that returns
/// those same values.
pub trait WeightInfo {
    /// The measurements of this configuration.
    spec fn samples() -> BenchmarkSamples;

    /// Cost of delivering one message.
    fn receive_single_message_proof() -> (weight: Weight)
        ensures
            weight == Self::samples().receive_single_message_proof,
    ;

    /// Cost of delivering two messages.
    fn receive_two_messages_proof() -> (weight: Weight)
        ensures
            weight == Self::samples().receive_two_messages_proof,
    ;

    /// Cost of delivering one message together with the state of the outbound lane.
    fn receive_single_message_proof_with_outbound_lane_state() -> (weight: Weight)
        ensures
            weight == Self::samples().receive_single_message_proof_with_outbound_lane_state,
    ;

    /// Cost of delivering one message whose proof takes 1 KiB.
    fn receive_single_message_proof_1_kb() -> (weight: Weight)
        ensures
            weight == Self::samples().receive_single_message_proof_1_kb,
    ;

    /// Cost of delivering one message whose proof takes 16 KiB.
    fn receive_single_message_proof_16_kb() -> (weight: Weight)
        ensures
            weight == Self::samples().receive_single_message_proof_16_kb,
    ;

    /// Cost of confirming one message delivered by one relayer.
    fn receive_delivery_proof_for_single_message() -> (weight: Weight)
        ensures
            weight == Self::samples().receive_delivery_proof_for_single_message,
    ;

    /// Cost of confirming two messages delivered by one relayer.
    fn receive_delivery_proof_for_two_messages_by_single_relayer() -> (weight: Weight)
        ensures
            weight == Self::samples().receive_delivery_proof_for_two_messages_by_single_relayer,
    ;

    /// Cost of confirming two messages delivered by two relayers.
    fn receive_delivery_proof_for_two_messages_by_two_relayers() -> (weight: Weight)
        ensures
            weight == Self::samples().receive_delivery_proof_for_two_messages_by_two_relayers,
    ;
}

/// Reads the eight measurements of a configuration.
pub fn collect_samples<W: WeightInfo + ?Sized>() -> (samples: BenchmarkSamples)
    ensures
        samples == W::samples(),
{
    BenchmarkSamples {
        receive_single_message_proof: W::receive_single_message_proof(),
        receive_two_messages_proof: W::receive_two_messages_proof(),
        receive_single_message_proof_with_outbound_lane_state:
            W::receive_single_message_proof_with_outbound_lane_state(),
        receive_single_message_proof_1_kb: W::receive_single_message_proof_1_kb(),
        receive_single_message_proof_16_kb: W::receive_single_message_proof_16_kb(),
        receive_delivery_proof_for_single_message: W::receive_delivery_proof_for_single_message(),
        receive_delivery_proof_for_two_messages_by_single_relayer:
            W::receive_delivery_proof_for_two_messages_by_single_relayer(),
        receive_delivery_proof_for_two_messages_by_two_relayers:
            W::receive_delivery_proof_for_two_messages_by_two_relayers(),
    }
}

} // verus!
