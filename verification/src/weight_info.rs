//! The weight estimator of a chain configuration.
//!
//! A configuration names its measured costs and the number of proof bytes
//! that they cover. The trait derives every overhead and both weight formulas
//! from these, and the functions below it check that the configuration is fit
//! to be deployed.

use crate::benchmarks::{collect_samples, WeightInfo};
use crate::capacity::ConfigurationError;
use crate::overheads::{marginal_overhead, proof_size_overhead, transaction_overhead, OverheadSet};
use crate::primitives::UnrewardedRelayersState;
use crate::weight::Weight;
use bp_messages::MessageNonce;
use vstd::prelude::*;

verus! {

/// Weight estimator of one chain configuration.
///
/// Every provided method returns what [`OverheadSet`] returns on the
/// overheads of this configuration, which are
/// `OverheadSet::spec_decompose(Self::samples(), Self::spec_expected_extra_storage_proof_size())`.
/// An implementation that replaces one of them is held to the same result.
pub trait WeightInfoExt: WeightInfo {
    /// The value that [`WeightInfoExt::expected_extra_storage_proof_size`] returns.
    spec fn spec_expected_extra_storage_proof_size() -> u32;

    /// Size of the proof that is already included in the weight of a single
    /// message delivery.
    ///
    /// The submitter of a message has paid for a proof of this size. A proof
    /// may be larger, because the message is larger than the default one or
    /// because the relayer has added trie nodes to it: the relayer is charged
    /// for the bytes beyond this size.
    fn expected_extra_storage_proof_size() -> (size: u32)
        ensures
            size == Self::spec_expected_extra_storage_proof_size(),
    ;

    /// The overheads of this configuration.
    fn overheads() -> (overheads: OverheadSet)
        ensures
            overheads == OverheadSet::spec_decompose(
                Self::samples(),
                Self::spec_expected_extra_storage_proof_size(),
            ),
    {
        OverheadSet::decompose(
            &collect_samples::<Self>(),
            Self::expected_extra_storage_proof_size(),
        )
    }

    /// Weight of a message delivery transaction that carries `messages_count`
    /// messages with a proof of `proof_size` bytes.
    fn receive_messages_proof_weight(
        proof_size: u32,
        messages_count: u32,
        dispatch_weight: Weight,
    ) -> (weight: Weight)
        ensures
            weight == OverheadSet::spec_decompose(
                Self::samples(),
                Self::spec_expected_extra_storage_proof_size(),
            ).spec_receive_messages_proof_weight(proof_size, messages_count, dispatch_weight),
    {
        Self::overheads().receive_messages_proof_weight(proof_size, messages_count, dispatch_weight)
    }

    /// Weight of a delivery confirmation transaction with a proof of
    /// `proof_size` bytes.
    fn receive_messages_delivery_proof_weight(
        proof_size: u32,
        relayers_state: &UnrewardedRelayersState,
    ) -> (weight: Weight)
        ensures
            weight == OverheadSet::spec_decompose(
                Self::samples(),
                Self::spec_expected_extra_storage_proof_size(),
            ).spec_receive_messages_delivery_proof_weight(proof_size, *relayers_state),
    {
        Self::overheads().receive_messages_delivery_proof_weight(proof_size, relayers_state)
    }

    /// Fixed part of the weight of a message delivery transaction.
    fn receive_messages_proof_overhead() -> (overhead: Weight)
        ensures
            overhead == OverheadSet::spec_decompose(
                Self::samples(),
                Self::spec_expected_extra_storage_proof_size(),
            ).base_delivery_overhead,
    {
        let weight_of_single_message = Self::receive_single_message_proof();
        let weight_of_two_messages = Self::receive_two_messages_proof();
        transaction_overhead(weight_of_single_message, weight_of_two_messages)
    }

    /// Weight that `messages` messages add to a message delivery transaction.
    fn receive_messages_proof_messages_overhead(messages: MessageNonce) -> (overhead: Weight)
        ensures
            overhead == OverheadSet::spec_decompose(
                Self::samples(),
                Self::spec_expected_extra_storage_proof_size(),
            ).spec_receive_messages_proof_messages_overhead(messages),
    {
        let weight_of_two_messages = Self::receive_two_messages_proof();
        let weight_of_single_message = Self::receive_single_message_proof();
        marginal_overhead(weight_of_two_messages, weight_of_single_message).saturating_mul(messages)
    }

    /// Weight that the state of the outbound lane adds to a message delivery
    /// transaction.
    fn receive_messages_proof_outbound_lane_state_overhead() -> (overhead: Weight)
        ensures
            overhead == OverheadSet::spec_decompose(
                Self::samples(),
                Self::spec_expected_extra_storage_proof_size(),
            ).outbound_state_overhead,
    {
        let weight_of_single_message_and_lane_state =
            Self::receive_single_message_proof_with_outbound_lane_state();
        let weight_of_single_message = Self::receive_single_message_proof();
        marginal_overhead(weight_of_single_message_and_lane_state, weight_of_single_message)
    }

    /// Fixed part of the weight of a delivery confirmation transaction.
    fn receive_messages_delivery_proof_overhead() -> (overhead: Weight)
        ensures
            overhead == OverheadSet::spec_decompose(
                Self::samples(),
                Self::spec_expected_extra_storage_proof_size(),
            ).base_confirmation_overhead,
    {
        let weight_of_single_message = Self::receive_delivery_proof_for_single_message();
        let weight_of_two_messages =
            Self::receive_delivery_proof_for_two_messages_by_single_relayer();
        transaction_overhead(weight_of_single_message, weight_of_two_messages)
    }

    /// Weight that `messages` confirmed messages add to a delivery
    /// confirmation transaction.
    fn receive_messages_delivery_proof_messages_overhead(
        messages: MessageNonce,
    ) -> (overhead: Weight)
        ensures
            overhead == OverheadSet::spec_decompose(
                Self::samples(),
                Self::spec_expected_extra_storage_proof_size(),
            ).spec_receive_messages_delivery_proof_messages_overhead(messages),
    {
        let weight_of_two_messages =
            Self::receive_delivery_proof_for_two_messages_by_single_relayer();
        let weight_of_single_message = Self::receive_delivery_proof_for_single_message();
        marginal_overhead(weight_of_two_messages, weight_of_single_message).saturating_mul(messages)
    }

    /// Weight that `relayers` relayer entries add to a delivery confirmation
    /// transaction.
    fn receive_messages_delivery_proof_relayers_overhead(
        relayers: MessageNonce,
    ) -> (overhead: Weight)
        ensures
            overhead == OverheadSet::spec_decompose(
                Self::samples(),
                Self::spec_expected_extra_storage_proof_size(),
            ).spec_receive_messages_delivery_proof_relayers_overhead(relayers),
    {
        let weight_of_two_messages_by_two_relayers =
            Self::receive_delivery_proof_for_two_messages_by_two_relayers();
        let weight_of_two_messages_by_single_relayer =
            Self::receive_delivery_proof_for_two_messages_by_single_relayer();
        marginal_overhead(
            weight_of_two_messages_by_two_relayers,
            weight_of_two_messages_by_single_relayer,
        ).saturating_mul(relayers)
    }

    /// Weight that `proof_size` bytes of storage proof add to either
    /// transaction.
    ///
    /// The weight of a transaction already covers a proof of the expected
    /// size, so that only the bytes beyond it are charged with this.
    fn storage_proof_size_overhead(proof_size: u32) -> (overhead: Weight)
        ensures
            overhead == OverheadSet::spec_decompose(
                Self::samples(),
                Self::spec_expected_extra_storage_proof_size(),
            ).spec_storage_proof_size_overhead(proof_size),
    {
        let weight_of_1_kb_proof = Self::receive_single_message_proof_1_kb();
        let weight_of_16_kb_proof = Self::receive_single_message_proof_16_kb();
        proof_size_overhead(
            marginal_overhead(weight_of_16_kb_proof, weight_of_1_kb_proof),
            proof_size,
        )
    }
}

/// The overheads of the configuration `W`.
pub open spec fn overheads_of<W: WeightInfoExt + ?Sized>() -> OverheadSet {
    OverheadSet::spec_decompose(W::samples(), W::spec_expected_extra_storage_proof_size())
}

/// Checks that the cost model of the configuration `W` is sound: that none of
/// its overheads is zero. The error names the first one that is.
pub fn ensure_weights_are_correct<W: WeightInfoExt>() -> (result: Result<(), ConfigurationError>)
    ensures
        result == overheads_of::<W>().spec_ensure_nonzero(),
{
    W::overheads().ensure_nonzero()
}

/// Checks that the chain is able to receive the largest message, by size and
/// by weight, from the other chain.
pub fn ensure_able_to_receive_message<W: WeightInfoExt>(
    max_extrinsic_size: u32,
    max_extrinsic_weight: Weight,
    max_incoming_message_proof_size: u32,
    max_incoming_message_dispatch_weight: Weight,
) -> (result: Result<(), ConfigurationError>)
    ensures
        result == overheads_of::<W>().spec_ensure_message_fits(
            max_extrinsic_size,
            max_extrinsic_weight,
            max_incoming_message_proof_size,
            max_incoming_message_dispatch_weight,
        ),
{
    W::overheads().ensure_message_fits(
        max_extrinsic_size,
        max_extrinsic_weight,
        max_incoming_message_proof_size,
        max_incoming_message_dispatch_weight,
    )
}

/// Checks that the chain is able to receive the largest delivery
/// confirmation, by size and by weight, from the other chain.
pub fn ensure_able_to_receive_confirmation<W: WeightInfoExt>(
    max_extrinsic_size: u32,
    max_extrinsic_weight: Weight,
    max_inbound_lane_data_proof_size_from_peer_chain: u32,
    max_unrewarded_relayer_entries_at_peer_inbound_lane: MessageNonce,
    max_unconfirmed_messages_at_inbound_lane: MessageNonce,
) -> (result: Result<(), ConfigurationError>)
    ensures
        result == overheads_of::<W>().spec_ensure_confirmation_fits(
            max_extrinsic_size,
            max_extrinsic_weight,
            max_inbound_lane_data_proof_size_from_peer_chain,
            max_unrewarded_relayer_entries_at_peer_inbound_lane,
            max_unconfirmed_messages_at_inbound_lane,
        ),
{
    W::overheads().ensure_confirmation_fits(
        max_extrinsic_size,
        max_extrinsic_weight,
        max_inbound_lane_data_proof_size_from_peer_chain,
        max_unrewarded_relayer_entries_at_peer_inbound_lane,
        max_unconfirmed_messages_at_inbound_lane,
    )
}

} // verus!
