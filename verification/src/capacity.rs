//! Checks that a chain configuration is fit to be deployed: that no overhead
//! of its cost model is zero, and that the largest transactions fit into the
//! limits of the chain.

use crate::overheads::OverheadSet;
use crate::primitives::{precomputed_size, UnrewardedRelayersState};
use crate::weight::Weight;
use bp_messages::MessageNonce;
use vstd::prelude::*;

verus! {

/// Number of bytes that the signed extensions and the small arguments of a
/// call are assumed to fit into.
pub const SIGNED_EXTENSIONS_SIZE: u32 = 1024;

/// One of the overheads that the measurements are decomposed into.
#[derive(Clone, Copy, Debug, PartialEq, Eq, Structural)]
pub enum OverheadComponent {
    /// Fixed part of a message delivery transaction.
    BaseDelivery,
    /// Part of a message delivery transaction for each message.
    PerMessage,
    /// Part of a message delivery transaction for the state of the outbound lane.
    OutboundState,
    /// Part of either transaction for one byte of proof.
    PerProofByte,
    /// Fixed part of a delivery confirmation transaction.
    BaseConfirmation,
    /// Part of a delivery confirmation transaction for each confirmed message.
    PerConfirmedMessage,
    /// Part of a delivery confirmation transaction for each relayer entry.
    PerRelayer,
}

/// Why a chain configuration must not be deployed.
#[derive(Clone, Copy, Debug, PartialEq, Eq, Structural)]
pub enum ConfigurationError {
    /// An overhead of the cost model is zero.
    ZeroOverhead(OverheadComponent),
    /// The largest transaction takes more bytes than a transaction may.
    TransactionTooLarge {
        /// Size of the largest transaction.
        transaction_size: u64,
        /// Largest size that the chain accepts.
        max_extrinsic_size: u32,
    },
    /// The largest transaction weighs more than a transaction may.
    TransactionTooHeavy {
        /// Weight of the largest transaction.
        transaction_weight: Weight,
        /// Largest weight that the chain accepts.
        max_extrinsic_weight: Weight,
    },
}

/// The `u32` nearest to `x`.
pub open spec fn clamp_u32(x: int) -> u32 {
    if x < 0 {
        0
    } else if x > u32::MAX {
        u32::MAX
    } else {
        x as u32
    }
}

/// The verdict on a transaction of `transaction_size` bytes and of weight
/// `transaction_weight`: too large where it exceeds the size limit, else too
/// heavy where a component of its weight exceeds that of the weight limit,
/// else fit.
pub open spec fn spec_ensure_transaction_fits(
    transaction_size: u64,
    max_extrinsic_size: u32,
    transaction_weight: Weight,
    max_extrinsic_weight: Weight,
) -> Result<(), ConfigurationError> {
    if transaction_size > max_extrinsic_size {
        Err(
            ConfigurationError::TransactionTooLarge {
                transaction_size,
                max_extrinsic_size,
            },
        )
    } else if !transaction_weight.spec_all_lte(max_extrinsic_weight) {
        Err(ConfigurationError::TransactionTooHeavy { transaction_weight, max_extrinsic_weight })
    } else {
        Ok(())
    }
}

/// Checks a transaction of `transaction_size` bytes and of weight
/// `transaction_weight` against the limits of the chain, the size first.
pub fn ensure_transaction_fits(
    transaction_size: u64,
    max_extrinsic_size: u32,
    transaction_weight: Weight,
    max_extrinsic_weight: Weight,
) -> (result: Result<(), ConfigurationError>)
    ensures
        result == spec_ensure_transaction_fits(
            transaction_size,
            max_extrinsic_size,
            transaction_weight,
            max_extrinsic_weight,
        ),
{
    if transaction_size > max_extrinsic_size as u64 {
        Err(ConfigurationError::TransactionTooLarge { transaction_size, max_extrinsic_size })
    } else if !transaction_weight.all_lte(max_extrinsic_weight) {
        Err(ConfigurationError::TransactionTooHeavy { transaction_weight, max_extrinsic_weight })
    } else {
        Ok(())
    }
}

impl OverheadSet {
    /// The first overhead that is zero in both components, if there is one.
    /// Of the proof it is the cost of one byte that counts: it is zero where
    /// the span costs less than one unit for each of its bytes.
    pub open spec fn spec_first_zero_overhead(self) -> Option<OverheadComponent> {
        if self.base_delivery_overhead == Weight::spec_zero() {
            Some(OverheadComponent::BaseDelivery)
        } else if self.per_message_overhead == Weight::spec_zero() {
            Some(OverheadComponent::PerMessage)
        } else if self.outbound_state_overhead == Weight::spec_zero() {
            Some(OverheadComponent::OutboundState)
        } else if self.spec_storage_proof_size_overhead(1) == Weight::spec_zero() {
            Some(OverheadComponent::PerProofByte)
        } else if self.base_confirmation_overhead == Weight::spec_zero() {
            Some(OverheadComponent::BaseConfirmation)
        } else if self.per_confirmed_message_overhead == Weight::spec_zero() {
            Some(OverheadComponent::PerConfirmedMessage)
        } else if self.per_relayer_overhead == Weight::spec_zero() {
            Some(OverheadComponent::PerRelayer)
        } else {
            None
        }
    }

    /// The verdict on the cost model: the first overhead that is zero, or
    /// `Ok` where none is.
    pub open spec fn spec_ensure_nonzero(self) -> Result<(), ConfigurationError> {
        match self.spec_first_zero_overhead() {
            Some(component) => Err(ConfigurationError::ZeroOverhead(component)),
            None => Ok(()),
        }
    }

    /// Checks that no overhead of the cost model is zero, nor the cost of one
    /// byte of proof.
    pub fn ensure_nonzero(&self) -> (result: Result<(), ConfigurationError>)
        ensures
            result == self.spec_ensure_nonzero(),
    {
        let zero = Weight::zero();
        if self.base_delivery_overhead == zero {
            Err(ConfigurationError::ZeroOverhead(OverheadComponent::BaseDelivery))
        } else if self.per_message_overhead == zero {
            Err(ConfigurationError::ZeroOverhead(OverheadComponent::PerMessage))
        } else if self.outbound_state_overhead == zero {
            Err(ConfigurationError::ZeroOverhead(OverheadComponent::OutboundState))
        } else if self.storage_proof_size_overhead(1) == zero {
            Err(ConfigurationError::ZeroOverhead(OverheadComponent::PerProofByte))
        } else if self.base_confirmation_overhead == zero {
            Err(ConfigurationError::ZeroOverhead(OverheadComponent::BaseConfirmation))
        } else if self.per_confirmed_message_overhead == zero {
            Err(ConfigurationError::ZeroOverhead(OverheadComponent::PerConfirmedMessage))
        } else if self.per_relayer_overhead == zero {
            Err(ConfigurationError::ZeroOverhead(OverheadComponent::PerRelayer))
        } else {
            Ok(())
        }
    }

    /// The verdict on the largest message delivery transaction: one message
    /// with a proof of `max_incoming_message_proof_size` bytes beyond the
    /// expected extra bytes, dispatched at
    /// `max_incoming_message_dispatch_weight`.
    pub open spec fn spec_ensure_message_fits(
        self,
        max_extrinsic_size: u32,
        max_extrinsic_weight: Weight,
        max_incoming_message_proof_size: u32,
        max_incoming_message_dispatch_weight: Weight,
    ) -> Result<(), ConfigurationError> {
        spec_ensure_transaction_fits(
            (max_incoming_message_proof_size + SIGNED_EXTENSIONS_SIZE) as u64,
            max_extrinsic_size,
            self.spec_receive_messages_proof_weight(
                clamp_u32(max_incoming_message_proof_size + self.expected_extra_proof_size),
                1,
                max_incoming_message_dispatch_weight,
            ),
            max_extrinsic_weight,
        )
    }

    /// Checks that the chain is able to receive the largest message, by size
    /// and by weight.
    pub fn ensure_message_fits(
        &self,
        max_extrinsic_size: u32,
        max_extrinsic_weight: Weight,
        max_incoming_message_proof_size: u32,
        max_incoming_message_dispatch_weight: Weight,
    ) -> (result: Result<(), ConfigurationError>)
        ensures
            result == self.spec_ensure_message_fits(
                max_extrinsic_size,
                max_extrinsic_weight,
                max_incoming_message_proof_size,
                max_incoming_message_dispatch_weight,
            ),
    {
        let max_delivery_transaction_size: u64 = max_incoming_message_proof_size as u64
            + SIGNED_EXTENSIONS_SIZE as u64;
        let max_proof_size = precomputed_size(
            (max_incoming_message_proof_size as usize).saturating_add(
                self.expected_extra_proof_size as usize,
            ),
        );
        let max_delivery_transaction_dispatch_weight = self.receive_messages_proof_weight(
            max_proof_size,
            1,
            max_incoming_message_dispatch_weight,
        );
        ensure_transaction_fits(
            max_delivery_transaction_size,
            max_extrinsic_size,
            max_delivery_transaction_dispatch_weight,
            max_extrinsic_weight,
        )
    }

    /// The verdict on the largest delivery confirmation transaction: a proof
    /// of `max_inbound_lane_data_proof_size_from_peer_chain` bytes that
    /// confirms `max_unconfirmed_messages_at_inbound_lane` messages delivered
    /// by `max_unrewarded_relayer_entries_at_peer_inbound_lane` relayers.
    pub open spec fn spec_ensure_confirmation_fits(
        self,
        max_extrinsic_size: u32,
        max_extrinsic_weight: Weight,
        max_inbound_lane_data_proof_size_from_peer_chain: u32,
        max_unrewarded_relayer_entries_at_peer_inbound_lane: MessageNonce,
        max_unconfirmed_messages_at_inbound_lane: MessageNonce,
    ) -> Result<(), ConfigurationError> {
        spec_ensure_transaction_fits(
            (max_inbound_lane_data_proof_size_from_peer_chain + SIGNED_EXTENSIONS_SIZE) as u64,
            max_extrinsic_size,
            self.spec_receive_messages_delivery_proof_weight(
                max_inbound_lane_data_proof_size_from_peer_chain,
                UnrewardedRelayersState {
                    unrewarded_relayer_entries: max_unrewarded_relayer_entries_at_peer_inbound_lane,
                    total_messages: max_unconfirmed_messages_at_inbound_lane,
                },
            ),
            max_extrinsic_weight,
        )
    }

    /// Checks that the chain is able to receive the largest delivery
    /// confirmation, by size and by weight.
    pub fn ensure_confirmation_fits(
        &self,
        max_extrinsic_size: u32,
        max_extrinsic_weight: Weight,
        max_inbound_lane_data_proof_size_from_peer_chain: u32,
        max_unrewarded_relayer_entries_at_peer_inbound_lane: MessageNonce,
        max_unconfirmed_messages_at_inbound_lane: MessageNonce,
    ) -> (result: Result<(), ConfigurationError>)
        ensures
            result == self.spec_ensure_confirmation_fits(
                max_extrinsic_size,
                max_extrinsic_weight,
                max_inbound_lane_data_proof_size_from_peer_chain,
                max_unrewarded_relayer_entries_at_peer_inbound_lane,
                max_unconfirmed_messages_at_inbound_lane,
            ),
    {
        let max_confirmation_transaction_size: u64 =
            max_inbound_lane_data_proof_size_from_peer_chain as u64 + SIGNED_EXTENSIONS_SIZE as u64;
        let max_proof_size = precomputed_size(
            max_inbound_lane_data_proof_size_from_peer_chain as usize,
        );
        let relayers_state = UnrewardedRelayersState {
            unrewarded_relayer_entries: max_unrewarded_relayer_entries_at_peer_inbound_lane,
            total_messages: max_unconfirmed_messages_at_inbound_lane,
        };
        let max_confirmation_transaction_dispatch_weight =
            self.receive_messages_delivery_proof_weight(max_proof_size, &relayers_state);
        ensure_transaction_fits(
            max_confirmation_transaction_size,
            max_extrinsic_size,
            max_confirmation_transaction_dispatch_weight,
            max_extrinsic_weight,
        )
    }
}

} // verus!
