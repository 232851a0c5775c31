//! From measured costs to additive overheads, and from overheads to the
//! predicted weight of a transaction.
//!
//! The measured cost of a transaction is taken to be affine in each of its
//! dimensions: a fixed part, and a part for each message, each relayer entry
//! and each byte of proof. Two measurements that differ in one dimension give
//! the part that belongs to it.

use crate::benchmarks::BenchmarkSamples;
use crate::primitives::UnrewardedRelayersState;
use crate::weight::{lemma_product_is_monotonic, Weight};
use bp_messages::MessageNonce;
use vstd::prelude::*;

verus! {

/// Size of the message that is delivered in the benchmarks.
pub const EXPECTED_DEFAULT_MESSAGE_LENGTH: u32 = 128;

/// Number of bytes of a storage proof, besides the stored value itself, that
/// the measured costs already cover.
pub const EXTRA_STORAGE_PROOF_SIZE: u32 = 1024;

/// Number of bytes by which the proofs of the two proof-size benchmarks differ.
pub const PROOF_SIZE_BENCHMARK_SPAN: u64 = 15 * 1024;

/// The fixed part of a transaction's cost: twice the cost of the transaction
/// with one unit, less the cost of the transaction with two.
pub open spec fn spec_transaction_overhead(single: Weight, double: Weight) -> Weight {
    single.spec_saturating_mul(2).spec_saturating_sub(double)
}

/// Computes the fixed part of a transaction's cost from the costs measured
/// with one unit and with two.
pub fn transaction_overhead(single: Weight, double: Weight) -> (overhead: Weight)
    ensures
        overhead == spec_transaction_overhead(single, double),
{
    single.saturating_mul(2).saturating_sub(double)
}

/// The cost of one more unit: what the larger transaction costs beyond the
/// smaller one, and nothing where it costs less.
pub open spec fn spec_marginal_overhead(larger: Weight, smaller: Weight) -> Weight {
    larger.spec_saturating_sub(smaller)
}

/// Computes the cost of one more unit from the costs of two transactions that
/// differ by that unit.
pub fn marginal_overhead(larger: Weight, smaller: Weight) -> (overhead: Weight)
    ensures
        overhead == spec_marginal_overhead(larger, smaller),
{
    larger.saturating_sub(smaller)
}

/// What `proof_size` bytes of proof cost where [`PROOF_SIZE_BENCHMARK_SPAN`]
/// bytes cost `span_overhead`: in each component the cost of the span times
/// the number of bytes, divided by the span and rounded down once, or
/// `u64::MAX` where that is larger.
///
/// The cost of a single byte may be a fraction of a unit. It is
/// never rounded by itself: the quotient is taken of the whole product.
pub open spec fn spec_proof_size_overhead(span_overhead: Weight, proof_size: u32) -> Weight {
    Weight::clamped(
        (span_overhead.ref_time * proof_size) / (PROOF_SIZE_BENCHMARK_SPAN as int),
        (span_overhead.proof_size * proof_size) / (PROOF_SIZE_BENCHMARK_SPAN as int),
    )
}

/// Computes what `proof_size` bytes of proof cost where
/// [`PROOF_SIZE_BENCHMARK_SPAN`] bytes cost `span_overhead`.
///
/// The product of a cost and a number of bytes may exceed `u64`, so the cost
/// of the span is split into whole multiples of the span and a remainder, and
/// the two are charged apart.
pub fn proof_size_overhead(span_overhead: Weight, proof_size: u32) -> (overhead: Weight)
    ensures
        overhead == spec_proof_size_overhead(span_overhead, proof_size),
{
    let bytes = proof_size as u64;
    let whole_units = span_overhead.div(PROOF_SIZE_BENCHMARK_SPAN);
    let remainder = span_overhead.saturating_sub(
        whole_units.saturating_mul(PROOF_SIZE_BENCHMARK_SPAN),
    );
    let overhead_of_whole_units = whole_units.saturating_mul(bytes);
    let overhead_of_remainder = remainder.saturating_mul(bytes).div(PROOF_SIZE_BENCHMARK_SPAN);
    proof {
        lemma_scaled_quotient_splits(span_overhead.ref_time, bytes);
        lemma_scaled_quotient_splits(span_overhead.proof_size, bytes);
    }
    overhead_of_whole_units.saturating_add(overhead_of_remainder)
}

/// The quotient of `cost * bytes` by the span is that of the whole multiples
/// of the span in `cost`, times `bytes`, and that of the remainder times
/// `bytes`; the latter product fits into `u64`.
proof fn lemma_scaled_quotient_splits(cost: u64, bytes: u64)
    requires
        bytes <= u32::MAX,
    ensures
        ({
            let span = PROOF_SIZE_BENCHMARK_SPAN as int;
            let whole_units = cost as int / span;
            let remainder = cost as int % span;
            &&& 0 <= whole_units * span <= cost
            &&& cost - whole_units * span == remainder
            &&& 0 <= whole_units * bytes
            &&& 0 <= remainder * bytes <= u64::MAX
            &&& (cost * bytes) / span == whole_units * bytes + (remainder * bytes) / span
        }),
{
    let span = PROOF_SIZE_BENCHMARK_SPAN as int;
    let whole_units = cost as int / span;
    let remainder = cost as int % span;
    assert(span == 15360);
    lemma_product_is_monotonic(whole_units, 0, bytes as int);
    lemma_product_is_monotonic(bytes as int, 0, remainder);
    lemma_product_is_monotonic(bytes as int, remainder, span);
    assert(remainder * bytes == bytes * remainder) by (nonlinear_arith);
    assert(cost * bytes == span * (whole_units * bytes) + remainder * bytes) by (nonlinear_arith)
        requires
            cost == span * whole_units + remainder,
    ;
}

/// Number of proof bytes that the measured costs of a delivery of
/// `messages_count` messages already cover: a default-sized message for each
/// message after the first, and the expected extra bytes.
pub open spec fn spec_expected_delivery_proof_size(
    messages_count: u32,
    expected_extra_proof_size: u32,
) -> int {
    let additional_messages: int = if messages_count == 0 {
        0
    } else {
        messages_count - 1
    };
    EXPECTED_DEFAULT_MESSAGE_LENGTH * additional_messages + expected_extra_proof_size
}

/// Number of bytes by which a proof exceeds the expected size; zero where it
/// does not exceed it.
pub open spec fn spec_excess_proof_size(proof_size: u32, expected_proof_size: int) -> u32 {
    if proof_size > expected_proof_size {
        (proof_size - expected_proof_size) as u32
    } else {
        0
    }
}

/// Computes the number of bytes by which the proof of a delivery of
/// `messages_count` messages exceeds the expected size.
pub fn excess_delivery_proof_size(
    proof_size: u32,
    messages_count: u32,
    expected_extra_proof_size: u32,
) -> (excess: u32)
    ensures
        excess == spec_excess_proof_size(
            proof_size,
            spec_expected_delivery_proof_size(messages_count, expected_extra_proof_size),
        ),
{
    let additional_messages: u64 = if messages_count == 0 {
        0
    } else {
        (messages_count - 1) as u64
    };
    assert(EXPECTED_DEFAULT_MESSAGE_LENGTH * additional_messages
        <= EXPECTED_DEFAULT_MESSAGE_LENGTH * u32::MAX);
    let expected_proof_size: u64 = EXPECTED_DEFAULT_MESSAGE_LENGTH as u64 * additional_messages
        + expected_extra_proof_size as u64;
    if proof_size as u64 > expected_proof_size {
        (proof_size as u64 - expected_proof_size) as u32
    } else {
        0
    }
}

/// Computes the number of bytes by which the proof of a delivery confirmation
/// exceeds the expected size.
pub fn excess_confirmation_proof_size(
    proof_size: u32,
    expected_extra_proof_size: u32,
) -> (excess: u32)
    ensures
        excess == spec_excess_proof_size(proof_size, expected_extra_proof_size as int),
{
    if proof_size > expected_extra_proof_size {
        proof_size - expected_extra_proof_size
    } else {
        0
    }
}

/// The additive parts of the cost of a transaction, for one chain configuration.
#[derive(Clone, Copy, Debug, PartialEq, Eq, Structural)]
pub struct OverheadSet {
    /// Fixed part of a message delivery transaction.
    pub base_delivery_overhead: Weight,
    /// Part of a message delivery transaction for each message.
    pub per_message_overhead: Weight,
    /// Part of a message delivery transaction for the state of the outbound lane.
    pub outbound_state_overhead: Weight,
    /// Fixed part of a delivery confirmation transaction.
    pub base_confirmation_overhead: Weight,
    /// Part of a delivery confirmation transaction for each confirmed message.
    pub per_confirmed_message_overhead: Weight,
    /// Part of a delivery confirmation transaction for each relayer entry.
    pub per_relayer_overhead: Weight,
    /// Part of either transaction for every [`PROOF_SIZE_BENCHMARK_SPAN`]
    /// bytes of proof beyond the expected size. A single byte costs this
    /// over the span.
    pub proof_span_overhead: Weight,
    /// Number of proof bytes, besides the messages, that the other parts already cover.
    pub expected_extra_proof_size: u32,
}

impl OverheadSet {
    /// The overheads that the measurements give.
    pub open spec fn spec_decompose(
        samples: BenchmarkSamples,
        expected_extra_proof_size: u32,
    ) -> OverheadSet {
        OverheadSet {
            base_delivery_overhead: spec_transaction_overhead(
                samples.receive_single_message_proof,
                samples.receive_two_messages_proof,
            ),
            per_message_overhead: spec_marginal_overhead(
                samples.receive_two_messages_proof,
                samples.receive_single_message_proof,
            ),
            outbound_state_overhead: spec_marginal_overhead(
                samples.receive_single_message_proof_with_outbound_lane_state,
                samples.receive_single_message_proof,
            ),
            base_confirmation_overhead: spec_transaction_overhead(
                samples.receive_delivery_proof_for_single_message,
                samples.receive_delivery_proof_for_two_messages_by_single_relayer,
            ),
            per_confirmed_message_overhead: spec_marginal_overhead(
                samples.receive_delivery_proof_for_two_messages_by_single_relayer,
                samples.receive_delivery_proof_for_single_message,
            ),
            per_relayer_overhead: spec_marginal_overhead(
                samples.receive_delivery_proof_for_two_messages_by_two_relayers,
                samples.receive_delivery_proof_for_two_messages_by_single_relayer,
            ),
            proof_span_overhead: spec_marginal_overhead(
                samples.receive_single_message_proof_16_kb,
                samples.receive_single_message_proof_1_kb,
            ),
            expected_extra_proof_size,
        }
    }

    /// Derives the overheads of a configuration from its measurements.
    pub fn decompose(
        samples: &BenchmarkSamples,
        expected_extra_proof_size: u32,
    ) -> (overheads: OverheadSet)
        ensures
            overheads == OverheadSet::spec_decompose(*samples, expected_extra_proof_size),
    {
        OverheadSet {
            base_delivery_overhead: transaction_overhead(
                samples.receive_single_message_proof,
                samples.receive_two_messages_proof,
            ),
            per_message_overhead: marginal_overhead(
                samples.receive_two_messages_proof,
                samples.receive_single_message_proof,
            ),
            outbound_state_overhead: marginal_overhead(
                samples.receive_single_message_proof_with_outbound_lane_state,
                samples.receive_single_message_proof,
            ),
            base_confirmation_overhead: transaction_overhead(
                samples.receive_delivery_proof_for_single_message,
                samples.receive_delivery_proof_for_two_messages_by_single_relayer,
            ),
            per_confirmed_message_overhead: marginal_overhead(
                samples.receive_delivery_proof_for_two_messages_by_single_relayer,
                samples.receive_delivery_proof_for_single_message,
            ),
            per_relayer_overhead: marginal_overhead(
                samples.receive_delivery_proof_for_two_messages_by_two_relayers,
                samples.receive_delivery_proof_for_two_messages_by_single_relayer,
            ),
            proof_span_overhead: marginal_overhead(
                samples.receive_single_message_proof_16_kb,
                samples.receive_single_message_proof_1_kb,
            ),
            expected_extra_proof_size,
        }
    }

    /// What `messages` delivered messages add to a delivery transaction.
    pub open spec fn spec_receive_messages_proof_messages_overhead(
        self,
        messages: MessageNonce,
    ) -> Weight {
        self.per_message_overhead.spec_saturating_mul(messages)
    }

    /// Computes what `messages` delivered messages add to a delivery transaction.
    pub fn receive_messages_proof_messages_overhead(
        &self,
        messages: MessageNonce,
    ) -> (overhead: Weight)
        ensures
            overhead == self.spec_receive_messages_proof_messages_overhead(messages),
    {
        self.per_message_overhead.saturating_mul(messages)
    }

    /// What `messages` confirmed messages add to a confirmation transaction.
    pub open spec fn spec_receive_messages_delivery_proof_messages_overhead(
        self,
        messages: MessageNonce,
    ) -> Weight {
        self.per_confirmed_message_overhead.spec_saturating_mul(messages)
    }

    /// Computes what `messages` confirmed messages add to a confirmation transaction.
    pub fn receive_messages_delivery_proof_messages_overhead(
        &self,
        messages: MessageNonce,
    ) -> (overhead: Weight)
        ensures
            overhead == self.spec_receive_messages_delivery_proof_messages_overhead(messages),
    {
        self.per_confirmed_message_overhead.saturating_mul(messages)
    }

    /// What `relayers` relayer entries add to a confirmation transaction.
    pub open spec fn spec_receive_messages_delivery_proof_relayers_overhead(
        self,
        relayers: MessageNonce,
    ) -> Weight {
        self.per_relayer_overhead.spec_saturating_mul(relayers)
    }

    /// Computes what `relayers` relayer entries add to a confirmation transaction.
    pub fn receive_messages_delivery_proof_relayers_overhead(
        &self,
        relayers: MessageNonce,
    ) -> (overhead: Weight)
        ensures
            overhead == self.spec_receive_messages_delivery_proof_relayers_overhead(relayers),
    {
        self.per_relayer_overhead.saturating_mul(relayers)
    }

    /// What `proof_size` bytes of proof beyond the expected size add to
    /// either transaction.
    pub open spec fn spec_storage_proof_size_overhead(self, proof_size: u32) -> Weight {
        spec_proof_size_overhead(self.proof_span_overhead, proof_size)
    }

    /// Computes what `proof_size` bytes of proof beyond the expected size add
    /// to either transaction.
    pub fn storage_proof_size_overhead(&self, proof_size: u32) -> (overhead: Weight)
        ensures
            overhead == self.spec_storage_proof_size_overhead(proof_size),
    {
        proof_size_overhead(self.proof_span_overhead, proof_size)
    }

    /// The weight of a transaction that delivers `messages_count` messages
    /// with a proof of `proof_size` bytes and dispatches them at
    /// `dispatch_weight`: in each component the sum of the fixed part, the
    /// part for the outbound lane state, the part for each message, the
    /// dispatch and the part for the bytes of proof beyond the expected size,
    /// or `u64::MAX` where the sum is larger.
    pub open spec fn spec_receive_messages_proof_weight(
        self,
        proof_size: u32,
        messages_count: u32,
        dispatch_weight: Weight,
    ) -> Weight {
        let excess = spec_excess_proof_size(
            proof_size,
            spec_expected_delivery_proof_size(messages_count, self.expected_extra_proof_size),
        );
        let span = PROOF_SIZE_BENCHMARK_SPAN as int;
        Weight::clamped(
            self.base_delivery_overhead.ref_time + self.outbound_state_overhead.ref_time
                + self.per_message_overhead.ref_time * messages_count + dispatch_weight.ref_time
                + (self.proof_span_overhead.ref_time * excess) / span,
            self.base_delivery_overhead.proof_size + self.outbound_state_overhead.proof_size
                + self.per_message_overhead.proof_size * messages_count
                + dispatch_weight.proof_size + (self.proof_span_overhead.proof_size * excess)
                / span,
        )
    }

    /// Predicts the weight of a message delivery transaction.
    pub fn receive_messages_proof_weight(
        &self,
        proof_size: u32,
        messages_count: u32,
        dispatch_weight: Weight,
    ) -> (weight: Weight)
        ensures
            weight == self.spec_receive_messages_proof_weight(
                proof_size,
                messages_count,
                dispatch_weight,
            ),
    {
        let messages_delivery_weight = self.receive_messages_proof_messages_overhead(
            messages_count as u64,
        );
        let excess = excess_delivery_proof_size(
            proof_size,
            messages_count,
            self.expected_extra_proof_size,
        );
        let proof_size_overhead = self.storage_proof_size_overhead(excess);
        proof {
            let per_message = self.per_message_overhead;
            let span = self.proof_span_overhead;
            lemma_product_is_monotonic(per_message.ref_time as int, 0, messages_count as int);
            lemma_product_is_monotonic(per_message.proof_size as int, 0, messages_count as int);
            lemma_product_is_monotonic(span.ref_time as int, 0, excess as int);
            lemma_product_is_monotonic(span.proof_size as int, 0, excess as int);
        }
        self.base_delivery_overhead.saturating_add(self.outbound_state_overhead).saturating_add(
            messages_delivery_weight,
        ).saturating_add(dispatch_weight).saturating_add(proof_size_overhead)
    }

    /// The weight of a transaction that confirms the delivery of
    /// `total_messages` messages by `unrewarded_relayer_entries` relayers
    /// with a proof of `proof_size` bytes: in each component the sum of the
    /// fixed part, the part for each message, the part for each relayer entry
    /// and the part for the bytes of proof beyond the expected size, or
    /// `u64::MAX` where the sum is larger.
    pub open spec fn spec_receive_messages_delivery_proof_weight(
        self,
        proof_size: u32,
        relayers_state: UnrewardedRelayersState,
    ) -> Weight {
        let excess = spec_excess_proof_size(proof_size, self.expected_extra_proof_size as int);
        let span = PROOF_SIZE_BENCHMARK_SPAN as int;
        Weight::clamped(
            self.base_confirmation_overhead.ref_time + self.per_confirmed_message_overhead.ref_time
                * relayers_state.total_messages + self.per_relayer_overhead.ref_time
                * relayers_state.unrewarded_relayer_entries + (self.proof_span_overhead.ref_time
                * excess) / span,
            self.base_confirmation_overhead.proof_size
                + self.per_confirmed_message_overhead.proof_size * relayers_state.total_messages
                + self.per_relayer_overhead.proof_size * relayers_state.unrewarded_relayer_entries
                + (self.proof_span_overhead.proof_size * excess) / span,
        )
    }

    /// Predicts the weight of a delivery confirmation transaction.
    pub fn receive_messages_delivery_proof_weight(
        &self,
        proof_size: u32,
        relayers_state: &UnrewardedRelayersState,
    ) -> (weight: Weight)
        ensures
            weight == self.spec_receive_messages_delivery_proof_weight(proof_size, *relayers_state),
    {
        let messages_overhead = self.receive_messages_delivery_proof_messages_overhead(
            relayers_state.total_messages,
        );
        let relayers_overhead = self.receive_messages_delivery_proof_relayers_overhead(
            relayers_state.unrewarded_relayer_entries,
        );
        let excess = excess_confirmation_proof_size(proof_size, self.expected_extra_proof_size);
        let proof_size_overhead = self.storage_proof_size_overhead(excess);
        proof {
            let messages = relayers_state.total_messages as int;
            let relayers = relayers_state.unrewarded_relayer_entries as int;
            let per_message = self.per_confirmed_message_overhead;
            let per_relayer = self.per_relayer_overhead;
            let span = self.proof_span_overhead;
            lemma_product_is_monotonic(per_message.ref_time as int, 0, messages);
            lemma_product_is_monotonic(per_message.proof_size as int, 0, messages);
            lemma_product_is_monotonic(per_relayer.ref_time as int, 0, relayers);
            lemma_product_is_monotonic(per_relayer.proof_size as int, 0, relayers);
            lemma_product_is_monotonic(span.ref_time as int, 0, excess as int);
            lemma_product_is_monotonic(span.proof_size as int, 0, excess as int);
        }
        self.base_confirmation_overhead.saturating_add(messages_overhead).saturating_add(
            relayers_overhead,
        ).saturating_add(proof_size_overhead)
    }
}

} // verus!
