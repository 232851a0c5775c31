//! What holds of the cost model on every input.

use crate::benchmarks::BenchmarkSamples;
use crate::capacity::{ConfigurationError, SIGNED_EXTENSIONS_SIZE};
use crate::overheads::{
    spec_excess_proof_size, spec_expected_delivery_proof_size, spec_marginal_overhead,
    spec_proof_size_overhead, spec_transaction_overhead, OverheadSet, PROOF_SIZE_BENCHMARK_SPAN,
};
use crate::primitives::UnrewardedRelayersState;
use crate::weight::{lemma_product_is_monotonic, Weight};
use bp_messages::MessageNonce;
use vstd::prelude::*;

verus! {

/// A weight times a larger count is no smaller, in either component.
pub proof fn lemma_saturating_mul_is_monotonic(unit: Weight, fewer: u64, more: u64)
    requires
        fewer <= more,
    ensures
        unit.spec_saturating_mul(fewer).spec_all_lte(unit.spec_saturating_mul(more)),
{
    lemma_product_is_monotonic(unit.ref_time as int, fewer as int, more as int);
    lemma_product_is_monotonic(unit.proof_size as int, fewer as int, more as int);
}

/// More delivered messages never add less weight.
pub proof fn lemma_messages_overhead_is_monotonic(
    overheads: OverheadSet,
    fewer: MessageNonce,
    more: MessageNonce,
)
    requires
        fewer <= more,
    ensures
        overheads.spec_receive_messages_proof_messages_overhead(fewer).spec_all_lte(
            overheads.spec_receive_messages_proof_messages_overhead(more),
        ),
{
    lemma_saturating_mul_is_monotonic(overheads.per_message_overhead, fewer, more);
}

/// More confirmed messages never add less weight.
pub proof fn lemma_confirmed_messages_overhead_is_monotonic(
    overheads: OverheadSet,
    fewer: MessageNonce,
    more: MessageNonce,
)
    requires
        fewer <= more,
    ensures
        overheads.spec_receive_messages_delivery_proof_messages_overhead(fewer).spec_all_lte(
            overheads.spec_receive_messages_delivery_proof_messages_overhead(more),
        ),
{
    lemma_saturating_mul_is_monotonic(overheads.per_confirmed_message_overhead, fewer, more);
}

/// More relayer entries never add less weight.
pub proof fn lemma_relayers_overhead_is_monotonic(
    overheads: OverheadSet,
    fewer: MessageNonce,
    more: MessageNonce,
)
    requires
        fewer <= more,
    ensures
        overheads.spec_receive_messages_delivery_proof_relayers_overhead(fewer).spec_all_lte(
            overheads.spec_receive_messages_delivery_proof_relayers_overhead(more),
        ),
{
    lemma_saturating_mul_is_monotonic(overheads.per_relayer_overhead, fewer, more);
}

/// More bytes of proof never cost less, whatever the span costs: neither
/// before the cost is clamped into `u64` nor after.
pub proof fn lemma_proof_size_overhead_is_monotonic(
    span_overhead: Weight,
    smaller: u32,
    larger: u32,
)
    requires
        smaller <= larger,
    ensures
        spec_proof_size_overhead(span_overhead, smaller).spec_all_lte(
            spec_proof_size_overhead(span_overhead, larger),
        ),
        ({
            let span = PROOF_SIZE_BENCHMARK_SPAN as int;
            &&& (span_overhead.ref_time * smaller) / span <= (span_overhead.ref_time * larger)
                / span
            &&& (span_overhead.proof_size * smaller) / span <= (span_overhead.proof_size * larger)
                / span
        }),
{
    lemma_product_is_monotonic(span_overhead.ref_time as int, smaller as int, larger as int);
    lemma_product_is_monotonic(span_overhead.proof_size as int, smaller as int, larger as int);
}

/// More bytes of proof never add less weight.
pub proof fn lemma_storage_proof_size_overhead_is_monotonic(
    overheads: OverheadSet,
    smaller: u32,
    larger: u32,
)
    requires
        smaller <= larger,
    ensures
        overheads.spec_storage_proof_size_overhead(smaller).spec_all_lte(
            overheads.spec_storage_proof_size_overhead(larger),
        ),
{
    lemma_proof_size_overhead_is_monotonic(overheads.proof_span_overhead, smaller, larger);
}

/// The bytes between the two proof-size benchmarks cost what the larger
/// benchmark costs beyond the smaller one, and no bytes cost nothing.
pub proof fn lemma_proof_span_costs_the_measured_difference(span_overhead: Weight)
    ensures
        spec_proof_size_overhead(span_overhead, PROOF_SIZE_BENCHMARK_SPAN as u32) == span_overhead,
        spec_proof_size_overhead(span_overhead, 0) == Weight::spec_zero(),
{
    let span = PROOF_SIZE_BENCHMARK_SPAN as int;
    assert(span == 15360);
    assert((span_overhead.ref_time * span) / span == span_overhead.ref_time);
    assert((span_overhead.proof_size * span) / span == span_overhead.proof_size);
    assert(span_overhead.ref_time * 0 == 0);
    assert(span_overhead.proof_size * 0 == 0);
}

/// A larger proof never makes a message delivery transaction lighter.
pub proof fn lemma_delivery_weight_is_monotonic_in_proof_size(
    overheads: OverheadSet,
    smaller: u32,
    larger: u32,
    messages_count: u32,
    dispatch_weight: Weight,
)
    requires
        smaller <= larger,
    ensures
        overheads.spec_receive_messages_proof_weight(
            smaller,
            messages_count,
            dispatch_weight,
        ).spec_all_lte(
            overheads.spec_receive_messages_proof_weight(larger, messages_count, dispatch_weight),
        ),
{
    let expected = spec_expected_delivery_proof_size(
        messages_count,
        overheads.expected_extra_proof_size,
    );
    lemma_proof_size_overhead_is_monotonic(
        overheads.proof_span_overhead,
        spec_excess_proof_size(smaller, expected),
        spec_excess_proof_size(larger, expected),
    );
}

/// A larger proof never makes a delivery confirmation transaction lighter.
pub proof fn lemma_confirmation_weight_is_monotonic_in_proof_size(
    overheads: OverheadSet,
    smaller: u32,
    larger: u32,
    relayers_state: UnrewardedRelayersState,
)
    requires
        smaller <= larger,
    ensures
        overheads.spec_receive_messages_delivery_proof_weight(smaller, relayers_state).spec_all_lte(
            overheads.spec_receive_messages_delivery_proof_weight(larger, relayers_state),
        ),
{
    let expected = overheads.expected_extra_proof_size as int;
    lemma_proof_size_overhead_is_monotonic(
        overheads.proof_span_overhead,
        spec_excess_proof_size(smaller, expected),
        spec_excess_proof_size(larger, expected),
    );
}

/// Whether, in one component, the cost `single` of the transaction with one
/// unit and the cost `double` of the transaction with two are such that the
/// fixed part and the part of one unit add up to `single` again.
///
/// That is so where the two costs fit the affine model, the second at least
/// the first and at most twice the first, with twice the first within `u64`.
/// Beyond that it holds only where twice the first exceeds `u64` and the two
/// costs happen to add up to `u64::MAX`.
pub open spec fn decomposes_exactly(single: u64, double: u64) -> bool {
    ||| single <= double <= 2 * single <= u64::MAX
    ||| (2 * single > u64::MAX && single + double == u64::MAX)
}

/// The fixed part of a transaction and the part of one unit add up to the
/// cost that was measured with one unit, on the measurements that
/// [`decomposes_exactly`] admits in both components and on no others.
pub proof fn lemma_decomposition_round_trip(single: Weight, double: Weight)
    ensures
        spec_transaction_overhead(single, double).spec_saturating_add(
            spec_marginal_overhead(double, single).spec_saturating_mul(1),
        ) == single <==> decomposes_exactly(single.ref_time, double.ref_time) && decomposes_exactly(
            single.proof_size,
            double.proof_size,
        ),
{
}

/// The fixed part of a message delivery and the part of one message add up to
/// the measured cost of delivering one message, on the measurements that
/// [`decomposes_exactly`] admits and on no others.
pub proof fn lemma_delivery_round_trip(samples: BenchmarkSamples, expected_extra_proof_size: u32)
    ensures
        ({
            let overheads = OverheadSet::spec_decompose(samples, expected_extra_proof_size);
            overheads.base_delivery_overhead.spec_saturating_add(
                overheads.spec_receive_messages_proof_messages_overhead(1),
            ) == samples.receive_single_message_proof
        }) <==> decomposes_exactly(
            samples.receive_single_message_proof.ref_time,
            samples.receive_two_messages_proof.ref_time,
        ) && decomposes_exactly(
            samples.receive_single_message_proof.proof_size,
            samples.receive_two_messages_proof.proof_size,
        ),
{
    lemma_decomposition_round_trip(
        samples.receive_single_message_proof,
        samples.receive_two_messages_proof,
    );
}

/// The fixed part of a delivery confirmation and the part of one confirmed
/// message add up to the measured cost of confirming one message, on the
/// measurements that [`decomposes_exactly`] admits and on no others.
pub proof fn lemma_confirmation_round_trip(
    samples: BenchmarkSamples,
    expected_extra_proof_size: u32,
)
    ensures
        ({
            let overheads = OverheadSet::spec_decompose(samples, expected_extra_proof_size);
            overheads.base_confirmation_overhead.spec_saturating_add(
                overheads.spec_receive_messages_delivery_proof_messages_overhead(1),
            ) == samples.receive_delivery_proof_for_single_message
        }) <==> decomposes_exactly(
            samples.receive_delivery_proof_for_single_message.ref_time,
            samples.receive_delivery_proof_for_two_messages_by_single_relayer.ref_time,
        ) && decomposes_exactly(
            samples.receive_delivery_proof_for_single_message.proof_size,
            samples.receive_delivery_proof_for_two_messages_by_single_relayer.proof_size,
        ),
{
    lemma_decomposition_round_trip(
        samples.receive_delivery_proof_for_single_message,
        samples.receive_delivery_proof_for_two_messages_by_single_relayer,
    );
}

/// A proof of a message delivery that is no larger than expected is charged
/// nothing for its size: the weight of the transaction is that of its other
/// parts.
pub proof fn lemma_expected_delivery_proof_is_free(
    overheads: OverheadSet,
    proof_size: u32,
    messages_count: u32,
    dispatch_weight: Weight,
)
    requires
        proof_size <= spec_expected_delivery_proof_size(
            messages_count,
            overheads.expected_extra_proof_size,
        ),
    ensures
        overheads.spec_storage_proof_size_overhead(
            spec_excess_proof_size(
                proof_size,
                spec_expected_delivery_proof_size(
                    messages_count,
                    overheads.expected_extra_proof_size,
                ),
            ),
        ) == Weight::spec_zero(),
        overheads.spec_receive_messages_proof_weight(proof_size, messages_count, dispatch_weight)
            == Weight::clamped(
            overheads.base_delivery_overhead.ref_time + overheads.outbound_state_overhead.ref_time
                + overheads.per_message_overhead.ref_time * messages_count
                + dispatch_weight.ref_time,
            overheads.base_delivery_overhead.proof_size
                + overheads.outbound_state_overhead.proof_size
                + overheads.per_message_overhead.proof_size * messages_count
                + dispatch_weight.proof_size,
        ),
{
}

/// A proof of a delivery confirmation that is no larger than expected is
/// charged nothing for its size: the weight of the transaction is that of its
/// other parts.
pub proof fn lemma_expected_confirmation_proof_is_free(
    overheads: OverheadSet,
    proof_size: u32,
    relayers_state: UnrewardedRelayersState,
)
    requires
        proof_size <= overheads.expected_extra_proof_size,
    ensures
        overheads.spec_storage_proof_size_overhead(
            spec_excess_proof_size(proof_size, overheads.expected_extra_proof_size as int),
        ) == Weight::spec_zero(),
        overheads.spec_receive_messages_delivery_proof_weight(proof_size, relayers_state)
            == Weight::clamped(
            overheads.base_confirmation_overhead.ref_time
                + overheads.per_confirmed_message_overhead.ref_time * relayers_state.total_messages
                + overheads.per_relayer_overhead.ref_time
                * relayers_state.unrewarded_relayer_entries,
            overheads.base_confirmation_overhead.proof_size
                + overheads.per_confirmed_message_overhead.proof_size
                * relayers_state.total_messages + overheads.per_relayer_overhead.proof_size
                * relayers_state.unrewarded_relayer_entries,
        ),
{
}

/// The cost model passes the check exactly when none of its overheads is
/// zero in both components: the six that are charged by the unit, and what
/// one byte of proof costs.
pub proof fn lemma_zero_overhead_is_rejected(overheads: OverheadSet)
    ensures
        overheads.spec_ensure_nonzero() is Ok <==> {
            &&& overheads.base_delivery_overhead != Weight::spec_zero()
            &&& overheads.per_message_overhead != Weight::spec_zero()
            &&& overheads.outbound_state_overhead != Weight::spec_zero()
            &&& overheads.spec_storage_proof_size_overhead(1) != Weight::spec_zero()
            &&& overheads.base_confirmation_overhead != Weight::spec_zero()
            &&& overheads.per_confirmed_message_overhead != Weight::spec_zero()
            &&& overheads.per_relayer_overhead != Weight::spec_zero()
        },
        overheads.spec_ensure_nonzero() is Err ==> overheads.spec_ensure_nonzero()
            ->Err_0 is ZeroOverhead,
{
}

/// A message whose proof, together with the signed extensions, takes more
/// bytes than a transaction may is rejected as too large, whatever it weighs.
pub proof fn lemma_oversized_message_is_rejected(
    overheads: OverheadSet,
    max_extrinsic_size: u32,
    max_extrinsic_weight: Weight,
    max_incoming_message_proof_size: u32,
    max_incoming_message_dispatch_weight: Weight,
)
    requires
        max_incoming_message_proof_size + SIGNED_EXTENSIONS_SIZE > max_extrinsic_size,
    ensures
        overheads.spec_ensure_message_fits(
            max_extrinsic_size,
            max_extrinsic_weight,
            max_incoming_message_proof_size,
            max_incoming_message_dispatch_weight,
        ) == Err::<(), ConfigurationError>(
            ConfigurationError::TransactionTooLarge {
                transaction_size: (max_incoming_message_proof_size + SIGNED_EXTENSIONS_SIZE) as u64,
                max_extrinsic_size,
            },
        ),
{
}

/// A delivery confirmation whose proof, together with the signed extensions,
/// takes more bytes than a transaction may is rejected as too large, whatever
/// it weighs.
pub proof fn lemma_oversized_confirmation_is_rejected(
    overheads: OverheadSet,
    max_extrinsic_size: u32,
    max_extrinsic_weight: Weight,
    max_inbound_lane_data_proof_size_from_peer_chain: u32,
    max_unrewarded_relayer_entries_at_peer_inbound_lane: MessageNonce,
    max_unconfirmed_messages_at_inbound_lane: MessageNonce,
)
    requires
        max_inbound_lane_data_proof_size_from_peer_chain + SIGNED_EXTENSIONS_SIZE
            > max_extrinsic_size,
    ensures
        overheads.spec_ensure_confirmation_fits(
            max_extrinsic_size,
            max_extrinsic_weight,
            max_inbound_lane_data_proof_size_from_peer_chain,
            max_unrewarded_relayer_entries_at_peer_inbound_lane,
            max_unconfirmed_messages_at_inbound_lane,
        ) == Err::<(), ConfigurationError>(
            ConfigurationError::TransactionTooLarge {
                transaction_size: (max_inbound_lane_data_proof_size_from_peer_chain
                    + SIGNED_EXTENSIONS_SIZE) as u64,
                max_extrinsic_size,
            },
        ),
{
}

} // verus!
