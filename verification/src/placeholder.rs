//! A configuration for chains that have measured nothing yet.

use crate::benchmarks::{BenchmarkSamples, WeightInfo};
use crate::overheads::EXTRA_STORAGE_PROOF_SIZE;
use crate::weight::Weight;
use crate::weight_info::WeightInfoExt;
use vstd::prelude::*;

verus! {

/// The configuration in which every canonical transaction costs nothing and
/// a proof is expected to carry [`EXTRA_STORAGE_PROOF_SIZE`] extra bytes.
///
/// It stands in where a weight estimator is asked for and no measurements
/// exist. Every overhead that it gives is zero, so that it predicts the
/// dispatch weight alone and does not pass
/// [`ensure_weights_are_correct`](crate::weight_info::ensure_weights_are_correct).
#[derive(Clone, Copy, Debug, PartialEq, Eq, Structural)]
pub struct PlaceholderWeights;

impl WeightInfo for PlaceholderWeights {
    open spec fn samples() -> BenchmarkSamples {
        BenchmarkSamples {
            receive_single_message_proof: Weight::spec_zero(),
            receive_two_messages_proof: Weight::spec_zero(),
            receive_single_message_proof_with_outbound_lane_state: Weight::spec_zero(),
            receive_single_message_proof_1_kb: Weight::spec_zero(),
            receive_single_message_proof_16_kb: Weight::spec_zero(),
            receive_delivery_proof_for_single_message: Weight::spec_zero(),
            receive_delivery_proof_for_two_messages_by_single_relayer: Weight::spec_zero(),
            receive_delivery_proof_for_two_messages_by_two_relayers: Weight::spec_zero(),
        }
    }

    fn receive_single_message_proof() -> (weight: Weight) {
        Weight::zero()
    }

    fn receive_two_messages_proof() -> (weight: Weight) {
        Weight::zero()
    }

    fn receive_single_message_proof_with_outbound_lane_state() -> (weight: Weight) {
        Weight::zero()
    }

    fn receive_single_message_proof_1_kb() -> (weight: Weight) {
        Weight::zero()
    }

    fn receive_single_message_proof_16_kb() -> (weight: Weight) {
        Weight::zero()
    }

    fn receive_delivery_proof_for_single_message() -> (weight: Weight) {
        Weight::zero()
    }

    fn receive_delivery_proof_for_two_messages_by_single_relayer() -> (weight: Weight) {
        Weight::zero()
    }

    fn receive_delivery_proof_for_two_messages_by_two_relayers() -> (weight: Weight) {
        Weight::zero()
    }
}

impl WeightInfoExt for PlaceholderWeights {
    open spec fn spec_expected_extra_storage_proof_size() -> u32 {
        EXTRA_STORAGE_PROOF_SIZE
    }

    fn expected_extra_storage_proof_size() -> (size: u32) {
        EXTRA_STORAGE_PROOF_SIZE
    }
}

} // verus!
