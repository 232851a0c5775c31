use bridge_message_weights::{
    collect_samples, ensure_able_to_receive_confirmation, ensure_able_to_receive_message,
    ensure_weights_are_correct, BenchmarkSamples, ConfigurationError, OverheadComponent,
    OverheadSet, PlaceholderWeights, UnrewardedRelayersState, Weight, WeightInfo, WeightInfoExt,
    EXTRA_STORAGE_PROOF_SIZE,
};

fn weight(ref_time: u64, proof_size: u64) -> Weight {
    Weight { ref_time, proof_size }
}

/// A configuration whose measurements fit the affine model.
struct Measured;

impl WeightInfo for Measured {
    fn samples() -> BenchmarkSamples {
        BenchmarkSamples {
            receive_single_message_proof: weight(100, 10),
            receive_two_messages_proof: weight(150, 14),
            receive_single_message_proof_with_outbound_lane_state: weight(130, 11),
            receive_single_message_proof_1_kb: weight(200_000_000, 200_000),
            receive_single_message_proof_16_kb: weight(3_500_000_000, 3_500_000),
            receive_delivery_proof_for_single_message: weight(80, 8),
            receive_delivery_proof_for_two_messages_by_single_relayer: weight(95, 9),
            receive_delivery_proof_for_two_messages_by_two_relayers: weight(140, 13),
        }
    }

    fn receive_single_message_proof() -> Weight {
        weight(100, 10)
    }

    fn receive_two_messages_proof() -> Weight {
        weight(150, 14)
    }

    fn receive_single_message_proof_with_outbound_lane_state() -> Weight {
        weight(130, 11)
    }

    fn receive_single_message_proof_1_kb() -> Weight {
        weight(200_000_000, 200_000)
    }

    fn receive_single_message_proof_16_kb() -> Weight {
        weight(3_500_000_000, 3_500_000)
    }

    fn receive_delivery_proof_for_single_message() -> Weight {
        weight(80, 8)
    }

    fn receive_delivery_proof_for_two_messages_by_single_relayer() -> Weight {
        weight(95, 9)
    }

    fn receive_delivery_proof_for_two_messages_by_two_relayers() -> Weight {
        weight(140, 13)
    }
}

impl WeightInfoExt for Measured {
    fn spec_expected_extra_storage_proof_size() -> u32 {
        512
    }

    fn expected_extra_storage_proof_size() -> u32 {
        512
    }
}

/// A configuration in which a byte of proof costs less than a unit of weight.
struct FlatProofCost;

impl WeightInfo for FlatProofCost {
    fn samples() -> BenchmarkSamples {
        BenchmarkSamples {
            receive_single_message_proof_1_kb: weight(200, 200),
            receive_single_message_proof_16_kb: weight(3500, 3500),
            ..Measured::samples()
        }
    }

    fn receive_single_message_proof() -> Weight {
        Measured::receive_single_message_proof()
    }

    fn receive_two_messages_proof() -> Weight {
        Measured::receive_two_messages_proof()
    }

    fn receive_single_message_proof_with_outbound_lane_state() -> Weight {
        Measured::receive_single_message_proof_with_outbound_lane_state()
    }

    fn receive_single_message_proof_1_kb() -> Weight {
        weight(200, 200)
    }

    fn receive_single_message_proof_16_kb() -> Weight {
        weight(3500, 3500)
    }

    fn receive_delivery_proof_for_single_message() -> Weight {
        Measured::receive_delivery_proof_for_single_message()
    }

    fn receive_delivery_proof_for_two_messages_by_single_relayer() -> Weight {
        Measured::receive_delivery_proof_for_two_messages_by_single_relayer()
    }

    fn receive_delivery_proof_for_two_messages_by_two_relayers() -> Weight {
        Measured::receive_delivery_proof_for_two_messages_by_two_relayers()
    }
}

impl WeightInfoExt for FlatProofCost {
    fn spec_expected_extra_storage_proof_size() -> u32 {
        EXTRA_STORAGE_PROOF_SIZE
    }

    fn expected_extra_storage_proof_size() -> u32 {
        EXTRA_STORAGE_PROOF_SIZE
    }
}

fn measured_overheads() -> OverheadSet {
    OverheadSet {
        base_delivery_overhead: weight(50, 6),
        per_message_overhead: weight(50, 4),
        outbound_state_overhead: weight(30, 1),
        base_confirmation_overhead: weight(65, 7),
        per_confirmed_message_overhead: weight(15, 1),
        per_relayer_overhead: weight(45, 4),
        proof_span_overhead: weight(3_300_000_000, 3_300_000),
        expected_extra_proof_size: 512,
    }
}

#[test]
fn collect_samples_reads_every_measurement() {
    assert_eq!(collect_samples::<Measured>(), Measured::samples());
    assert_eq!(collect_samples::<FlatProofCost>(), FlatProofCost::samples());
}

#[test]
fn overheads_of_a_configuration_come_from_its_measurements() {
    assert_eq!(Measured::overheads(), measured_overheads());
}

#[test]
fn estimator_gives_each_overhead() {
    assert_eq!(Measured::receive_messages_proof_overhead(), weight(50, 6));
    assert_eq!(Measured::receive_messages_proof_messages_overhead(1), weight(50, 4));
    assert_eq!(Measured::receive_messages_proof_messages_overhead(5), weight(250, 20));
    assert_eq!(Measured::receive_messages_proof_outbound_lane_state_overhead(), weight(30, 1));
    assert_eq!(Measured::receive_messages_delivery_proof_overhead(), weight(65, 7));
    assert_eq!(Measured::receive_messages_delivery_proof_messages_overhead(4), weight(60, 4));
    assert_eq!(Measured::receive_messages_delivery_proof_relayers_overhead(3), weight(135, 12));
    assert_eq!(Measured::storage_proof_size_overhead(1), weight(214_843, 214));
    assert_eq!(Measured::storage_proof_size_overhead(2048), weight(440_000_000, 440_000));
}

#[test]
fn estimator_agrees_with_its_overheads() {
    let overheads = Measured::overheads();
    assert_eq!(Measured::receive_messages_proof_overhead(), overheads.base_delivery_overhead);
    assert_eq!(
        Measured::receive_messages_proof_messages_overhead(9),
        overheads.receive_messages_proof_messages_overhead(9)
    );
    assert_eq!(
        Measured::receive_messages_proof_outbound_lane_state_overhead(),
        overheads.outbound_state_overhead
    );
    assert_eq!(
        Measured::receive_messages_delivery_proof_overhead(),
        overheads.base_confirmation_overhead
    );
    assert_eq!(
        Measured::receive_messages_delivery_proof_messages_overhead(9),
        overheads.receive_messages_delivery_proof_messages_overhead(9)
    );
    assert_eq!(
        Measured::receive_messages_delivery_proof_relayers_overhead(9),
        overheads.receive_messages_delivery_proof_relayers_overhead(9)
    );
    assert_eq!(
        Measured::storage_proof_size_overhead(9),
        overheads.storage_proof_size_overhead(9)
    );
}

#[test]
fn estimator_predicts_the_weight_of_a_delivery() {
    assert_eq!(
        Measured::receive_messages_proof_weight(778, 3, weight(1000, 100)),
        weight(2_149_667, 2267)
    );
    assert_eq!(
        Measured::receive_messages_proof_weight(768, 3, weight(1000, 100)),
        weight(1230, 119)
    );
}

#[test]
fn estimator_predicts_the_weight_of_a_confirmation() {
    let relayers_state = UnrewardedRelayersState { unrewarded_relayer_entries: 2, total_messages: 5 };
    assert_eq!(
        Measured::receive_messages_delivery_proof_weight(514, &relayers_state),
        weight(429_917, 449)
    );
    assert_eq!(
        Measured::receive_messages_delivery_proof_weight(512, &relayers_state),
        weight(230, 20)
    );
}

#[test]
fn measured_configuration_is_correct() {
    assert_eq!(ensure_weights_are_correct::<Measured>(), Ok(()));
}

#[test]
fn configuration_with_a_zero_overhead_is_not_correct() {
    assert_eq!(
        ensure_weights_are_correct::<FlatProofCost>(),
        Err(ConfigurationError::ZeroOverhead(OverheadComponent::PerProofByte))
    );
    assert_eq!(FlatProofCost::storage_proof_size_overhead(1), weight(0, 0));
}

#[test]
fn proof_is_charged_at_the_rate_of_the_two_proof_size_samples() {
    assert_eq!(FlatProofCost::storage_proof_size_overhead(2048), weight(440, 440));
    assert_eq!(FlatProofCost::storage_proof_size_overhead(15_360), weight(3300, 3300));
    assert_eq!(
        FlatProofCost::overheads().storage_proof_size_overhead(2048),
        FlatProofCost::storage_proof_size_overhead(2048)
    );
}

#[test]
fn placeholder_measures_nothing() {
    assert_eq!(
        collect_samples::<PlaceholderWeights>(),
        BenchmarkSamples {
            receive_single_message_proof: weight(0, 0),
            receive_two_messages_proof: weight(0, 0),
            receive_single_message_proof_with_outbound_lane_state: weight(0, 0),
            receive_single_message_proof_1_kb: weight(0, 0),
            receive_single_message_proof_16_kb: weight(0, 0),
            receive_delivery_proof_for_single_message: weight(0, 0),
            receive_delivery_proof_for_two_messages_by_single_relayer: weight(0, 0),
            receive_delivery_proof_for_two_messages_by_two_relayers: weight(0, 0),
        }
    );
    assert_eq!(PlaceholderWeights::expected_extra_storage_proof_size(), 1024);
    assert_eq!(EXTRA_STORAGE_PROOF_SIZE, 1024);
}

#[test]
fn placeholder_predicts_the_dispatch_weight_alone() {
    assert_eq!(
        PlaceholderWeights::receive_messages_proof_weight(1_000_000, 50, weight(1000, 100)),
        weight(1000, 100)
    );
    let relayers_state = UnrewardedRelayersState { unrewarded_relayer_entries: 9, total_messages: 9 };
    assert_eq!(
        PlaceholderWeights::receive_messages_delivery_proof_weight(1_000_000, &relayers_state),
        weight(0, 0)
    );
}

#[test]
fn placeholder_is_not_correct() {
    assert_eq!(
        ensure_weights_are_correct::<PlaceholderWeights>(),
        Err(ConfigurationError::ZeroOverhead(OverheadComponent::BaseDelivery))
    );
}

#[test]
fn chain_is_able_to_receive_a_message_within_its_limits() {
    assert_eq!(
        ensure_able_to_receive_message::<Measured>(2000, weight(209_688_630, 209_798), 976, weight(1000, 100)),
        Ok(())
    );
}

#[test]
fn chain_is_not_able_to_receive_a_message_larger_than_a_transaction() {
    assert_eq!(
        ensure_able_to_receive_message::<Measured>(
            2000,
            weight(u64::MAX, u64::MAX),
            977,
            weight(1000, 100)
        ),
        Err(ConfigurationError::TransactionTooLarge {
            transaction_size: 2001,
            max_extrinsic_size: 2000
        })
    );
}

#[test]
fn chain_is_not_able_to_receive_a_message_heavier_than_a_transaction() {
    assert_eq!(
        ensure_able_to_receive_message::<Measured>(2000, weight(209_688_629, 209_798), 976, weight(1000, 100)),
        Err(ConfigurationError::TransactionTooHeavy {
            transaction_weight: weight(209_688_630, 209_798),
            max_extrinsic_weight: weight(209_688_629, 209_798)
        })
    );
}

#[test]
fn chain_is_able_to_receive_a_confirmation_within_its_limits() {
    assert_eq!(
        ensure_able_to_receive_confirmation::<Measured>(5000, weight(429_917, 449), 514, 2, 5),
        Ok(())
    );
}

#[test]
fn chain_is_not_able_to_receive_a_confirmation_larger_than_a_transaction() {
    assert_eq!(
        ensure_able_to_receive_confirmation::<Measured>(1537, weight(u64::MAX, u64::MAX), 514, 2, 5),
        Err(ConfigurationError::TransactionTooLarge {
            transaction_size: 1538,
            max_extrinsic_size: 1537
        })
    );
}

#[test]
fn chain_is_not_able_to_receive_a_confirmation_heavier_than_a_transaction() {
    assert_eq!(
        ensure_able_to_receive_confirmation::<Measured>(5000, weight(429_917, 448), 514, 2, 5),
        Err(ConfigurationError::TransactionTooHeavy {
            transaction_weight: weight(429_917, 449),
            max_extrinsic_weight: weight(429_917, 448)
        })
    );
}

#[test]
fn placeholder_fits_where_the_dispatch_weight_fits() {
    assert_eq!(
        ensure_able_to_receive_message::<PlaceholderWeights>(1024, weight(1000, 100), 0, weight(1000, 100)),
        Ok(())
    );
    assert_eq!(
        ensure_able_to_receive_confirmation::<PlaceholderWeights>(1024, weight(0, 0), 0, 7, 7),
        Ok(())
    );
}
