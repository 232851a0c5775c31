use bridge_message_weights::overheads::{marginal_overhead, proof_size_overhead, transaction_overhead};
use bridge_message_weights::{BenchmarkSamples, OverheadSet, Weight};

fn weight(ref_time: u64, proof_size: u64) -> Weight {
    Weight { ref_time, proof_size }
}

fn samples() -> BenchmarkSamples {
    BenchmarkSamples {
        receive_single_message_proof: weight(100, 10),
        receive_two_messages_proof: weight(150, 14),
        receive_single_message_proof_with_outbound_lane_state: weight(130, 11),
        receive_single_message_proof_1_kb: weight(200_000_000, 200_000),
        receive_single_message_proof_16_kb: weight(3_500_000_000, 3_500_000),
        receive_delivery_proof_for_single_message: weight(80, 8),
        receive_delivery_proof_for_two_messages_by_single_relayer: weight(95, 9),
        receive_delivery_proof_for_two_messages_by_two_relayers: weight(140, 13),
    }
}

#[test]
fn one_and_two_messages_give_base_and_per_message_overhead() {
    let single = weight(100, 100);
    let double = weight(150, 150);
    assert_eq!(transaction_overhead(single, double), weight(50, 50));
    assert_eq!(marginal_overhead(double, single), weight(50, 50));
}

#[test]
fn five_messages_cost_five_times_the_per_message_overhead() {
    let overheads = OverheadSet::decompose(&samples(), 1024);
    assert_eq!(overheads.per_message_overhead, weight(50, 4));
    assert_eq!(overheads.receive_messages_proof_messages_overhead(5), weight(250, 20));
}

#[test]
fn decompose_takes_each_overhead_from_its_own_samples() {
    let overheads = OverheadSet::decompose(&samples(), 777);
    assert_eq!(
        overheads,
        OverheadSet {
            base_delivery_overhead: weight(50, 6),
            per_message_overhead: weight(50, 4),
            outbound_state_overhead: weight(30, 1),
            base_confirmation_overhead: weight(65, 7),
            per_confirmed_message_overhead: weight(15, 1),
            per_relayer_overhead: weight(45, 4),
            proof_span_overhead: weight(3_300_000_000, 3_300_000),
            expected_extra_proof_size: 777,
        }
    );
}

#[test]
fn components_are_decomposed_independently() {
    assert_eq!(transaction_overhead(weight(100, 7), weight(120, 14)), weight(80, 0));
    assert_eq!(marginal_overhead(weight(9, 3), weight(4, 5)), weight(5, 0));
}

#[test]
fn transaction_overhead_is_zero_where_two_units_cost_more_than_twice_one() {
    assert_eq!(transaction_overhead(weight(100, 100), weight(250, 201)), weight(0, 0));
    assert_eq!(transaction_overhead(weight(100, 100), weight(200, 200)), weight(0, 0));
}

#[test]
fn transaction_overhead_doubles_with_saturation() {
    assert_eq!(
        transaction_overhead(weight(u64::MAX, u64::MAX / 2 + 1), weight(1, 5)),
        weight(u64::MAX - 1, u64::MAX - 5)
    );
    assert_eq!(
        transaction_overhead(weight(u64::MAX / 2, 0), weight(0, 0)),
        weight(u64::MAX - 1, 0)
    );
}

#[test]
fn marginal_overhead_is_zero_where_the_larger_transaction_is_cheaper() {
    assert_eq!(marginal_overhead(weight(100, 100), weight(150, 100)), weight(0, 0));
    assert_eq!(marginal_overhead(weight(0, 0), weight(u64::MAX, u64::MAX)), weight(0, 0));
}

#[test]
fn small_difference_is_charged_without_rounding_the_rate() {
    let measured = BenchmarkSamples {
        receive_single_message_proof_1_kb: weight(200, 200),
        receive_single_message_proof_16_kb: weight(3500, 3500),
        ..samples()
    };
    let overheads = OverheadSet::decompose(&measured, 1024);
    assert_eq!(overheads.proof_span_overhead, weight(3300, 3300));
    assert_eq!(overheads.storage_proof_size_overhead(2048), weight(440, 440));
    assert_eq!(overheads.storage_proof_size_overhead(15_360), weight(3300, 3300));
    assert_eq!(overheads.storage_proof_size_overhead(1), weight(0, 0));
    assert_eq!(overheads.storage_proof_size_overhead(4), weight(0, 0));
    assert_eq!(overheads.storage_proof_size_overhead(5), weight(1, 1));
}

#[test]
fn proof_size_overhead_spreads_the_difference_over_fifteen_kilobytes() {
    let overheads = OverheadSet::decompose(&samples(), 1024);
    assert_eq!(overheads.proof_span_overhead, weight(3_300_000_000, 3_300_000));
    assert_eq!(overheads.storage_proof_size_overhead(1), weight(214_843, 214));
    assert_eq!(overheads.storage_proof_size_overhead(2), weight(429_687, 429));
    assert_eq!(overheads.storage_proof_size_overhead(2048), weight(440_000_000, 440_000));
    assert_eq!(
        overheads.storage_proof_size_overhead(15_360),
        weight(3_300_000_000, 3_300_000)
    );
}

#[test]
fn proof_size_overhead_rounds_down_once() {
    assert_eq!(proof_size_overhead(weight(15_360, 15_359), 1), weight(1, 0));
    assert_eq!(proof_size_overhead(weight(30_720, 15_359), 1), weight(2, 0));
    assert_eq!(proof_size_overhead(weight(15_359, 1), 15_360), weight(15_359, 1));
    assert_eq!(proof_size_overhead(weight(1, 7), 2194), weight(0, 0));
    assert_eq!(proof_size_overhead(weight(1, 7), 2195), weight(0, 1));
    assert_eq!(
        proof_size_overhead(weight(u64::MAX, u64::MAX), 1),
        weight(1_200_959_900_632_132, 1_200_959_900_632_132)
    );
}

#[test]
fn proof_size_overhead_is_clamped_after_the_division() {
    assert_eq!(
        proof_size_overhead(weight(1 << 63, 0), 4),
        weight(2_401_919_801_264_264, 0)
    );
    assert_eq!(
        proof_size_overhead(weight(u64::MAX, 1 << 63), 15_361),
        weight(u64::MAX, 9_223_972_516_805_091_874)
    );
    assert_eq!(
        proof_size_overhead(weight(u64::MAX, u64::MAX - 1), 15_360),
        weight(u64::MAX, u64::MAX - 1)
    );
    assert_eq!(
        proof_size_overhead(weight(u64::MAX, 15_360), u32::MAX),
        weight(u64::MAX, u32::MAX as u64)
    );
}

#[test]
fn proof_size_overhead_is_zero_where_the_larger_proof_is_cheaper() {
    let measured = BenchmarkSamples {
        receive_single_message_proof_1_kb: weight(3500, 3500),
        receive_single_message_proof_16_kb: weight(200, 200),
        ..samples()
    };
    let overheads = OverheadSet::decompose(&measured, 1024);
    assert_eq!(overheads.proof_span_overhead, weight(0, 0));
    assert_eq!(overheads.storage_proof_size_overhead(u32::MAX), weight(0, 0));
}

#[test]
fn scaled_overheads_saturate() {
    let mut overheads = OverheadSet::decompose(&samples(), 1024);
    overheads.per_message_overhead = weight(u64::MAX / 2 + 1, 3);
    overheads.per_confirmed_message_overhead = weight(2, u64::MAX);
    overheads.per_relayer_overhead = weight(1 << 40, 1 << 20);
    overheads.proof_span_overhead = weight(u64::MAX, 7 * 15_360);
    assert_eq!(overheads.receive_messages_proof_messages_overhead(2), weight(u64::MAX, 6));
    assert_eq!(
        overheads.receive_messages_delivery_proof_messages_overhead(u64::MAX),
        weight(u64::MAX, u64::MAX)
    );
    assert_eq!(
        overheads.receive_messages_delivery_proof_relayers_overhead(1 << 24),
        weight(u64::MAX, 1 << 44)
    );
    assert_eq!(
        overheads.storage_proof_size_overhead(u32::MAX),
        weight(u64::MAX, 7 * (u32::MAX as u64))
    );
}

#[test]
fn no_units_cost_nothing() {
    let overheads = OverheadSet::decompose(&samples(), 1024);
    assert_eq!(overheads.receive_messages_proof_messages_overhead(0), weight(0, 0));
    assert_eq!(overheads.receive_messages_delivery_proof_messages_overhead(0), weight(0, 0));
    assert_eq!(overheads.receive_messages_delivery_proof_relayers_overhead(0), weight(0, 0));
    assert_eq!(overheads.storage_proof_size_overhead(0), weight(0, 0));
}

#[test]
fn confirmation_overheads_scale_with_messages_and_relayers() {
    let overheads = OverheadSet::decompose(&samples(), 1024);
    assert_eq!(overheads.receive_messages_delivery_proof_messages_overhead(7), weight(105, 7));
    assert_eq!(overheads.receive_messages_delivery_proof_relayers_overhead(3), weight(135, 12));
}
