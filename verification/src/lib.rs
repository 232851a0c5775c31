//! Weight estimation for transactions that relay bridge messages and delivery
//! confirmations.
//!
//! A chain configuration supplies the measured cost of a few canonical
//! transactions ([`WeightInfo`]). The measurements are decomposed into
//! additive overheads ([`OverheadSet`]), from which the weight of any
//! delivery or confirmation transaction is predicted ([`WeightInfoExt`]).
//! Before a configuration is deployed, its cost model and the limits of the
//! chain are checked against each other.
//!
//! The arithmetic on weights saturates throughout, so that no function of
//! this crate panics or wraps around, whatever it is given.

pub mod benchmarks;
pub mod capacity;
pub mod laws;
pub mod overheads;
pub mod placeholder;
pub mod primitives;
pub mod weight;
pub mod weight_info;

pub use crate::benchmarks::{collect_samples, BenchmarkSamples, WeightInfo};
pub use crate::capacity::{ConfigurationError, OverheadComponent, SIGNED_EXTENSIONS_SIZE};
pub use crate::overheads::{
    OverheadSet, EXPECTED_DEFAULT_MESSAGE_LENGTH, EXTRA_STORAGE_PROOF_SIZE,
    PROOF_SIZE_BENCHMARK_SPAN,
};
pub use crate::placeholder::PlaceholderWeights;
pub use crate::primitives::UnrewardedRelayersState;
pub use crate::weight::Weight;
pub use crate::weight_info::{
    ensure_able_to_receive_confirmation, ensure_able_to_receive_message,
    ensure_weights_are_correct, WeightInfoExt,
};
