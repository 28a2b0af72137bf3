use std::sync::Arc;

use circuit_cairo_verifier::verify::CairoVerifierConfig;
use circuits::blake::HashValue;
use circuits::ivalue::qm31_from_u32s;
use circuits_stark_verifier::fri_proof::FriConfig;
use circuits_stark_verifier::proof::ProofConfig;
use privacy_prove::error::ProveError;
use privacy_prove::memory_mode::ProverMemoryMode;
use privacy_prove::precompute::{
    prepare_recursive_prover_precomputes, FriSettings, PcsSettings, ProverSettings,
    RecursiveProverPrecomputes, TreeSettings,
};
use stwo_cairo_common::preprocessed_columns::preprocessed_trace::PreProcessedTraceVariant;

const CAIRO_POW_BITS: u32 = 26;
const CIRCUIT_POW_BITS: u32 = 15;

/// A structure of proofs that the proof-of-work bits tell apart.
fn proof_config(n_pow_bits: u32) -> ProofConfig {
    ProofConfig {
        n_pow_bits,
        n_interaction_pow_bits: 0,
        n_preprocessed_columns: 0,
        n_trace_columns: 0,
        n_interaction_columns: 0,
        component_shapes: vec![],
        cumulative_sum_columns: vec![],
        fri: FriConfig {
            log_trace_size: 1,
            log_blowup_factor: 1,
            n_queries: 1,
            log_n_last_layer_coefs: 0,
            fold_step: 1,
        },
    }
}

fn cairo_verifier_config(n_outputs: usize) -> CairoVerifierConfig {
    let zero = qm31_from_u32s(0, 0, 0, 0);
    CairoVerifierConfig {
        proof_config: proof_config(CAIRO_POW_BITS),
        enabled_bits: vec![true, false],
        program: Arc::new([]),
        n_outputs,
        preprocessed_root: HashValue(zero, zero),
        preprocessed_trace_variant: PreProcessedTraceVariant::CanonicalSmall,
    }
}

fn pcs(log_blowup_factor: u32, n_queries: usize, lifting_log_size: Option<u32>) -> PcsSettings {
    PcsSettings { fri_config: FriSettings { log_blowup_factor, n_queries }, lifting_log_size }
}

fn settings(cairo: Option<u32>, circuit: Option<u32>) -> ProverSettings {
    ProverSettings {
        cairo_preprocessed_trace: PreProcessedTraceVariant::CanonicalSmall,
        cairo_prover_pcs: pcs(9, 90, cairo),
        cairo_store_polynomials_coefficients: true,
        cairo_pcs: pcs(3, 23, Some(5)),
        circuit_pcs: pcs(8, 80, circuit),
        circuit_fri: FriSettings { log_blowup_factor: 2, n_queries: 35 },
        circuit_store_polynomials_coefficients: false,
        recursive_circuit_pcs: pcs(4, 17, Some(19)),
        proof_config: proof_config(CIRCUIT_POW_BITS),
    }
}

fn prepared(given: ProverSettings, memory_mode: Option<&str>) -> RecursiveProverPrecomputes {
    prepare_recursive_prover_precomputes(given, Ok(cairo_verifier_config(1)), memory_mode)
        .unwrap_or_else(|_| panic!("both domains are set"))
}

#[test]
fn precomputes_follow_the_settings() {
    let made = prepared(settings(Some(23), Some(21)), Some("low_memory"));
    assert_eq!(made.topology_blinding.seed, [0u8; 32]);
    assert_eq!(made.topology_blinding.n_padding, 35);
    assert_eq!(
        made.cairo_preprocessed_tree,
        TreeSettings {
            log_blowup_factor: 3,
            store_polynomials_coefficients: true,
            lifting_log_size: Some(23),
            memory_mode: ProverMemoryMode::LowMemory,
        }
    );
    assert_eq!(
        made.circuit_preprocessed_tree,
        TreeSettings {
            log_blowup_factor: 2,
            store_polynomials_coefficients: false,
            lifting_log_size: Some(19),
            memory_mode: ProverMemoryMode::LowMemory,
        }
    );
    assert_eq!(made.circuit_config, pcs(4, 17, Some(19)));
    assert_eq!(made.memory_mode, ProverMemoryMode::LowMemory);
}

#[test]
fn precomputes_are_fast_without_a_setting() {
    let made = prepared(settings(Some(23), Some(21)), None);
    assert_eq!(made.memory_mode, ProverMemoryMode::Fast);
    assert_eq!(made.cairo_preprocessed_tree.memory_mode, ProverMemoryMode::Fast);
    assert_eq!(made.circuit_preprocessed_tree.memory_mode, ProverMemoryMode::Fast);
}

#[test]
fn circuit_tree_may_have_no_lifting_domain() {
    let mut given = settings(Some(23), Some(21));
    given.recursive_circuit_pcs.lifting_log_size = None;
    let made = prepared(given, None);
    assert_eq!(made.circuit_preprocessed_tree.lifting_log_size, None);
}

#[test]
fn precomputes_hold_the_trace_of_the_variant() {
    let made = prepared(settings(Some(23), Some(21)), None);
    let variant = PreProcessedTraceVariant::CanonicalSmall;
    assert!(made.cairo_preprocessed_trace.variant == variant);
    assert_eq!(made.cairo_preprocessed_trace.columns.len(), variant.n_columns());
    assert_eq!(made.cairo_preprocessed_trace.ids(), variant.to_preprocessed_trace().ids());
}

#[test]
fn each_variant_has_columns_of_its_own() {
    let mut given = settings(Some(23), Some(21));
    given.cairo_preprocessed_trace = PreProcessedTraceVariant::CanonicalWithoutPedersen;
    let made = prepared(given, None);
    let variant = PreProcessedTraceVariant::CanonicalWithoutPedersen;
    assert!(made.cairo_preprocessed_trace.variant == variant);
    assert_eq!(made.cairo_preprocessed_trace.ids(), variant.to_preprocessed_trace().ids());
    let small = prepared(settings(Some(23), Some(21)), None);
    assert_ne!(made.cairo_preprocessed_trace.ids(), small.cairo_preprocessed_trace.ids());
}

#[test]
fn precomputes_hand_the_configurations_on() {
    let given = settings(Some(23), Some(21));
    let config = Ok(cairo_verifier_config(7));
    let made = prepare_recursive_prover_precomputes(given, config, None)
        .unwrap_or_else(|_| panic!("both domains are set"));
    assert_eq!(made.cairo_verifier_config.n_outputs, 7);
    assert_eq!(made.cairo_verifier_config.proof_config, proof_config(CAIRO_POW_BITS));
    assert_eq!(made.proof_config, proof_config(CIRCUIT_POW_BITS));
}

#[test]
fn missing_verifier_configuration_is_reported_first() {
    for given in [settings(None, None), settings(Some(23), Some(21)), settings(Some(0), Some(0))] {
        let config = Err("no such file".to_string());
        match prepare_recursive_prover_precomputes(given, config, None) {
            Err(ProveError::Outside(reason)) => assert_eq!(reason, "no such file"),
            _ => panic!("there is no configuration"),
        }
    }
}

#[test]
fn memory_mode_changes_nothing_else() {
    let fast = prepared(settings(Some(23), Some(21)), Some("fast"));
    let low = prepared(settings(Some(23), Some(21)), Some("checkpointed"));
    assert_eq!(fast.memory_mode, ProverMemoryMode::Fast);
    assert_eq!(low.memory_mode, ProverMemoryMode::LowMemory);
    assert_eq!(fast.topology_blinding, low.topology_blinding);
    assert_eq!(fast.twiddle_coset, low.twiddle_coset);
    assert!(fast.cairo_preprocessed_trace.variant == low.cairo_preprocessed_trace.variant);
    assert_eq!(fast.cairo_preprocessed_trace.ids(), low.cairo_preprocessed_trace.ids());
    let in_little_memory =
        |tree: TreeSettings| TreeSettings { memory_mode: ProverMemoryMode::LowMemory, ..tree };
    assert_eq!(in_little_memory(fast.cairo_preprocessed_tree), low.cairo_preprocessed_tree);
    assert_eq!(in_little_memory(fast.circuit_preprocessed_tree), low.circuit_preprocessed_tree);
    assert_eq!(fast.circuit_config, low.circuit_config);
    assert_eq!(fast.proof_config, low.proof_config);
    assert_eq!(fast.cairo_verifier_config.n_outputs, low.cairo_verifier_config.n_outputs);
}

#[test]
fn twiddle_coset_is_that_of_the_larger_domain() {
    for (cairo, circuit) in [(23, 21), (21, 23), (23, 23)] {
        let made = prepared(settings(Some(cairo), Some(circuit)), None);
        assert_eq!(made.twiddle_coset.initial_index, 1 << 7);
        assert_eq!(made.twiddle_coset.step_size, 1 << 9);
        assert_eq!(made.twiddle_coset.log_size, 22);
    }
}

#[test]
fn twiddle_coset_gives_the_coset_of_the_circle_domain() {
    for log_size in [1u32, 2, 17, 30] {
        let made = prepared(settings(Some(log_size), Some(0)), None);
        let coset = stwo::core::circle::Coset::new(
            stwo::core::circle::CirclePointIndex(made.twiddle_coset.initial_index),
            made.twiddle_coset.log_size,
        );
        let domain = stwo::core::poly::circle::CanonicCoset::new(log_size).circle_domain();
        assert_eq!(coset, domain.half_coset);
        assert_eq!(coset.step_size.0, made.twiddle_coset.step_size);
        assert_eq!(domain.size(), 2 << made.twiddle_coset.log_size);
    }
}

#[test]
fn twiddle_coset_of_the_smallest_and_the_largest_domain() {
    for (log_size, initial_index, step_size) in [(1u32, 1usize << 29, 1usize << 31), (30, 1, 4)] {
        let made = prepared(settings(Some(0), Some(log_size)), None);
        assert_eq!(made.twiddle_coset.initial_index, initial_index);
        assert_eq!(made.twiddle_coset.step_size, step_size);
        assert_eq!(made.twiddle_coset.log_size, log_size - 1);
    }
}

#[test]
fn cairo_prover_needs_a_lifting_domain() {
    for circuit in [None, Some(21)] {
        let config = Ok(cairo_verifier_config(1));
        let error =
            prepare_recursive_prover_precomputes(settings(None, circuit), config, None).err();
        match error {
            Some(ProveError::CairoLiftingLogSizeUnset) => {}
            _ => panic!("the Cairo prover names no lifting domain"),
        }
    }
    assert_eq!(
        ProveError::CairoLiftingLogSizeUnset.message(),
        Some("Lifting log size is not set in Cairo's PcsConfig")
    );
}

#[test]
fn circuit_prover_needs_a_lifting_domain() {
    let config = Ok(cairo_verifier_config(1));
    let error =
        prepare_recursive_prover_precomputes(settings(Some(23), None), config, None).err();
    match error {
        Some(ProveError::CircuitLiftingLogSizeUnset) => {}
        _ => panic!("the circuit prover names no lifting domain"),
    }
    assert_eq!(
        ProveError::CircuitLiftingLogSizeUnset.message(),
        Some("Lifting log size is not set in Circuit's PcsConfig")
    );
}
