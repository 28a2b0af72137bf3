use std::sync::Arc;

use cairo_air::air::PublicData;
use circuit_cairo_verifier::verify::CairoVerifierConfig;
use circuits::blake::HashValue;
use circuits::ivalue::qm31_from_u32s;
use circuits_stark_verifier::fri_proof::{FriCommitProof, FriConfig, FriProof, FriWitness};
use circuits_stark_verifier::merkle::AuthPaths;
use circuits_stark_verifier::oods::EvalDomainSamples;
use circuits_stark_verifier::proof::{Proof, ProofConfig};
use privacy_prove::encode::serialize_proof;
use privacy_prove::error::ProveError;
use privacy_prove::memory_mode::ProverMemoryMode;
use privacy_prove::outside::Qm31;
use privacy_prove::precompute::{
    prepare_recursive_prover_precomputes, FriSettings, PcsSettings, ProverSettings,
    RecursiveProverPrecomputes,
};
use privacy_prove::recursive::{
    advance, conclude, privacy_recursive_prove, start_recursive_prove, ProverEvent, RecursiveRun,
    Stage,
};
use starknet_types_core::felt::Felt;
use stwo_cairo_common::preprocessed_columns::preprocessed_trace::PreProcessedTraceVariant;

const N_QUERIES: usize = 17;

fn proof_config() -> ProofConfig {
    ProofConfig {
        n_pow_bits: 0,
        n_interaction_pow_bits: 0,
        n_preprocessed_columns: 0,
        n_trace_columns: 0,
        n_interaction_columns: 0,
        component_shapes: vec![],
        cumulative_sum_columns: vec![],
        fri: FriConfig {
            log_trace_size: 1,
            log_blowup_factor: 1,
            n_queries: 1,
            log_n_last_layer_coefs: 0,
            fold_step: 1,
        },
    }
}

fn cairo_verifier_config() -> CairoVerifierConfig {
    let zero = qm31_from_u32s(0, 0, 0, 0);
    CairoVerifierConfig {
        proof_config: proof_config(),
        enabled_bits: vec![true, false],
        program: Arc::new([]),
        n_outputs: 1,
        preprocessed_root: HashValue(zero, zero),
        preprocessed_trace_variant: PreProcessedTraceVariant::CanonicalSmall,
    }
}

fn precomputes(setting: &str) -> RecursiveProverPrecomputes {
    let pcs = PcsSettings {
        fri_config: FriSettings { log_blowup_factor: 1, n_queries: 70 },
        lifting_log_size: Some(21),
    };
    let settings = ProverSettings {
        cairo_preprocessed_trace: PreProcessedTraceVariant::CanonicalSmall,
        cairo_prover_pcs: pcs,
        cairo_store_polynomials_coefficients: true,
        cairo_pcs: pcs,
        circuit_pcs: pcs,
        circuit_fri: pcs.fri_config,
        circuit_store_polynomials_coefficients: true,
        recursive_circuit_pcs: PcsSettings {
            fri_config: FriSettings { log_blowup_factor: 1, n_queries: N_QUERIES },
            lifting_log_size: None,
        },
        proof_config: proof_config(),
    };
    prepare_recursive_prover_precomputes(settings, Ok(cairo_verifier_config()), Some(setting))
        .unwrap_or_else(|_| panic!("both domains are set"))
}

fn start(setting: &str) -> RecursiveRun {
    start_recursive_prove(&precomputes(setting), preimage())
}

fn preimage() -> Vec<Felt> {
    vec![Felt::from(5u32), Felt::from(6u32)]
}

fn commitments() -> Vec<[u8; 32]> {
    vec![[1; 32], [2; 32], [3; 32], [4; 32]]
}

fn circuit_proof() -> Proof<Qm31> {
    let value = qm31_from_u32s(1, 2, 3, 4);
    let hash = HashValue(value, value);
    Proof {
        channel_salt: value,
        trace_root: hash,
        interaction_root: hash,
        composition_polynomial_root: hash,
        claimed_sums: vec![],
        preprocessed_columns_at_oods: vec![],
        trace_at_oods: vec![],
        interaction_at_oods: vec![],
        composition_eval_at_oods: [value; 8],
        eval_domain_samples: EvalDomainSamples::from_m31s(vec![]),
        eval_domain_auth_paths: AuthPaths { data: vec![] },
        pow_nonce: value,
        interaction_pow_nonce: value,
        fri: FriProof {
            commit: FriCommitProof { layer_commitments: vec![], last_layer_coefs: vec![] },
            auth_paths: AuthPaths { data: vec![] },
            witness: FriWitness(vec![]),
        },
    }
}

fn stage_name(stage: &Stage) -> &'static str {
    match stage {
        Stage::LockCairoTree => "lock cairo",
        Stage::MaterializeCairoTree => "materialize cairo",
        Stage::ProveCairo => "prove cairo",
        Stage::ReleaseCairoTree => "release cairo",
        Stage::PrepareCairoProof => "prepare cairo",
        Stage::BuildContext { .. } => "build",
        Stage::BlindContext(_) => "blind",
        Stage::FinalizeContext => "finalize",
        Stage::LockCircuitTree => "lock circuit",
        Stage::MaterializeCircuitTree => "materialize circuit",
        Stage::ProveCircuit => "prove circuit",
        Stage::ReleaseCircuitTree => "release circuit",
        Stage::PrepareCircuitProof => "prepare circuit",
        Stage::CompressProof { .. } => "compress",
        Stage::Finished { .. } => "finished",
        Stage::Failed(_) => "failed",
    }
}

/// Reports the work of every stage as done.
fn good_event(stage: &Stage) -> ProverEvent {
    match stage {
        Stage::PrepareCairoProof => ProverEvent::CairoProofPrepared(PublicData::default()),
        Stage::BuildContext { .. } => {
            ProverEvent::ContextBuilt { valid: true, cairo_commitments: commitments() }
        }
        Stage::PrepareCircuitProof => ProverEvent::CircuitProofPrepared(circuit_proof()),
        _ => ProverEvent::Done,
    }
}

fn run_until(setting: &str, name: &str) -> RecursiveRun {
    let mut run = start(setting);
    while stage_name(&run.stage) != name {
        let event = good_event(&run.stage);
        run = privacy_recursive_prove(run, event);
    }
    run
}

fn stages(setting: &str) -> Vec<&'static str> {
    let mut run = start(setting);
    let mut names = vec![];
    loop {
        names.push(stage_name(&run.stage));
        if matches!(run.stage, Stage::Finished { .. } | Stage::Failed(_)) {
            return names;
        }
        let event = good_event(&run.stage);
        run = privacy_recursive_prove(run, event);
    }
}

#[test]
fn fast_run_goes_through_its_stages() {
    assert_eq!(
        stages("fast"),
        vec![
            "lock cairo",
            "materialize cairo",
            "prove cairo",
            "prepare cairo",
            "build",
            "blind",
            "finalize",
            "lock circuit",
            "materialize circuit",
            "prove circuit",
            "prepare circuit",
            "finished",
        ]
    );
}

#[test]
fn low_memory_run_releases_its_trees() {
    assert_eq!(
        stages("low_memory"),
        vec![
            "lock cairo",
            "materialize cairo",
            "prove cairo",
            "release cairo",
            "prepare cairo",
            "build",
            "blind",
            "finalize",
            "lock circuit",
            "materialize circuit",
            "prove circuit",
            "release circuit",
            "prepare circuit",
            "finished",
        ]
    );
}

#[test]
fn run_starts_from_the_precomputes() {
    let run = start("Low-Memory");
    assert_eq!(run.memory_mode, ProverMemoryMode::LowMemory);
    assert_eq!(run.n_queries, N_QUERIES);
    assert_eq!(run.output_preimage, preimage());
    assert_eq!(stage_name(&run.stage), "lock cairo");
}

#[test]
fn memory_mode_does_not_change_the_output() {
    let fast_output = match conclude(run_until("fast", "finished")) {
        Some(Ok(output)) => output,
        _ => panic!("the run finished"),
    };
    let low_memory_output = match conclude(run_until("low_memory", "finished")) {
        Some(Ok(output)) => output,
        _ => panic!("the run finished"),
    };
    assert_eq!(
        fast_output.proof, low_memory_output.proof,
        "recursive proof bytes differ between fast and low-memory modes"
    );
    assert_eq!(
        fast_output.output_preimage, low_memory_output.output_preimage,
        "recursive proof output preimage differs between fast and low-memory modes"
    );
}

#[test]
fn precomputes_can_be_used_again() {
    let precomputes = precomputes("low_memory");
    let mut outputs = vec![];
    for _ in 0..2 {
        let mut run = start_recursive_prove(&precomputes, preimage());
        while !matches!(run.stage, Stage::Finished { .. }) {
            let event = good_event(&run.stage);
            run = privacy_recursive_prove(run, event);
        }
        match conclude(run) {
            Some(Ok(output)) => outputs.push(output),
            _ => panic!("the run finished"),
        }
    }
    assert_eq!(outputs[0].proof, outputs[1].proof);
    assert_eq!(outputs[0].output_preimage, outputs[1].output_preimage);
}

#[test]
fn output_is_the_compressed_circuit_proof_and_the_preimage() {
    let output = match conclude(run_until("fast", "finished")) {
        Some(Ok(output)) => output,
        _ => panic!("the run finished"),
    };
    let bytes = serialize_proof(&circuit_proof());
    assert_eq!(output.proof, zstd::encode_all(&bytes[..], 3).unwrap());
    assert_eq!(zstd::decode_all(&output.proof[..]).unwrap(), bytes);
    assert_eq!(output.output_preimage, preimage());
}

#[test]
fn circuit_is_built_for_the_public_claim_and_the_preimage() {
    let mut data = PublicData::default();
    data.public_memory.safe_call_ids = [12, 13];
    let run = run_until("fast", "prepare cairo");
    match advance(run, ProverEvent::CairoProofPrepared(data)).stage {
        Stage::BuildContext { public_claim, output_preimage } => {
            let mut expected = vec![0; 50];
            expected.extend([12, 13]);
            assert_eq!(public_claim, expected);
            assert_eq!(output_preimage, preimage());
        }
        _ => panic!("the circuit is built next"),
    }
}

#[test]
fn circuit_is_blinded_by_the_trace_commitment() {
    match run_until("fast", "blind").stage {
        Stage::BlindContext(blinding) => {
            assert_eq!(blinding.seed, [2; 32]);
            assert_eq!(blinding.n_padding, N_QUERIES);
        }
        _ => panic!("the circuit is blinded next"),
    }
}

#[test]
fn invalid_circuit_is_refused() {
    let run = run_until("fast", "build");
    let event = ProverEvent::ContextBuilt { valid: false, cairo_commitments: vec![] };
    match conclude(privacy_recursive_prove(run, event)) {
        Some(Err(error)) => assert_eq!(error.message(), Some("Circuit is not valid")),
        _ => panic!("the circuit is not valid"),
    }
}

#[test]
fn poisoned_trees_are_reported() {
    for (stage, text) in [
        ("lock cairo", "cairo preprocessed tree mutex poisoned"),
        ("lock circuit", "circuit preprocessed tree mutex poisoned"),
    ] {
        let run = run_until("low_memory", stage);
        let event = ProverEvent::Failed("poisoned".to_string());
        match conclude(privacy_recursive_prove(run, event)) {
            Some(Err(error)) => assert_eq!(error.message(), Some(text)),
            _ => panic!("the lock is poisoned"),
        }
    }
}

#[test]
fn failed_proofs_end_the_run_without_a_release() {
    for stage in ["prove cairo", "prove circuit"] {
        let run = run_until("low_memory", stage);
        let run = privacy_recursive_prove(run, ProverEvent::Failed("no proof".to_string()));
        match conclude(run) {
            Some(Err(ProveError::Outside(reason))) => assert_eq!(reason, "no proof"),
            _ => panic!("the proof failed"),
        }
    }
}

#[test]
fn failed_compression_ends_the_run() {
    let run = advance(
        run_until("fast", "prepare circuit"),
        ProverEvent::CircuitProofPrepared(circuit_proof()),
    );
    assert_eq!(stage_name(&run.stage), "compress");
    let event = ProverEvent::Compressed(Err(std::io::Error::other("no memory")));
    match conclude(advance(run, event)) {
        Some(Err(ProveError::Compression(error))) => assert_eq!(error.to_string(), "no memory"),
        _ => panic!("the compression failed"),
    }
}

#[test]
fn run_that_is_over_stays_over() {
    let run = run_until("fast", "finished");
    let run = privacy_recursive_prove(run, ProverEvent::Failed("late".to_string()));
    let run = privacy_recursive_prove(run, ProverEvent::Done);
    assert_eq!(stage_name(&run.stage), "finished");
}

#[test]
fn refused_circuit_stays_refused() {
    let event = ProverEvent::ContextBuilt { valid: false, cairo_commitments: vec![] };
    let mut run = privacy_recursive_prove(run_until("low_memory", "build"), event);
    for event in [
        ProverEvent::Done,
        ProverEvent::ContextBuilt { valid: true, cairo_commitments: commitments() },
        ProverEvent::CircuitProofPrepared(circuit_proof()),
    ] {
        run = privacy_recursive_prove(run, event);
        assert_eq!(stage_name(&run.stage), "failed");
        assert_eq!(run.output_preimage, preimage());
    }
}

#[test]
fn unexpected_events_change_nothing() {
    let run = run_until("fast", "materialize cairo");
    let run = privacy_recursive_prove(run, ProverEvent::CircuitProofPrepared(circuit_proof()));
    assert_eq!(stage_name(&run.stage), "materialize cairo");
    assert!(conclude(run).is_none());
}
