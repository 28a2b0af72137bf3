//! What a recursive prover computes once and uses for every proof.

use circuit_cairo_verifier::verify::CairoVerifierConfig;
use circuits_stark_verifier::proof::ProofConfig;
use std::sync::Arc;
use stwo_cairo_common::preprocessed_columns::preprocessed_trace::{
    PreProcessedTrace, PreProcessedTraceVariant,
};
use vstd::arithmetic::power2::{
    lemma_pow2_adds, lemma_pow2_strictly_increases, lemma_pow2_unfold, pow2,
};
use vstd::prelude::*;

use crate::error::ProveError;
use crate::memory_mode::{memory_mode_of, recursive_precompute_memory_mode, ProverMemoryMode};

verus! {

/// The largest circle domain has `2 ^ MAX_LOG_DOMAIN_SIZE` points.
pub const MAX_LOG_DOMAIN_SIZE: u32 = 30;

/// The parameters of a FRI protocol that the precomputes depend on.
#[derive(Clone, Copy, Debug, PartialEq, Eq, Structural)]
pub struct FriSettings {
    pub log_blowup_factor: u32,
    pub n_queries: usize,
}

/// The parameters of a commitment scheme that the precomputes depend on.
#[derive(Clone, Copy, Debug, PartialEq, Eq)]
pub struct PcsSettings {
    pub fri_config: FriSettings,
    pub lifting_log_size: Option<u32>,
}

/// The parameters that the precomputes are made from.
pub struct ProverSettings {
    /// The preprocessed trace of the Cairo prover.
    pub cairo_preprocessed_trace: PreProcessedTraceVariant,
    /// The commitment scheme that the Cairo prover is run with.
    pub cairo_prover_pcs: PcsSettings,
    /// Whether the Cairo prover keeps the coefficients of its polynomials.
    pub cairo_store_polynomials_coefficients: bool,
    /// The commitment scheme of Cairo proofs.
    pub cairo_pcs: PcsSettings,
    /// The commitment scheme of circuit proofs.
    pub circuit_pcs: PcsSettings,
    /// The FRI protocol of circuit proofs.
    pub circuit_fri: FriSettings,
    /// Whether the circuit prover keeps the coefficients of its polynomials.
    pub circuit_store_polynomials_coefficients: bool,
    /// The commitment scheme of the configuration of the recursive circuit.
    pub recursive_circuit_pcs: PcsSettings,
    /// The structure of circuit proofs.
    pub proof_config: ProofConfig,
}

/// The coset of the circle group that starts at a multiple of the generator
/// and goes on in steps of another, for `2 ^ log_size` points.
#[derive(Clone, Copy, Debug, PartialEq, Eq, Structural)]
pub struct CosetIndices {
    pub initial_index: usize,
    pub step_size: usize,
    pub log_size: u32,
}

/// The parameters of a tree that commits to preprocessed columns.
#[derive(Clone, Copy, Debug, PartialEq, Eq)]
pub struct TreeSettings {
    pub log_blowup_factor: u32,
    pub store_polynomials_coefficients: bool,
    pub lifting_log_size: Option<u32>,
    pub memory_mode: ProverMemoryMode,
}

/// The seed and the number of the rows that blind a circuit.
#[derive(Clone, Copy, Debug, PartialEq, Eq)]
pub struct ZkBlinding {
    pub seed: [u8; 32],
    pub n_padding: usize,
}

/// The precomputes of a recursive prover, as far as they do not hold values of
/// the provers themselves.
pub struct RecursiveProverPrecomputes {
    /// The blinding of the circuit whose topology is preprocessed.
    pub topology_blinding: ZkBlinding,
    /// The coset whose twiddles serve both provers.
    pub twiddle_coset: CosetIndices,
    /// The preprocessed trace of the Cairo prover.
    pub cairo_preprocessed_trace: Arc<PreProcessedTrace>,
    /// The tree over the preprocessed trace of the Cairo prover.
    pub cairo_preprocessed_tree: TreeSettings,
    /// The tree over the preprocessed trace of the circuit prover.
    pub circuit_preprocessed_tree: TreeSettings,
    /// The configuration of the circuit that verifies Cairo proofs.
    pub cairo_verifier_config: CairoVerifierConfig,
    /// The commitment scheme of the configuration of the recursive circuit.
    pub circuit_config: PcsSettings,
    /// The structure of circuit proofs.
    pub proof_config: ProofConfig,
    /// How the provers trade memory for time.
    pub memory_mode: ProverMemoryMode,
}

/// The first half of the canonic coset of `2 ^ log_size` points, as a circle
/// domain is made from it: with `G` the generator of the circle group, whose
/// order is `2 ^ 31`, it starts at `G * 2 ^ (30 - log_size)` and goes on in
/// steps of `G * 2 ^ (32 - log_size)`.
pub open spec fn is_half_coset(coset: CosetIndices, log_size: u32) -> bool {
    &&& coset.initial_index == pow2((30 - log_size) as nat)
    &&& coset.step_size == pow2((32 - log_size) as nat)
    &&& coset.log_size == log_size - 1
}

/// Calls `CanonicCoset::new` of stwo, and takes the half coset of the circle
/// domain of the result. It is the coset that `is_half_coset` describes. Stwo
/// panics for a domain of one point, and for one with more points than half
/// of the circle group.
#[verifier::external_body]
fn circle_domain_half_coset(log_size: u32) -> (indices: CosetIndices)
    requires
        0 < log_size <= MAX_LOG_DOMAIN_SIZE,
    ensures
        is_half_coset(indices, log_size),
{
    let coset = stwo::core::poly::circle::CanonicCoset::new(log_size).circle_domain().half_coset;
    CosetIndices {
        initial_index: coset.initial_index.0,
        step_size: coset.step_size.0,
        log_size: coset.log_size,
    }
}

/// The field `variant` of a preprocessed trace.
pub uninterp spec fn trace_variant(trace: PreProcessedTrace) -> PreProcessedTraceVariant;

/// The identifiers of a trace's columns in order, as `PreProcessedTrace::ids`
/// lists them.
pub uninterp spec fn trace_column_ids(trace: PreProcessedTrace) -> Seq<Seq<char>>;

/// The identifiers of the columns that the traces of a variant have, in order.
pub uninterp spec fn column_ids_of(variant: PreProcessedTraceVariant) -> Seq<Seq<char>>;

/// Calls `PreProcessedTraceVariant::to_preprocessed_trace` of stwo-cairo-common.
/// The trace names the variant it was made from, and the variant alone fixes
/// which columns it has, in which order. Two traces of a variant are not said to
/// be equal: each has a hash map of its own from identifiers to places.
#[verifier::external_body]
fn to_preprocessed_trace(variant: &PreProcessedTraceVariant) -> (trace: PreProcessedTrace)
    ensures
        trace_variant(trace) == *variant,
        trace_column_ids(trace) == column_ids_of(*variant),
{
    variant.to_preprocessed_trace()
}

/// The larger of two lifting domains.
pub open spec fn max_log_size(a: u32, b: u32) -> u32 {
    if a >= b {
        a
    } else {
        b
    }
}

/// Whether a domain that serves both provers exists: the larger of the lifting
/// domains is one that the circle group has. Holds of settings that name no
/// lifting domain, for which none is made.
pub open spec fn lifting_domains_exist(settings: ProverSettings) -> bool {
    match (settings.cairo_prover_pcs.lifting_log_size, settings.circuit_pcs.lifting_log_size) {
        (Some(cairo), Some(circuit)) => 0 < max_log_size(cairo, circuit) <= MAX_LOG_DOMAIN_SIZE,
        _ => true,
    }
}

/// Whether these are the precomputes for the settings, a configuration of the
/// Cairo verifier and a memory mode, where both provers name a lifting domain.
pub open spec fn are_precomputes(
    precomputes: RecursiveProverPrecomputes,
    settings: ProverSettings,
    cairo_verifier_config: CairoVerifierConfig,
    mode: ProverMemoryMode,
) -> bool {
    match (settings.cairo_prover_pcs.lifting_log_size, settings.circuit_pcs.lifting_log_size) {
        (Some(cairo), Some(circuit)) => {
            &&& precomputes.topology_blinding.seed@ == Seq::new(32, |i: int| 0u8)
            &&& precomputes.topology_blinding.n_padding == settings.circuit_fri.n_queries
            &&& is_half_coset(precomputes.twiddle_coset, max_log_size(cairo, circuit))
            &&& trace_variant(*precomputes.cairo_preprocessed_trace)
                == settings.cairo_preprocessed_trace
            &&& trace_column_ids(*precomputes.cairo_preprocessed_trace) == column_ids_of(
                settings.cairo_preprocessed_trace,
            )
            &&& precomputes.cairo_preprocessed_tree == (TreeSettings {
                log_blowup_factor: settings.cairo_pcs.fri_config.log_blowup_factor,
                store_polynomials_coefficients: settings.cairo_store_polynomials_coefficients,
                lifting_log_size: Some(cairo),
                memory_mode: mode,
            })
            &&& precomputes.circuit_preprocessed_tree == (TreeSettings {
                log_blowup_factor: settings.circuit_fri.log_blowup_factor,
                store_polynomials_coefficients: settings.circuit_store_polynomials_coefficients,
                lifting_log_size: settings.recursive_circuit_pcs.lifting_log_size,
                memory_mode: mode,
            })
            &&& precomputes.cairo_verifier_config == cairo_verifier_config
            &&& precomputes.circuit_config == settings.recursive_circuit_pcs
            &&& precomputes.proof_config == settings.proof_config
            &&& precomputes.memory_mode == mode
        },
        _ => false,
    }
}

/// Prepares the precomputes of a recursive prover from its settings, the
/// outcome of getting the configuration of the Cairo verifier, and the setting
/// of the memory mode.
///
/// A configuration that could not be got is reported first. Then both provers
/// must name a lifting domain; the Cairo prover is asked first. The twiddles are
/// those of the larger of the two domains. The circuit whose topology is
/// preprocessed is blinded with a zero seed.
pub fn prepare_recursive_prover_precomputes(
    settings: ProverSettings,
    cairo_verifier_config: Result<CairoVerifierConfig, String>,
    memory_mode_setting: Option<&str>,
) -> (result: Result<RecursiveProverPrecomputes, ProveError>)
    requires
        cairo_verifier_config is Ok ==> lifting_domains_exist(settings),
    ensures
        match cairo_verifier_config {
            Err(reason) => result == Err::<RecursiveProverPrecomputes, ProveError>(
                ProveError::Outside(reason),
            ),
            Ok(config) => match (
                settings.cairo_prover_pcs.lifting_log_size,
                settings.circuit_pcs.lifting_log_size,
            ) {
                (None, _) => result == Err::<RecursiveProverPrecomputes, ProveError>(
                    ProveError::CairoLiftingLogSizeUnset,
                ),
                (Some(_), None) => result == Err::<RecursiveProverPrecomputes, ProveError>(
                    ProveError::CircuitLiftingLogSizeUnset,
                ),
                (Some(_), Some(_)) => {
                    &&& result is Ok
                    &&& are_precomputes(
                        result->Ok_0,
                        settings,
                        config,
                        memory_mode_of(
                            match memory_mode_setting {
                                Some(value) => Some(value@),
                                None => None,
                            },
                        ),
                    )
                },
            },
        },
{
    let cairo_verifier_config = match cairo_verifier_config {
        Ok(config) => config,
        Err(reason) => {
            return Err(ProveError::Outside(reason));
        },
    };
    let cairo_lifting_log_size: u32 = match settings.cairo_prover_pcs.lifting_log_size {
        Some(log_size) => log_size,
        None => {
            return Err(ProveError::CairoLiftingLogSizeUnset);
        },
    };
    let circuit_lifting_log_size: u32 = match settings.circuit_pcs.lifting_log_size {
        Some(log_size) => log_size,
        None => {
            return Err(ProveError::CircuitLiftingLogSizeUnset);
        },
    };
    let max_domain_size: u32 = if cairo_lifting_log_size >= circuit_lifting_log_size {
        cairo_lifting_log_size
    } else {
        circuit_lifting_log_size
    };
    let twiddle_coset = circle_domain_half_coset(max_domain_size);
    let memory_mode = recursive_precompute_memory_mode(memory_mode_setting);
    let cairo_preprocessed_trace = Arc::new(
        to_preprocessed_trace(&settings.cairo_preprocessed_trace),
    );
    let topology_blinding = ZkBlinding {
        seed: [0u8; 32],
        n_padding: settings.circuit_fri.n_queries,
    };
    assert(topology_blinding.seed@ =~= Seq::new(32, |i: int| 0u8));
    Ok(
        RecursiveProverPrecomputes {
            topology_blinding,
            twiddle_coset,
            cairo_preprocessed_trace,
            cairo_preprocessed_tree: TreeSettings {
                log_blowup_factor: settings.cairo_pcs.fri_config.log_blowup_factor,
                store_polynomials_coefficients: settings.cairo_store_polynomials_coefficients,
                lifting_log_size: Some(cairo_lifting_log_size),
                memory_mode,
            },
            circuit_preprocessed_tree: TreeSettings {
                log_blowup_factor: settings.circuit_fri.log_blowup_factor,
                store_polynomials_coefficients: settings.circuit_store_polynomials_coefficients,
                lifting_log_size: settings.recursive_circuit_pcs.lifting_log_size,
                memory_mode,
            },
            cairo_verifier_config,
            circuit_config: settings.recursive_circuit_pcs,
            proof_config: settings.proof_config,
            memory_mode,
        },
    )
}

/// The parameters of a tree in another memory mode.
pub open spec fn tree_in_mode(tree: TreeSettings, memory_mode: ProverMemoryMode) -> TreeSettings {
    TreeSettings { memory_mode, ..tree }
}

/// The memory mode changes the memory mode and nothing else: precomputes for the
/// same settings in two modes agree on the blinding, the twiddle coset, the
/// variant and the columns of the preprocessed trace, both trees but for their
/// mode, and all configurations.
pub proof fn law_memory_mode_keeps_the_precomputes(
    a: RecursiveProverPrecomputes,
    b: RecursiveProverPrecomputes,
    settings: ProverSettings,
    cairo_verifier_config: CairoVerifierConfig,
    a_mode: ProverMemoryMode,
    b_mode: ProverMemoryMode,
)
    requires
        are_precomputes(a, settings, cairo_verifier_config, a_mode),
        are_precomputes(b, settings, cairo_verifier_config, b_mode),
    ensures
        a.topology_blinding.seed@ == b.topology_blinding.seed@,
        a.topology_blinding.n_padding == b.topology_blinding.n_padding,
        a.twiddle_coset == b.twiddle_coset,
        trace_variant(*a.cairo_preprocessed_trace) == trace_variant(*b.cairo_preprocessed_trace),
        trace_column_ids(*a.cairo_preprocessed_trace) == trace_column_ids(
            *b.cairo_preprocessed_trace,
        ),
        tree_in_mode(a.cairo_preprocessed_tree, b_mode) == b.cairo_preprocessed_tree,
        tree_in_mode(a.circuit_preprocessed_tree, b_mode) == b.circuit_preprocessed_tree,
        a.cairo_verifier_config == b.cairo_verifier_config,
        a.circuit_config == b.circuit_config,
        a.proof_config == b.proof_config,
        a.memory_mode == a_mode,
        b.memory_mode == b_mode,
{
}

/// The twiddles serve both provers: the domain of the twiddle coset, which has
/// twice as many points as the coset, is at least as large as the lifting
/// domain of either prover, and is no larger than both. The coset goes once
/// round the circle group.
pub proof fn law_twiddles_serve_both_provers(coset: CosetIndices, cairo: u32, circuit: u32)
    requires
        0 < max_log_size(cairo, circuit) <= MAX_LOG_DOMAIN_SIZE,
        is_half_coset(coset, max_log_size(cairo, circuit)),
    ensures
        2 * pow2(coset.log_size as nat) >= pow2(cairo as nat),
        2 * pow2(coset.log_size as nat) >= pow2(circuit as nat),
        2 * pow2(coset.log_size as nat) == pow2(cairo as nat) || 2 * pow2(coset.log_size as nat)
            == pow2(circuit as nat),
        coset.step_size * pow2(coset.log_size as nat) == pow2(31),
{
    let log_size = max_log_size(cairo, circuit) as nat;
    lemma_pow2_unfold(log_size);
    lemma_pow2_adds((32 - log_size) as nat, coset.log_size as nat);
    if cairo < circuit {
        lemma_pow2_strictly_increases(cairo as nat, circuit as nat);
    } else if circuit < cairo {
        lemma_pow2_strictly_increases(circuit as nat, cairo as nat);
    }
}

/// Precomputes come out exactly where there is a verifier configuration and both
/// provers name a lifting domain, and each part of them is that of its own
/// settings:
/// - the Cairo tree has the lifting domain and the flag of the Cairo prover and
///   the blowup of Cairo proofs, and nothing of the circuit's;
/// - the circuit tree has the blowup and the flag of circuit proofs and the
///   lifting domain of the recursive circuit, and nothing of Cairo's;
/// - only the twiddles take the larger of the two lifting domains;
/// - the topology is blinded with zeros, once for each query of circuit proofs;
/// - the trace is that of the Cairo prover's variant;
/// - the configurations are those that were handed in.
pub proof fn law_each_precompute_is_that_of_its_settings(
    settings: ProverSettings,
    cairo_verifier_config: Result<CairoVerifierConfig, String>,
    memory_mode_setting: Option<&str>,
    result: Result<RecursiveProverPrecomputes, ProveError>,
)
    requires
        call_ensures(
            prepare_recursive_prover_precomputes,
            (settings, cairo_verifier_config, memory_mode_setting),
            result,
        ),
    ensures
        result is Ok <==> (cairo_verifier_config is Ok
            && settings.cairo_prover_pcs.lifting_log_size is Some
            && settings.circuit_pcs.lifting_log_size is Some),
        result matches Ok(made) ==> ({
            let cairo = settings.cairo_prover_pcs.lifting_log_size->0;
            let circuit = settings.circuit_pcs.lifting_log_size->0;
            let larger = if cairo < circuit {
                circuit
            } else {
                cairo
            };
            &&& made.cairo_preprocessed_tree.lifting_log_size
                == settings.cairo_prover_pcs.lifting_log_size
            &&& made.cairo_preprocessed_tree.log_blowup_factor
                == settings.cairo_pcs.fri_config.log_blowup_factor
            &&& made.cairo_preprocessed_tree.store_polynomials_coefficients
                == settings.cairo_store_polynomials_coefficients
            &&& made.circuit_preprocessed_tree.lifting_log_size
                == settings.recursive_circuit_pcs.lifting_log_size
            &&& made.circuit_preprocessed_tree.log_blowup_factor
                == settings.circuit_fri.log_blowup_factor
            &&& made.circuit_preprocessed_tree.store_polynomials_coefficients
                == settings.circuit_store_polynomials_coefficients
            &&& made.twiddle_coset.log_size + 1 == larger
            &&& made.twiddle_coset.initial_index == pow2((30 - larger) as nat)
            &&& made.twiddle_coset.step_size == pow2((32 - larger) as nat)
            &&& made.topology_blinding.seed@.len() == 32
            &&& forall|i: int| 0 <= i < 32 ==> #[trigger] made.topology_blinding.seed@[i] == 0
            &&& made.topology_blinding.n_padding == settings.circuit_fri.n_queries
            &&& trace_variant(*made.cairo_preprocessed_trace) == settings.cairo_preprocessed_trace
            &&& trace_column_ids(*made.cairo_preprocessed_trace) == column_ids_of(
                settings.cairo_preprocessed_trace,
            )
            &&& cairo_verifier_config == Ok::<CairoVerifierConfig, String>(
                made.cairo_verifier_config,
            )
            &&& made.circuit_config == settings.recursive_circuit_pcs
            &&& made.proof_config == settings.proof_config
        }),
{
}

/// What is missing is reported, the verifier configuration before the Cairo
/// lifting domain and that before the circuit's, and nothing else is.
pub proof fn law_missing_settings_are_reported(
    settings: ProverSettings,
    cairo_verifier_config: Result<CairoVerifierConfig, String>,
    memory_mode_setting: Option<&str>,
    error: ProveError,
)
    requires
        call_ensures(
            prepare_recursive_prover_precomputes,
            (settings, cairo_verifier_config, memory_mode_setting),
            Err::<RecursiveProverPrecomputes, ProveError>(error),
        ),
    ensures
        match error {
            ProveError::Outside(reason) => cairo_verifier_config == Err::<
                CairoVerifierConfig,
                String,
            >(reason),
            ProveError::CairoLiftingLogSizeUnset => cairo_verifier_config is Ok
                && settings.cairo_prover_pcs.lifting_log_size is None,
            ProveError::CircuitLiftingLogSizeUnset => cairo_verifier_config is Ok
                && settings.cairo_prover_pcs.lifting_log_size is Some
                && settings.circuit_pcs.lifting_log_size is None,
            _ => false,
        },
{
}

/// Both provers, and both of their trees, work in the mode that the setting asks
/// for.
pub proof fn law_trees_are_in_the_mode_that_is_asked_for(
    settings: ProverSettings,
    cairo_verifier_config: Result<CairoVerifierConfig, String>,
    memory_mode_setting: Option<&str>,
    made: RecursiveProverPrecomputes,
    mode: ProverMemoryMode,
)
    requires
        call_ensures(
            prepare_recursive_prover_precomputes,
            (settings, cairo_verifier_config, memory_mode_setting),
            Ok::<RecursiveProverPrecomputes, ProveError>(made),
        ),
        call_ensures(recursive_precompute_memory_mode, (memory_mode_setting,), mode),
    ensures
        made.memory_mode == mode,
        made.cairo_preprocessed_tree.memory_mode == mode,
        made.circuit_preprocessed_tree.memory_mode == mode,
{
}

/// Each tree depends on the settings of its own prover alone: precomputes for
/// settings that agree on those of the Cairo prover have the same Cairo tree but
/// for its mode, whatever those of the circuit are, and the other way round.
pub proof fn law_each_tree_depends_on_its_own_settings(
    a_settings: ProverSettings,
    b_settings: ProverSettings,
    a_config: Result<CairoVerifierConfig, String>,
    b_config: Result<CairoVerifierConfig, String>,
    a_mode: Option<&str>,
    b_mode: Option<&str>,
    a: RecursiveProverPrecomputes,
    b: RecursiveProverPrecomputes,
)
    requires
        call_ensures(
            prepare_recursive_prover_precomputes,
            (a_settings, a_config, a_mode),
            Ok::<RecursiveProverPrecomputes, ProveError>(a),
        ),
        call_ensures(
            prepare_recursive_prover_precomputes,
            (b_settings, b_config, b_mode),
            Ok::<RecursiveProverPrecomputes, ProveError>(b),
        ),
    ensures
        (a_settings.cairo_prover_pcs == b_settings.cairo_prover_pcs && a_settings.cairo_pcs
            == b_settings.cairo_pcs && a_settings.cairo_store_polynomials_coefficients
            == b_settings.cairo_store_polynomials_coefficients) ==> tree_in_mode(
            a.cairo_preprocessed_tree,
            b.memory_mode,
        ) == b.cairo_preprocessed_tree,
        (a_settings.circuit_fri == b_settings.circuit_fri && a_settings.recursive_circuit_pcs
            == b_settings.recursive_circuit_pcs && a_settings.circuit_store_polynomials_coefficients
            == b_settings.circuit_store_polynomials_coefficients) ==> tree_in_mode(
            a.circuit_preprocessed_tree,
            b.memory_mode,
        ) == b.circuit_preprocessed_tree,
{
}

} // verus!
