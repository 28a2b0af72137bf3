//! A proof that a circuit verified a Cairo proof.
//!
//! The provers run outside this library. A `RecursiveRun` says in its stage
//! what is to be done next; the caller does it and reports what came of it as
//! a `ProverEvent`.

use cairo_air::air::PublicData;
use circuit_cairo_verifier::verify::CairoVerifierConfig;
use circuits_stark_verifier::proof::Proof;
use starknet_types_core::felt::Felt;
use vstd::prelude::*;

use crate::encode::{
    encode_all, encoder_returned, lemma_encoder_returned, packed_public_data, public_claim, serialize_proof, serialized_proof, zstd_content,
    zstd_frame, COMPRESSION_LEVEL,
};
use crate::error::ProveError;
use crate::memory_mode::ProverMemoryMode;
use crate::outside::Qm31;
use crate::precompute::{
    are_precomputes, ProverSettings, RecursiveProverPrecomputes, ZkBlinding,
};
use crate::prove::PrivacyProofOutput;

verus! {

/// What came of the work that a stage asks for.
pub enum ProverEvent {
    /// It is done, and there is nothing to report.
    Done,
    /// It failed, for the reason given.
    Failed(String),
    /// The Cairo proof is in the form that the circuit verifier reads; this is
    /// its public data.
    CairoProofPrepared(PublicData),
    /// The verifier circuit is built. Its values satisfy it or do not; the
    /// commitments are those of the Cairo proof.
    ContextBuilt { valid: bool, cairo_commitments: Vec<[u8; 32]> },
    /// The circuit proof is in the form that the circuit verifier reads.
    CircuitProofPrepared(Proof<Qm31>),
    /// The proof bytes went through the compressor.
    Compressed(Result<Vec<u8>, std::io::Error>),
}

/// What a run needs done next, or how it ended.
pub enum Stage {
    /// Lock the Cairo preprocessed tree. It stays locked until the run asks
    /// for the Cairo proof to be prepared.
    LockCairoTree,
    /// Bring the evaluations of the Cairo preprocessed tree into memory.
    MaterializeCairoTree,
    /// Prove the run of the Cairo program.
    ProveCairo,
    /// Drop the evaluations of the Cairo tree that can be recomputed.
    ReleaseCairoTree,
    /// Bring the Cairo proof into the form that the circuit verifier reads.
    PrepareCairoProof,
    /// Build the verifier circuit for the Cairo proof, this public claim and the
    /// bootloader output of this preimage, and check its values.
    BuildContext { public_claim: Vec<u32>, output_preimage: Vec<Felt> },
    /// Blind the verifier circuit.
    BlindContext(ZkBlinding),
    /// Pad the components of the verifier circuit.
    FinalizeContext,
    /// Lock the circuit preprocessed tree. It stays locked until the run asks
    /// for the circuit proof to be prepared.
    LockCircuitTree,
    /// Bring the evaluations of the circuit preprocessed tree into memory.
    MaterializeCircuitTree,
    /// Prove the verifier circuit.
    ProveCircuit,
    /// Drop the evaluations of the circuit tree that can be recomputed.
    ReleaseCircuitTree,
    /// Bring the circuit proof into the form that the circuit verifier reads.
    PrepareCircuitProof,
    /// Compress the bytes of the circuit proof.
    CompressProof { bytes: Vec<u8> },
    /// The run is over, with this compressed proof.
    Finished { proof: Vec<u8> },
    /// The run is over, without a proof.
    Failed(ProveError),
}

/// A run of the recursive prover, from the bootloader's output on.
pub struct RecursiveRun {
    /// How the provers trade memory for time.
    pub memory_mode: ProverMemoryMode,
    /// The number of queries of the circuit proof.
    pub n_queries: usize,
    /// The preimage of the bootloader's output.
    pub output_preimage: Vec<Felt>,
    /// What is to be done next.
    pub stage: Stage,
}

/// A stage as a mathematical value.
pub enum StageView {
    LockCairoTree,
    MaterializeCairoTree,
    ProveCairo,
    ReleaseCairoTree,
    PrepareCairoProof,
    BuildContext { public_claim: Seq<u32>, output_preimage: Seq<Felt> },
    BlindContext(ZkBlinding),
    FinalizeContext,
    LockCircuitTree,
    MaterializeCircuitTree,
    ProveCircuit,
    ReleaseCircuitTree,
    PrepareCircuitProof,
    CompressProof { bytes: Seq<u8> },
    Finished { proof: Seq<u8> },
    Failed(ProveError),
}

/// A run as a mathematical value.
pub struct RunView {
    pub memory_mode: ProverMemoryMode,
    pub n_queries: usize,
    pub output_preimage: Seq<Felt>,
    pub stage: StageView,
}

impl View for Stage {
    type V = StageView;

    open spec fn view(&self) -> StageView {
        match *self {
            Stage::LockCairoTree => StageView::LockCairoTree,
            Stage::MaterializeCairoTree => StageView::MaterializeCairoTree,
            Stage::ProveCairo => StageView::ProveCairo,
            Stage::ReleaseCairoTree => StageView::ReleaseCairoTree,
            Stage::PrepareCairoProof => StageView::PrepareCairoProof,
            Stage::BuildContext { public_claim, output_preimage } => StageView::BuildContext {
                public_claim: public_claim@,
                output_preimage: output_preimage@,
            },
            Stage::BlindContext(blinding) => StageView::BlindContext(blinding),
            Stage::FinalizeContext => StageView::FinalizeContext,
            Stage::LockCircuitTree => StageView::LockCircuitTree,
            Stage::MaterializeCircuitTree => StageView::MaterializeCircuitTree,
            Stage::ProveCircuit => StageView::ProveCircuit,
            Stage::ReleaseCircuitTree => StageView::ReleaseCircuitTree,
            Stage::PrepareCircuitProof => StageView::PrepareCircuitProof,
            Stage::CompressProof { bytes } => StageView::CompressProof { bytes: bytes@ },
            Stage::Finished { proof } => StageView::Finished { proof: proof@ },
            Stage::Failed(error) => StageView::Failed(error),
        }
    }
}

impl View for RecursiveRun {
    type V = RunView;

    open spec fn view(&self) -> RunView {
        RunView {
            memory_mode: self.memory_mode,
            n_queries: self.n_queries,
            output_preimage: self.output_preimage@,
            stage: self.stage@,
        }
    }
}

/// The stage that follows on an event. An event that a stage does not wait for
/// leaves it as it is.
pub open spec fn next_stage(run: RunView, event: ProverEvent) -> StageView {
    match (run.stage, event) {
        (StageView::LockCairoTree, ProverEvent::Done) => StageView::MaterializeCairoTree,
        (StageView::LockCairoTree, ProverEvent::Failed(_)) => StageView::Failed(
            ProveError::CairoTreePoisoned,
        ),
        (StageView::MaterializeCairoTree, ProverEvent::Done) => StageView::ProveCairo,
        (StageView::ProveCairo, ProverEvent::Done) => match run.memory_mode {
            ProverMemoryMode::LowMemory => StageView::ReleaseCairoTree,
            ProverMemoryMode::Fast => StageView::PrepareCairoProof,
        },
        (StageView::ProveCairo, ProverEvent::Failed(reason)) => StageView::Failed(
            ProveError::Outside(reason),
        ),
        (StageView::ReleaseCairoTree, ProverEvent::Done) => StageView::PrepareCairoProof,
        (StageView::PrepareCairoProof, ProverEvent::CairoProofPrepared(public_data)) => {
            StageView::BuildContext {
                public_claim: packed_public_data(public_data).0,
                output_preimage: run.output_preimage,
            }
        },
        (
            StageView::BuildContext { .. },
            ProverEvent::ContextBuilt { valid, cairo_commitments },
        ) => if valid {
            StageView::BlindContext(
                ZkBlinding { seed: cairo_commitments@[1], n_padding: run.n_queries },
            )
        } else {
            StageView::Failed(ProveError::CircuitNotValid)
        },
        (StageView::BlindContext(_), ProverEvent::Done) => StageView::FinalizeContext,
        (StageView::FinalizeContext, ProverEvent::Done) => StageView::LockCircuitTree,
        (StageView::LockCircuitTree, ProverEvent::Done) => StageView::MaterializeCircuitTree,
        (StageView::LockCircuitTree, ProverEvent::Failed(_)) => StageView::Failed(
            ProveError::CircuitTreePoisoned,
        ),
        (StageView::MaterializeCircuitTree, ProverEvent::Done) => StageView::ProveCircuit,
        (StageView::ProveCircuit, ProverEvent::Done) => match run.memory_mode {
            ProverMemoryMode::LowMemory => StageView::ReleaseCircuitTree,
            ProverMemoryMode::Fast => StageView::PrepareCircuitProof,
        },
        (StageView::ProveCircuit, ProverEvent::Failed(reason)) => StageView::Failed(
            ProveError::Outside(reason),
        ),
        (StageView::ReleaseCircuitTree, ProverEvent::Done) => StageView::PrepareCircuitProof,
        (StageView::PrepareCircuitProof, ProverEvent::CircuitProofPrepared(proof)) => {
            StageView::CompressProof { bytes: serialized_proof(proof) }
        },
        (StageView::CompressProof { .. }, ProverEvent::Compressed(frame)) => match frame {
            Ok(proof) => StageView::Finished { proof: proof@ },
            Err(error) => StageView::Failed(ProveError::Compression(error)),
        },
        (stage, _) => stage,
    }
}

/// A run after an event: only its stage changes.
pub open spec fn next(run: RunView, event: ProverEvent) -> RunView {
    RunView { stage: next_stage(run, event), ..run }
}

/// A run after a list of events.
pub open spec fn drive(run: RunView, events: Seq<ProverEvent>) -> RunView
    decreases events.len(),
{
    if events.len() == 0 {
        run
    } else {
        drive(next(run, events[0]), events.drop_first())
    }
}

/// Whether a run that has the bytes of its circuit proof came to this end when
/// they were compressed.
pub open spec fn is_compressed(bytes: Seq<u8>, stage: StageView) -> bool {
    match stage {
        StageView::Finished { proof } => {
            &&& proof == zstd_frame(bytes, COMPRESSION_LEVEL)
            &&& zstd_content(proof) == bytes
        },
        StageView::Failed(error) => error matches ProveError::Compression(cause)
            && encoder_returned(
            bytes,
            COMPRESSION_LEVEL,
            Err::<Vec<u8>, std::io::Error>(cause),
        ),
        _ => false,
    }
}

/// Whether a run goes on to another on an event: to the next, but where that
/// has the bytes of its circuit proof, to what came of compressing them.
pub open spec fn is_step(run: RunView, event: ProverEvent, after: RunView) -> bool {
    match next(run, event).stage {
        StageView::CompressProof { bytes } => {
            &&& after == (RunView { stage: after.stage, ..run })
            &&& is_compressed(bytes, after.stage)
        },
        _ => after == next(run, event),
    }
}

/// Whether runs follow one another on a list of events.
pub open spec fn are_steps(runs: Seq<RunView>, events: Seq<ProverEvent>) -> bool {
    &&& runs.len() == events.len() + 1
    &&& forall|i: int| 0 <= i < events.len() ==> is_step(runs[i], #[trigger] events[i], runs[i + 1])
}

/// Whether a run goes on to another on an event, with or without compressing.
pub open spec fn follows(run: RunView, event: ProverEvent, after: RunView) -> bool {
    after == next(run, event) || is_step(run, event, after)
}

/// Whether each of the runs goes on to the one after it on a list of events,
/// with or without compressing.
pub open spec fn are_runs(runs: Seq<RunView>, events: Seq<ProverEvent>) -> bool {
    &&& runs.len() == events.len() + 1
    &&& forall|i: int| 0 <= i < events.len() ==> follows(runs[i], #[trigger] events[i], runs[i + 1])
}

/// Whether an event holds the commitment that seeds the blinding, where a run
/// needs it: that of the trace, which comes second.
pub open spec fn has_blinding_seed(run: RunView, event: ProverEvent) -> bool {
    run.stage is BuildContext ==> (event matches ProverEvent::ContextBuilt {
        valid,
        cairo_commitments,
    } ==> valid ==> cairo_commitments@.len() > 1)
}

/// The run that starts with a preimage of the bootloader's output.
pub open spec fn started(
    precomputes: RecursiveProverPrecomputes,
    output_preimage: Seq<Felt>,
) -> RunView {
    RunView {
        memory_mode: precomputes.memory_mode,
        n_queries: precomputes.circuit_config.fri_config.n_queries,
        output_preimage,
        stage: StageView::LockCairoTree,
    }
}

/// Starts a run with the bootloader's output preimage.
pub fn start_recursive_prove(
    precomputes: &RecursiveProverPrecomputes,
    output_preimage: Vec<Felt>,
) -> (run: RecursiveRun)
    ensures
        run@ == started(*precomputes, output_preimage@),
{
    RecursiveRun {
        memory_mode: precomputes.memory_mode,
        n_queries: precomputes.circuit_config.fri_config.n_queries,
        output_preimage,
        stage: Stage::LockCairoTree,
    }
}

/// Returns a copy of a list of felts.
fn copy_felts(felts: &Vec<Felt>) -> (copy: Vec<Felt>)
    ensures
        copy@ == felts@,
{
    let mut copy: Vec<Felt> = Vec::new();
    let mut i: usize = 0;
    while i < felts.len()
        invariant
            i <= felts.len(),
            copy@ == felts@.take(i as int),
        decreases felts.len() - i,
    {
        copy.push(felts[i]);
        i = i + 1;
        assert(felts@.take(i as int) =~= felts@.take(i - 1).push(felts@[i - 1]));
    }
    assert(felts@.take(i as int) =~= felts@);
    copy
}

/// Takes a run one event further.
pub fn advance(run: RecursiveRun, event: ProverEvent) -> (result: RecursiveRun)
    requires
        has_blinding_seed(run@, event),
    ensures
        result@ == next(run@, event),
{
    let RecursiveRun { memory_mode, n_queries, output_preimage, stage } = run;
    let stage = match (stage, event) {
        (Stage::LockCairoTree, ProverEvent::Done) => Stage::MaterializeCairoTree,
        (Stage::LockCairoTree, ProverEvent::Failed(_)) => Stage::Failed(
            ProveError::CairoTreePoisoned,
        ),
        (Stage::MaterializeCairoTree, ProverEvent::Done) => Stage::ProveCairo,
        (Stage::ProveCairo, ProverEvent::Done) => match memory_mode {
            ProverMemoryMode::LowMemory => Stage::ReleaseCairoTree,
            ProverMemoryMode::Fast => Stage::PrepareCairoProof,
        },
        (Stage::ProveCairo, ProverEvent::Failed(reason)) => Stage::Failed(
            ProveError::Outside(reason),
        ),
        (Stage::ReleaseCairoTree, ProverEvent::Done) => Stage::PrepareCairoProof,
        (Stage::PrepareCairoProof, ProverEvent::CairoProofPrepared(public_data)) => {
            Stage::BuildContext {
                public_claim: public_claim(&public_data),
                output_preimage: copy_felts(&output_preimage),
            }
        },
        (Stage::BuildContext { .. }, ProverEvent::ContextBuilt { valid, cairo_commitments }) => {
            if valid {
                Stage::BlindContext(
                    ZkBlinding { seed: cairo_commitments[1], n_padding: n_queries },
                )
            } else {
                Stage::Failed(ProveError::CircuitNotValid)
            }
        },
        (Stage::BlindContext(_), ProverEvent::Done) => Stage::FinalizeContext,
        (Stage::FinalizeContext, ProverEvent::Done) => Stage::LockCircuitTree,
        (Stage::LockCircuitTree, ProverEvent::Done) => Stage::MaterializeCircuitTree,
        (Stage::LockCircuitTree, ProverEvent::Failed(_)) => Stage::Failed(
            ProveError::CircuitTreePoisoned,
        ),
        (Stage::MaterializeCircuitTree, ProverEvent::Done) => Stage::ProveCircuit,
        (Stage::ProveCircuit, ProverEvent::Done) => match memory_mode {
            ProverMemoryMode::LowMemory => Stage::ReleaseCircuitTree,
            ProverMemoryMode::Fast => Stage::PrepareCircuitProof,
        },
        (Stage::ProveCircuit, ProverEvent::Failed(reason)) => Stage::Failed(
            ProveError::Outside(reason),
        ),
        (Stage::ReleaseCircuitTree, ProverEvent::Done) => Stage::PrepareCircuitProof,
        (Stage::PrepareCircuitProof, ProverEvent::CircuitProofPrepared(proof)) => {
            Stage::CompressProof { bytes: serialize_proof(&proof) }
        },
        (Stage::CompressProof { .. }, ProverEvent::Compressed(frame)) => match frame {
            Ok(proof) => Stage::Finished { proof },
            Err(error) => Stage::Failed(ProveError::Compression(error)),
        },
        (stage, _) => stage,
    };
    RecursiveRun { memory_mode, n_queries, output_preimage, stage }
}

/// Takes a run one event further. A run that has the bytes of its circuit proof
/// goes on to compress them, and ends.
pub fn privacy_recursive_prove(run: RecursiveRun, event: ProverEvent) -> (result: RecursiveRun)
    requires
        has_blinding_seed(run@, event),
    ensures
        is_step(run@, event, result@),
{
    let run = advance(run, event);
    let RecursiveRun { memory_mode, n_queries, output_preimage, stage } = run;
    match stage {
        Stage::CompressProof { bytes } => {
            let frame = encode_all(bytes.as_slice(), COMPRESSION_LEVEL);
            proof {
                lemma_encoder_returned(bytes@, COMPRESSION_LEVEL, frame);
            }
            let stage = Stage::CompressProof { bytes };
            let run = RecursiveRun { memory_mode, n_queries, output_preimage, stage };
            advance(run, ProverEvent::Compressed(frame))
        },
        stage => RecursiveRun { memory_mode, n_queries, output_preimage, stage },
    }
}

/// Returns how a run ended, or `None` while it goes on.
pub fn conclude(run: RecursiveRun) -> (result: Option<Result<PrivacyProofOutput, ProveError>>)
    ensures
        match run@.stage {
            StageView::Finished { proof } => {
                &&& result matches Some(Ok(output))
                &&& output.proof@ == proof
                &&& output.output_preimage@ == run@.output_preimage
            },
            StageView::Failed(error) => result == Some(
                Err::<PrivacyProofOutput, ProveError>(error),
            ),
            _ => result is None,
        },
{
    match run.stage {
        Stage::Finished { proof } => Some(
            Ok(PrivacyProofOutput { proof, output_preimage: run.output_preimage }),
        ),
        Stage::Failed(error) => Some(Err(error)),
        _ => None,
    }
}

/// Whether a run is over.
pub open spec fn is_over(stage: StageView) -> bool {
    stage is Finished || stage is Failed
}

/// Whether a run ended because its proof could not be compressed.
pub open spec fn is_compression_failure(stage: StageView) -> bool {
    stage matches StageView::Failed(error) && error is Compression
}

/// Whether a stage comes after the values of the verifier circuit were found to
/// satisfy it.
pub open spec fn is_past_validity(stage: StageView) -> bool {
    ||| stage is BlindContext
    ||| stage is FinalizeContext
    ||| stage is LockCircuitTree
    ||| stage is MaterializeCircuitTree
    ||| stage is ProveCircuit
    ||| stage is ReleaseCircuitTree
    ||| stage is PrepareCircuitProof
    ||| stage is CompressProof
    ||| stage is Finished
}

/// Whether a stage drops the evaluations of a tree.
pub open spec fn is_release(stage: StageView) -> bool {
    stage is ReleaseCairoTree || stage is ReleaseCircuitTree
}

/// Whether a stage proves something.
pub open spec fn is_prove(stage: StageView) -> bool {
    stage is ProveCairo || stage is ProveCircuit
}

/// How far a stage is along a run.
pub open spec fn rank(stage: StageView) -> int {
    match stage {
        StageView::LockCairoTree => 0,
        StageView::MaterializeCairoTree => 1,
        StageView::ProveCairo => 2,
        StageView::ReleaseCairoTree => 3,
        StageView::PrepareCairoProof => 4,
        StageView::BuildContext { .. } => 5,
        StageView::BlindContext(_) => 6,
        StageView::FinalizeContext => 7,
        StageView::LockCircuitTree => 8,
        StageView::MaterializeCircuitTree => 9,
        StageView::ProveCircuit => 10,
        StageView::ReleaseCircuitTree => 11,
        StageView::PrepareCircuitProof => 12,
        StageView::CompressProof { .. } => 13,
        StageView::Finished { .. } => 14,
        StageView::Failed(_) => 14,
    }
}

/// The same run in another memory mode.
pub open spec fn in_mode(run: RunView, memory_mode: ProverMemoryMode) -> RunView {
    RunView { memory_mode, ..run }
}

/// The events of a fast run as they come in a run in little memory, in which
/// each proof that is done is followed by the release of its tree.
pub open spec fn with_releases(run: RunView, events: Seq<ProverEvent>) -> Seq<ProverEvent>
    decreases events.len(),
{
    if events.len() == 0 {
        seq![]
    } else {
        let rest = with_releases(next(run, events[0]), events.drop_first());
        if is_prove(run.stage) && events[0] is Done {
            seq![events[0], ProverEvent::Done] + rest
        } else {
            seq![events[0]] + rest
        }
    }
}

/// A run of a list that starts with an event goes on from that event.
proof fn lemma_drive_first(run: RunView, event: ProverEvent, rest: Seq<ProverEvent>)
    ensures
        drive(run, seq![event] + rest) == drive(next(run, event), rest),
{
    assert((seq![event] + rest).drop_first() =~= rest);
}

/// The memory mode changes when evaluations are dropped and nothing else: a run
/// in little memory, given the events of a fast run and the releases, comes to
/// the same stage, and so to the same proof or the same error.
pub proof fn law_memory_mode_keeps_the_outcome(run: RunView, events: Seq<ProverEvent>)
    requires
        run.memory_mode == ProverMemoryMode::Fast,
        !is_release(run.stage),
    ensures
        drive(in_mode(run, ProverMemoryMode::LowMemory), with_releases(run, events)) == in_mode(
            drive(run, events),
            ProverMemoryMode::LowMemory,
        ),
    decreases events.len(),
{
    if events.len() > 0 {
        let low = in_mode(run, ProverMemoryMode::LowMemory);
        let after = next(run, events[0]);
        let rest = with_releases(after, events.drop_first());
        law_memory_mode_keeps_the_outcome(after, events.drop_first());
        if is_prove(run.stage) && events[0] is Done {
            let released = seq![ProverEvent::Done] + rest;
            assert(with_releases(run, events) =~= seq![events[0]] + released);
            lemma_drive_first(low, events[0], released);
            lemma_drive_first(next(low, events[0]), ProverEvent::Done, rest);
        } else {
            lemma_drive_first(low, events[0], rest);
        }
    }
}

/// A run after a list of events differs from it in its stage alone.
proof fn lemma_drive_keeps_all_but_stage(run: RunView, events: Seq<ProverEvent>)
    ensures
        drive(run, events) == (RunView { stage: drive(run, events).stage, ..run }),
    decreases events.len(),
{
    if events.len() > 0 {
        lemma_drive_keeps_all_but_stage(next(run, events[0]), events.drop_first());
    }
}

/// A run whose proof bytes, if it has them, are compressed.
pub open spec fn compressed(run: RunView) -> RunView {
    match run.stage {
        StageView::CompressProof { bytes } => RunView {
            stage: StageView::Finished { proof: zstd_frame(bytes, COMPRESSION_LEVEL) },
            ..run
        },
        _ => run,
    }
}

/// A run after a list of events, in which compression succeeds.
pub open spec fn complete(run: RunView, events: Seq<ProverEvent>) -> RunView
    decreases events.len(),
{
    if events.len() == 0 {
        run
    } else {
        complete(compressed(next(run, events[0])), events.drop_first())
    }
}

/// A completed list that starts with an event goes on from that event.
proof fn lemma_complete_first(run: RunView, event: ProverEvent, rest: Seq<ProverEvent>)
    ensures
        complete(run, seq![event] + rest) == complete(compressed(next(run, event)), rest),
{
    assert((seq![event] + rest).drop_first() =~= rest);
}

/// Nothing completes a run that is over.
proof fn lemma_complete_over(run: RunView, events: Seq<ProverEvent>)
    requires
        is_over(run.stage),
    ensures
        complete(run, events) == run,
    decreases events.len(),
{
    if events.len() > 0 {
        lemma_complete_over(run, events.drop_first());
    }
}

/// Completion keeps the output preimage.
proof fn lemma_complete_keeps_preimage(run: RunView, events: Seq<ProverEvent>)
    ensures
        complete(run, events).output_preimage == run.output_preimage,
    decreases events.len(),
{
    if events.len() > 0 {
        lemma_complete_keeps_preimage(compressed(next(run, events[0])), events.drop_first());
    }
}

/// As `law_memory_mode_keeps_the_outcome`, for runs that compress their proof.
proof fn lemma_memory_mode_keeps_completion(run: RunView, events: Seq<ProverEvent>)
    requires
        run.memory_mode == ProverMemoryMode::Fast,
        !is_release(run.stage),
    ensures
        complete(in_mode(run, ProverMemoryMode::LowMemory), with_releases(run, events)) == in_mode(
            complete(run, events),
            ProverMemoryMode::LowMemory,
        ),
    decreases events.len(),
{
    if events.len() > 0 {
        let low = in_mode(run, ProverMemoryMode::LowMemory);
        let after = next(run, events[0]);
        let rest = with_releases(after, events.drop_first());
        if is_prove(run.stage) && events[0] is Done {
            let released = seq![ProverEvent::Done] + rest;
            lemma_memory_mode_keeps_completion(after, events.drop_first());
            assert(with_releases(run, events) =~= seq![events[0]] + released);
            lemma_complete_first(low, events[0], released);
            lemma_complete_first(next(low, events[0]), ProverEvent::Done, rest);
        } else {
            lemma_complete_first(low, events[0], rest);
            if after.stage is CompressProof {
                lemma_complete_over(compressed(after), events.drop_first());
                lemma_complete_over(compressed(next(low, events[0])), rest);
            } else {
                lemma_memory_mode_keeps_completion(after, events.drop_first());
            }
        }
    }
}

/// The runs that follow one another come to where the events complete the
/// first, unless compression fails.
proof fn lemma_steps_complete(runs: Seq<RunView>, events: Seq<ProverEvent>)
    requires
        are_steps(runs, events),
    ensures
        runs.last() == complete(runs[0], events) || is_compression_failure(runs.last().stage),
    decreases events.len(),
{
    if events.len() > 0 {
        let rest_runs = runs.drop_first();
        let rest = events.drop_first();
        assert(is_step(runs[0], events[0], runs[1]));
        assert forall|i: int| 0 <= i < rest.len() implies is_step(
            rest_runs[i],
            #[trigger] rest[i],
            rest_runs[i + 1],
        ) by {
            assert(is_step(runs[i + 1], events[i + 1], runs[i + 2]));
        }
        lemma_steps_complete(rest_runs, rest);
        if is_compression_failure(runs[1].stage) {
            lemma_complete_over(runs[1], rest);
        }
    }
}

/// The events of a fast run as they come in a run of either memory mode.
pub open spec fn events_in_mode(run: RunView, events: Seq<ProverEvent>) -> Seq<ProverEvent> {
    match run.memory_mode {
        ProverMemoryMode::Fast => events,
        ProverMemoryMode::LowMemory => with_releases(
            in_mode(run, ProverMemoryMode::Fast),
            events,
        ),
    }
}

/// The output depends on the preimage and on what the provers report, not on
/// the memory mode or on which precomputes for the settings are used, be they
/// the same or made anew: two runs to which the same is reported, and which
/// both finish, put out the same proof and the same preimage.
pub proof fn law_precomputes_keep_the_output(
    a: RecursiveProverPrecomputes,
    b: RecursiveProverPrecomputes,
    settings: ProverSettings,
    cairo_verifier_config: CairoVerifierConfig,
    output_preimage: Seq<Felt>,
    events: Seq<ProverEvent>,
    a_runs: Seq<RunView>,
    b_runs: Seq<RunView>,
)
    requires
        are_precomputes(a, settings, cairo_verifier_config, a.memory_mode),
        are_precomputes(b, settings, cairo_verifier_config, b.memory_mode),
        are_steps(a_runs, events_in_mode(started(a, output_preimage), events)),
        are_steps(b_runs, events_in_mode(started(b, output_preimage), events)),
        a_runs[0] == started(a, output_preimage),
        b_runs[0] == started(b, output_preimage),
        a_runs.last().stage is Finished,
        b_runs.last().stage is Finished,
    ensures
        a_runs.last().stage == b_runs.last().stage,
        a_runs.last().output_preimage == output_preimage,
        b_runs.last().output_preimage == output_preimage,
{
    let fast = in_mode(started(a, output_preimage), ProverMemoryMode::Fast);
    assert(fast == in_mode(started(b, output_preimage), ProverMemoryMode::Fast));
    lemma_steps_complete(a_runs, events_in_mode(a_runs[0], events));
    lemma_steps_complete(b_runs, events_in_mode(b_runs[0], events));
    lemma_memory_mode_keeps_completion(fast, events);
    lemma_complete_keeps_preimage(fast, events);
}

/// The events of a fast run in which nothing fails, up to the circuit proof.
pub open spec fn good_events(
    public_data: PublicData,
    cairo_commitments: Vec<[u8; 32]>,
    proof: Proof<Qm31>,
) -> Seq<ProverEvent> {
    seq![
        ProverEvent::Done,
        ProverEvent::Done,
        ProverEvent::Done,
        ProverEvent::CairoProofPrepared(public_data),
        ProverEvent::ContextBuilt { valid: true, cairo_commitments },
        ProverEvent::Done,
        ProverEvent::Done,
        ProverEvent::Done,
        ProverEvent::Done,
        ProverEvent::Done,
        ProverEvent::CircuitProofPrepared(proof),
    ]
}

/// A run in which nothing fails comes to compress the bytes of its circuit
/// proof, in either memory mode and whatever the values that pass through it.
pub proof fn law_good_run_gets_to_its_proof(
    run: RunView,
    public_data: PublicData,
    cairo_commitments: Vec<[u8; 32]>,
    proof: Proof<Qm31>,
)
    requires
        run.stage is LockCairoTree,
    ensures
        drive(run, events_in_mode(run, good_events(public_data, cairo_commitments, proof))) == (
        RunView { stage: StageView::CompressProof { bytes: serialized_proof(proof) }, ..run }),
{
    let events = good_events(public_data, cairo_commitments, proof);
    let fast = in_mode(run, ProverMemoryMode::Fast);
    assert(drive(fast, events).stage == StageView::CompressProof { bytes: serialized_proof(proof) })
        by {
        reveal_with_fuel(drive, 12);
    }
    lemma_drive_keeps_all_but_stage(fast, events);
    law_memory_mode_keeps_the_outcome(fast, events);
}

/// A run that compresses its proof, and in which nothing fails before, ends with
/// the frame of the bytes of its circuit proof, or because they could not be
/// compressed, in either memory mode.
pub proof fn law_good_steps_end_with_their_proof(
    runs: Seq<RunView>,
    public_data: PublicData,
    cairo_commitments: Vec<[u8; 32]>,
    proof: Proof<Qm31>,
)
    requires
        runs[0].stage is LockCairoTree,
        are_steps(
            runs,
            events_in_mode(runs[0], good_events(public_data, cairo_commitments, proof)),
        ),
    ensures
        runs.last().stage == (StageView::Finished {
            proof: zstd_frame(serialized_proof(proof), COMPRESSION_LEVEL),
        }) || is_compression_failure(runs.last().stage),
{
    let events = good_events(public_data, cairo_commitments, proof);
    let fast = in_mode(runs[0], ProverMemoryMode::Fast);
    assert(complete(fast, events).stage == StageView::Finished {
        proof: zstd_frame(serialized_proof(proof), COMPRESSION_LEVEL),
    }) by {
        reveal_with_fuel(complete, 12);
    }
    lemma_memory_mode_keeps_completion(fast, events);
    lemma_steps_complete(runs, events_in_mode(runs[0], events));
}

/// A run that finishes puts out the circuit proof that was reported to it:
/// the put-out proof is the frame of its bytes, and decompresses to them.
pub proof fn law_finished_run_puts_out_its_circuit_proof(
    runs: Seq<RunView>,
    events: Seq<ProverEvent>,
)
    requires
        are_steps(runs, events),
        !(runs[0].stage is Finished),
        !(runs[0].stage is CompressProof),
        runs.last().stage is Finished,
    ensures
        exists|i: int|
            0 <= i < events.len() && (#[trigger] events[i] matches ProverEvent::CircuitProofPrepared(
                proof,
            ) && runs.last().stage->Finished_proof == zstd_frame(
                serialized_proof(proof),
                COMPRESSION_LEVEL,
            ) && zstd_content(runs.last().stage->Finished_proof) == serialized_proof(proof)),
    decreases events.len(),
{
    let rest_runs = runs.drop_first();
    let rest = events.drop_first();
    assert(is_step(runs[0], events[0], runs[1]));
    assert forall|i: int| 0 <= i < rest.len() implies is_step(
        rest_runs[i],
        #[trigger] rest[i],
        rest_runs[i + 1],
    ) by {
        assert(is_step(runs[i + 1], events[i + 1], runs[i + 2]));
    }
    if runs[1].stage is Finished {
        lemma_steps_complete(rest_runs, rest);
        lemma_complete_over(runs[1], rest);
        assert(events[0] is CircuitProofPrepared);
    } else {
        law_finished_run_puts_out_its_circuit_proof(rest_runs, rest);
        let i = choose|i: int|
            0 <= i < rest.len() && (#[trigger] rest[i] matches ProverEvent::CircuitProofPrepared(
                proof,
            ) && rest_runs.last().stage->Finished_proof == zstd_frame(
                serialized_proof(proof),
                COMPRESSION_LEVEL,
            ) && zstd_content(rest_runs.last().stage->Finished_proof) == serialized_proof(proof));
        assert(events[i + 1] == rest[i]);
    }
}

/// A run keeps its memory mode, its number of queries and its output preimage,
/// whatever comes.
pub proof fn law_run_keeps_its_preimage(runs: Seq<RunView>, events: Seq<ProverEvent>, i: int)
    requires
        are_runs(runs, events),
        0 <= i < runs.len(),
    ensures
        runs[i] == (RunView { stage: runs[i].stage, ..runs[0] }),
    decreases i,
{
    if i > 0 {
        law_run_keeps_its_preimage(runs, events, i - 1);
        assert(follows(runs[i - 1], events[i - 1], runs[i]));
    }
}

/// The verifier circuit is built for the preimage that the run puts out, and for
/// the public claim of the public data that was reported.
pub proof fn law_circuit_is_built_for_the_preimage(
    runs: Seq<RunView>,
    events: Seq<ProverEvent>,
    i: int,
)
    requires
        are_runs(runs, events),
        0 <= i < runs.len(),
        !(runs[0].stage is BuildContext),
        runs[i].stage is BuildContext,
    ensures
        runs[i].stage->BuildContext_output_preimage == runs.last().output_preimage,
        exists|k: int|
            0 <= k < i && (#[trigger] events[k] matches ProverEvent::CairoProofPrepared(public_data)
                && runs[i].stage->BuildContext_public_claim == packed_public_data(public_data).0),
    decreases i,
{
    law_run_keeps_its_preimage(runs, events, i - 1);
    law_run_keeps_its_preimage(runs, events, runs.len() - 1);
    assert(follows(runs[i - 1], events[i - 1], runs[i]));
    if runs[i - 1].stage is BuildContext {
        law_circuit_is_built_for_the_preimage(runs, events, i - 1);
    } else {
        assert(events[i - 1] is CairoProofPrepared);
    }
}

/// A run that is over stays as it is.
pub proof fn law_over_is_final(runs: Seq<RunView>, events: Seq<ProverEvent>, i: int, j: int)
    requires
        are_runs(runs, events),
        0 <= i <= j < runs.len(),
        is_over(runs[i].stage),
    ensures
        runs[j] == runs[i],
    decreases j - i,
{
    if i < j {
        law_over_is_final(runs, events, i, j - 1);
        assert(follows(runs[j - 1], events[j - 1], runs[j]));
    }
}

/// A run never goes back, so every stage is asked for at most once.
pub proof fn law_run_goes_forward(run: RunView, event: ProverEvent, after: RunView)
    requires
        follows(run, event, after),
    ensures
        after.stage == run.stage || rank(after.stage) > rank(run.stage),
{
}

/// No circuit whose values do not satisfy it is blinded, proved or put out: a
/// run that got that far was told that they do.
pub proof fn law_only_valid_circuits_are_proved(
    runs: Seq<RunView>,
    events: Seq<ProverEvent>,
    j: int,
)
    requires
        are_runs(runs, events),
        0 <= j < runs.len(),
        !is_past_validity(runs[0].stage),
        is_past_validity(runs[j].stage),
    ensures
        exists|i: int|
            0 <= i < j && (#[trigger] events[i] matches ProverEvent::ContextBuilt { valid, .. }
                && valid),
    decreases j,
{
    assert(follows(runs[j - 1], events[j - 1], runs[j]));
    if is_past_validity(runs[j - 1].stage) {
        law_only_valid_circuits_are_proved(runs, events, j - 1);
    } else {
        assert(events[j - 1] matches ProverEvent::ContextBuilt { valid, .. } && valid);
    }
}

/// A circuit whose values do not satisfy it ends the run with that error.
pub proof fn law_invalid_circuit_is_refused(
    runs: Seq<RunView>,
    events: Seq<ProverEvent>,
    i: int,
    j: int,
)
    requires
        are_runs(runs, events),
        0 <= i < j < runs.len(),
        runs[i].stage is BuildContext,
        events[i] matches ProverEvent::ContextBuilt { valid, .. } && !valid,
    ensures
        runs[j].stage == StageView::Failed(ProveError::CircuitNotValid),
{
    assert(follows(runs[i], events[i], runs[i + 1]));
    law_over_is_final(runs, events, i + 1, j);
}

/// A prover is run only once the evaluations of its tree are in memory.
pub proof fn law_trees_are_materialized_before_proofs(
    run: RunView,
    event: ProverEvent,
    after: RunView,
)
    requires
        follows(run, event, after),
        !is_prove(run.stage),
        is_prove(after.stage),
    ensures
        event is Done,
        after.stage is ProveCairo ==> run.stage is MaterializeCairoTree,
        after.stage is ProveCircuit ==> run.stage is MaterializeCircuitTree,
{
}

/// The evaluations of a tree are dropped in little memory, after a proof that
/// is done, and at no other time.
pub proof fn law_trees_are_released_in_low_memory(
    run: RunView,
    event: ProverEvent,
    after: RunView,
)
    requires
        follows(run, event, after),
        !is_release(run.stage),
    ensures
        is_release(after.stage) <==> (run.memory_mode == ProverMemoryMode::LowMemory && is_prove(
            run.stage,
        ) && event is Done),
        after.stage is ReleaseCairoTree ==> run.stage is ProveCairo,
        after.stage is ReleaseCircuitTree ==> run.stage is ProveCircuit,
{
}

/// Whether a run was taken one event further, with or without compressing.
pub open spec fn was_taken_further(
    run: RecursiveRun,
    event: ProverEvent,
    result: RecursiveRun,
) -> bool {
    call_ensures(advance, (run, event), result) || call_ensures(
        privacy_recursive_prove,
        (run, event),
        result,
    )
}

/// Each stage is entered only from the one before it, and on the report that its
/// work is done:
/// - a tree is locked, its evaluations are brought into memory, and then its
///   prover is run; the tree is released in little memory alone;
/// - the circuit is built for the reported public data and the run's preimage;
/// - a circuit is blinded once it was found valid, with all bytes of the second
///   commitment and as often as the run has queries;
/// - a circuit is padded only once it is blinded, and its tree locked only once
///   it is padded;
/// - what is compressed are the bytes of the reported circuit proof.
/// Nothing but the stage changes.
pub proof fn law_stages_are_entered_in_order(
    run: RecursiveRun,
    event: ProverEvent,
    result: RecursiveRun,
)
    requires
        was_taken_further(run, event, result),
    ensures
        result.memory_mode == run.memory_mode,
        result.n_queries == run.n_queries,
        result.output_preimage@ == run.output_preimage@,
        match result.stage {
            Stage::LockCairoTree => run.stage is LockCairoTree,
            Stage::MaterializeCairoTree => run.stage is MaterializeCairoTree || (run.stage
                is LockCairoTree && event is Done),
            Stage::ProveCairo => run.stage is ProveCairo || (run.stage is MaterializeCairoTree
                && event is Done),
            Stage::ReleaseCairoTree => run.stage is ReleaseCairoTree || (run.stage is ProveCairo
                && event is Done && run.memory_mode == ProverMemoryMode::LowMemory),
            Stage::PrepareCairoProof => run.stage is PrepareCairoProof || (event is Done && (
            run.stage is ReleaseCairoTree || (run.stage is ProveCairo && run.memory_mode
                == ProverMemoryMode::Fast))),
            Stage::BuildContext { public_claim, output_preimage } => {
                ||| run.stage matches Stage::BuildContext {
                    public_claim: earlier_claim,
                    output_preimage: earlier_preimage,
                } && public_claim@ == earlier_claim@ && output_preimage@ == earlier_preimage@
                ||| (run.stage is PrepareCairoProof && (
                event matches ProverEvent::CairoProofPrepared(public_data) && public_claim@
                    == packed_public_data(public_data).0) && output_preimage@
                    == run.output_preimage@)
            },
            Stage::BlindContext(blinding) => {
                ||| run.stage matches Stage::BlindContext(earlier) && blinding == earlier
                ||| (run.stage is BuildContext && (event matches ProverEvent::ContextBuilt {
                    valid,
                    cairo_commitments,
                } && valid && blinding.seed@.len() == 32 && (forall|k: int|
                    0 <= k < 32 ==> #[trigger] blinding.seed@[k] == cairo_commitments@[1]@[k]))
                    && blinding.n_padding == run.n_queries)
            },
            Stage::FinalizeContext => run.stage is FinalizeContext || (run.stage is BlindContext
                && event is Done),
            Stage::LockCircuitTree => run.stage is LockCircuitTree || (run.stage is FinalizeContext
                && event is Done),
            Stage::MaterializeCircuitTree => run.stage is MaterializeCircuitTree || (run.stage
                is LockCircuitTree && event is Done),
            Stage::ProveCircuit => run.stage is ProveCircuit || (run.stage
                is MaterializeCircuitTree && event is Done),
            Stage::ReleaseCircuitTree => run.stage is ReleaseCircuitTree || (run.stage
                is ProveCircuit && event is Done && run.memory_mode == ProverMemoryMode::LowMemory),
            Stage::PrepareCircuitProof => run.stage is PrepareCircuitProof || (event is Done && (
            run.stage is ReleaseCircuitTree || (run.stage is ProveCircuit && run.memory_mode
                == ProverMemoryMode::Fast))),
            Stage::CompressProof { bytes } => {
                ||| run.stage matches Stage::CompressProof { bytes: earlier } && bytes@ == earlier@
                ||| (run.stage is PrepareCircuitProof && (
                event matches ProverEvent::CircuitProofPrepared(proof) && bytes@
                    == serialized_proof(proof)))
            },
            _ => true,
        },
{
}

/// A run ends only for a reason:
/// - with a proof, once the circuit proof was reported or its bytes compressed,
///   and then with the frame of those bytes, at level three, or the one reported;
/// - with a poisoned tree, where that tree could not be locked;
/// - with the reason that a prover gave, where that prover failed;
/// - with an invalid circuit, where its values did not satisfy it;
/// - with a failed compression, where the encoder was called on the bytes of the
///   circuit proof, at level three, and returned that error, or that error was
///   reported.
pub proof fn law_runs_end_for_a_reason(run: RecursiveRun, event: ProverEvent, result: RecursiveRun)
    requires
        was_taken_further(run, event, result),
    ensures
        match result.stage {
            Stage::Finished { proof } => {
                ||| run.stage matches Stage::Finished { proof: earlier } && proof@ == earlier@
                ||| (run.stage is CompressProof && (event matches ProverEvent::Compressed(outcome)
                    && (outcome matches Ok(frame) && proof@ == frame@)))
                ||| ((run.stage matches Stage::CompressProof { bytes } && proof@ == zstd_frame(
                    bytes@,
                    3,
                ) && zstd_content(proof@) == bytes@) && !(event is Compressed))
                ||| (run.stage is PrepareCircuitProof && (
                event matches ProverEvent::CircuitProofPrepared(circuit_proof) && proof@
                    == zstd_frame(serialized_proof(circuit_proof), 3) && zstd_content(proof@)
                    == serialized_proof(circuit_proof)))
            },
            Stage::Failed(error) => {
                ||| run.stage matches Stage::Failed(earlier) && error == earlier
                ||| match error {
                    ProveError::CairoTreePoisoned => run.stage is LockCairoTree && event is Failed,
                    ProveError::CircuitTreePoisoned => run.stage is LockCircuitTree
                        && event is Failed,
                    ProveError::Outside(reason) => (run.stage is ProveCairo || run.stage
                        is ProveCircuit) && event == ProverEvent::Failed(reason),
                    ProveError::CircuitNotValid => run.stage is BuildContext && (
                    event matches ProverEvent::ContextBuilt { valid, .. } && !valid),
                    ProveError::Compression(cause) => {
                        ||| (run.stage is CompressProof && event == ProverEvent::Compressed(
                            Err::<Vec<u8>, std::io::Error>(cause),
                        ))
                        ||| ((run.stage matches Stage::CompressProof { bytes } && encoder_returned(
                            bytes@,
                            3,
                            Err::<Vec<u8>, std::io::Error>(cause),
                        )) && !(event is Compressed))
                        ||| (run.stage is PrepareCircuitProof && (
                        event matches ProverEvent::CircuitProofPrepared(circuit_proof)
                            && encoder_returned(
                            serialized_proof(circuit_proof),
                            3,
                            Err::<Vec<u8>, std::io::Error>(cause),
                        )))
                    },
                    _ => false,
                }
            },
            _ => true,
        },
{
}

/// A run moves on from every stage when what the stage waits for is reported.
pub proof fn law_awaited_reports_move_a_run_on(
    run: RecursiveRun,
    event: ProverEvent,
    result: RecursiveRun,
)
    requires
        was_taken_further(run, event, result),
    ensures
        match run.stage {
            Stage::LockCairoTree => (event is Done || event is Failed) ==> !(result.stage
                is LockCairoTree),
            Stage::MaterializeCairoTree => event is Done ==> !(result.stage
                is MaterializeCairoTree),
            Stage::ProveCairo => (event is Done || event is Failed) ==> !(result.stage
                is ProveCairo),
            Stage::ReleaseCairoTree => event is Done ==> !(result.stage is ReleaseCairoTree),
            Stage::PrepareCairoProof => event is CairoProofPrepared ==> !(result.stage
                is PrepareCairoProof),
            Stage::BuildContext { .. } => event is ContextBuilt ==> !(result.stage is BuildContext),
            Stage::BlindContext(_) => event is Done ==> !(result.stage is BlindContext),
            Stage::FinalizeContext => event is Done ==> !(result.stage is FinalizeContext),
            Stage::LockCircuitTree => (event is Done || event is Failed) ==> !(result.stage
                is LockCircuitTree),
            Stage::MaterializeCircuitTree => event is Done ==> !(result.stage
                is MaterializeCircuitTree),
            Stage::ProveCircuit => (event is Done || event is Failed) ==> !(result.stage
                is ProveCircuit),
            Stage::ReleaseCircuitTree => event is Done ==> !(result.stage is ReleaseCircuitTree),
            Stage::PrepareCircuitProof => event is CircuitProofPrepared ==> !(result.stage
                is PrepareCircuitProof),
            Stage::CompressProof { .. } => event is Compressed ==> !(result.stage is CompressProof),
            Stage::Finished { .. } => result.stage is Finished,
            Stage::Failed(_) => result.stage is Failed,
        },
{
}

/// The reported circuit proof is refused by the encoder alone: a run that
/// compresses its proof ends with the frame of the proof's bytes, at level three,
/// or the encoder was called on those very bytes, at that level, and returned the
/// error.
pub proof fn law_only_the_encoder_refuses_a_circuit_proof(
    run: RecursiveRun,
    circuit_proof: Proof<Qm31>,
    result: RecursiveRun,
)
    requires
        run.stage is PrepareCircuitProof,
        call_ensures(
            privacy_recursive_prove,
            (run, ProverEvent::CircuitProofPrepared(circuit_proof)),
            result,
        ),
    ensures
        match result.stage {
            Stage::Finished { proof } => {
                &&& proof@ == zstd_frame(serialized_proof(circuit_proof), 3)
                &&& zstd_content(proof@) == serialized_proof(circuit_proof)
            },
            Stage::Failed(error) => error matches ProveError::Compression(cause)
                && encoder_returned(
                serialized_proof(circuit_proof),
                3,
                Err::<Vec<u8>, std::io::Error>(cause),
            ),
            _ => false,
        },
{
}

/// A valid circuit is blinded next, whatever its claim, its preimage and the
/// memory mode; circuits for different trace commitments are blinded with
/// different seeds.
pub proof fn law_valid_circuits_are_blinded_by_their_trace(
    a: RecursiveRun,
    b: RecursiveRun,
    a_commitments: Vec<[u8; 32]>,
    b_commitments: Vec<[u8; 32]>,
    a_result: RecursiveRun,
    b_result: RecursiveRun,
)
    requires
        a.stage is BuildContext,
        b.stage is BuildContext,
        was_taken_further(
            a,
            ProverEvent::ContextBuilt { valid: true, cairo_commitments: a_commitments },
            a_result,
        ),
        was_taken_further(
            b,
            ProverEvent::ContextBuilt { valid: true, cairo_commitments: b_commitments },
            b_result,
        ),
    ensures
        a_result.stage is BlindContext,
        b_result.stage is BlindContext,
        a_commitments@[1]@ != b_commitments@[1]@ ==> a_result.stage->BlindContext_0.seed@
            != b_result.stage->BlindContext_0.seed@,
        a_result.stage->BlindContext_0.n_padding == a.n_queries,
{
}

/// A run starts by locking the Cairo tree, in the mode of the precomputes, with
/// the number of queries of the circuit configuration and the given preimage.
pub proof fn law_runs_start_from_the_precomputes(
    precomputes: &RecursiveProverPrecomputes,
    output_preimage: Vec<Felt>,
    run: RecursiveRun,
)
    requires
        call_ensures(start_recursive_prove, (precomputes, output_preimage), run),
    ensures
        run.stage is LockCairoTree,
        run.memory_mode == precomputes.memory_mode,
        run.n_queries == precomputes.circuit_config.fri_config.n_queries,
        run.output_preimage@ == output_preimage@,
{
}

/// A run puts out its proof with its preimage once it finished, its error once it
/// failed, and nothing before.
pub proof fn law_runs_put_out_how_they_ended(
    run: RecursiveRun,
    result: Option<Result<PrivacyProofOutput, ProveError>>,
)
    requires
        call_ensures(conclude, (run,), result),
    ensures
        match result {
            Some(Ok(output)) => (run.stage matches Stage::Finished { proof } && output.proof@
                == proof@) && output.output_preimage@ == run.output_preimage@,
            Some(Err(error)) => run.stage matches Stage::Failed(cause) && error == cause,
            None => !(run.stage is Finished) && !(run.stage is Failed),
        },
{
}

/// Every circuit that is padded, proved or put out was blinded first: a run that
/// is that far, and was not past building the circuit at its start, was asked to
/// blind it.
pub proof fn law_only_blinded_circuits_are_proved(
    runs: Seq<RunView>,
    events: Seq<ProverEvent>,
    j: int,
)
    requires
        are_runs(runs, events),
        0 <= j < runs.len(),
        !is_past_validity(runs[0].stage),
        runs[j].stage is FinalizeContext || runs[j].stage is LockCircuitTree || runs[j].stage
            is MaterializeCircuitTree || runs[j].stage is ProveCircuit || runs[j].stage
            is ReleaseCircuitTree || runs[j].stage is PrepareCircuitProof || runs[j].stage
            is CompressProof || runs[j].stage is Finished,
    ensures
        exists|i: int|
            0 <= i < j && (#[trigger] runs[i]).stage is BlindContext && events[i] is Done,
    decreases j,
{
    assert(follows(runs[j - 1], events[j - 1], runs[j]));
    if runs[j - 1].stage is BlindContext {
        assert(events[j - 1] is Done);
    } else {
        law_only_blinded_circuits_are_proved(runs, events, j - 1);
    }
}

/// Every circuit is blinded with the trace commitment of its Cairo proof: a run
/// that asks for a blinding was told before of a valid circuit whose second
/// commitment is the seed in every byte, and the blinding is as long as the
/// circuit configuration of the precomputes has queries.
pub proof fn law_circuits_are_blinded_by_their_trace(
    precomputes: &RecursiveProverPrecomputes,
    output_preimage: Vec<Felt>,
    start: RecursiveRun,
    runs: Seq<RunView>,
    events: Seq<ProverEvent>,
    j: int,
)
    requires
        call_ensures(start_recursive_prove, (precomputes, output_preimage), start),
        runs[0] == start@,
        are_runs(runs, events),
        0 <= j < runs.len(),
        runs[j].stage is BlindContext,
    ensures
        runs[j].stage->BlindContext_0.n_padding
            == precomputes.circuit_config.fri_config.n_queries,
        exists|i: int|
            0 <= i < j && (#[trigger] events[i] matches ProverEvent::ContextBuilt {
                valid,
                cairo_commitments,
            } && valid && (forall|k: int|
                0 <= k < 32 ==> #[trigger] runs[j].stage->BlindContext_0.seed@[k]
                    == cairo_commitments@[1]@[k])),
    decreases j,
{
    law_run_keeps_its_preimage(runs, events, j - 1);
    assert(follows(runs[j - 1], events[j - 1], runs[j]));
    if runs[j - 1].stage is BlindContext {
        law_circuits_are_blinded_by_their_trace(
            precomputes,
            output_preimage,
            start,
            runs,
            events,
            j - 1,
        );
    } else {
        assert(events[j - 1] is ContextBuilt);
    }
}

} // verus!
