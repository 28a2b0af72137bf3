//! The types of outside crates that the library carries without looking inside.

use vstd::prelude::*;

verus! {

/// An element of the secure field that circuit values live in.
pub type Qm31 = stwo::core::fields::qm31::QM31;

#[verifier::external_type_specification]
#[verifier::external_body]
pub struct ExQm31(stwo::core::fields::qm31::QM31);

#[verifier::external_type_specification]
#[verifier::external_body]
pub struct ExFelt(starknet_types_core::felt::Felt);

#[verifier::external_type_specification]
#[verifier::external_body]
pub struct ExCairoPie(cairo_vm::vm::runners::cairo_pie::CairoPie);

#[verifier::external_type_specification]
#[verifier::external_body]
pub struct ExPublicData(cairo_air::air::PublicData);

#[verifier::external_type_specification]
#[verifier::external_body]
#[verifier::reject_recursive_types(T)]
pub struct ExProof<T>(circuits_stark_verifier::proof::Proof<T>);

#[verifier::external_type_specification]
#[verifier::external_body]
pub struct ExProofConfig(circuits_stark_verifier::proof::ProofConfig);

#[verifier::external_type_specification]
#[verifier::external_body]
pub struct ExCairoVerifierConfig(circuit_cairo_verifier::verify::CairoVerifierConfig);

#[verifier::external_type_specification]
#[verifier::external_body]
pub struct ExPreProcessedTraceVariant(
    stwo_cairo_common::preprocessed_columns::preprocessed_trace::PreProcessedTraceVariant,
);

#[verifier::external_type_specification]
#[verifier::external_body]
pub struct ExPreProcessedTrace(
    stwo_cairo_common::preprocessed_columns::preprocessed_trace::PreProcessedTrace,
);

#[verifier::external_type_specification]
#[verifier::external_body]
pub struct ExJsonError(serde_json::Error);

#[verifier::external_type_specification]
#[verifier::external_body]
pub struct ExIoError(std::io::Error);

#[verifier::external_type_specification]
#[verifier::external_body]
pub struct ExPathBuf(std::path::PathBuf);

} // verus!
