//! The privacy bootloader: what it is run on, and the preimage it leaves.

use cairo_vm::vm::runners::cairo_pie::CairoPie;
use starknet_types_core::felt::Felt;
use std::path::PathBuf;
use vstd::prelude::*;

use crate::error::ProveError;

verus! {

/// The hash functions that a bootloader can identify a program by.
#[derive(Clone, Copy, Debug, PartialEq, Eq, Structural)]
pub enum HashFunc {
    Pedersen,
    Poseidon,
    Blake,
}

/// A task of the bootloader: a program run as a PIE, and the hash that
/// identifies its program.
pub struct TaskSpec {
    pub pie: CairoPie,
    pub program_hash_function: HashFunc,
}

/// The input of the simple bootloader.
pub struct SimpleBootloaderInput {
    pub fact_topologies_path: Option<PathBuf>,
    pub single_page: bool,
    pub tasks: Vec<TaskSpec>,
}

/// The input of the privacy bootloader.
pub struct PrivacySimpleBootloaderInput {
    pub simple_bootloader_input: SimpleBootloaderInput,
    pub output_preimage_dump_path: PathBuf,
}

/// Returns the input on which the bootloader runs a single PIE, identified by
/// its Blake hash, on one page, and leaves the output preimage at a path.
pub fn bootloader_input(pie: CairoPie, output_preimage_dump_path: PathBuf) -> (input:
    PrivacySimpleBootloaderInput)
    ensures
        input.output_preimage_dump_path == output_preimage_dump_path,
        input.simple_bootloader_input.fact_topologies_path is None,
        input.simple_bootloader_input.single_page,
        input.simple_bootloader_input.tasks@ == seq![
            TaskSpec { pie, program_hash_function: HashFunc::Blake },
        ],
{
    let mut tasks: Vec<TaskSpec> = Vec::new();
    tasks.push(TaskSpec { pie, program_hash_function: HashFunc::Blake });
    PrivacySimpleBootloaderInput {
        simple_bootloader_input: SimpleBootloaderInput {
            fact_topologies_path: None,
            single_page: true,
            tasks,
        },
        output_preimage_dump_path,
    }
}

/// What `serde_json::from_str` returns for a text that is to be a list of felts.
pub uninterp spec fn felts_from_json(text: Seq<char>) -> Result<Seq<Felt>, serde_json::Error>;

/// The number that a felt stands for, as `Felt::to_biguint` returns it.
pub uninterp spec fn felt_value(felt: Felt) -> nat;

/// The felt that stands for a number below the modulus, as `Felt::from_hex`
/// returns it.
pub uninterp spec fn felt_of(value: nat) -> Felt;

/// The prime modulus of the field of felts.
pub open spec fn felt_modulus() -> nat {
    0x800000000000011000000000000000000000000000000000000000000000001nat
}

/// The small hexadecimal digit of a number below sixteen.
pub open spec fn hex_digit(digit: nat) -> char {
    if digit < 10 {
        ('0' as nat + digit) as char
    } else {
        ('a' as nat + digit - 10) as char
    }
}

/// A number in hexadecimal, without leading zeros.
pub open spec fn hex_text(value: nat) -> Seq<char>
    decreases value,
{
    if value < 16 {
        seq![hex_digit(value)]
    } else {
        hex_text(value / 16).push(hex_digit(value % 16))
    }
}

/// Numbers as JSON strings in hexadecimal, with a comma between two of them.
pub open spec fn items_text(values: Seq<nat>) -> Seq<char>
    decreases values.len(),
{
    if values.len() == 0 {
        seq![]
    } else {
        let item = seq!['"', '0', 'x'] + hex_text(values.last()) + seq!['"'];
        if values.len() == 1 {
            item
        } else {
            items_text(values.drop_last()) + seq![','] + item
        }
    }
}

/// The text of a list of felts with these values, as `serde_json::to_string`
/// writes it.
pub open spec fn preimage_text(values: Seq<nat>) -> Seq<char> {
    seq!['['] + items_text(values) + seq![']']
}

/// Whether each number is one that a felt can stand for.
pub open spec fn all_below_modulus(values: Seq<nat>) -> bool {
    forall|i: int| 0 <= i < values.len() ==> #[trigger] values[i] < felt_modulus()
}

/// Whether a felt is the one that stands for its value. All are but those whose
/// limbs are not below the modulus, which only `Felt::from_raw` lets in.
pub open spec fn is_reduced(felt: Felt) -> bool {
    &&& felt_value(felt) < felt_modulus()
    &&& felt == felt_of(felt_value(felt))
}

/// Whether each felt is the one that stands for its value.
pub open spec fn all_reduced(felts: Seq<Felt>) -> bool {
    forall|i: int| 0 <= i < felts.len() ==> is_reduced(#[trigger] felts[i])
}

/// The text of a list of felts, as `serde_json::to_string` writes it.
pub open spec fn felts_text(felts: Seq<Felt>) -> Seq<char> {
    preimage_text(felts.map_values(|felt: Felt| felt_value(felt)))
}

/// Calls `serde_json::from_str` for a list of felts. The list, or the error,
/// depends on the text alone. A text that lists numbers below the modulus as
/// felts are written gives the felts that stand for those numbers, and they have
/// those values. Nothing more is said of which texts are lists of felts.
#[verifier::external_body]
fn felts_from_str(text: &str) -> (felts: Result<Vec<Felt>, serde_json::Error>)
    ensures
        match felts {
            Ok(list) => felts_from_json(text@) == Ok::<Seq<Felt>, serde_json::Error>(list@),
            Err(error) => felts_from_json(text@) == Err::<Seq<Felt>, serde_json::Error>(error),
        },
        forall|values: Seq<nat>|
            all_below_modulus(values) && text@ == #[trigger] preimage_text(values) ==> felts is Ok
                && felts->Ok_0@.map_values(|felt: Felt| felt_value(felt)) == values
                && felts->Ok_0@ == values.map_values(|value: nat| felt_of(value)),
{
    serde_json::from_str(text)
}

/// Turns the outcome of reading a preimage into this library's error.
pub fn preimage_outcome(felts: Result<Vec<Felt>, serde_json::Error>) -> (result: Result<
    Vec<Felt>,
    ProveError,
>)
    ensures
        match felts {
            Ok(list) => result == Ok::<Vec<Felt>, ProveError>(list),
            Err(error) => result == Err::<Vec<Felt>, ProveError>(ProveError::Preimage(error)),
        },
{
    match felts {
        Ok(list) => Ok(list),
        Err(error) => Err(ProveError::Preimage(error)),
    }
}

/// Reads the output preimage that the bootloader left as text. A preimage that
/// was written as text is read back.
pub fn read_output_preimage(text: &str) -> (result: Result<Vec<Felt>, ProveError>)
    ensures
        match felts_from_json(text@) {
            Ok(felts) => result is Ok && result->Ok_0@ == felts,
            Err(error) => result == Err::<Vec<Felt>, ProveError>(ProveError::Preimage(error)),
        },
        forall|values: Seq<nat>|
            all_below_modulus(values) && text@ == #[trigger] preimage_text(values) ==> result is Ok
                && result->Ok_0@.map_values(|felt: Felt| felt_value(felt)) == values,
        forall|written: Seq<Felt>|
            all_reduced(written) && text@ == #[trigger] felts_text(written) ==> result is Ok
                && result->Ok_0@ == written,
{
    let result = preimage_outcome(felts_from_str(text));
    proof {
        assert forall|written: Seq<Felt>|
            all_reduced(written) && text@ == #[trigger] felts_text(written) implies result is Ok
            && result->Ok_0@ == written by {
            let values = written.map_values(|felt: Felt| felt_value(felt));
            assert forall|i: int| 0 <= i < values.len() implies #[trigger] values[i]
                < felt_modulus() by {
                assert(is_reduced(written[i]));
            }
            assert(text@ == preimage_text(values));
            assert(values.map_values(|value: nat| felt_of(value)) =~= written) by {
                assert forall|i: int| 0 <= i < written.len() implies felt_of(
                    values[i],
                ) == written[i] by {
                    assert(is_reduced(written[i]));
                }
            }
        }
    }
    result
}

} // verus!
