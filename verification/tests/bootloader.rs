use std::collections::BTreeMap;
use std::path::PathBuf;

use cairo_vm::vm::runners::cairo_pie::{
    CairoPie, CairoPieAdditionalData, CairoPieMemory, CairoPieMetadata, CairoPieVersion,
    SegmentInfo, StrippedProgram,
};
use cairo_vm::vm::runners::cairo_runner::ExecutionResources;
use privacy_prove::bootloader::{
    bootloader_input, preimage_outcome, read_output_preimage, HashFunc,
};
use privacy_prove::error::ProveError;
use starknet_types_core::felt::Felt;

fn segment(index: isize) -> SegmentInfo {
    SegmentInfo { index, size: 1 }
}

fn small_pie() -> CairoPie {
    CairoPie {
        metadata: CairoPieMetadata {
            program: StrippedProgram { data: vec![], builtins: vec![], main: 0, prime: () },
            program_segment: segment(0),
            execution_segment: segment(1),
            ret_fp_segment: segment(2),
            ret_pc_segment: segment(3),
            builtin_segments: BTreeMap::new(),
            extra_segments: vec![],
        },
        memory: CairoPieMemory(vec![]),
        execution_resources: ExecutionResources::default(),
        additional_data: CairoPieAdditionalData(BTreeMap::new()),
        version: CairoPieVersion { cairo_pie: () },
    }
}

#[test]
fn bootloader_runs_one_pie() {
    let path = PathBuf::from("/some/where/preimage.json");
    let input = bootloader_input(small_pie(), path.clone());
    assert_eq!(input.output_preimage_dump_path, path);
    let simple = input.simple_bootloader_input;
    assert_eq!(simple.fact_topologies_path, None);
    assert!(simple.single_page);
    assert_eq!(simple.tasks.len(), 1);
    assert_eq!(simple.tasks[0].pie, small_pie());
    assert_eq!(simple.tasks[0].program_hash_function, HashFunc::Blake);
}

#[test]
fn preimage_is_a_list_of_felts() {
    let felts = read_output_preimage("[\"0x1\", \"0x2a\",\n\"0xffffffffffffffffffff\"]").unwrap();
    assert_eq!(
        felts,
        vec![Felt::ONE, Felt::from(42u32), Felt::from(0xffff_ffff_ffff_ffff_ffffu128)]
    );
}

#[test]
fn written_preimage_is_read_back() {
    let felts = vec![Felt::ZERO, Felt::ONE, Felt::from(42u32), Felt::from(u128::MAX), Felt::MAX];
    let text = serde_json::to_string(&felts).unwrap();
    assert_eq!(
        text,
        "[\"0x0\",\"0x1\",\"0x2a\",\"0xffffffffffffffffffffffffffffffff\",\
         \"0x800000000000011000000000000000000000000000000000000000000000000\"]"
    );
    assert_eq!(read_output_preimage(&text).unwrap(), felts);
    let values: Vec<String> =
        felts.iter().map(|felt| format!("{:x}", felt.to_biguint())).collect();
    assert_eq!(values[2], "2a");
    assert_eq!(values[4], "800000000000011000000000000000000000000000000000000000000000000");
}

#[test]
fn unreduced_felt_is_read_back_by_value() {
    let unreduced = Felt::from_raw([u64::MAX; 4]);
    let text = serde_json::to_string(&[unreduced]).unwrap();
    let felts = read_output_preimage(&text).unwrap();
    assert_ne!(felts[0], unreduced);
    assert_eq!(felts[0].to_biguint(), unreduced.to_biguint());
    let hex = format!("{:#x}", unreduced.to_biguint());
    assert_eq!(felts[0], Felt::from_hex(&hex).unwrap());
}

#[test]
fn number_above_the_modulus_is_refused() {
    let text = "[\"0x800000000000011000000000000000000000000000000000000000000000002\"]";
    assert!(matches!(read_output_preimage(text), Err(ProveError::Preimage(_))));
}

#[test]
fn preimage_can_be_empty() {
    assert_eq!(read_output_preimage("[]").unwrap(), Vec::<Felt>::new());
}

#[test]
fn preimage_that_is_no_list_of_felts_is_refused() {
    for text in ["", "[", "{}", "[1]", "[\"2a\"]", "[\"0x\"]", "[\"0x1\"] 7"] {
        let error = read_output_preimage(text).unwrap_err();
        assert!(matches!(error, ProveError::Preimage(_)), "{text}");
        assert_eq!(error.message(), None);
    }
}

#[test]
fn preimage_error_is_that_of_the_parser() {
    let expected = serde_json::from_str::<Vec<Felt>>("[1]").unwrap_err().to_string();
    match read_output_preimage("[1]") {
        Err(ProveError::Preimage(error)) => assert_eq!(error.to_string(), expected),
        _ => panic!("a number is no felt"),
    }
}

#[test]
fn preimage_outcome_passes_felts_on() {
    let felts = vec![Felt::TWO, Felt::THREE];
    assert_eq!(preimage_outcome(Ok(felts.clone())).unwrap(), felts);
}
