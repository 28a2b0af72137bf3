//! The choice between proving fast and proving in little memory.

use vstd::prelude::*;

verus! {

/// How the prover trades memory for time.
#[derive(Clone, Copy, Debug, PartialEq, Eq, Structural)]
pub enum ProverMemoryMode {
    /// Keep the evaluations of the preprocessed trees between proofs.
    Fast,
    /// Drop evaluations that can be recomputed once a proof is done.
    LowMemory,
}

/// A character with ASCII capitals turned to small letters.
pub open spec fn ascii_lower(c: char) -> char {
    if 'A' <= c && c <= 'Z' {
        (c as u32 + 32) as char
    } else {
        c
    }
}

/// A text with its ASCII capitals turned to small letters.
pub open spec fn ascii_lowered(s: Seq<char>) -> Seq<char> {
    s.map_values(|c: char| ascii_lower(c))
}

/// The standard library's comparison of two strings without regard to ASCII
/// case: it holds exactly if both are the same text once their ASCII capitals
/// are turned to small letters.
pub assume_specification[ str::eq_ignore_ascii_case ](a: &str, b: &str) -> (result: bool)
    ensures
        result == (ascii_lowered(a@) == ascii_lowered(b@)),
;

/// Whether a setting asks for little memory, in any mix of ASCII case.
pub open spec fn asks_for_low_memory(setting: Seq<char>) -> bool {
    ||| ascii_lowered(setting) == "low_memory"@
    ||| ascii_lowered(setting) == "low-memory"@
    ||| ascii_lowered(setting) == "lowmemory"@
    ||| ascii_lowered(setting) == "checkpointed"@
}

/// The memory mode that a setting stands for; without one, and for any other
/// text, the prover is fast.
pub open spec fn memory_mode_of(setting: Option<Seq<char>>) -> ProverMemoryMode {
    if setting is Some && asks_for_low_memory(setting->0) {
        ProverMemoryMode::LowMemory
    } else {
        ProverMemoryMode::Fast
    }
}

/// The texts that ask for little memory hold no ASCII capital.
proof fn lemma_names_are_lower()
    ensures
        ascii_lowered("low_memory"@) == "low_memory"@,
        ascii_lowered("low-memory"@) == "low-memory"@,
        ascii_lowered("lowmemory"@) == "lowmemory"@,
        ascii_lowered("checkpointed"@) == "checkpointed"@,
{
    reveal_strlit("low_memory");
    reveal_strlit("low-memory");
    reveal_strlit("lowmemory");
    reveal_strlit("checkpointed");
    assert(ascii_lowered("low_memory"@) =~= "low_memory"@);
    assert(ascii_lowered("low-memory"@) =~= "low-memory"@);
    assert(ascii_lowered("lowmemory"@) =~= "lowmemory"@);
    assert(ascii_lowered("checkpointed"@) =~= "checkpointed"@);
}

/// Returns the memory mode that the setting `STWO_PROVER_MEMORY_MODE` stands
/// for, given as `None` where it is unset or not text.
pub fn recursive_precompute_memory_mode(setting: Option<&str>) -> (mode: ProverMemoryMode)
    ensures
        mode == memory_mode_of(
            match setting {
                Some(value) => Some(value@),
                None => None,
            },
        ),
{
    proof {
        lemma_names_are_lower();
    }
    match setting {
        Some(value) => {
            if value.eq_ignore_ascii_case("low_memory") || value.eq_ignore_ascii_case("low-memory")
                || value.eq_ignore_ascii_case("lowmemory") || value.eq_ignore_ascii_case(
                "checkpointed",
            ) {
                ProverMemoryMode::LowMemory
            } else {
                ProverMemoryMode::Fast
            }
        },
        None => ProverMemoryMode::Fast,
    }
}

/// Two settings that differ only in ASCII case stand for the same mode.
pub proof fn law_mode_ignores_ascii_case(a: Seq<char>, b: Seq<char>)
    requires
        ascii_lowered(a) == ascii_lowered(b),
    ensures
        memory_mode_of(Some(a)) == memory_mode_of(Some(b)),
{
}

/// Whether a text is a name but for the case of its ASCII letters: as long, and
/// each character that of the name or, for a small letter, its capital.
pub open spec fn is_name_in_any_case(text: Seq<char>, name: Seq<char>) -> bool {
    &&& text.len() == name.len()
    &&& forall|i: int|
        0 <= i < name.len() ==> (#[trigger] text[i] == name[i] || ('a' <= name[i] && name[i] <= 'z'
            && text[i] as int + 32 == name[i] as int))
}

/// A text is turned to a name that has no capitals exactly if it is that name in
/// any case.
proof fn lemma_lowered_is_any_case(text: Seq<char>, name: Seq<char>)
    requires
        ascii_lowered(name) == name,
    ensures
        ascii_lowered(text) == name <==> is_name_in_any_case(text, name),
{
    if ascii_lowered(text) == name {
        assert forall|i: int| 0 <= i < name.len() implies (#[trigger] text[i] == name[i] || ('a'
            <= name[i] && name[i] <= 'z' && text[i] as int + 32 == name[i] as int)) by {
            assert(ascii_lowered(text)[i] == ascii_lower(text[i]));
        }
    }
    if is_name_in_any_case(text, name) {
        assert forall|i: int| 0 <= i < name.len() implies ascii_lower(text[i]) == name[i] by {
            assert(ascii_lowered(name)[i] == ascii_lower(name[i]));
        }
        assert(ascii_lowered(text) =~= name);
    }
}

/// The prover works in little memory exactly where the setting is one of four
/// names in any case. It is fast for every other setting, and without one.
pub proof fn law_only_four_names_ask_for_low_memory(setting: Option<&str>, mode: ProverMemoryMode)
    requires
        call_ensures(recursive_precompute_memory_mode, (setting,), mode),
    ensures
        mode == ProverMemoryMode::LowMemory || mode == ProverMemoryMode::Fast,
        mode == ProverMemoryMode::LowMemory <==> (setting matches Some(text) && (
        is_name_in_any_case(text@, "low_memory"@) || is_name_in_any_case(text@, "low-memory"@)
            || is_name_in_any_case(text@, "lowmemory"@) || is_name_in_any_case(
            text@,
            "checkpointed"@,
        ))),
{
    lemma_names_are_lower();
    if let Some(text) = setting {
        lemma_lowered_is_any_case(text@, "low_memory"@);
        lemma_lowered_is_any_case(text@, "low-memory"@);
        lemma_lowered_is_any_case(text@, "lowmemory"@);
        lemma_lowered_is_any_case(text@, "checkpointed"@);
    }
}

} // verus!
