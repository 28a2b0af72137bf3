use privacy_prove::memory_mode::{recursive_precompute_memory_mode, ProverMemoryMode};

#[test]
fn low_memory_has_four_names() {
    for name in ["low_memory", "low-memory", "lowmemory", "checkpointed"] {
        assert_eq!(
            recursive_precompute_memory_mode(Some(name)),
            ProverMemoryMode::LowMemory,
            "{name}"
        );
    }
}

#[test]
fn memory_mode_ignores_ascii_case() {
    for name in ["LOW_MEMORY", "Low-Memory", "lowMemory", "CheckPointed"] {
        assert_eq!(
            recursive_precompute_memory_mode(Some(name)),
            ProverMemoryMode::LowMemory,
            "{name}"
        );
    }
}

#[test]
fn memory_mode_regards_other_case() {
    // The Kelvin sign is a capital `k`, but no ASCII one.
    assert_eq!(
        recursive_precompute_memory_mode(Some("chec\u{212a}pointed")),
        ProverMemoryMode::Fast
    );
}

#[test]
fn every_other_setting_is_fast() {
    for name in ["fast", "", "low", "low memory", " low_memory", "low_memory ", "1"] {
        assert_eq!(
            recursive_precompute_memory_mode(Some(name)),
            ProverMemoryMode::Fast,
            "{name}"
        );
    }
}

#[test]
fn no_setting_is_fast() {
    assert_eq!(recursive_precompute_memory_mode(None), ProverMemoryMode::Fast);
}
