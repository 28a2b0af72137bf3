# privacy_prove

The decisions of a privacy prover, written and proved in Verus: which memory
mode and domains its precomputes use, what the bootloader is run on, what the
bytes of a proof hold, and in which order a recursive proof is made.

- `src/` is the verified library. `outside.rs` declares the types of other
  crates that it carries; each function that is taken on trust says in its doc
  comment which function of another crate it calls and what it claims of it.
- `tests/` runs the library against the other crates.
- `app/` runs the bootloader and the provers as the library asks for them.
