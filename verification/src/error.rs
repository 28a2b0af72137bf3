//! Why a proof run failed.

use vstd::prelude::*;

verus! {

/// The ways in which a proof, or the preparation for one, fails.
#[derive(Debug)]
pub enum ProveError {
    /// The Cairo prover's commitment scheme names no lifting domain.
    CairoLiftingLogSizeUnset,
    /// The circuit prover's commitment scheme names no lifting domain.
    CircuitLiftingLogSizeUnset,
    /// A thread panicked while it held the Cairo preprocessed tree.
    CairoTreePoisoned,
    /// A thread panicked while it held the circuit preprocessed tree.
    CircuitTreePoisoned,
    /// The values of the verifier circuit do not satisfy it.
    CircuitNotValid,
    /// The bootloader's output preimage is not a list of felts.
    Preimage(serde_json::Error),
    /// The proof bytes could not be compressed.
    Compression(std::io::Error),
    /// The work asked of the caller failed, for the reason given.
    Outside(String),
}

impl ProveError {
    /// The text of an error that this library raises itself; `None` for one
    /// that carries an error from elsewhere.
    pub open spec fn text(self) -> Option<Seq<char>> {
        match self {
            ProveError::CairoLiftingLogSizeUnset => Some(
                "Lifting log size is not set in Cairo's PcsConfig"@,
            ),
            ProveError::CircuitLiftingLogSizeUnset => Some(
                "Lifting log size is not set in Circuit's PcsConfig"@,
            ),
            ProveError::CairoTreePoisoned => Some("cairo preprocessed tree mutex poisoned"@),
            ProveError::CircuitTreePoisoned => Some("circuit preprocessed tree mutex poisoned"@),
            ProveError::CircuitNotValid => Some("Circuit is not valid"@),
            ProveError::Preimage(_) => None,
            ProveError::Compression(_) => None,
            ProveError::Outside(_) => None,
        }
    }

    /// Returns the error's text, as `text` gives it.
    pub fn message(&self) -> (result: Option<&'static str>)
        ensures
            match result {
                Some(message) => self.text() == Some(message@),
                None => self.text() is None,
            },
    {
        match self {
            ProveError::CairoLiftingLogSizeUnset => Some(
                "Lifting log size is not set in Cairo's PcsConfig",
            ),
            ProveError::CircuitLiftingLogSizeUnset => Some(
                "Lifting log size is not set in Circuit's PcsConfig",
            ),
            ProveError::CairoTreePoisoned => Some("cairo preprocessed tree mutex poisoned"),
            ProveError::CircuitTreePoisoned => Some("circuit preprocessed tree mutex poisoned"),
            ProveError::CircuitNotValid => Some("Circuit is not valid"),
            ProveError::Preimage(_) => None,
            ProveError::Compression(_) => None,
            ProveError::Outside(_) => None,
        }
    }
}

/// An error has a text of its own exactly if it carries none from elsewhere, and
/// then the text says what failed.
pub proof fn law_own_errors_say_what_failed(error: &ProveError, result: Option<&'static str>)
    requires
        call_ensures(ProveError::message, (error,), result),
    ensures
        match *error {
            ProveError::CairoLiftingLogSizeUnset => result is Some && result->0@
                == "Lifting log size is not set in Cairo's PcsConfig"@,
            ProveError::CircuitLiftingLogSizeUnset => result is Some && result->0@
                == "Lifting log size is not set in Circuit's PcsConfig"@,
            ProveError::CairoTreePoisoned => result is Some && result->0@
                == "cairo preprocessed tree mutex poisoned"@,
            ProveError::CircuitTreePoisoned => result is Some && result->0@
                == "circuit preprocessed tree mutex poisoned"@,
            ProveError::CircuitNotValid => result is Some && result->0@ == "Circuit is not valid"@,
            _ => result is None,
        },
{
}

} // verus!
