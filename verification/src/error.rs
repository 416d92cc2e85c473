//! The library's error type.

use vstd::prelude::*;

use anchor_lang::solana_program::program_error::ProgramError;

verus! {

/// Why an operation was refused.
#[derive(Debug)]
pub enum UtilError {
    /// A supplied account does not match its expected canonical derivation.
    DerivedKeyInvalid,
    /// A submitted instruction failed; the environment's error is carried
    /// through unmodified.
    Program(ProgramError),
}

impl UtilError {
    /// Whether this is the derivation-mismatch condition.
    pub fn is_derived_key_invalid(&self) -> (b: bool)
        ensures
            b == (self is DerivedKeyInvalid),
    {
        match self {
            UtilError::DerivedKeyInvalid => true,
            UtilError::Program(_) => false,
        }
    }
}

} // verus!
