use vstd::prelude::*;

verus! {

/// Errors of program-side helpers.
#[derive(Clone, Copy, Debug, PartialEq, Eq, Structural)]
pub enum ProgramError {
    /// Too many seeds, or a seed that is too long.
    MaxSeedLengthExceeded,
    /// The seeds give an address that lies on the curve.
    InvalidSeeds,
}

} // verus!
