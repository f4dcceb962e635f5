//! The ways in which building an image can fail.

use vstd::prelude::*;

verus! {

/// Failure of a step of the conversion. Every failure is final: nothing is
/// retried and no partial result is returned.
#[derive(Clone, Copy, Debug, PartialEq, Eq, Structural)]
pub enum AisError {
    /// The regular-expression engine refused the pattern it was to search
    /// for.
    Pattern,
    /// A line matched the section pattern but one of its fields is not a
    /// hexadecimal number of at most 32 bits.
    Parse,
    /// A section reaches beyond the end of the input binary.
    TruncatedInput,
}

} // verus!
