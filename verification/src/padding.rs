//! Rounding of section sizes to the four-byte granularity of image commands.

use vstd::prelude::*;

verus! {

/// The largest section size whose padded size still fits in a command word.
pub const MAX_SECTION_SIZE: u32 = 0xFFFF_FFFC;

/// Number of zero bytes that follow a payload of `size` bytes.
pub open spec fn padding_of(size: nat) -> nat {
    ((4 - size % 4) % 4) as nat
}

/// `size` rounded up to the next multiple of four.
pub open spec fn padded_size_of(size: nat) -> nat {
    size + padding_of(size)
}

/// Computes the number of padding bytes for a payload of `size` bytes.
pub fn padding(size: u32) -> (rest: u32)
    ensures
        rest == padding_of(size as nat),
        rest < 4,
{
    (4 - (size % 4)) % 4
}

/// Computes the size a payload of `size` bytes occupies in the image.
pub fn padded_size(size: u32) -> (padded: u32)
    requires
        size <= MAX_SECTION_SIZE,
    ensures
        padded == padded_size_of(size as nat),
{
    size + padding(size)
}

/// The padded size is the size itself when that is a multiple of four and the
/// next multiple of four otherwise; the two never differ by more than three.
pub proof fn lemma_padded_size(size: nat)
    ensures
        size % 4 == 0 ==> padded_size_of(size) == size,
        size % 4 != 0 ==> padded_size_of(size) == size + (4 - size % 4),
        0 <= padded_size_of(size) - size <= 3,
        padded_size_of(size) % 4 == 0,
{
}

/// A size has a padded size that fits in 32 bits exactly when it does not
/// exceed `MAX_SECTION_SIZE`.
pub proof fn lemma_padded_size_fits(size: u32)
    ensures
        padded_size_of(size as nat) <= u32::MAX <==> size <= MAX_SECTION_SIZE,
{
}

} // verus!
