//! Generation of fresh message identifiers.

use vstd::prelude::*;

verus! {

/// Draws a fresh 128-bit identifier.
///
/// Relies on `uuid::Uuid::new_v4`, which builds a version-4 UUID from the
/// operating system's random number generator, and `uuid::Uuid::as_u128`,
/// which returns its sixteen bytes as one big-endian integer. The value is
/// random: nothing relates one call's result to another's. Of every outcome
/// the source shows only that the version field is 4 and the variant field
/// is the two bits `10`, the rest being random.
#[verifier::external_body]
pub(crate) fn fresh_id() -> (r: u128)
    ensures
        (r >> 76) & 0xf == 4,
        (r >> 62) & 0x3 == 2,
{
    uuid::Uuid::new_v4().as_u128()
}

} // verus!
