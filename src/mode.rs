use vstd::prelude::*;
use file_mode::Mode;

verus! {

/// A file mode of the `file_mode` crate, carried through opaquely.
#[verifier::external_type_specification]
#[verifier::external_body]
pub struct ExMode(Mode);

/// The mode that `file_mode` builds from a number.
pub uninterp spec fn mode_of(bits: u32) -> Mode;

/// Relies on `<file_mode::Mode as From<u32>>::from`, which builds a mode from
/// the permission and file-type bits of `bits` alone; it does not fail.
#[verifier::external_body]
pub(crate) fn mode_from_bits(bits: u32) -> (r: Mode)
    ensures
        r == mode_of(bits),
{
    Mode::from(bits)
}

} // verus!
