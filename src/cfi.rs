use vstd::prelude::*;

use crate::error::RomError;

verus! {

/// Passes a value through unchanged.
///
/// The value travels through an opaque call so that the redundant checks that
/// follow a security decision are not folded into the decision itself.
#[inline(never)]
pub fn cfi_launder(b: bool) -> (r: bool)
    ensures
        r == b,
{
    b
}

/// Checks a security decision on both paths: the laundered value picks the
/// branch, and each branch confirms on its own that it is the right one.
///
/// Returns the decision; `FaultDetected` can only come from a transient
/// fault that sent control down the wrong branch.
pub fn cfi_branch(b: bool) -> (r: Result<bool, RomError>)
    ensures
        r == Ok::<bool, RomError>(b),
{
    if cfi_launder(b) {
        if b {
            Ok(true)
        } else {
            Err(RomError::FaultDetected)
        }
    } else {
        if !b {
            Ok(false)
        } else {
            Err(RomError::FaultDetected)
        }
    }
}

/// Relies on `constant_time_eq::constant_time_eq`: equal lengths and equal
/// bytes, compared in time independent of the first differing position.
#[verifier::external_body]
pub(crate) fn ct_eq(a: &[u8], b: &[u8]) -> (r: bool)
    ensures
        r == (a@ == b@),
{
    constant_time_eq::constant_time_eq(a, b)
}

/// Relies on `zeroize::Zeroize` for `[u8]`: every byte is overwritten with
/// zero through volatile writes, the length is kept.
#[verifier::external_body]
fn zeroize_slice(b: &mut Vec<u8>)
    ensures
        final(b)@ == Seq::new(old(b)@.len(), |i: int| 0u8),
{
    zeroize::Zeroize::zeroize(b.as_mut_slice())
}

/// Overwrites every byte of a buffer holding secret material with zero.
pub fn zeroize_bytes(b: &mut Vec<u8>)
    ensures
        final(b)@.len() == old(b)@.len(),
        forall|i: int| 0 <= i < final(b)@.len() ==> final(b)@[i] == 0u8,
{
    zeroize_slice(b);
}

/// Compares two secret-derived byte strings in constant time, checking the
/// outcome a second time on whichever branch is taken.
///
/// `Ok(())` when the two are equal, `Err(mismatch)` when they differ. The
/// redundant check can only disagree with the first under a transient fault,
/// in which case `FaultDetected` is returned.
pub fn secure_eq(a: &[u8], b: &[u8], mismatch: RomError) -> (r: Result<(), RomError>)
    ensures
        a@ == b@ <==> r is Ok,
        a@ != b@ ==> r == Err::<(), RomError>(mismatch),
{
    let equal = ct_eq(a, b);
    if cfi_launder(equal) {
        if ct_eq(a, b) {
            Ok(())
        } else {
            Err(RomError::FaultDetected)
        }
    } else {
        if ct_eq(a, b) {
            Err(RomError::FaultDetected)
        } else {
            Err(mismatch)
        }
    }
}

} // verus!
