//! Random numbers from the operating system.

use vstd::prelude::*;

verus! {

/// The error of the `getrandom` crate, carried through unread.
#[verifier::external_type_specification]
#[verifier::external_body]
pub struct ExEntropyFault(getrandom::Error);

/// Draws sixteen bytes with `getrandom::getrandom` and hands them back as
/// one number, read in little-endian order, or hands back the error of
/// `getrandom`. Not verified; nothing is claimed of the number drawn.
#[verifier::external_body]
pub(crate) fn draw_u128() -> (r: Result<u128, getrandom::Error>) {
    let mut block: [u8; 16] = [0u8; 16];
    match getrandom::getrandom(&mut block) {
        Ok(()) => Ok(u128::from_le_bytes(block)),
        Err(fault) => Err(fault),
    }
}

} // verus!
