//! Erasing secrets from memory once they have served.

use vstd::prelude::*;
use zeroize::Zeroize;
use crate::bytes::zeros;

verus! {

/// Erases an array of bytes with `zeroize::Zeroize::zeroize`, which for an
/// array writes the default value, zero, over every element, with writes that
/// the compiler may not drop. The contract claims that every byte is zero
/// afterwards.
#[verifier::external_body]
pub(crate) fn wipe<const N: usize>(buf: &mut [u8; N])
    ensures
        final(buf)@ == zeros(N as nat),
{
    buf.zeroize();
}

/// Erases a vector of bytes with `zeroize::Zeroize::zeroize`, which for a
/// `Vec` writes zero over its elements and its spare capacity and then clears
/// it. The contract claims that the vector is empty afterwards.
#[verifier::external_body]
pub(crate) fn wipe_vec(buf: &mut Vec<u8>)
    ensures
        final(buf)@ == Seq::<u8>::empty(),
{
    buf.zeroize();
}

} // verus!
