//! The block cipher the generator is built on: AES-256, one block at a time.

use vstd::prelude::*;
use aes::cipher::{BlockEncrypt, KeyInit};

verus! {

/// The AES-256 encryption of the 16-byte `block` under the 32-byte `key`.
pub uninterp spec fn aes256_encrypt(key: Seq<u8>, block: Seq<u8>) -> Seq<u8>;

/// Encrypts one block with `aes::Aes256`: `KeyInit::new` expands the key and
/// `BlockEncrypt::encrypt_block` encrypts the block in place. The cipher text
/// is a function of the key and the block alone, and that is all the contract
/// says: it gives the result its name.
#[verifier::external_body]
pub(crate) fn encrypt_block(key: &[u8; 32], block: &[u8; 16]) -> (out: [u8; 16])
    ensures
        out@ == aes256_encrypt(key@, block@),
{
    let cipher = aes::Aes256::new(key.into());
    let mut out = aes::Block::from(*block);
    cipher.encrypt_block(&mut out);
    out.into()
}

} // verus!
