//! The sizes and limits of the generator.

use vstd::prelude::*;

verus! {

/// The block size of the cipher, in bytes.
pub const MBEDTLS_CTR_DRBG_BLOCKSIZE: usize = 16;

/// The key size of the cipher, in bytes.
pub const MBEDTLS_CTR_DRBG_KEYSIZE: usize = 32;

/// The key size of the cipher, in bits.
pub const MBEDTLS_CTR_DRBG_KEYBITS: usize = 256;

/// The length of a seed: one key and one block.
pub const MBEDTLS_CTR_DRBG_SEEDLEN: usize = 48;

/// The bytes of entropy taken per seed and reseed unless another length is set.
pub const MBEDTLS_CTR_DRBG_ENTROPY_LEN: usize = 48;

/// The nonce length that goes with the default entropy length.
pub const MBEDTLS_CTR_DRBG_ENTROPY_NONCE_LEN: usize = 0;

/// The number of generate calls between two reseeds unless another is set.
pub const MBEDTLS_CTR_DRBG_RESEED_INTERVAL: i32 = 10000;

/// The largest additional input of a generate call, in bytes.
pub const MBEDTLS_CTR_DRBG_MAX_INPUT: usize = 256;

/// The most bytes that one generate call hands out.
pub const MBEDTLS_CTR_DRBG_MAX_REQUEST: usize = 1024;

/// The largest input of the derivation function at a seed or reseed, in bytes.
pub const MBEDTLS_CTR_DRBG_MAX_SEED_INPUT: usize = 384;

/// Prediction resistance off.
pub const MBEDTLS_CTR_DRBG_PR_OFF: i32 = 0;

/// Prediction resistance on.
pub const MBEDTLS_CTR_DRBG_PR_ON: i32 = 1;

} // verus!
