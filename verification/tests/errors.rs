use ctr_drbg::error::{
    status, DrbgError, MBEDTLS_ERR_CTR_DRBG_ENTROPY_SOURCE_FAILED,
    MBEDTLS_ERR_CTR_DRBG_FILE_IO_ERROR, MBEDTLS_ERR_CTR_DRBG_INPUT_TOO_BIG,
    MBEDTLS_ERR_CTR_DRBG_REQUEST_TOO_BIG,
};
use ctr_drbg::params::{
    MBEDTLS_CTR_DRBG_BLOCKSIZE, MBEDTLS_CTR_DRBG_ENTROPY_LEN, MBEDTLS_CTR_DRBG_ENTROPY_NONCE_LEN,
    MBEDTLS_CTR_DRBG_KEYBITS, MBEDTLS_CTR_DRBG_KEYSIZE, MBEDTLS_CTR_DRBG_MAX_INPUT,
    MBEDTLS_CTR_DRBG_MAX_REQUEST, MBEDTLS_CTR_DRBG_MAX_SEED_INPUT, MBEDTLS_CTR_DRBG_PR_OFF,
    MBEDTLS_CTR_DRBG_PR_ON, MBEDTLS_CTR_DRBG_RESEED_INTERVAL, MBEDTLS_CTR_DRBG_SEEDLEN,
};
use ctr_drbg::reseed::good_nonce_len;

#[test]
fn error_codes() {
    assert_eq!(MBEDTLS_ERR_CTR_DRBG_ENTROPY_SOURCE_FAILED, -52);
    assert_eq!(MBEDTLS_ERR_CTR_DRBG_REQUEST_TOO_BIG, -54);
    assert_eq!(MBEDTLS_ERR_CTR_DRBG_INPUT_TOO_BIG, -56);
    assert_eq!(MBEDTLS_ERR_CTR_DRBG_FILE_IO_ERROR, -58);
    assert_eq!(DrbgError::EntropySourceFailed.code(), -0x34);
    assert_eq!(DrbgError::RequestTooBig.code(), -0x36);
    assert_eq!(DrbgError::InputTooBig.code(), -0x38);
    assert_eq!(DrbgError::FileIoError.code(), -0x3a);
}

#[test]
fn status_of_a_result() {
    assert_eq!(status(Ok(())), 0);
    assert_eq!(status(Err(DrbgError::EntropySourceFailed)), -0x34);
    assert_eq!(status(Err(DrbgError::RequestTooBig)), -0x36);
    assert_eq!(status(Err(DrbgError::InputTooBig)), -0x38);
    assert_eq!(status(Err(DrbgError::FileIoError)), -0x3a);
}

#[test]
fn sizes_and_limits() {
    assert_eq!(MBEDTLS_CTR_DRBG_BLOCKSIZE, 16);
    assert_eq!(MBEDTLS_CTR_DRBG_KEYSIZE, 32);
    assert_eq!(MBEDTLS_CTR_DRBG_KEYBITS, 8 * MBEDTLS_CTR_DRBG_KEYSIZE);
    assert_eq!(MBEDTLS_CTR_DRBG_SEEDLEN, MBEDTLS_CTR_DRBG_KEYSIZE + MBEDTLS_CTR_DRBG_BLOCKSIZE);
    assert_eq!(MBEDTLS_CTR_DRBG_ENTROPY_LEN, 48);
    assert_eq!(MBEDTLS_CTR_DRBG_ENTROPY_NONCE_LEN, good_nonce_len(MBEDTLS_CTR_DRBG_ENTROPY_LEN));
    assert_eq!(MBEDTLS_CTR_DRBG_RESEED_INTERVAL, 10000);
    assert_eq!(MBEDTLS_CTR_DRBG_MAX_INPUT, 256);
    assert_eq!(MBEDTLS_CTR_DRBG_MAX_REQUEST, 1024);
    assert_eq!(MBEDTLS_CTR_DRBG_MAX_SEED_INPUT, 384);
    assert_eq!(MBEDTLS_CTR_DRBG_PR_OFF, 0);
    assert_eq!(MBEDTLS_CTR_DRBG_PR_ON, 1);
}

#[test]
fn good_nonce_lengths() {
    // With one and a half keys of entropy or more, no nonce is asked for.
    assert_eq!(good_nonce_len(48), 0);
    assert_eq!(good_nonce_len(49), 0);
    assert_eq!(good_nonce_len(384), 0);
    assert_eq!(good_nonce_len(usize::MAX), 0);
    // Below that: half the entropy length, rounded up.
    assert_eq!(good_nonce_len(47), 24);
    assert_eq!(good_nonce_len(32), 16);
    assert_eq!(good_nonce_len(31), 16);
    assert_eq!(good_nonce_len(1), 1);
    assert_eq!(good_nonce_len(0), 0);
}
