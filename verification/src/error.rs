//! The ways in which an operation of the generator fails.

use vstd::prelude::*;

verus! {

/// The entropy source failed.
pub const MBEDTLS_ERR_CTR_DRBG_ENTROPY_SOURCE_FAILED: i32 = -0x0034;

/// The requested random buffer length is too big.
pub const MBEDTLS_ERR_CTR_DRBG_REQUEST_TOO_BIG: i32 = -0x0036;

/// The input (entropy and additional data) is too large.
pub const MBEDTLS_ERR_CTR_DRBG_INPUT_TOO_BIG: i32 = -0x0038;

/// Read or write error in the seed file.
pub const MBEDTLS_ERR_CTR_DRBG_FILE_IO_ERROR: i32 = -0x003A;

/// Why an operation of the generator failed.
#[derive(Clone, Copy, Debug, PartialEq, Eq, Structural)]
pub enum DrbgError {
    /// The entropy source reported a failure or is not there yet; also the
    /// answer to a nonce length that is set after seeding.
    EntropySourceFailed,
    /// More output was asked for than one call hands out.
    RequestTooBig,
    /// An input is longer than its limit.
    InputTooBig,
    /// The seed file held nothing or too much, or could not be read or
    /// written.
    FileIoError,
}

impl DrbgError {
    /// The status code that stands for this error.
    pub open spec fn spec_code(self) -> i32 {
        match self {
            DrbgError::EntropySourceFailed => MBEDTLS_ERR_CTR_DRBG_ENTROPY_SOURCE_FAILED,
            DrbgError::RequestTooBig => MBEDTLS_ERR_CTR_DRBG_REQUEST_TOO_BIG,
            DrbgError::InputTooBig => MBEDTLS_ERR_CTR_DRBG_INPUT_TOO_BIG,
            DrbgError::FileIoError => MBEDTLS_ERR_CTR_DRBG_FILE_IO_ERROR,
        }
    }

    /// The status code that stands for this error: negative, and different
    /// for each error.
    pub fn code(self) -> (c: i32)
        ensures
            c == self.spec_code(),
            c < 0,
    {
        match self {
            DrbgError::EntropySourceFailed => MBEDTLS_ERR_CTR_DRBG_ENTROPY_SOURCE_FAILED,
            DrbgError::RequestTooBig => MBEDTLS_ERR_CTR_DRBG_REQUEST_TOO_BIG,
            DrbgError::InputTooBig => MBEDTLS_ERR_CTR_DRBG_INPUT_TOO_BIG,
            DrbgError::FileIoError => MBEDTLS_ERR_CTR_DRBG_FILE_IO_ERROR,
        }
    }
}

/// The status code of a result: zero for success, else the error's code.
pub open spec fn spec_status(r: Result<(), DrbgError>) -> i32 {
    match r {
        Ok(_) => 0i32,
        Err(e) => e.spec_code(),
    }
}

/// The status code of a result: zero for success, else the error's code.
pub fn status(r: Result<(), DrbgError>) -> (c: i32)
    ensures
        c == spec_status(r),
        c == 0 <==> r is Ok,
{
    match r {
        Ok(_) => 0,
        Err(e) => e.code(),
    }
}

} // verus!
