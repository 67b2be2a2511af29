//! Carrying the generator's state over a restart in a seed file. What the file
//! is to hold and what is made of what it held is decided here; reading and
//! writing it is the caller's part.

use vstd::prelude::*;
use crate::context::CtrDrbgContext;
use crate::entropy::{answered, EntropySource};
use crate::error::DrbgError;
use crate::generate::{mbedtls_ctr_drbg_random, output_view};
use crate::params::MBEDTLS_CTR_DRBG_MAX_INPUT;
use crate::update::mbedtls_ctr_drbg_update_ret;

verus! {

/// What to write to a seed file: as many bytes of fresh output as an
/// additional input may hold.
pub fn mbedtls_ctr_drbg_write_seed_file<E: EntropySource>(ctx: &mut CtrDrbgContext<E>) -> (r:
    Result<Vec<u8>, DrbgError>)
    ensures
        (final(ctx)@, output_view(r)) == old(ctx)@.generate(
            MBEDTLS_CTR_DRBG_MAX_INPUT as nat,
            Seq::<u8>::empty(),
            old(ctx)@.first_new(final(ctx)@),
        ),
        old(ctx)@.source matches Some(source) ==> answered(
            source,
            old(ctx)@.new_requests(final(ctx)@),
        ),
        r matches Ok(contents) ==> contents@.len() == MBEDTLS_CTR_DRBG_MAX_INPUT,
{
    mbedtls_ctr_drbg_random(ctx, MBEDTLS_CTR_DRBG_MAX_INPUT)
}

/// Takes in what a seed file held: `contents` is what was read, up to one
/// byte more than an additional input may hold. See
/// `DrbgState::update_seed_file`. After it has succeeded the file is to be
/// written anew, with what `mbedtls_ctr_drbg_write_seed_file` gives.
pub fn mbedtls_ctr_drbg_update_seed_file<E: EntropySource>(
    ctx: &mut CtrDrbgContext<E>,
    contents: &[u8],
) -> (r: Result<(), DrbgError>)
    ensures
        (final(ctx)@, r) == old(ctx)@.update_seed_file(contents@),
{
    if contents.len() == 0 || contents.len() > MBEDTLS_CTR_DRBG_MAX_INPUT {
        return Err(DrbgError::FileIoError);
    }
    mbedtls_ctr_drbg_update_ret(ctx, contents)
}

} // verus!
