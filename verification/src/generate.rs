//! Generating output: the decision to reseed, the caller's additional input,
//! the key stream, and the update that follows it.

use vstd::prelude::*;
use crate::bytes::{advance, increment_counter, zeros};
use crate::cipher::encrypt_block;
use crate::context::CtrDrbgContext;
use crate::derivation::block_cipher_df;
use crate::entropy::{answered, EntropySource};
use crate::error::DrbgError;
use crate::params::{MBEDTLS_CTR_DRBG_MAX_INPUT, MBEDTLS_CTR_DRBG_MAX_REQUEST};
use crate::reseed::mbedtls_ctr_drbg_reseed;
use crate::state::{blocks_for, keystream};
use crate::update::ctr_drbg_update_internal;
use crate::wipe::wipe;

verus! {

/// What a generate call returns, with the output as a sequence of bytes.
pub open spec fn output_view(r: Result<Vec<u8>, DrbgError>) -> Result<Seq<u8>, DrbgError> {
    match r {
        Ok(output) => Ok(output@),
        Err(e) => Err(e),
    }
}

/// Leaves a generate call: erases the derived additional input and the last
/// block of key stream, and hands `ret` on.
pub fn funtio_exit(add_input: &mut [u8; 48], ret: Result<(), DrbgError>, tmp: &mut [u8; 16]) -> (r:
    Result<(), DrbgError>)
    ensures
        r == ret,
        final(add_input)@ == zeros(48),
        final(tmp)@ == zeros(16),
{
    wipe(add_input);
    wipe(tmp);
    ret
}

/// Generates `output_len` bytes, with `additional` mixed into the state
/// first, as `DrbgState::generate` says. Where it reseeds, the request that it
/// makes of the source is the last in the state it leaves. A request over the
/// limit is refused before anything else is looked at, and the source is not
/// asked.
pub fn mbedtls_ctr_drbg_random_with_add<E: EntropySource>(
    ctx: &mut CtrDrbgContext<E>,
    output_len: usize,
    additional: &[u8],
) -> (r: Result<Vec<u8>, DrbgError>)
    ensures
        (final(ctx)@, output_view(r)) == old(ctx)@.generate(
            output_len as nat,
            additional@,
            old(ctx)@.first_new(final(ctx)@),
        ),
        old(ctx)@.source matches Some(source) ==> answered(
            source,
            old(ctx)@.new_requests(final(ctx)@),
        ),
        output_len > MBEDTLS_CTR_DRBG_MAX_REQUEST ==> r == Err::<Vec<u8>, DrbgError>(
            DrbgError::RequestTooBig,
        ) && final(ctx)@ == old(ctx)@,
        r matches Ok(output) ==> output@.len() == output_len,
{
    proof {
        old(ctx).lemma_view();
        assert(old(ctx)@.new_requests(old(ctx)@) =~= Seq::empty());
    }
    if output_len > MBEDTLS_CTR_DRBG_MAX_REQUEST {
        return Err(DrbgError::RequestTooBig);
    }
    if additional.len() > MBEDTLS_CTR_DRBG_MAX_INPUT {
        return Err(DrbgError::InputTooBig);
    }
    if ctx.source.is_none() {
        return Err(DrbgError::EntropySourceFailed);
    }
    let mut add_input: [u8; 48] = [0u8; 48];
    let mut tmp: [u8; 16] = [0u8; 16];
    let mut add_len: usize = additional.len();
    assert(add_input@ =~= zeros(48));

    if ctx.reseed_counter > ctx.reseed_interval as i64 || ctx.prediction_resistance {
        match mbedtls_ctr_drbg_reseed(ctx, additional) {
            Err(e) => {
                return Err(e);
            },
            Ok(_) => {},
        }
        add_len = 0;
    }
    proof {
        ctx.lemma_view();
    }
    let ghost decided = *ctx;
    if add_len > 0 {
        match block_cipher_df(&mut add_input, additional) {
            Err(e) => {
                let _ = funtio_exit(&mut add_input, Err(e), &mut tmp);
                return Err(e);
            },
            Ok(_) => {},
        }
        match ctr_drbg_update_internal(ctx, &add_input) {
            Err(e) => {
                let _ = funtio_exit(&mut add_input, Err(e), &mut tmp);
                return Err(e);
            },
            Ok(_) => {},
        }
    }
    proof {
        decided.lemma_view();
        ctx.lemma_view();
    }
    let ghost ready = *ctx;
    let ghost key = ctx.key@;
    let ghost counter = ctx.counter@;

    let mut output: Vec<u8> = Vec::new();
    let mut remaining: usize = output_len;
    let ghost mut blocks: nat = 0;
    while remaining > 0
        invariant
            remaining <= output_len <= MBEDTLS_CTR_DRBG_MAX_REQUEST,
            output@.len() + remaining == output_len,
            remaining > 0 ==> output@.len() == 16 * blocks,
            remaining == 0 ==> blocks == blocks_for(output_len as nat),
            keystream(key, counter, blocks).len() == 16 * blocks,
            output@ == keystream(key, counter, blocks).take(output@.len() as int),
            ctx.key@ == key,
            ctx.counter@ == advance(counter, blocks),
            ctx.settled_as(&ready),
        decreases remaining,
    {
        // Increase the counter and encrypt it.
        increment_counter(&mut ctx.counter);
        tmp = encrypt_block(&ctx.key, &ctx.counter);
        let use_len: usize = if remaining > 16 {
            16
        } else {
            remaining
        };

        // Copy the key stream to the output.
        let ghost before = output@;
        let mut i: usize = 0;
        while i < use_len
            invariant
                i <= use_len <= 16,
                output@ == before + tmp@.take(i as int),
            decreases use_len - i,
        {
            output.push(tmp[i]);
            i += 1;
        }
        remaining -= use_len;
        proof {
            blocks = blocks + 1;
        }
    }
    let ghost spent = *ctx;

    match ctr_drbg_update_internal(ctx, &add_input) {
        Err(e) => {
            let _ = funtio_exit(&mut add_input, Err(e), &mut tmp);
            return Err(e);
        },
        Ok(_) => {},
    }
    proof {
        spent.lemma_view();
        ctx.lemma_view();
    }
    let ghost updated = *ctx;
    ctx.reseed_counter = ctx.reseed_counter + 1;
    proof {
        updated.lemma_view();
        ctx.lemma_view();
    }
    match funtio_exit(&mut add_input, Ok(()), &mut tmp) {
        Err(e) => Err(e),
        Ok(_) => Ok(output),
    }
}

/// Generates `output_len` bytes, with no additional input.
pub fn mbedtls_ctr_drbg_random<E: EntropySource>(ctx: &mut CtrDrbgContext<E>, output_len: usize) -> (r:
    Result<Vec<u8>, DrbgError>)
    ensures
        (final(ctx)@, output_view(r)) == old(ctx)@.generate(
            output_len as nat,
            Seq::<u8>::empty(),
            old(ctx)@.first_new(final(ctx)@),
        ),
        old(ctx)@.source matches Some(source) ==> answered(
            source,
            old(ctx)@.new_requests(final(ctx)@),
        ),
        output_len > MBEDTLS_CTR_DRBG_MAX_REQUEST ==> r == Err::<Vec<u8>, DrbgError>(
            DrbgError::RequestTooBig,
        ) && final(ctx)@ == old(ctx)@,
        r matches Ok(output) ==> output@.len() == output_len,
{
    let none: [u8; 0] = [];
    mbedtls_ctr_drbg_random_with_add(ctx, output_len, none.as_slice())
}

} // verus!
