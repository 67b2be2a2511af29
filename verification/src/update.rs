//! The state update, and the operations that mix additional input into the
//! state without new entropy.

use vstd::prelude::*;
use crate::bytes::{
    advance, block, block_at, increment_counter, key_part, put_block, xor_seed, zeros,
};
use crate::cipher::{aes256_encrypt, encrypt_block};
use crate::context::CtrDrbgContext;
use crate::derivation::block_cipher_df;
use crate::entropy::EntropySource;
use crate::error::DrbgError;
use crate::params::MBEDTLS_CTR_DRBG_MAX_SEED_INPUT;
use crate::state::keystream;
use crate::wipe::wipe;

verus! {

/// Leaves the state update: erases its key stream buffer and hands `ret` on.
pub fn func_exit(tmp: &mut [u8; 48], ret: Result<(), DrbgError>) -> (r: Result<(), DrbgError>)
    ensures
        r == ret,
        final(tmp)@ == zeros(48),
{
    wipe(tmp);
    ret
}

/// The state update. The counter is incremented and encrypted under the
/// current key three times over; the three blocks, XORed with `data`, are the
/// new key and the new counter. It always succeeds.
pub fn ctr_drbg_update_internal<E: EntropySource>(
    ctx: &mut CtrDrbgContext<E>,
    data: &[u8; 48],
) -> (r: Result<(), DrbgError>)
    ensures
        r == Ok::<(), DrbgError>(()),
        final(ctx)@ == old(ctx)@.update(data@),
{
    let mut tmp: [u8; 48] = [0u8; 48];
    let ghost key = ctx.key@;
    let ghost counter = ctx.counter@;
    let mut j: usize = 0;
    while j < 3
        invariant
            j <= 3,
            ctx.key@ == key,
            ctx.counter@ == advance(counter, j as nat),
            ctx.settled_as(old(ctx)),
            forall|m: nat|
                1 <= m <= j ==> block(tmp@, (m - 1) as nat) == aes256_encrypt(
                    key,
                    #[trigger] advance(counter, m),
                ),
        decreases 3 - j,
    {
        // Increase the counter and encrypt it.
        increment_counter(&mut ctx.counter);
        let stream: [u8; 16] = encrypt_block(&ctx.key, &ctx.counter);
        put_block(&mut tmp, 16 * j, &stream);
        j += 1;
    }
    proof {
        reveal_with_fuel(keystream, 4);
        assert(tmp@ =~= keystream(key, counter, 3));
    }
    xor_seed(&mut tmp, data);

    // The new key and the new counter.
    ctx.key = key_part(&tmp);
    ctx.counter = block_at(&tmp, 32);
    proof {
        old(ctx).lemma_view();
        ctx.lemma_view();
    }
    func_exit(&mut tmp, Ok(()))
}

/// Leaves `mbedtls_ctr_drbg_update_ret`: erases the derived input and hands
/// `ret` on.
pub fn funct_exit(add_input: &mut [u8; 48], ret: Result<(), DrbgError>) -> (r: Result<
    (),
    DrbgError,
>)
    ensures
        r == ret,
        final(add_input)@ == zeros(48),
{
    wipe(add_input);
    ret
}

/// Mixes `additional` into the state. Nothing happens where it is empty; one
/// longer than the derivation function takes is refused with `InputTooBig`
/// and changes nothing.
pub fn mbedtls_ctr_drbg_update_ret<E: EntropySource>(
    ctx: &mut CtrDrbgContext<E>,
    additional: &[u8],
) -> (r: Result<(), DrbgError>)
    ensures
        (final(ctx)@, r) == old(ctx)@.update_with(additional@),
{
    let mut add_input: [u8; 48] = [0u8; 48];
    if additional.len() == 0 {
        return Ok(());
    }
    match block_cipher_df(&mut add_input, additional) {
        Err(e) => {
            return funct_exit(&mut add_input, Err(e));
        },
        Ok(_) => {},
    }
    match ctr_drbg_update_internal(ctx, &add_input) {
        Err(e) => {
            return funct_exit(&mut add_input, Err(e));
        },
        Ok(_) => {},
    }
    funct_exit(&mut add_input, Ok(()))
}

/// Mixes `additional` into the state, as `mbedtls_ctr_drbg_update_ret` does,
/// but of an input longer than the derivation function takes it uses the
/// first bytes, as many as that takes.
pub fn mbedtls_ctr_drbg_update<E: EntropySource>(ctx: &mut CtrDrbgContext<E>, additional: &[u8])
    ensures
        final(ctx)@ == old(ctx)@.update_with(
            if additional@.len() > MBEDTLS_CTR_DRBG_MAX_SEED_INPUT {
                additional@.take(MBEDTLS_CTR_DRBG_MAX_SEED_INPUT as int)
            } else {
                additional@
            },
        ).0,
{
    let used: &[u8] = if additional.len() > MBEDTLS_CTR_DRBG_MAX_SEED_INPUT {
        vstd::slice::slice_subrange(additional, 0, MBEDTLS_CTR_DRBG_MAX_SEED_INPUT)
    } else {
        additional
    };
    let _ = mbedtls_ctr_drbg_update_ret(ctx, used);
}

} // verus!
