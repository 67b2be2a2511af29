//! Seeding and reseeding: fresh entropy, a nonce where one is asked for, and
//! the caller's additional input go through the derivation function and the
//! state update.

use vstd::prelude::*;
use crate::context::CtrDrbgContext;
use crate::derivation::block_cipher_df;
use crate::entropy::{answered, EntropySource, Request};
use crate::error::DrbgError;
use crate::params::{
    MBEDTLS_CTR_DRBG_ENTROPY_LEN, MBEDTLS_CTR_DRBG_KEYSIZE, MBEDTLS_CTR_DRBG_MAX_SEED_INPUT,
};
use crate::state::spec_good_nonce_len;
use crate::update::ctr_drbg_update_internal;
use crate::wipe::{wipe, wipe_vec};

verus! {

/// Leaves a reseed: erases the seed buffer and hands `ret` on.
pub fn functi_exit(seed: &mut Vec<u8>, ret: Result<(), DrbgError>) -> (r: Result<(), DrbgError>)
    ensures
        r == ret,
        final(seed)@ == Seq::<u8>::empty(),
{
    wipe_vec(seed);
    ret
}

/// Asks the source for `len` bytes and puts them behind what `seed` holds.
/// Bytes that are not `len` in number are not taken. The request is the last
/// in the state that this leaves.
fn ask<E: EntropySource>(ctx: &mut CtrDrbgContext<E>, len: usize, seed: &mut Vec<u8>) -> (ok: bool)
    requires
        old(ctx)@.source is Some,
    ensures
        final(ctx)@.requests.len() == old(ctx)@.requests.len() + 1,
        final(ctx)@.requests.last().len == len,
        final(ctx)@ == old(ctx)@.ask(final(ctx)@.requests.last()),
        old(ctx)@.source.unwrap().responds(
            len as nat,
            final(ctx)@.requests.last().answer,
            &final(ctx)@.requests.last().left,
        ),
        match final(ctx)@.requests.last().entropy() {
            Some(bytes) => ok && final(seed)@ == old(seed)@ + bytes,
            None => !ok && final(seed)@ == old(seed)@,
        },
{
    proof {
        old(ctx).lemma_view();
    }
    let ok: bool = match &mut ctx.source {
        Some(source) => {
            match source.fill(len) {
                Some(mut bytes) => {
                    ctx.requests = Ghost(
                        ctx.requests@.push(
                            Request { len: len as nat, answer: Some(bytes@), left: *source },
                        ),
                    );
                    let ok: bool = bytes.len() == len;
                    if ok {
                        seed.extend_from_slice(bytes.as_slice());
                    }
                    wipe_vec(&mut bytes);
                    ok
                },
                None => {
                    ctx.requests = Ghost(
                        ctx.requests@.push(Request { len: len as nat, answer: None, left: *source }),
                    );
                    false
                },
            }
        },
        None => false,
    };
    proof {
        ctx.lemma_view();
    }
    ok
}

/// Reseeds the generator from entropy that is already at hand: `seed_input`
/// is the entropy, the nonce if there is one, and the additional input, one
/// behind the other. A `seed_input` that the derivation function does not
/// take is refused with `InputTooBig` and changes nothing; any other goes
/// through the derivation function and the state update, and the reseed
/// counter starts again at 1.
pub fn ctr_drbg_reseed_from<E: EntropySource>(ctx: &mut CtrDrbgContext<E>, seed_input: &[u8]) -> (r:
    Result<(), DrbgError>)
    ensures
        seed_input@.len() > MBEDTLS_CTR_DRBG_MAX_SEED_INPUT ==> r == Err::<(), DrbgError>(
            DrbgError::InputTooBig,
        ) && final(ctx)@ == old(ctx)@,
        seed_input@.len() <= MBEDTLS_CTR_DRBG_MAX_SEED_INPUT ==> r == Ok::<(), DrbgError>(())
            && final(ctx)@ == old(ctx)@.reseeded(seed_input@),
{
    let mut material: [u8; 48] = [0u8; 48];
    match block_cipher_df(&mut material, seed_input) {
        Err(e) => {
            return Err(e);
        },
        Ok(_) => {},
    }
    match ctr_drbg_update_internal(ctx, &material) {
        Err(e) => {
            wipe(&mut material);
            return Err(e);
        },
        Ok(_) => {},
    }
    let ghost updated = *ctx;
    ctx.reseed_counter = 1;
    proof {
        updated.lemma_view();
        ctx.lemma_view();
    }
    wipe(&mut material);
    Ok(())
}

/// Reseeds the generator with `additional` and a nonce of `nonce_len` bytes,
/// as `DrbgState::reseed` says. The requests that it makes of the source are
/// the last in the state it leaves, and what came of them is what the reseed
/// went by.
pub fn mbedtls_ctr_drbg_reseed_internal<E: EntropySource>(
    ctx: &mut CtrDrbgContext<E>,
    additional: &[u8],
    nonce_len: usize,
) -> (r: Result<(), DrbgError>)
    ensures
        (final(ctx)@, r) == old(ctx)@.reseed(
            additional@,
            nonce_len as nat,
            old(ctx)@.first_new(final(ctx)@),
            old(ctx)@.second_new(final(ctx)@),
        ),
        old(ctx)@.source matches Some(source) ==> answered(
            source,
            old(ctx)@.new_requests(final(ctx)@),
        ),
{
    let ghost start = ctx@;
    proof {
        old(ctx).lemma_view();
        assert(start.new_requests(start) =~= Seq::empty());
    }
    if ctx.entropy_len > MBEDTLS_CTR_DRBG_MAX_SEED_INPUT {
        return Err(DrbgError::InputTooBig);
    }
    if nonce_len > MBEDTLS_CTR_DRBG_MAX_SEED_INPUT - ctx.entropy_len {
        return Err(DrbgError::InputTooBig);
    }
    if additional.len() > MBEDTLS_CTR_DRBG_MAX_SEED_INPUT - ctx.entropy_len - nonce_len {
        return Err(DrbgError::InputTooBig);
    }
    if ctx.source.is_none() {
        return Err(DrbgError::EntropySourceFailed);
    }
    let mut seed: Vec<u8> = Vec::new();
    let entropy_len: usize = ctx.entropy_len;

    // Gather the entropy to seed the state with.
    let delivered: bool = ask(ctx, entropy_len, &mut seed);
    let ghost first = ctx@.requests.last();
    proof {
        assert(start.new_requests(ctx@) =~= seq![first]);
    }
    if !delivered {
        return functi_exit(&mut seed, Err(DrbgError::EntropySourceFailed));
    }

    // Gather entropy for a nonce if one is asked for.
    if nonce_len != 0 {
        let delivered: bool = ask(ctx, nonce_len, &mut seed);
        let ghost second = ctx@.requests.last();
        proof {
            assert(start.new_requests(ctx@) =~= seq![first, second]);
        }
        if !delivered {
            return functi_exit(&mut seed, Err(DrbgError::EntropySourceFailed));
        }
    }
    let ghost gathered = ctx@;

    // Add the additional data.
    seed.extend_from_slice(additional);

    // Reduce to one seed length and update the state.
    let r = ctr_drbg_reseed_from(ctx, seed.as_slice());
    proof {
        if nonce_len == 0 {
            assert(seed@ == first.entropy().unwrap() + additional@);
        } else {
            let second = gathered.requests.last();
            assert(seed@ == first.entropy().unwrap() + second.entropy().unwrap() + additional@);
        }
    }
    functi_exit(&mut seed, r)
}

/// Reseeds the generator with `additional` and no nonce.
pub fn mbedtls_ctr_drbg_reseed<E: EntropySource>(
    ctx: &mut CtrDrbgContext<E>,
    additional: &[u8],
) -> (r: Result<(), DrbgError>)
    ensures
        (final(ctx)@, r) == old(ctx)@.reseed(
            additional@,
            0,
            old(ctx)@.first_new(final(ctx)@),
            old(ctx)@.second_new(final(ctx)@),
        ),
        old(ctx)@.source matches Some(source) ==> answered(
            source,
            old(ctx)@.new_requests(final(ctx)@),
        ),
{
    mbedtls_ctr_drbg_reseed_internal(ctx, additional, 0)
}

/// A nonce length that gives the generator its full strength with
/// `entropy_len` bytes of entropy. Where the entropy alone is long enough to
/// serve as entropy and nonce both, the source is not asked a second time.
pub fn good_nonce_len(entropy_len: usize) -> (len: usize)
    ensures
        len == spec_good_nonce_len(entropy_len as nat),
{
    if entropy_len >= MBEDTLS_CTR_DRBG_KEYSIZE * 3 / 2 {
        0
    } else {
        (entropy_len + 1) / 2
    }
}

/// Seeds the generator: binds `source` to it for this and all later reseeds,
/// and reseeds it with the personalization string `custom`, as
/// `DrbgState::seed` says. The requests that it makes of the source are the
/// last in the state it leaves.
pub fn mbedtls_ctr_drbg_seed<E: EntropySource>(
    ctx: &mut CtrDrbgContext<E>,
    source: E,
    custom: &[u8],
) -> (r: Result<(), DrbgError>)
    ensures
        (final(ctx)@, r) == old(ctx)@.seed(
            source,
            custom@,
            old(ctx)@.first_new(final(ctx)@),
            old(ctx)@.second_new(final(ctx)@),
        ),
        answered(source, old(ctx)@.new_requests(final(ctx)@)),
{
    proof {
        old(ctx).lemma_view();
    }
    ctx.source = Some(source);
    if ctx.entropy_len == 0 {
        ctx.entropy_len = MBEDTLS_CTR_DRBG_ENTROPY_LEN;
    }
    // The nonce length that was set, or else one that is long enough.
    let nonce_len: usize = match ctx.nonce_len {
        Some(len) => len,
        None => good_nonce_len(ctx.entropy_len),
    };

    // Start from an all-zero key.
    wipe(&mut ctx.key);
    proof {
        ctx.lemma_view();
    }
    mbedtls_ctr_drbg_reseed_internal(ctx, custom, nonce_len)
}

} // verus!
