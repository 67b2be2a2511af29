//! What holds of the generator whatever its state and its inputs.

use vstd::prelude::*;
use vstd::arithmetic::div_mod::{
    lemma_add_mod_noop_right, lemma_fundamental_div_mod, lemma_mod_self_0, lemma_small_mod,
};
use crate::bytes::{advance, increment, lemma_advance_len, lemma_increment_len, zeros};
use crate::entropy::Request;
use crate::error::DrbgError;
use crate::params::{
    MBEDTLS_CTR_DRBG_MAX_INPUT, MBEDTLS_CTR_DRBG_MAX_REQUEST, MBEDTLS_CTR_DRBG_MAX_SEED_INPUT,
};
use crate::state::DrbgState;

verus! {

/// 256 to the power of `n`.
pub open spec fn pow256(n: nat) -> nat
    decreases n,
{
    if n == 0 {
        1
    } else {
        256 * pow256((n - 1) as nat)
    }
}

/// The number that `s` is in big-endian notation.
pub open spec fn be_value(s: Seq<u8>) -> nat
    decreases s.len(),
{
    if s.len() == 0 {
        0
    } else {
        256 * be_value(s.drop_last()) + s.last() as nat
    }
}

/// A string of `n` bytes is a number below 256 to the power of `n`.
pub proof fn lemma_be_value_bound(s: Seq<u8>)
    ensures
        be_value(s) < pow256(s.len()),
    decreases s.len(),
{
    if s.len() > 0 {
        lemma_be_value_bound(s.drop_last());
    }
}

/// `increment` adds one to the number that a string is, modulo 256 to the
/// power of its length.
pub proof fn lemma_increment_value(s: Seq<u8>)
    ensures
        increment(s).len() == s.len(),
        be_value(increment(s)) == (be_value(s) + 1) % pow256(s.len()),
    decreases s.len(),
{
    lemma_increment_len(s);
    lemma_be_value_bound(s);
    if s.len() == 0 {
    } else if s.last() == 255u8 {
        let init = s.drop_last();
        lemma_increment_value(init);
        lemma_be_value_bound(init);
        let q = be_value(init);
        let p = pow256(init.len());
        assert(increment(s).drop_last() =~= increment(init));
        if q + 1 < p {
            lemma_small_mod(q + 1, p);
            lemma_small_mod(256 * (q + 1), 256 * p);
        } else {
            lemma_mod_self_0(p as int);
            lemma_mod_self_0(256 * p as int);
        }
    } else {
        assert(increment(s).drop_last() =~= s.drop_last());
        lemma_small_mod(be_value(s) + 1, pow256(s.len()));
    }
}

/// `advance` by `n` adds `n` to the number that a string is, modulo 256 to the
/// power of its length.
pub proof fn lemma_advance_value(s: Seq<u8>, n: nat)
    ensures
        advance(s, n).len() == s.len(),
        be_value(advance(s, n)) == (be_value(s) + n) % pow256(s.len()),
    decreases n,
{
    lemma_advance_len(s, n);
    lemma_be_value_bound(s);
    if n == 0 {
        lemma_small_mod(be_value(s), pow256(s.len()));
    } else {
        let before = advance(s, (n - 1) as nat);
        lemma_advance_value(s, (n - 1) as nat);
        lemma_increment_value(before);
        lemma_add_mod_noop_right(1, be_value(s) + n - 1, pow256(s.len()) as int);
    }
}

/// The counter does not come back to a value it had before it has run
/// through all the values of its length: two different numbers of increments,
/// less than 256 to the power of the length apart, give different strings.
pub proof fn lemma_advance_distinct(s: Seq<u8>, i: nat, j: nat)
    requires
        i < j,
        j - i < pow256(s.len()),
    ensures
        advance(s, i) != advance(s, j),
{
    lemma_advance_value(s, i);
    lemma_advance_value(s, j);
    if advance(s, i) == advance(s, j) {
        let p = pow256(s.len()) as int;
        let a: int = (be_value(s) + i) as int;
        let b: int = (be_value(s) + j) as int;
        lemma_fundamental_div_mod(a, p);
        lemma_fundamental_div_mod(b, p);
        let d: int = b / p - a / p;
        assert(j - i == p * d) by (nonlinear_arith)
            requires
                a == p * (a / p) + a % p,
                b == p * (b / p) + b % p,
                a % p == b % p,
                d == b / p - a / p,
                b - a == j - i,
        ;
        assert(false) by (nonlinear_arith)
            requires
                0 < p * d < p,
        ;
    }
}

/// The counter block has 2 to the power of 128 values.
pub proof fn lemma_counter_values()
    ensures
        pow256(16) == 0x1_0000_0000_0000_0000_0000_0000_0000_0000,
{
    reveal_with_fuel(pow256, 17);
}

/// A generate call never encrypts one counter value twice: the blocks of its
/// key stream and the three blocks of the update that follows are the
/// encryptions of the counter after one, two, three and more increments, and
/// those are all different, as a call encrypts fewer blocks than the counter
/// has values.
pub proof fn lemma_counters_in_a_call_differ(counter: Seq<u8>, i: nat, j: nat)
    requires
        counter.len() == 16,
        i < j <= MBEDTLS_CTR_DRBG_MAX_REQUEST,
    ensures
        advance(counter, i) != advance(counter, j),
{
    lemma_counter_values();
    lemma_advance_distinct(counter, i, j);
}

/// When a reseed succeeds and how it fails. It succeeds where the lengths fit
/// the seed buffer, the generator has a source, and the source delivers the
/// entropy and, if a nonce is wanted, the nonce; the reseed counter is 1 then.
/// It fails with `InputTooBig` where the lengths do not fit, and with
/// `EntropySourceFailed` in every other case. Where it fails, working state
/// and reseed counter are as they were.
pub proof fn lemma_reseed_outcomes<E>(
    state: DrbgState<E>,
    additional: Seq<u8>,
    nonce_len: nat,
    first: Request<E>,
    second: Request<E>,
)
    ensures
        ({
            let (after, r) = state.reseed(additional, nonce_len, first, second);
            let delivered = (Request { len: state.entropy_len, ..first }).entropy() is Some && (
            nonce_len > 0 ==> (Request { len: nonce_len, ..second }).entropy() is Some);
            &&& r is Ok <==> state.seed_fits(additional, nonce_len) && state.source is Some
                && delivered
            &&& r == Err::<(), DrbgError>(DrbgError::InputTooBig) <==> !state.seed_fits(
                additional,
                nonce_len,
            )
            &&& r is Ok || r == Err::<(), DrbgError>(DrbgError::InputTooBig) || r == Err::<
                (),
                DrbgError,
            >(DrbgError::EntropySourceFailed)
            &&& r is Ok ==> after.reseed_counter == 1
            &&& r is Err ==> after.key == state.key && after.counter == state.counter
                && after.reseed_counter == state.reseed_counter
            &&& r == Err::<(), DrbgError>(DrbgError::InputTooBig) || state.source is None
                ==> after == state
        }),
{
}

/// When a generate call succeeds and how it fails. A request over the limit
/// fails with `RequestTooBig`, and nothing else does. Within that limit, an
/// additional input over its limit fails with `InputTooBig`, a generator
/// without a source with `EntropySourceFailed`, and a call on which a reseed
/// is due fails as the reseed does. Every other call succeeds. The source is
/// asked at most once, and only where a reseed is due.
pub proof fn lemma_generate_outcomes<E>(
    state: DrbgState<E>,
    output_len: nat,
    additional: Seq<u8>,
    reply: Request<E>,
)
    ensures
        ({
            let (after, r) = state.generate(output_len, additional, reply);
            let reseed = state.reseed(additional, 0, reply, reply).1;
            &&& r == Err::<Seq<u8>, DrbgError>(DrbgError::RequestTooBig) <==> output_len
                > MBEDTLS_CTR_DRBG_MAX_REQUEST
            &&& r is Ok <==> output_len <= MBEDTLS_CTR_DRBG_MAX_REQUEST && additional.len()
                <= MBEDTLS_CTR_DRBG_MAX_INPUT && state.source is Some && (state.reseed_due()
                ==> reseed is Ok)
            &&& output_len <= MBEDTLS_CTR_DRBG_MAX_REQUEST && additional.len()
                > MBEDTLS_CTR_DRBG_MAX_INPUT ==> r == Err::<Seq<u8>, DrbgError>(
                DrbgError::InputTooBig,
            ) && after == state
            &&& output_len <= MBEDTLS_CTR_DRBG_MAX_REQUEST && additional.len()
                <= MBEDTLS_CTR_DRBG_MAX_INPUT && state.source is None ==> r == Err::<
                Seq<u8>,
                DrbgError,
            >(DrbgError::EntropySourceFailed) && after == state
            &&& output_len <= MBEDTLS_CTR_DRBG_MAX_REQUEST && additional.len()
                <= MBEDTLS_CTR_DRBG_MAX_INPUT && state.source is Some && state.reseed_due()
                ==> (reseed matches Err(e) ==> r == Err::<Seq<u8>, DrbgError>(e))
            &&& after.requests.len() <= state.requests.len() + 1
            &&& !state.reseed_due() ==> after.requests == state.requests
            &&& r is Ok ==> after.reseed_counter == if state.reseed_due() {
                2
            } else {
                state.reseed_counter + 1
            }
        }),
{
}

/// The output stage for no bytes puts out nothing, updates the state with the
/// material and counts the call.
pub proof fn lemma_produce_nothing<E>(state: DrbgState<E>, material: Seq<u8>)
    ensures
        state.produce(0, material) == (
            DrbgState { reseed_counter: state.reseed_counter + 1, ..state.update(material) },
            Seq::<u8>::empty(),
        ),
{
}

/// A generate call for no bytes is one for any number of bytes without the
/// output: it puts out nothing, and leaves the state that an update with the
/// call's material, counted as a call, makes of the state that the call
/// prepared. With no additional input and no reseed due, that is the update
/// of the state as it was with an all-zero block, and the source is not
/// asked.
pub proof fn lemma_generate_nothing<E>(
    state: DrbgState<E>,
    additional: Seq<u8>,
    reply: Request<E>,
)
    ensures
        state.prepare(additional, reply).1 matches Ok(material) ==> state.generate(
            0,
            additional,
            reply,
        ) == (
            DrbgState {
                reseed_counter: state.prepare(additional, reply).0.reseed_counter + 1,
                ..state.prepare(additional, reply).0.update(material)
            },
            Ok::<Seq<u8>, DrbgError>(Seq::<u8>::empty()),
        ),
        state.prepare(additional, reply).1 matches Err(e) ==> state.generate(
            0,
            additional,
            reply,
        ) == (state.prepare(additional, reply).0, Err::<Seq<u8>, DrbgError>(e)),
        state.source is Some && !state.reseed_due() ==> state.generate(
            0,
            Seq::<u8>::empty(),
            reply,
        ) == (
            DrbgState { reseed_counter: state.reseed_counter + 1, ..state.update(zeros(48)) },
            Ok::<Seq<u8>, DrbgError>(Seq::<u8>::empty()),
        ),
{
    match state.prepare(additional, reply).1 {
        Ok(material) => {
            lemma_produce_nothing(state.prepare(additional, reply).0, material);
        },
        Err(_) => {},
    }
    lemma_produce_nothing(state, zeros(48));
}

/// A request over the limit is refused with `RequestTooBig`, whatever else
/// holds, and the state stays as it was: the source is not asked.
pub proof fn lemma_request_too_big<E>(
    state: DrbgState<E>,
    output_len: nat,
    additional: Seq<u8>,
    reply: Request<E>,
)
    requires
        output_len > MBEDTLS_CTR_DRBG_MAX_REQUEST,
    ensures
        state.generate(output_len, additional, reply) == (
            state,
            Err::<Seq<u8>, DrbgError>(DrbgError::RequestTooBig),
        ),
{
}

/// A generate call that succeeds moves the generator on: it leaves a state
/// that is not the one it found. Without a reseed it has counted one on the
/// reseed counter and has not asked the source; with a reseed it has asked the
/// source once.
pub proof fn lemma_generate_moves_on<E>(
    state: DrbgState<E>,
    output_len: nat,
    additional: Seq<u8>,
    reply: Request<E>,
)
    requires
        state.generate(output_len, additional, reply).1 is Ok,
    ensures
        state.generate(output_len, additional, reply).0 != state,
        !state.reseed_due() ==> {
            &&& state.generate(output_len, additional, reply).0.reseed_counter
                == state.reseed_counter + 1
            &&& state.generate(output_len, additional, reply).0.requests == state.requests
        },
        state.reseed_due() ==> state.generate(output_len, additional, reply).0.requests.len()
            == state.requests.len() + 1,
{
    let after = state.generate(output_len, additional, reply).0;
    if state.reseed_due() {
        assert(after.requests.len() == state.requests.len() + 1);
    } else {
        assert(after.reseed_counter == state.reseed_counter + 1);
    }
}

/// Whether each of `calls` is within the limits of a generate call.
pub open spec fn within_limits<E>(calls: Seq<(nat, Seq<u8>, Request<E>)>) -> bool {
    forall|i: int|
        0 <= i < calls.len() ==> (#[trigger] calls[i]).0 <= MBEDTLS_CTR_DRBG_MAX_REQUEST
            && calls[i].1.len() <= MBEDTLS_CTR_DRBG_MAX_INPUT
}

/// From a reseed on, generate calls that are within their limits, up to as
/// many as the reseed interval allows, do not ask the source: each counts one
/// on the reseed counter and leaves source and configuration alone.
pub proof fn lemma_generates_between_reseeds<E>(
    state: DrbgState<E>,
    calls: Seq<(nat, Seq<u8>, Request<E>)>,
)
    requires
        state.source is Some,
        state.reseed_counter == 1,
        !state.prediction_resistance,
        calls.len() <= state.reseed_interval,
        within_limits(calls),
    ensures
        state.after_generates(calls).reseed_counter == 1 + calls.len(),
        state.after_generates(calls).requests == state.requests,
        state.after_generates(calls).source == state.source,
        state.after_generates(calls).reseed_interval == state.reseed_interval,
        state.after_generates(calls).entropy_len == state.entropy_len,
        state.after_generates(calls).nonce_len == state.nonce_len,
        state.after_generates(calls).prediction_resistance == state.prediction_resistance,
    decreases calls.len(),
{
    if calls.len() > 0 {
        lemma_generates_between_reseeds(state, calls.drop_last());
    }
}

/// Once as many generate calls as the reseed interval allows have followed a
/// reseed, none of which has asked the source, the next one reseeds before it
/// produces output. Where the entropy and the call's additional input fit the
/// seed buffer together, it asks the source exactly once, for the entropy
/// length. Where the source delivers, the call succeeds and the reseed
/// counter starts again: it is 2 after the call. Where it does not, the call
/// fails with `EntropySourceFailed`.
pub proof fn lemma_reseed_after_interval<E>(
    state: DrbgState<E>,
    calls: Seq<(nat, Seq<u8>, Request<E>)>,
    output_len: nat,
    additional: Seq<u8>,
    reply: Request<E>,
)
    requires
        state.source is Some,
        state.reseed_counter == 1,
        !state.prediction_resistance,
        calls.len() == state.reseed_interval,
        within_limits(calls),
        output_len <= MBEDTLS_CTR_DRBG_MAX_REQUEST,
        additional.len() <= MBEDTLS_CTR_DRBG_MAX_INPUT,
        state.entropy_len + additional.len() <= MBEDTLS_CTR_DRBG_MAX_SEED_INPUT,
    ensures
        state.after_generates(calls).requests == state.requests,
        state.after_generates(calls).reseed_due(),
        state.after_generates(calls).generate(output_len, additional, reply).0.requests
            == state.requests.push(Request { len: state.entropy_len, ..reply }),
        (Request { len: state.entropy_len, ..reply }).entropy() is Some ==> {
            &&& state.after_generates(calls).generate(output_len, additional, reply).1 is Ok
            &&& state.after_generates(calls).generate(
                output_len,
                additional,
                reply,
            ).0.reseed_counter == 2
        },
        (Request { len: state.entropy_len, ..reply }).entropy() is None
            ==> state.after_generates(calls).generate(output_len, additional, reply).1 == Err::<
            Seq<u8>,
            DrbgError,
        >(DrbgError::EntropySourceFailed),
{
    lemma_generates_between_reseeds(state, calls);
}

} // verus!
