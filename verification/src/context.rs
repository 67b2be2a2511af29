//! The generator's context: what it holds, how it is set up, configured and
//! torn down.

use vstd::prelude::*;
use crate::bytes::zeros;
use crate::entropy::{EntropySource, Request};
use crate::error::DrbgError;
use crate::params::{MBEDTLS_CTR_DRBG_MAX_SEED_INPUT, MBEDTLS_CTR_DRBG_RESEED_INTERVAL};
use crate::state::DrbgState;
use crate::wipe::wipe;

verus! {

/// A generator over a source of entropy `E`.
pub struct CtrDrbgContext<E: EntropySource> {
    pub(crate) key: [u8; 32],
    pub(crate) counter: [u8; 16],
    pub(crate) reseed_counter: i64,
    pub(crate) reseed_interval: i32,
    pub(crate) entropy_len: usize,
    pub(crate) nonce_len: Option<usize>,
    pub(crate) prediction_resistance: bool,
    pub(crate) source: Option<E>,
    pub(crate) requests: Ghost<Seq<Request<E>>>,
}

impl<E: EntropySource> View for CtrDrbgContext<E> {
    type V = DrbgState<E>;

    closed spec fn view(&self) -> DrbgState<E> {
        DrbgState {
            key: self.key@,
            counter: self.counter@,
            reseed_counter: self.reseed_counter as int,
            reseed_interval: self.reseed_interval as int,
            entropy_len: self.entropy_len as nat,
            nonce_len: match self.nonce_len {
                Some(len) => Some(len as nat),
                None => None,
            },
            prediction_resistance: self.prediction_resistance,
            source: self.source,
            requests: self.requests@,
        }
    }
}

impl<E: EntropySource> CtrDrbgContext<E> {
    /// What the view is, field by field.
    pub(crate) proof fn lemma_view(&self)
        ensures
            self@.key == self.key@,
            self@.counter == self.counter@,
            self@.reseed_counter == self.reseed_counter,
            self@.reseed_interval == self.reseed_interval,
            self@.entropy_len == self.entropy_len,
            self@.nonce_len == match self.nonce_len {
                Some(len) => Some(len as nat),
                None => None::<nat>,
            },
            self@.prediction_resistance == self.prediction_resistance,
            self@.source == self.source,
            self@.requests == self.requests@,
    {
    }

    /// Whether this context differs from `other` in the working state at
    /// most.
    pub(crate) open spec fn settled_as(&self, other: &Self) -> bool {
        &&& self.reseed_counter == other.reseed_counter
        &&& self.reseed_interval == other.reseed_interval
        &&& self.entropy_len == other.entropy_len
        &&& self.nonce_len == other.nonce_len
        &&& self.prediction_resistance == other.prediction_resistance
        &&& self.source == other.source
        &&& self.requests == other.requests
    }

    /// A generator that is set up and not seeded.
    pub fn new() -> (ctx: Self)
        ensures
            ctx@ == DrbgState::<E>::initial(),
    {
        let ctx = CtrDrbgContext {
            key: [0u8; 32],
            counter: [0u8; 16],
            reseed_counter: -1,
            reseed_interval: MBEDTLS_CTR_DRBG_RESEED_INTERVAL,
            entropy_len: 0,
            nonce_len: None,
            prediction_resistance: false,
            source: None,
            requests: Ghost(Seq::empty()),
        };
        assert(ctx.key@ =~= zeros(32));
        assert(ctx.counter@ =~= zeros(16));
        ctx
    }

    /// One more than the generate calls since the last reseed; -1 until the
    /// first.
    pub fn reseed_counter(&self) -> (n: i64)
        ensures
            n == self@.reseed_counter,
    {
        self.reseed_counter
    }

    /// The generate calls allowed between two reseeds.
    pub fn reseed_interval(&self) -> (n: i32)
        ensures
            n == self@.reseed_interval,
    {
        self.reseed_interval
    }

    /// The bytes of entropy taken at each seed and reseed.
    pub fn entropy_len(&self) -> (len: usize)
        ensures
            len == self@.entropy_len,
    {
        self.entropy_len
    }

    /// The nonce length set for seeding, where one was set.
    pub fn nonce_len(&self) -> (len: Option<usize>)
        ensures
            match len {
                Some(n) => self@.nonce_len == Some(n as nat),
                None => self@.nonce_len is None,
            },
    {
        self.nonce_len
    }

    /// Whether every generate call reseeds first.
    pub fn prediction_resistance(&self) -> (on: bool)
        ensures
            on == self@.prediction_resistance,
    {
        self.prediction_resistance
    }

    /// The source of entropy, once the generator has been given one.
    pub fn source(&self) -> (source: Option<&E>)
        ensures
            match source {
                Some(bound) => self@.source == Some(*bound),
                None => self@.source is None,
            },
    {
        match &self.source {
            Some(bound) => Some(bound),
            None => None,
        }
    }
}

/// Sets the generator up for seeding: whatever it held, it is afterwards as
/// `new` makes it.
pub fn mbedtls_ctr_drbg_init<E: EntropySource>(ctx: &mut CtrDrbgContext<E>)
    ensures
        final(ctx)@ == DrbgState::<E>::initial(),
{
    wipe(&mut ctx.key);
    wipe(&mut ctx.counter);
    ctx.reseed_counter = -1;
    ctx.reseed_interval = MBEDTLS_CTR_DRBG_RESEED_INTERVAL;
    ctx.entropy_len = 0;
    ctx.nonce_len = None;
    ctx.prediction_resistance = false;
    ctx.source = None;
    ctx.requests = Ghost(Seq::empty());
}

/// Clears the generator: key and counter are erased, the source is let go,
/// and the generator is as it was before it was seeded.
pub fn mbedtls_ctr_drbg_free<E: EntropySource>(ctx: &mut CtrDrbgContext<E>)
    ensures
        final(ctx)@ == DrbgState::<E>::initial(),
{
    wipe(&mut ctx.key);
    wipe(&mut ctx.counter);
    ctx.source = None;
    ctx.entropy_len = 0;
    ctx.nonce_len = None;
    ctx.prediction_resistance = false;
    ctx.reseed_interval = MBEDTLS_CTR_DRBG_RESEED_INTERVAL;
    ctx.reseed_counter = -1;
    ctx.requests = Ghost(Seq::empty());
}

/// Turns prediction resistance on, for any `resistance` but zero, or off.
pub fn mbedtls_ctr_drbg_set_prediction_resistance<E: EntropySource>(
    ctx: &mut CtrDrbgContext<E>,
    resistance: i32,
)
    ensures
        final(ctx)@ == (DrbgState { prediction_resistance: resistance != 0, ..old(ctx)@ }),
{
    ctx.prediction_resistance = resistance != 0;
}

/// Sets the bytes of entropy taken at each seed and reseed.
pub fn mbedtls_ctr_drbg_set_entropy_len<E: EntropySource>(ctx: &mut CtrDrbgContext<E>, len: usize)
    ensures
        final(ctx)@ == (DrbgState { entropy_len: len as nat, ..old(ctx)@ }),
{
    ctx.entropy_len = len;
}

/// Sets the length of the nonce that seeding will take from the source. Once
/// the generator has a source it is too late, and the answer is
/// `EntropySourceFailed`; a length over the seed buffer's size is refused with
/// `InputTooBig`. Neither changes anything.
pub fn mbedtls_ctr_drbg_set_nonce_len<E: EntropySource>(
    ctx: &mut CtrDrbgContext<E>,
    len: usize,
) -> (r: Result<(), DrbgError>)
    ensures
        (final(ctx)@, r) == old(ctx)@.set_nonce_len(len as nat),
{
    if ctx.source.is_some() {
        return Err(DrbgError::EntropySourceFailed);
    }
    if len > MBEDTLS_CTR_DRBG_MAX_SEED_INPUT {
        return Err(DrbgError::InputTooBig);
    }
    ctx.nonce_len = Some(len);
    Ok(())
}

/// Sets the number of generate calls allowed between two reseeds.
pub fn mbedtls_ctr_drbg_set_reseed_interval<E: EntropySource>(
    ctx: &mut CtrDrbgContext<E>,
    interval: i32,
)
    ensures
        final(ctx)@ == (DrbgState { reseed_interval: interval as int, ..old(ctx)@ }),
{
    ctx.reseed_interval = interval;
}

} // verus!
