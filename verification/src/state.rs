//! The generator as a mathematical object: its state, and what each of its
//! operations makes of a state. What the source of entropy answers is not
//! for the generator to say: an operation that asks the source is told here
//! for every answer that may come.

use vstd::prelude::*;
use crate::bytes::{advance, xor_bytes, zeros};
use crate::cipher::aes256_encrypt;
use crate::derivation::df_seed;
use crate::entropy::Request;
use crate::error::DrbgError;
use crate::params::{
    MBEDTLS_CTR_DRBG_ENTROPY_LEN, MBEDTLS_CTR_DRBG_KEYSIZE, MBEDTLS_CTR_DRBG_MAX_INPUT,
    MBEDTLS_CTR_DRBG_MAX_REQUEST, MBEDTLS_CTR_DRBG_MAX_SEED_INPUT,
    MBEDTLS_CTR_DRBG_RESEED_INTERVAL,
};

verus! {

/// The state of a generator over a source of entropy `E`.
pub struct DrbgState<E> {
    /// The key of the working state.
    pub key: Seq<u8>,
    /// The counter block of the working state.
    pub counter: Seq<u8>,
    /// One more than the generate calls since the last reseed; -1 until the
    /// first.
    pub reseed_counter: int,
    /// The generate calls allowed between two reseeds.
    pub reseed_interval: int,
    /// The bytes of entropy taken at each seed and reseed; 0 stands for the
    /// default until the generator is seeded.
    pub entropy_len: nat,
    /// The nonce length set for seeding, where one was set.
    pub nonce_len: Option<nat>,
    /// Whether every generate call reseeds first.
    pub prediction_resistance: bool,
    /// The source of entropy, once the generator has been given one.
    pub source: Option<E>,
    /// Every request that the generator has made of a source since it was
    /// set up, in the order in which it made them.
    pub requests: Seq<Request<E>>,
}

/// The first `n` blocks of key stream under `key`: the encryptions of the
/// counter after one, two, up to `n` increments.
pub open spec fn keystream(key: Seq<u8>, counter: Seq<u8>, n: nat) -> Seq<u8>
    decreases n,
{
    if n == 0 {
        Seq::empty()
    } else {
        keystream(key, counter, (n - 1) as nat) + aes256_encrypt(key, advance(counter, n))
    }
}

/// The number of blocks that hold `n` bytes.
pub open spec fn blocks_for(n: nat) -> nat {
    (n + 15) / 16
}

/// A nonce length that, with `entropy_len` bytes of entropy, gives the
/// generator its full strength: none where the entropy alone is one and a half
/// keys long, else half the entropy length, rounded up.
pub open spec fn spec_good_nonce_len(entropy_len: nat) -> nat {
    if entropy_len >= MBEDTLS_CTR_DRBG_KEYSIZE * 3 / 2 {
        0
    } else {
        (entropy_len + 1) / 2
    }
}

impl<E> DrbgState<E> {
    /// The state of a generator that has been set up and not seeded.
    pub open spec fn initial() -> Self {
        DrbgState {
            key: zeros(32),
            counter: zeros(16),
            reseed_counter: -1,
            reseed_interval: MBEDTLS_CTR_DRBG_RESEED_INTERVAL as int,
            entropy_len: 0,
            nonce_len: None,
            prediction_resistance: false,
            source: None,
            requests: Seq::empty(),
        }
    }

    /// The state with another working state.
    pub open spec fn with_working(self, key: Seq<u8>, counter: Seq<u8>) -> Self {
        DrbgState { key, counter, ..self }
    }

    /// The requests that the generator has made between this state and the
    /// later state `after`.
    pub open spec fn new_requests(self, after: Self) -> Seq<Request<E>> {
        after.requests.skip(self.requests.len() as int)
    }

    /// The first request that the generator has made between this state and
    /// the later state `after`.
    pub open spec fn first_new(self, after: Self) -> Request<E> {
        after.requests[self.requests.len() as int]
    }

    /// The second request that the generator has made between this state and
    /// the later state `after`.
    pub open spec fn second_new(self, after: Self) -> Request<E> {
        after.requests[self.requests.len() as int + 1]
    }

    /// The state after `request` was made of the source.
    pub open spec fn ask(self, request: Request<E>) -> Self {
        DrbgState {
            source: Some(request.left),
            requests: self.requests.push(request),
            ..self
        }
    }

    /// Setting the nonce length that seeding will use. Once the generator has
    /// a source it is too late, and the answer is `EntropySourceFailed`; a
    /// length over the seed buffer's size is refused with `InputTooBig`.
    /// Neither changes the state.
    pub open spec fn set_nonce_len(self, len: nat) -> (Self, Result<(), DrbgError>) {
        if self.source is Some {
            (self, Err(DrbgError::EntropySourceFailed))
        } else if len > MBEDTLS_CTR_DRBG_MAX_SEED_INPUT {
            (self, Err(DrbgError::InputTooBig))
        } else {
            (DrbgState { nonce_len: Some(len), ..self }, Ok(()))
        }
    }

    /// The state update: three blocks of key stream, XORed with `material`,
    /// are the new key and the new counter.
    pub open spec fn update(self, material: Seq<u8>) -> Self {
        let fresh = xor_bytes(keystream(self.key, self.counter, 3), material);
        self.with_working(fresh.subrange(0, 32), fresh.subrange(32, 48))
    }

    /// `additional` mixed into the state without new entropy: nothing where it
    /// is empty, `InputTooBig` where the derivation function refuses it, else
    /// an update with what the derivation function makes of it.
    pub open spec fn update_with(self, additional: Seq<u8>) -> (Self, Result<(), DrbgError>) {
        if additional.len() == 0 {
            (self, Ok(()))
        } else if additional.len() > MBEDTLS_CTR_DRBG_MAX_SEED_INPUT {
            (self, Err(DrbgError::InputTooBig))
        } else {
            (self.update(df_seed(additional)), Ok(()))
        }
    }

    /// The state after a reseed whose entropy, nonce and additional input are
    /// `seed_input`, one behind the other: it is updated with what the
    /// derivation function makes of them, and the reseed counter is 1.
    pub open spec fn reseeded(self, seed_input: Seq<u8>) -> Self {
        DrbgState { reseed_counter: 1, ..self.update(df_seed(seed_input)) }
    }

    /// Whether entropy, a nonce of `nonce_len` bytes and `additional` fit the
    /// seed buffer together.
    pub open spec fn seed_fits(self, additional: Seq<u8>, nonce_len: nat) -> bool {
        self.entropy_len + nonce_len + additional.len() <= MBEDTLS_CTR_DRBG_MAX_SEED_INPUT
    }

    /// A reseed with `additional` and a nonce of `nonce_len` bytes: the state
    /// it leaves and how it ends, where `first` is what comes of the request
    /// for entropy and `second` what comes of the request for a nonce, as far
    /// as they are made. Lengths that do not fit the seed buffer together
    /// give `InputTooBig`, a generator without a source
    /// `EntropySourceFailed`; the source is not asked, and nothing changes.
    /// Otherwise the source is asked for the entropy and, where that is
    /// delivered and a nonce is wanted, for the nonce. A request that does
    /// not deliver ends the reseed with `EntropySourceFailed`; nothing has
    /// changed then but the source. Where all is delivered, the state is
    /// `reseeded` with the entropy, the nonce and `additional`.
    pub open spec fn reseed(
        self,
        additional: Seq<u8>,
        nonce_len: nat,
        first: Request<E>,
        second: Request<E>,
    ) -> (Self, Result<(), DrbgError>) {
        if !self.seed_fits(additional, nonce_len) {
            (self, Err(DrbgError::InputTooBig))
        } else if self.source is None {
            (self, Err(DrbgError::EntropySourceFailed))
        } else {
            let first = Request { len: self.entropy_len, ..first };
            let second = Request { len: nonce_len, ..second };
            match first.entropy() {
                None => (self.ask(first), Err(DrbgError::EntropySourceFailed)),
                Some(entropy) => if nonce_len == 0 {
                    (self.ask(first).reseeded(entropy + additional), Ok(()))
                } else {
                    match second.entropy() {
                        None => (
                            self.ask(first).ask(second),
                            Err(DrbgError::EntropySourceFailed),
                        ),
                        Some(nonce) => (
                            self.ask(first).ask(second).reseeded(entropy + nonce + additional),
                            Ok(()),
                        ),
                    }
                },
            }
        }
    }

    /// Seeding with `source` and the personalization string `custom`: the
    /// source is bound, the entropy length settled, the key set to zero, and
    /// the generator reseeded with `custom` and the nonce length that was set,
    /// or a good one where none was. `first` and `second` are what comes of
    /// the requests that the reseed makes.
    pub open spec fn seed(
        self,
        source: E,
        custom: Seq<u8>,
        first: Request<E>,
        second: Request<E>,
    ) -> (Self, Result<(), DrbgError>) {
        let entropy_len = if self.entropy_len == 0 {
            MBEDTLS_CTR_DRBG_ENTROPY_LEN as nat
        } else {
            self.entropy_len
        };
        let nonce_len = match self.nonce_len {
            Some(len) => len,
            None => spec_good_nonce_len(entropy_len),
        };
        let bound = DrbgState { key: zeros(32), entropy_len, source: Some(source), ..self };
        bound.reseed(custom, nonce_len, first, second)
    }

    /// Whether a generate call reseeds before it does anything else.
    pub open spec fn reseed_due(self) -> bool {
        self.reseed_counter > self.reseed_interval || self.prediction_resistance
    }

    /// What a generate call does before it produces output: the state in
    /// which the output starts, and the material for the update that follows
    /// the output, or the error. An additional input over its limit gives
    /// `InputTooBig` and a generator without a source `EntropySourceFailed`;
    /// neither changes the state. Where a reseed is due it comes first and
    /// takes `additional` with it, `reply` is what comes of its request for
    /// entropy, and the material is all zero; if it fails, so does the call,
    /// with the state the reseed left. Otherwise the source is not asked:
    /// `additional`, if any, is derived and updates the state, and what was
    /// derived is the material; with no additional input the material is all
    /// zero.
    pub open spec fn prepare(self, additional: Seq<u8>, reply: Request<E>) -> (
        Self,
        Result<Seq<u8>, DrbgError>,
    ) {
        if additional.len() > MBEDTLS_CTR_DRBG_MAX_INPUT {
            (self, Err(DrbgError::InputTooBig))
        } else if self.source is None {
            (self, Err(DrbgError::EntropySourceFailed))
        } else if self.reseed_due() {
            match self.reseed(additional, 0, reply, reply).1 {
                Err(e) => (self.reseed(additional, 0, reply, reply).0, Err(e)),
                Ok(_) => (self.reseed(additional, 0, reply, reply).0, Ok(zeros(48))),
            }
        } else if additional.len() > 0 {
            (self.update(df_seed(additional)), Ok(df_seed(additional)))
        } else {
            (self, Ok(zeros(48)))
        }
    }

    /// The output stage of a generate call: `output_len` bytes of key stream,
    /// then an update with `material` from the counter that the key stream has
    /// reached, and one more on the reseed counter.
    pub open spec fn produce(self, output_len: nat, material: Seq<u8>) -> (Self, Seq<u8>) {
        let blocks = blocks_for(output_len);
        let output = keystream(self.key, self.counter, blocks).take(output_len as int);
        let spent = self.with_working(self.key, advance(self.counter, blocks));
        let updated = spent.update(material);
        (DrbgState { reseed_counter: self.reseed_counter + 1, ..updated }, output)
    }

    /// A generate call for `output_len` bytes with `additional`: the state it
    /// leaves, and the output or the error, where `reply` is what comes of
    /// the request for entropy, if one is made. A request over the limit
    /// gives `RequestTooBig` and changes nothing. Any other is prepared as
    /// `prepare` says, and where that succeeds, the output is produced as
    /// `produce` says.
    pub open spec fn generate(self, output_len: nat, additional: Seq<u8>, reply: Request<E>) -> (
        Self,
        Result<Seq<u8>, DrbgError>,
    ) {
        if output_len > MBEDTLS_CTR_DRBG_MAX_REQUEST {
            (self, Err(DrbgError::RequestTooBig))
        } else {
            match self.prepare(additional, reply).1 {
                Err(e) => (self.prepare(additional, reply).0, Err(e)),
                Ok(material) => {
                    let (after, output) = self.prepare(additional, reply).0.produce(
                        output_len,
                        material,
                    );
                    (after, Ok(output))
                },
            }
        }
    }

    /// Taking in a seed file that held `contents`: a file that holds nothing,
    /// or more than an additional input may, is a `FileIoError` and changes
    /// nothing. Any other is mixed into the state.
    pub open spec fn update_seed_file(self, contents: Seq<u8>) -> (Self, Result<(), DrbgError>) {
        if contents.len() == 0 || contents.len() > MBEDTLS_CTR_DRBG_MAX_INPUT {
            (self, Err(DrbgError::FileIoError))
        } else {
            (self.update(df_seed(contents)), Ok(()))
        }
    }

    /// The state after a run of generate calls, each given by its output
    /// length, its additional input and what comes of its request for
    /// entropy, if it makes one.
    pub open spec fn after_generates(self, calls: Seq<(nat, Seq<u8>, Request<E>)>) -> Self
        decreases calls.len(),
    {
        if calls.len() == 0 {
            self
        } else {
            self.after_generates(calls.drop_last()).generate(
                calls.last().0,
                calls.last().1,
                calls.last().2,
            ).0
        }
    }
}

} // verus!
