//! A deterministic random bit generator built on AES-256 in counter mode with a
//! derivation function, after NIST SP 800-90A (CTR_DRBG).
//!
//! `state` says what the generator is and does, as mathematics; `context`,
//! `update`, `reseed`, `generate` and `seed_file` hold the code that does it,
//! `derivation` the derivation function, and `laws` what follows for every
//! state and input. A generator is used through `&mut`, so no two calls run
//! on it at once; sharing one between threads takes a lock around it.

pub mod bytes;
pub mod cipher;
pub mod context;
pub mod derivation;
pub mod entropy;
pub mod error;
pub mod generate;
pub mod laws;
pub mod params;
pub mod reseed;
pub mod seed_file;
pub mod state;
pub mod update;
pub mod wipe;
