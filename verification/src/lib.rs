//! Verified core of safe bindings for the MAYO post-quantum signature scheme.
//!
//! The parameter sets fix the sizes of keys and signatures; the key,
//! signature and batch types keep those sizes as invariants and turn the
//! status codes of the MAYO-C routines into typed results. The MAYO-C
//! routines themselves are run by the caller between the two halves of each
//! operation (see `secret_key`, `signature` and `batch_verify`).

pub mod batch_verify;
mod buffers;
pub mod errors;
pub mod parameterization;
pub mod public_key;
pub mod secret_key;
pub mod signature;

pub use batch_verify::{BatchStep, BatchVerifier, ExpandedPublicKey, KeyExpansion};
pub use errors::{expect_len, Error, MayoError, MAYO_ERR};
pub use parameterization::{expanded_public_key_words, Mayo1, Mayo2, Mayo3, Mayo5, ParameterSet};
pub use public_key::PublicKey;
pub use secret_key::{KeypairDerivation, SecretKey, SigningRequest};
pub use signature::{Signature, VerificationRequest};
