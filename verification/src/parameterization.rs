//! The four MAYO parameter sets and their encoding sizes.
use vstd::prelude::*;

pub(crate) mod private;

verus! {

/// A marker trait for MAYO parameter sets.
///
/// Use [`Mayo1`], [`Mayo2`], [`Mayo3`], or [`Mayo5`] as the type
/// parameter for [`crate::PublicKey`], [`crate::SecretKey`], and
/// [`crate::Signature`].
///
/// This trait is sealed: downstream crates cannot implement custom
/// parameter sets.
pub trait ParameterSet: private::Sealed {
    /// Human-readable algorithm name.
    const NAME: &'static str;
    /// Compact secret-key encoding size in bytes.
    const SECRET_KEY_BYTES: usize;
    /// Compact public-key encoding size in bytes.
    const PUBLIC_KEY_BYTES: usize;
    /// Detached signature size in bytes.
    const SIGNATURE_BYTES: usize;
}

/// MAYO-1 marker type.
///
/// MAYO-1 uses 24-byte secret keys, 1420-byte public keys, and 454-byte
/// detached signatures.
#[derive(Clone, Copy, Debug, PartialEq, Eq, Structural)]
pub struct Mayo1;

/// MAYO-2 marker type.
///
/// MAYO-2 uses 24-byte secret keys, 4912-byte public keys, and 186-byte
/// detached signatures.
#[derive(Clone, Copy, Debug, PartialEq, Eq, Structural)]
pub struct Mayo2;

/// MAYO-3 marker type.
///
/// MAYO-3 uses 32-byte secret keys, 2986-byte public keys, and 681-byte
/// detached signatures.
#[derive(Clone, Copy, Debug, PartialEq, Eq, Structural)]
pub struct Mayo3;

/// MAYO-5 marker type.
///
/// MAYO-5 uses 40-byte secret keys, 5554-byte public keys, and 964-byte
/// detached signatures.
#[derive(Clone, Copy, Debug, PartialEq, Eq, Structural)]
pub struct Mayo5;

impl private::Sealed for Mayo1 {
    const EXPANDED_PUBLIC_KEY_WORDS: usize = 18705;
}

impl ParameterSet for Mayo1 {
    const NAME: &'static str = "MAYO-1";
    const SECRET_KEY_BYTES: usize = 24;
    const PUBLIC_KEY_BYTES: usize = 1420;
    const SIGNATURE_BYTES: usize = 454;
}

impl private::Sealed for Mayo2 {
    const EXPANDED_PUBLIC_KEY_WORDS: usize = 13284;
}

impl ParameterSet for Mayo2 {
    const NAME: &'static str = "MAYO-2";
    const SECRET_KEY_BYTES: usize = 24;
    const PUBLIC_KEY_BYTES: usize = 4912;
    const SIGNATURE_BYTES: usize = 186;
}

impl private::Sealed for Mayo3 {
    const EXPANDED_PUBLIC_KEY_WORDS: usize = 49147;
}

impl ParameterSet for Mayo3 {
    const NAME: &'static str = "MAYO-3";
    const SECRET_KEY_BYTES: usize = 32;
    const PUBLIC_KEY_BYTES: usize = 2986;
    const SIGNATURE_BYTES: usize = 681;
}

impl private::Sealed for Mayo5 {
    const EXPANDED_PUBLIC_KEY_WORDS: usize = 107415;
}

impl ParameterSet for Mayo5 {
    const NAME: &'static str = "MAYO-5";
    const SECRET_KEY_BYTES: usize = 40;
    const PUBLIC_KEY_BYTES: usize = 5554;
    const SIGNATURE_BYTES: usize = 964;
}

/// The encoding sizes of the four parameter sets, as documented on the
/// marker types, and the sizes of their expanded public keys.
pub proof fn lemma_parameter_set_sizes()
    ensures
        Mayo1::SECRET_KEY_BYTES == 24 && Mayo1::PUBLIC_KEY_BYTES == 1420 && Mayo1::SIGNATURE_BYTES
            == 454 && <Mayo1 as private::Sealed>::EXPANDED_PUBLIC_KEY_WORDS == 18705,
        Mayo2::SECRET_KEY_BYTES == 24 && Mayo2::PUBLIC_KEY_BYTES == 4912 && Mayo2::SIGNATURE_BYTES
            == 186 && <Mayo2 as private::Sealed>::EXPANDED_PUBLIC_KEY_WORDS == 13284,
        Mayo3::SECRET_KEY_BYTES == 32 && Mayo3::PUBLIC_KEY_BYTES == 2986 && Mayo3::SIGNATURE_BYTES
            == 681 && <Mayo3 as private::Sealed>::EXPANDED_PUBLIC_KEY_WORDS == 49147,
        Mayo5::SECRET_KEY_BYTES == 40 && Mayo5::PUBLIC_KEY_BYTES == 5554 && Mayo5::SIGNATURE_BYTES
            == 964 && <Mayo5 as private::Sealed>::EXPANDED_PUBLIC_KEY_WORDS == 107415,
{
}

/// Number of `u64` words in MAYO-C's expanded public key for `P`, the size
/// of the buffer that public-key expansion fills.
pub fn expanded_public_key_words<P: ParameterSet>() -> (words: usize)
    ensures
        words == P::EXPANDED_PUBLIC_KEY_WORDS,
{
    P::EXPANDED_PUBLIC_KEY_WORDS
}

} // verus!
