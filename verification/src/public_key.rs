//! Compact MAYO public keys.
use crate::buffers::{bytes_as_slice, bytes_clone, bytes_contents, bytes_copy_from_slice};
use crate::errors::{decode, Error};
use crate::parameterization::ParameterSet;
use core::marker::PhantomData;
use vstd::prelude::*;

verus! {

/// A compact MAYO public key.
///
/// Public keys use MAYO's compact byte encoding. Use `AsRef<[u8]>` to read
/// the encoded key bytes, and `TryFrom<&[u8]>` to parse a key from bytes.
/// Parsing checks that the input length matches the selected parameter set,
/// and every public key holds exactly `P::PUBLIC_KEY_BYTES` bytes.
#[derive(Debug, PartialEq, Eq)]
pub struct PublicKey<P: ParameterSet> {
    pub(crate) bytes: bytes::Bytes,
    pub(crate) parameter_set: PhantomData<P>,
}

impl<P: ParameterSet> View for PublicKey<P> {
    type V = Seq<u8>;

    /// The encoded key bytes.
    closed spec fn view(&self) -> Seq<u8> {
        bytes_contents(self.bytes)
    }
}

impl<P: ParameterSet> PublicKey<P> {
    /// Every public key has the compact public-key length of `P`.
    #[verifier::type_invariant]
    closed spec fn has_encoded_length(self) -> bool {
        bytes_contents(self.bytes).len() == P::PUBLIC_KEY_BYTES
    }

    /// Builds a key from bytes of the right length.
    pub(crate) fn from_encoded(bytes: &[u8]) -> (key: Self)
        requires
            bytes@.len() == P::PUBLIC_KEY_BYTES,
        ensures
            key@ == bytes@,
    {
        PublicKey { bytes: bytes_copy_from_slice(bytes), parameter_set: PhantomData }
    }

    /// The key's buffer, shared with the batch verifier's cache.
    pub(crate) fn buffer(&self) -> (b: &bytes::Bytes)
        ensures
            bytes_contents(*b) == self@,
            bytes_contents(*b).len() == P::PUBLIC_KEY_BYTES,
    {
        proof {
            use_type_invariant(self);
        }
        &self.bytes
    }
}

impl<P: ParameterSet> Clone for PublicKey<P> {
    fn clone(&self) -> (key: Self)
        ensures
            key@ == self@,
    {
        proof {
            use_type_invariant(self);
        }
        PublicKey { bytes: bytes_clone(&self.bytes), parameter_set: PhantomData }
    }
}

impl<P: ParameterSet> AsRef<[u8]> for PublicKey<P> {
    /// Returns the compact public-key bytes.
    fn as_ref(&self) -> (bytes: &[u8])
        ensures
            bytes@ == self@,
            bytes@.len() == P::PUBLIC_KEY_BYTES,
    {
        proof {
            use_type_invariant(self);
        }
        bytes_as_slice(&self.bytes)
    }
}

impl<'a, P: ParameterSet> TryFrom<&'a [u8]> for PublicKey<P> {
    type Error = Error;

    /// Parses a compact public key from bytes.
    ///
    /// Returns [`Error::InvalidLength`] if `bytes` does not have the exact
    /// public-key length for `P`.
    fn try_from(bytes: &'a [u8]) -> (result: Result<Self, Error>)
        ensures
            match result {
                Ok(key) => decode(P::PUBLIC_KEY_BYTES, bytes@) == Ok::<Seq<u8>, Error>(key@),
                Err(error) => decode(P::PUBLIC_KEY_BYTES, bytes@) == Err::<Seq<u8>, Error>(error),
            },
    {
        crate::errors::expect_len(P::PUBLIC_KEY_BYTES, bytes.len())?;
        Ok(Self::from_encoded(bytes))
    }
}

impl<'a, P: ParameterSet> vstd::std_specs::convert::TryFromSpecImpl<&'a [u8]> for PublicKey<P> {
    /// `try_from` makes a new buffer, so its result is not one fixed value;
    /// what it returns is stated by its `ensures` above, and this trait's
    /// promise is not claimed.
    open spec fn obeys_try_from_spec() -> bool {
        false
    }

    /// A value holding `bytes` when they have the right length, else the
    /// length error.
    open spec fn try_from_spec(bytes: &'a [u8]) -> Result<Self, Error> {
        match decode(P::PUBLIC_KEY_BYTES, bytes@) {
            Ok(encoded) => Ok(choose|value: Self| value@ == encoded),
            Err(error) => Err(error),
        }
    }
}

} // verus!
