//! Detached MAYO signatures.
use crate::buffers::{bytes_as_slice, bytes_clone, bytes_contents, bytes_copy_from_slice};
use crate::errors::{decode, Error};
use crate::parameterization::ParameterSet;
use crate::public_key::PublicKey;
use core::marker::PhantomData;
use vstd::prelude::*;

verus! {

/// A detached MAYO signature.
///
/// Signatures use MAYO's detached byte encoding. Use `AsRef<[u8]>` to read
/// the encoded signature bytes, and `TryFrom<&[u8]>` to parse a signature from bytes.
/// Parsing checks that the input length matches the selected parameter set,
/// and every signature holds exactly `P::SIGNATURE_BYTES` bytes.
#[derive(Debug, PartialEq, Eq)]
pub struct Signature<P: ParameterSet> {
    pub(crate) bytes: bytes::Bytes,
    pub(crate) parameter_set: PhantomData<P>,
}

impl<P: ParameterSet> View for Signature<P> {
    type V = Seq<u8>;

    /// The encoded signature bytes.
    closed spec fn view(&self) -> Seq<u8> {
        bytes_contents(self.bytes)
    }
}

impl<P: ParameterSet> Signature<P> {
    /// Every signature has the detached signature length of `P`.
    #[verifier::type_invariant]
    closed spec fn has_encoded_length(self) -> bool {
        bytes_contents(self.bytes).len() == P::SIGNATURE_BYTES
    }

    /// Builds a signature from bytes of the right length.
    pub(crate) fn from_encoded(bytes: &[u8]) -> (signature: Self)
        requires
            bytes@.len() == P::SIGNATURE_BYTES,
        ensures
            signature@ == bytes@,
    {
        Signature { bytes: bytes_copy_from_slice(bytes), parameter_set: PhantomData }
    }

}

/// A signature about to be checked against a public key and a message.
///
/// The caller hands [`signature_bytes`](Self::signature_bytes),
/// [`message`](Self::message) and [`public_key_bytes`](Self::public_key_bytes)
/// to MAYO-C's verification routine and passes its status to
/// [`finish`](Self::finish).
pub struct VerificationRequest<'a, P: ParameterSet> {
    signature: &'a Signature<P>,
    public_key: &'a PublicKey<P>,
    message: &'a [u8],
}

impl<P: ParameterSet> Signature<P> {
    /// Starts verifying this signature for `message` with `public_key`.
    ///
    /// Verification reports `false` for any invalid signature, wrong message,
    /// or wrong public key; failures are not errors because they are
    /// expected data outcomes.
    pub fn verify<'a>(&'a self, public_key: &'a PublicKey<P>, message: &'a [u8]) -> (request:
        VerificationRequest<'a, P>)
        ensures
            request.signature_to_check() == self@,
            request.checking_key() == public_key@,
            request.message_to_check() == message@,
    {
        VerificationRequest { signature: self, public_key, message }
    }
}

impl<'a, P: ParameterSet> VerificationRequest<'a, P> {
    /// The bytes of the signature to check.
    pub closed spec fn signature_to_check(&self) -> Seq<u8> {
        self.signature@
    }

    /// The bytes of the public key to check against.
    pub closed spec fn checking_key(&self) -> Seq<u8> {
        self.public_key@
    }

    /// The message the signature should be for.
    pub closed spec fn message_to_check(&self) -> Seq<u8> {
        self.message@
    }

    /// The signature to hand to MAYO-C's verification routine.
    pub fn signature_bytes(&self) -> (bytes: &[u8])
        ensures
            bytes@ == self.signature_to_check(),
            bytes@.len() == P::SIGNATURE_BYTES,
    {
        self.signature.as_ref()
    }

    /// The public key to hand to MAYO-C's verification routine.
    pub fn public_key_bytes(&self) -> (bytes: &[u8])
        ensures
            bytes@ == self.checking_key(),
            bytes@.len() == P::PUBLIC_KEY_BYTES,
    {
        self.public_key.as_ref()
    }

    /// The message to hand to MAYO-C's verification routine.
    pub fn message(&self) -> (message: &'a [u8])
        ensures
            message@ == self.message_to_check(),
    {
        self.message
    }

    /// Finishes verification with MAYO-C's status: the signature is valid
    /// exactly when the status is zero.
    pub fn finish(self, status: i32) -> (valid: bool)
        ensures
            valid == (status == 0),
    {
        status == 0
    }
}

impl<P: ParameterSet> Clone for Signature<P> {
    fn clone(&self) -> (signature: Self)
        ensures
            signature@ == self@,
    {
        proof {
            use_type_invariant(self);
        }
        Signature { bytes: bytes_clone(&self.bytes), parameter_set: PhantomData }
    }
}

impl<P: ParameterSet> AsRef<[u8]> for Signature<P> {
    /// Returns the detached signature bytes.
    fn as_ref(&self) -> (bytes: &[u8])
        ensures
            bytes@ == self@,
            bytes@.len() == P::SIGNATURE_BYTES,
    {
        proof {
            use_type_invariant(self);
        }
        bytes_as_slice(&self.bytes)
    }
}

impl<'a, P: ParameterSet> TryFrom<&'a [u8]> for Signature<P> {
    type Error = Error;

    /// Parses a detached signature from bytes.
    ///
    /// Returns [`Error::InvalidLength`] if `bytes` does not have the exact
    /// signature length for `P`.
    fn try_from(bytes: &'a [u8]) -> (result: Result<Self, Error>)
        ensures
            match result {
                Ok(signature) => decode(P::SIGNATURE_BYTES, bytes@) == Ok::<Seq<u8>, Error>(signature@),
                Err(error) => decode(P::SIGNATURE_BYTES, bytes@) == Err::<Seq<u8>, Error>(error),
            },
    {
        crate::errors::expect_len(P::SIGNATURE_BYTES, bytes.len())?;
        Ok(Self::from_encoded(bytes))
    }
}

impl<'a, P: ParameterSet> vstd::std_specs::convert::TryFromSpecImpl<&'a [u8]> for Signature<P> {
    /// `try_from` makes a new buffer, so its result is not one fixed value;
    /// what it returns is stated by its `ensures` above, and this trait's
    /// promise is not claimed.
    open spec fn obeys_try_from_spec() -> bool {
        false
    }

    /// A value holding `bytes` when they have the right length, else the
    /// length error.
    open spec fn try_from_spec(bytes: &'a [u8]) -> Result<Self, Error> {
        match decode(P::SIGNATURE_BYTES, bytes@) {
            Ok(encoded) => Ok(choose|value: Self| value@ == encoded),
            Err(error) => Err(error),
        }
    }
}

} // verus!
