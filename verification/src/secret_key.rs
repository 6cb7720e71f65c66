//! Compact MAYO secret keys, key generation and signing.
//!
//! The MAYO-C routines that derive a public key from a seed and that sign a
//! message are run by the caller between the two halves of each operation
//! here: the first half checks the input and fixes the exact bytes handed to
//! MAYO-C, the second half turns MAYO-C's reply into the result.
use crate::buffers::{
    secret_as_slice, secret_clone, secret_copy_from_slice, secret_contents, secret_from_vec,
    secret_zeroize, SecretBytes,
};
use crate::errors::{decode, error_for_code, expect_len, Error, MayoError};
use crate::parameterization::ParameterSet;
use crate::public_key::PublicKey;
use crate::signature::Signature;
use core::marker::PhantomData;
use vstd::prelude::*;

verus! {

/// A compact MAYO secret key.
///
/// Secret keys use MAYO's compact secret-seed encoding; every secret key
/// holds exactly `P::SECRET_KEY_BYTES` bytes. The key material is zeroized
/// when the value is dropped. `SecretKey` intentionally does not implement
/// `Debug`, because debug output should not expose secret key material.
pub struct SecretKey<P: ParameterSet> {
    bytes: SecretBytes,
    parameter_set: PhantomData<P>,
}

impl<P: ParameterSet> View for SecretKey<P> {
    type V = Seq<u8>;

    /// The encoded key bytes (the seed).
    closed spec fn view(&self) -> Seq<u8> {
        secret_contents(self.bytes)
    }
}

/// A seed on its way to becoming a keypair.
///
/// MAYO compact secret keys are seeds, and MAYO-C derives the matching
/// compact public key deterministically from the seed. The caller hands
/// [`seed`](Self::seed) to MAYO-C's seeded key generation, with an output
/// buffer of `P::PUBLIC_KEY_BYTES` bytes, and passes the status and the
/// output to [`finish`](Self::finish). The seed is zeroized when dropped.
pub struct KeypairDerivation<P: ParameterSet> {
    seed: SecretBytes,
    parameter_set: PhantomData<P>,
}

impl<P: ParameterSet> View for KeypairDerivation<P> {
    type V = Seq<u8>;

    /// The seed.
    closed spec fn view(&self) -> Seq<u8> {
        secret_contents(self.seed)
    }
}

/// A message about to be signed with a secret key.
///
/// The caller hands [`secret_key_bytes`](Self::secret_key_bytes) and
/// [`message`](Self::message) to MAYO-C's signing routine, with an output
/// buffer of `P::SIGNATURE_BYTES` bytes, and passes the status, the buffer
/// and the length that MAYO-C reported to [`finish`](Self::finish).
pub struct SigningRequest<'a, P: ParameterSet> {
    secret_key: &'a SecretKey<P>,
    message: &'a [u8],
}

/// A keypair result as bytes: the public key's and the secret key's
/// encodings, or the error.
pub open spec fn keypair_bytes<P: ParameterSet>(
    result: Result<(PublicKey<P>, SecretKey<P>), Error>,
) -> Result<(Seq<u8>, Seq<u8>), Error> {
    match result {
        Ok((public, secret)) => Ok((public@, secret@)),
        Err(error) => Err(error),
    }
}

/// What key generation from `seed` ends with when MAYO-C replies with
/// `status` and the public key `public_key`: the seed's length is checked
/// first, then the status; on success the keypair is `public_key` and the
/// seed.
pub open spec fn keypair_outcome<P: ParameterSet>(
    seed: Seq<u8>,
    status: i32,
    public_key: Seq<u8>,
) -> Result<(Seq<u8>, Seq<u8>), Error> {
    match decode(P::SECRET_KEY_BYTES, seed) {
        Err(error) => Err(error),
        Ok(seed) => if status != 0 {
            Err(Error::KeyGeneration { error: error_for_code(status) })
        } else {
            Ok((public_key, seed))
        },
    }
}

/// Key generation is a function of the seed's bytes and MAYO-C's reply:
/// equal seeds with equal replies give equal keypairs; a seed of the wrong
/// length is refused whatever MAYO-C would reply; and the secret half of a
/// keypair is always the seed.
pub proof fn lemma_keypair_outcome<P: ParameterSet>(
    seed: Seq<u8>,
    other_seed: Seq<u8>,
    status: i32,
    public_key: Seq<u8>,
)
    ensures
        seed == other_seed ==> keypair_outcome::<P>(seed, status, public_key) == keypair_outcome::<
            P,
        >(other_seed, status, public_key),
        seed.len() != P::SECRET_KEY_BYTES ==> forall|any_status: i32, any_key: Seq<u8>|
            #[trigger] keypair_outcome::<P>(seed, any_status, any_key) == Err::<
                (Seq<u8>, Seq<u8>),
                Error,
            >(Error::InvalidLength { expected: P::SECRET_KEY_BYTES, actual: seed.len() as usize }),
        keypair_outcome::<P>(seed, status, public_key) matches Ok((public, secret)) ==> secret
            == seed && public == public_key && seed.len() == P::SECRET_KEY_BYTES,
{
}

impl<P: ParameterSet> SecretKey<P> {
    /// Every secret key has the compact secret-key length of `P`.
    #[verifier::type_invariant]
    closed spec fn has_encoded_length(self) -> bool {
        secret_contents(self.bytes).len() == P::SECRET_KEY_BYTES
    }

    /// Starts deriving a keypair from a compact secret-key seed.
    ///
    /// Returns [`Error::InvalidLength`] if `seed` does not have the exact
    /// secret-key length for `P`; otherwise the derivation holds a copy of
    /// the seed.
    pub fn from_seed(seed: &[u8]) -> (result: Result<KeypairDerivation<P>, Error>)
        ensures
            match result {
                Ok(derivation) => seed@.len() == P::SECRET_KEY_BYTES && derivation@ == seed@,
                Err(error) => seed@.len() != P::SECRET_KEY_BYTES && error == (Error::InvalidLength {
                    expected: P::SECRET_KEY_BYTES,
                    actual: seed@.len() as usize,
                }),
            },
    {
        expect_len(P::SECRET_KEY_BYTES, seed.len())?;
        Ok(KeypairDerivation { seed: secret_copy_from_slice(seed), parameter_set: PhantomData })
    }

    /// Starts signing `message` with this key.
    pub fn sign<'a>(&'a self, message: &'a [u8]) -> (request: SigningRequest<'a, P>)
        ensures
            request.signing_key() == self@,
            request.message_to_sign() == message@,
    {
        SigningRequest { secret_key: self, message }
    }

    /// Overwrites the key material with zeros, keeping its length.
    pub fn zeroize(&mut self)
        ensures
            final(self)@ == Seq::new(P::SECRET_KEY_BYTES as nat, |i: int| 0u8),
    {
        proof {
            use_type_invariant(&*self);
        }
        let mut bytes = secret_from_vec(vec![0u8; P::SECRET_KEY_BYTES]);
        core::mem::swap(&mut bytes, &mut self.bytes);
        secret_zeroize(&mut bytes);
        core::mem::swap(&mut bytes, &mut self.bytes);
    }
}

impl<P: ParameterSet> KeypairDerivation<P> {
    /// Every pending seed has the compact secret-key length of `P`.
    #[verifier::type_invariant]
    closed spec fn has_encoded_length(self) -> bool {
        secret_contents(self.seed).len() == P::SECRET_KEY_BYTES
    }

    /// The seed to hand to MAYO-C's seeded key generation.
    pub fn seed(&self) -> (seed: &[u8])
        ensures
            seed@ == self@,
            seed@.len() == P::SECRET_KEY_BYTES,
    {
        proof {
            use_type_invariant(self);
        }
        secret_as_slice(&self.seed)
    }

    /// Finishes the derivation with MAYO-C's status and the public key that
    /// it wrote into a buffer of `P::PUBLIC_KEY_BYTES` bytes.
    ///
    /// A nonzero status is [`Error::KeyGeneration`], and the seed is
    /// zeroized. On success the keypair is the public key passed here and
    /// the seed; handing over exactly what MAYO-C wrote for [`seed`](Self::seed)
    /// is what makes the two halves belong together.
    pub fn finish(self, status: i32, public_key: &[u8]) -> (result: Result<
        (PublicKey<P>, SecretKey<P>),
        Error,
    >)
        requires
            public_key@.len() == P::PUBLIC_KEY_BYTES,
        ensures
            result is Ok <==> status == 0,
            match result {
                Ok((public, secret)) => public@ == public_key@ && secret@ == self@,
                Err(error) => error == (Error::KeyGeneration { error: error_for_code(status) }),
            },
            keypair_bytes(result) == keypair_outcome::<P>(self@, status, public_key@),
    {
        proof {
            use_type_invariant(&self);
        }
        let KeypairDerivation { seed, parameter_set } = self;
        if status != 0 {
            let mut seed = seed;
            secret_zeroize(&mut seed);
            return Err(Error::KeyGeneration { error: MayoError::from_code(status) });
        }
        let public = PublicKey::from_encoded(public_key);
        Ok((public, SecretKey { bytes: seed, parameter_set }))
    }
}

impl<'a, P: ParameterSet> SigningRequest<'a, P> {
    /// The bytes of the key that signs.
    pub closed spec fn signing_key(&self) -> Seq<u8> {
        self.secret_key@
    }

    /// The message to sign.
    pub closed spec fn message_to_sign(&self) -> Seq<u8> {
        self.message@
    }

    /// The secret key to hand to MAYO-C's signing routine.
    pub fn secret_key_bytes(&self) -> (bytes: &[u8])
        ensures
            bytes@ == self.signing_key(),
            bytes@.len() == P::SECRET_KEY_BYTES,
    {
        self.secret_key.as_ref()
    }

    /// The message to hand to MAYO-C's signing routine.
    pub fn message(&self) -> (message: &'a [u8])
        ensures
            message@ == self.message_to_sign(),
    {
        self.message
    }

    /// Finishes signing with MAYO-C's status, the output buffer of
    /// `P::SIGNATURE_BYTES` bytes, and the signature length it reported.
    ///
    /// A nonzero status is [`Error::Signing`]; a reported length other than
    /// `P::SIGNATURE_BYTES` is [`Error::InvalidLength`]; otherwise the
    /// signature is the buffer.
    pub fn finish(self, status: i32, signature: &[u8], signature_len: usize) -> (result: Result<
        Signature<P>,
        Error,
    >)
        requires
            signature@.len() == P::SIGNATURE_BYTES,
        ensures
            result is Ok <==> (status == 0 && signature_len == P::SIGNATURE_BYTES),
            match result {
                Ok(signed) => signed@ == signature@,
                Err(error) => if status != 0 {
                    error == (Error::Signing { error: error_for_code(status) })
                } else {
                    error == (Error::InvalidLength {
                        expected: P::SIGNATURE_BYTES,
                        actual: signature_len,
                    })
                },
            },
    {
        if status != 0 {
            return Err(Error::Signing { error: MayoError::from_code(status) });
        }
        if signature_len != P::SIGNATURE_BYTES {
            return Err(Error::InvalidLength { expected: P::SIGNATURE_BYTES, actual: signature_len });
        }
        Ok(Signature::from_encoded(signature))
    }
}

impl<P: ParameterSet> Clone for SecretKey<P> {
    fn clone(&self) -> (key: Self)
        ensures
            key@ == self@,
    {
        proof {
            use_type_invariant(self);
        }
        SecretKey { bytes: secret_clone(&self.bytes), parameter_set: PhantomData }
    }
}

impl<P: ParameterSet> AsRef<[u8]> for SecretKey<P> {
    /// Returns the compact secret-key bytes.
    fn as_ref(&self) -> (bytes: &[u8])
        ensures
            bytes@ == self@,
            bytes@.len() == P::SECRET_KEY_BYTES,
    {
        proof {
            use_type_invariant(self);
        }
        secret_as_slice(&self.bytes)
    }
}

impl<'b, P: ParameterSet> TryFrom<&'b [u8]> for SecretKey<P> {
    type Error = Error;

    /// Parses a compact secret key from bytes.
    ///
    /// Returns [`Error::InvalidLength`] if `bytes` does not have the exact
    /// secret-key length for `P`.
    fn try_from(bytes: &'b [u8]) -> (result: Result<Self, Error>)
        ensures
            match result {
                Ok(key) => decode(P::SECRET_KEY_BYTES, bytes@) == Ok::<Seq<u8>, Error>(key@),
                Err(error) => decode(P::SECRET_KEY_BYTES, bytes@) == Err::<Seq<u8>, Error>(error),
            },
    {
        expect_len(P::SECRET_KEY_BYTES, bytes.len())?;
        Ok(SecretKey { bytes: secret_copy_from_slice(bytes), parameter_set: PhantomData })
    }
}

impl<'b, P: ParameterSet> vstd::std_specs::convert::TryFromSpecImpl<&'b [u8]> for SecretKey<P> {
    /// `try_from` makes a new buffer, so its result is not one fixed value;
    /// what it returns is stated by its `ensures` above, and this trait's
    /// promise is not claimed.
    open spec fn obeys_try_from_spec() -> bool {
        false
    }

    /// A value holding `bytes` when they have the right length, else the
    /// length error.
    open spec fn try_from_spec(bytes: &'b [u8]) -> Result<Self, Error> {
        match decode(P::SECRET_KEY_BYTES, bytes@) {
            Ok(encoded) => Ok(choose|value: Self| value@ == encoded),
            Err(error) => Err(error),
        }
    }
}

} // verus!
