//! Errors reported by key generation, signing, key expansion and parsing.
use vstd::prelude::*;

verus! {

/// The documented `MAYO_ERR` status of MAYO-C.
pub const MAYO_ERR: i32 = 1;

/// A typed MAYO-C error code.
///
/// MAYO-C currently exposes one documented nonzero error status. The wrapper
/// keeps that status typed so callers can distinguish it from unexpected
/// status codes returned by a future or modified C backend.
#[derive(Clone, Copy, Debug, PartialEq, Eq, Structural)]
pub enum MayoError {
    /// The documented `MAYO_ERR` status from MAYO-C.
    ///
    /// MAYO-C uses this opaque status for key generation, signing, and public
    /// key expansion failures. The surrounding [`Error`] variant identifies
    /// which operation failed.
    MayoErr,
    /// An unrecognized nonzero MAYO-C status.
    ///
    /// This preserves the raw code instead of collapsing it into
    /// [`MayoError::MayoErr`].
    Unknown(i32),
}

/// The typed error for a MAYO-C status code.
pub open spec fn error_for_code(code: i32) -> MayoError {
    if code == MAYO_ERR {
        MayoError::MayoErr
    } else {
        MayoError::Unknown(code)
    }
}

/// The MAYO-C status code that a typed error stands for.
pub open spec fn code_of(error: MayoError) -> i32 {
    match error {
        MayoError::MayoErr => MAYO_ERR,
        MayoError::Unknown(code) => code,
    }
}

impl MayoError {
    /// Types a nonzero MAYO-C status code.
    pub fn from_code(code: i32) -> (error: Self)
        ensures
            error == error_for_code(code),
    {
        if code == MAYO_ERR {
            return MayoError::MayoErr;
        }
        MayoError::Unknown(code)
    }

    /// Returns the MAYO-C integer status code.
    pub fn code(self) -> (code: i32)
        ensures
            code == code_of(self),
    {
        match self {
            MayoError::MayoErr => MAYO_ERR,
            MayoError::Unknown(code) => code,
        }
    }
}

/// A MAYO operation failed.
///
/// Verification failure is not represented as an error because invalid
/// signatures are expected input; only the fallible construction and signing
/// operations use `Result`.
#[derive(Clone, Copy, Debug, PartialEq, Eq, Structural)]
pub enum Error {
    /// MAYO-C returned an error while generating a keypair.
    KeyGeneration {
        /// The MAYO-C error code.
        error: MayoError,
    },
    /// MAYO-C returned an error while signing a message.
    Signing {
        /// The MAYO-C error code.
        error: MayoError,
    },
    /// MAYO-C returned an error while expanding a public key.
    PublicKeyExpansion {
        /// The MAYO-C error code.
        error: MayoError,
    },
    /// A byte slice had the wrong length for the selected parameter set.
    InvalidLength {
        /// The expected number of bytes.
        expected: usize,
        /// The actual number of bytes.
        actual: usize,
    },
}

/// The outcome of checking that a length is the expected one.
pub open spec fn length_check(expected: usize, actual: usize) -> Result<(), Error> {
    if actual == expected {
        Ok(())
    } else {
        Err(Error::InvalidLength { expected, actual })
    }
}

/// Succeeds when `actual == expected`, else reports both lengths.
pub fn expect_len(expected: usize, actual: usize) -> (result: Result<(), Error>)
    ensures
        result == length_check(expected, actual),
{
    if actual == expected {
        return Ok(());
    }
    Err(Error::InvalidLength { expected, actual })
}

/// Typing a status code and reading the code back gives the status itself,
/// for every status.
pub proof fn lemma_code_of_error_for_code(code: i32)
    ensures
        code_of(error_for_code(code)) == code,
{
}

/// Reading a typed error's code and typing it again gives the same error,
/// for every error but `Unknown(MAYO_ERR)`, which types as `MayoErr`.
pub proof fn lemma_error_for_code_of(error: MayoError)
    requires
        error != MayoError::Unknown(MAYO_ERR),
    ensures
        error_for_code(code_of(error)) == error,
{
}

/// The documented status types as `MayoErr` and no other status does.
pub proof fn lemma_only_mayo_err_status_is_documented(code: i32)
    ensures
        (error_for_code(code) == MayoError::MayoErr) <==> code == MAYO_ERR,
{
}

/// The outcome of parsing an encoding that must have `expected` bytes:
/// the bytes themselves, or the length error.
pub open spec fn decode(expected: usize, bytes: Seq<u8>) -> Result<Seq<u8>, Error> {
    if bytes.len() == expected {
        Ok(bytes)
    } else {
        Err(Error::InvalidLength { expected, actual: bytes.len() as usize })
    }
}

/// Parsing an encoding of the expected length gives back the same bytes,
/// and any other length is refused with both lengths.
pub proof fn lemma_decode_encoded(expected: usize, bytes: Seq<u8>)
    ensures
        bytes.len() == expected ==> decode(expected, bytes) == Ok::<Seq<u8>, Error>(bytes),
        bytes.len() != expected ==> decode(expected, bytes) is Err,
{
}

} // verus!
