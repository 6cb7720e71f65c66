//! Byte buffers used to hold keys, signatures and queued messages.
//!
//! Public keys, signatures and queued messages live in `bytes::Bytes`, a
//! cheaply clonable immutable buffer. Secret key material lives in
//! `zeroize::Zeroizing<Vec<u8>>`, which overwrites the bytes with zeros when
//! the buffer is dropped. Both are opaque to the proofs: what they hold is
//! named by `bytes_contents` and `secret_contents`, and every operation the
//! library performs on them goes through one of the trusted wrappers below.
use vstd::prelude::*;

verus! {

/// Declares `bytes::Bytes` so that it can stand in fields and signatures.
#[verifier::external_type_specification]
#[verifier::external_body]
pub struct ExBytes(bytes::Bytes);

/// The bytes that a `bytes::Bytes` buffer holds, in order.
pub uninterp spec fn bytes_contents(b: bytes::Bytes) -> Seq<u8>;

/// Calls `bytes::Bytes::copy_from_slice`, which copies `data` into a new
/// buffer (`data.to_vec().into()` in the crate's source). Claimed: the new
/// buffer holds exactly the bytes of `data`.
#[verifier::external_body]
pub(crate) fn bytes_copy_from_slice(data: &[u8]) -> (b: bytes::Bytes)
    ensures
        bytes_contents(b) == data@,
{
    bytes::Bytes::copy_from_slice(data)
}

/// Calls `<bytes::Bytes as Clone>::clone`, which makes a second handle to
/// the same immutable memory (same pointer and length). Claimed: the clone
/// holds the same bytes.
#[verifier::external_body]
pub(crate) fn bytes_clone(b: &bytes::Bytes) -> (c: bytes::Bytes)
    ensures
        bytes_contents(c) == bytes_contents(*b),
{
    b.clone()
}

/// Calls `<bytes::Bytes as AsRef<[u8]>>::as_ref`, which returns the slice
/// `[ptr, ptr + len)` that the buffer holds. Claimed: the slice holds the
/// buffer's bytes.
#[verifier::external_body]
pub(crate) fn bytes_as_slice(b: &bytes::Bytes) -> (s: &[u8])
    ensures
        s@ == bytes_contents(*b),
{
    b.as_ref()
}

/// Calls `<bytes::Bytes as PartialEq>::eq`, which compares the two buffers'
/// slices (`self.as_slice() == other.as_slice()`). Claimed: the result is
/// `true` exactly when both buffers hold the same bytes.
#[verifier::external_body]
pub(crate) fn bytes_eq(a: &bytes::Bytes, b: &bytes::Bytes) -> (r: bool)
    ensures
        r == (bytes_contents(*a) == bytes_contents(*b)),
{
    *a == *b
}

/// Secret bytes that are overwritten with zeros when dropped.
///
/// The field is a `zeroize::Zeroizing<Vec<u8>>`; its `Drop` impl zeroizes
/// the vector. The struct is opaque to the proofs, and its field is used
/// only through the wrappers below.
#[verifier::external_body]
pub struct SecretBytes {
    inner: zeroize::Zeroizing<Vec<u8>>,
}

/// The bytes that a secret buffer holds, in order.
pub uninterp spec fn secret_contents(s: SecretBytes) -> Seq<u8>;

/// Calls `zeroize::Zeroizing::new`, which moves the vector into the
/// wrapper unchanged. Claimed: the buffer holds the vector's bytes.
#[verifier::external_body]
pub(crate) fn secret_from_vec(v: Vec<u8>) -> (s: SecretBytes)
    ensures
        secret_contents(s) == v@,
{
    SecretBytes { inner: zeroize::Zeroizing::new(v) }
}

/// Calls `zeroize::Zeroizing::new` on a copy of `data` (`data.to_vec()`).
/// Claimed: the buffer holds the bytes of `data`.
#[verifier::external_body]
pub(crate) fn secret_copy_from_slice(data: &[u8]) -> (s: SecretBytes)
    ensures
        secret_contents(s) == data@,
{
    SecretBytes { inner: zeroize::Zeroizing::new(data.to_vec()) }
}

/// Calls `<zeroize::Zeroizing<Vec<u8>> as Clone>::clone`, which clones the
/// inner vector. Claimed: the clone holds the same bytes.
#[verifier::external_body]
pub(crate) fn secret_clone(s: &SecretBytes) -> (c: SecretBytes)
    ensures
        secret_contents(c) == secret_contents(*s),
{
    SecretBytes { inner: s.inner.clone() }
}

/// Calls `<zeroize::Zeroizing<Vec<u8>> as Deref>::deref`, which returns the
/// inner vector, seen as a slice. Claimed: the slice holds the buffer's
/// bytes.
#[verifier::external_body]
pub(crate) fn secret_as_slice(s: &SecretBytes) -> (r: &[u8])
    ensures
        r@ == secret_contents(*s),
{
    s.inner.as_slice()
}

/// Calls `<[u8] as zeroize::Zeroize>::zeroize` on the buffer's bytes, which
/// writes a zero into every byte of the slice (a volatile `memset`) and
/// keeps the length. Claimed: afterwards the buffer holds as many bytes as
/// before, all zero.
#[verifier::external_body]
pub(crate) fn secret_zeroize(s: &mut SecretBytes)
    ensures
        secret_contents(*final(s)) == Seq::new(secret_contents(*old(s)).len(), |i: int| 0u8),
{
    zeroize::Zeroize::zeroize(s.inner.as_mut_slice())
}

} // verus!
