//! The sealing trait of the parameter sets.
use vstd::prelude::*;

verus! {

/// Details of a parameter set that only this crate needs.
///
/// Being reachable only from inside the crate, this trait also keeps
/// downstream crates from implementing [`crate::ParameterSet`].
pub trait Sealed {
    /// Number of `u64` words in MAYO-C's expanded public key.
    const EXPANDED_PUBLIC_KEY_WORDS: usize;
}

} // verus!
