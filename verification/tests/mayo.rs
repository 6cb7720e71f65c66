use core::fmt::Debug;
use core::mem::size_of;
use sriracha_mayo::{
    ExpandedPublicKey, Error, Mayo1, Mayo2, Mayo3, Mayo5, MayoError, ParameterSet, PublicKey,
    SecretKey, Signature,
};

#[test]
fn expanded_public_key_handle_stays_small() {
    assert!(size_of::<ExpandedPublicKey<Mayo5>>() <= 32);
}

#[test]
fn rejects_wrong_lengths() {
    assert!(matches!(
        PublicKey::<Mayo1>::try_from(&[][..]),
        Err(Error::InvalidLength {
            expected: Mayo1::PUBLIC_KEY_BYTES,
            actual: 0,
        })
    ));
    assert!(matches!(
        SecretKey::<Mayo1>::try_from(&[][..]),
        Err(Error::InvalidLength {
            expected: Mayo1::SECRET_KEY_BYTES,
            actual: 0,
        })
    ));
    assert!(matches!(
        Signature::<Mayo1>::try_from(&[][..]),
        Err(Error::InvalidLength {
            expected: Mayo1::SIGNATURE_BYTES,
            actual: 0,
        })
    ));
}

#[test]
fn binds_mayo_error_codes() {
    assert_eq!(MayoError::MayoErr.code(), 1);
    assert_eq!(MayoError::Unknown(7).code(), 7);
}

#[test]
fn concrete_public_types_expose_derived_traits() {
    fn assert_public_traits<T: Debug + Eq + PartialEq>() {}
    fn assert_parameter_set<P: ParameterSet + Debug + Eq + PartialEq>() {
        assert_public_traits::<P>();
        assert_public_traits::<PublicKey<P>>();
        assert_public_traits::<Signature<P>>();
    }

    assert_parameter_set::<Mayo1>();
    assert_parameter_set::<Mayo2>();
    assert_parameter_set::<Mayo3>();
    assert_parameter_set::<Mayo5>();
}
