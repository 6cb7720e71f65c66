use rand_chacha::ChaCha20Rng;
use rand_core::{RngCore, SeedableRng};
use sriracha_mayo::{
    expect_len, Error, Mayo1, Mayo2, Mayo3, Mayo5, MayoError, ParameterSet, PublicKey, SecretKey,
    Signature, MAYO_ERR,
};

#[test]
fn parameter_sets_have_documented_sizes() {
    assert_eq!(Mayo1::NAME, "MAYO-1");
    assert_eq!(
        (Mayo1::SECRET_KEY_BYTES, Mayo1::PUBLIC_KEY_BYTES, Mayo1::SIGNATURE_BYTES),
        (24, 1420, 454)
    );
    assert_eq!(Mayo2::NAME, "MAYO-2");
    assert_eq!(
        (Mayo2::SECRET_KEY_BYTES, Mayo2::PUBLIC_KEY_BYTES, Mayo2::SIGNATURE_BYTES),
        (24, 4912, 186)
    );
    assert_eq!(Mayo3::NAME, "MAYO-3");
    assert_eq!(
        (Mayo3::SECRET_KEY_BYTES, Mayo3::PUBLIC_KEY_BYTES, Mayo3::SIGNATURE_BYTES),
        (32, 2986, 681)
    );
    assert_eq!(Mayo5::NAME, "MAYO-5");
    assert_eq!(
        (Mayo5::SECRET_KEY_BYTES, Mayo5::PUBLIC_KEY_BYTES, Mayo5::SIGNATURE_BYTES),
        (40, 5554, 964)
    );
    assert_eq!(sriracha_mayo::expanded_public_key_words::<Mayo1>(), 18705);
    assert_eq!(sriracha_mayo::expanded_public_key_words::<Mayo2>(), 13284);
    assert_eq!(sriracha_mayo::expanded_public_key_words::<Mayo3>(), 49147);
    assert_eq!(sriracha_mayo::expanded_public_key_words::<Mayo5>(), 107415);
}

#[test]
fn error_codes_round_trip() {
    assert_eq!(MayoError::from_code(MAYO_ERR), MayoError::MayoErr);
    assert_eq!(MayoError::from_code(-3), MayoError::Unknown(-3));
    for code in [-5, 0, 1, 2, 7, i32::MAX, i32::MIN] {
        assert_eq!(MayoError::from_code(code).code(), code);
    }
    assert_eq!(MayoError::from_code(MayoError::Unknown(9).code()), MayoError::Unknown(9));
    // `Unknown(MAYO_ERR)` is the one error that does not come back as itself.
    assert_eq!(MayoError::from_code(MayoError::Unknown(1).code()), MayoError::MayoErr);
}

#[test]
fn expect_len_reports_both_lengths() {
    assert_eq!(expect_len(24, 24), Ok(()));
    assert_eq!(
        expect_len(24, 23),
        Err(Error::InvalidLength {
            expected: 24,
            actual: 23
        })
    );
}

#[test]
fn public_key_encoding_round_trips() {
    let bytes: Vec<u8> = (0..Mayo2::PUBLIC_KEY_BYTES).map(|i| (i % 251) as u8).collect();
    let key = PublicKey::<Mayo2>::try_from(&bytes[..]).unwrap();
    assert_eq!(key.as_ref(), &bytes[..]);
    let parsed = PublicKey::<Mayo2>::try_from(key.as_ref()).unwrap();
    assert_eq!(parsed, key);
    assert_eq!(key.clone().as_ref(), &bytes[..]);
    assert_eq!(
        PublicKey::<Mayo2>::try_from(&bytes[1..]),
        Err(Error::InvalidLength {
            expected: 4912,
            actual: 4911
        })
    );
}

#[test]
fn signature_encoding_round_trips() {
    let bytes = vec![0xabu8; Mayo5::SIGNATURE_BYTES];
    let signature = Signature::<Mayo5>::try_from(&bytes[..]).unwrap();
    assert_eq!(signature.as_ref(), &bytes[..]);
    assert_eq!(signature.clone(), signature);
    let mut longer = bytes.clone();
    longer.push(0);
    assert_eq!(
        Signature::<Mayo5>::try_from(&longer[..]),
        Err(Error::InvalidLength {
            expected: 964,
            actual: 965
        })
    );
}

#[test]
fn secret_key_encoding_round_trips() {
    let bytes: Vec<u8> = (1..=Mayo3::SECRET_KEY_BYTES as u8).collect();
    let key = SecretKey::<Mayo3>::try_from(&bytes[..]).unwrap();
    assert_eq!(key.as_ref(), &bytes[..]);
    assert_eq!(key.clone().as_ref(), &bytes[..]);
    assert!(matches!(
        SecretKey::<Mayo3>::try_from(&bytes[..31]),
        Err(Error::InvalidLength {
            expected: 32,
            actual: 31
        })
    ));
}

#[test]
fn zeroize_overwrites_key_material() {
    let bytes = vec![0x5au8; Mayo1::SECRET_KEY_BYTES];
    let mut key = SecretKey::<Mayo1>::try_from(&bytes[..]).unwrap();
    let copy = key.clone();
    key.zeroize();
    assert_eq!(key.as_ref(), &[0u8; 24][..]);
    assert_eq!(copy.as_ref(), &bytes[..]);
}

#[test]
fn from_seed_checks_the_seed_length() {
    assert!(matches!(
        SecretKey::<Mayo1>::from_seed(&[1u8; 23]),
        Err(Error::InvalidLength {
            expected: 24,
            actual: 23
        })
    ));
    let derivation = SecretKey::<Mayo1>::from_seed(&[9u8; 24]).unwrap();
    assert_eq!(derivation.seed(), &[9u8; 24][..]);
}

#[test]
fn keypair_derivation_pairs_the_seed_with_the_derived_key() {
    let seed: Vec<u8> = (0..40u8).collect();
    let derived = vec![0x11u8; Mayo5::PUBLIC_KEY_BYTES];
    let (public_key, secret_key) = SecretKey::<Mayo5>::from_seed(&seed)
        .unwrap()
        .finish(0, &derived)
        .unwrap();
    assert_eq!(public_key.as_ref(), &derived[..]);
    assert_eq!(secret_key.as_ref(), &seed[..]);
}

#[test]
fn keypair_derivation_reports_backend_failures() {
    let seed = [3u8; 24];
    let derived = vec![0u8; Mayo2::PUBLIC_KEY_BYTES];
    let failed = SecretKey::<Mayo2>::from_seed(&seed).unwrap().finish(1, &derived);
    assert!(matches!(
        failed,
        Err(Error::KeyGeneration {
            error: MayoError::MayoErr
        })
    ));
    let unknown = SecretKey::<Mayo2>::from_seed(&seed).unwrap().finish(-2, &derived);
    assert!(matches!(
        unknown,
        Err(Error::KeyGeneration {
            error: MayoError::Unknown(-2)
        })
    ));
}

#[test]
fn seeds_drawn_from_the_caller_rng_become_the_secret_key() {
    let mut first_rng = ChaCha20Rng::from_seed([7; 32]);
    let mut second_rng = ChaCha20Rng::from_seed([7; 32]);
    let mut different_rng = ChaCha20Rng::from_seed([8; 32]);
    let mut draw = |rng: &mut ChaCha20Rng| {
        let mut seed = vec![0u8; Mayo3::SECRET_KEY_BYTES];
        rng.fill_bytes(&mut seed);
        seed
    };

    let first_seed = draw(&mut first_rng);
    let first = SecretKey::<Mayo3>::from_seed(&first_seed).unwrap();
    let second = SecretKey::<Mayo3>::from_seed(&draw(&mut second_rng)).unwrap();
    let different = SecretKey::<Mayo3>::from_seed(&draw(&mut different_rng)).unwrap();

    assert_eq!(first.seed(), &first_seed[..]);
    assert_eq!(first.seed(), second.seed());
    assert_ne!(first.seed(), different.seed());

    let derived = vec![0x42u8; Mayo3::PUBLIC_KEY_BYTES];
    let (_, secret_key) = first.finish(0, &derived).unwrap();
    assert_eq!(secret_key.as_ref(), &first_seed[..]);
}

#[test]
fn signing_request_carries_key_and_message() {
    let key = SecretKey::<Mayo1>::try_from(&[4u8; 24][..]).unwrap();
    let request = key.sign(b"message");
    assert_eq!(request.secret_key_bytes(), &[4u8; 24][..]);
    assert_eq!(request.message(), b"message");
}

#[test]
fn signing_turns_backend_replies_into_results() {
    let key = SecretKey::<Mayo2>::try_from(&[4u8; 24][..]).unwrap();
    let output = vec![0x77u8; Mayo2::SIGNATURE_BYTES];

    let signature = key.sign(b"").finish(0, &output, 186).unwrap();
    assert_eq!(signature.as_ref(), &output[..]);

    assert!(matches!(
        key.sign(b"m").finish(1, &output, 186),
        Err(Error::Signing {
            error: MayoError::MayoErr
        })
    ));
    assert!(matches!(
        key.sign(b"m").finish(4, &output, 12),
        Err(Error::Signing {
            error: MayoError::Unknown(4)
        })
    ));
    assert!(matches!(
        key.sign(b"m").finish(0, &output, 185),
        Err(Error::InvalidLength {
            expected: 186,
            actual: 185
        })
    ));
}

#[test]
fn verification_accepts_only_a_zero_status() {
    let public_key = PublicKey::<Mayo1>::try_from(&vec![1u8; 1420][..]).unwrap();
    let signature = Signature::<Mayo1>::try_from(&vec![2u8; 454][..]).unwrap();
    let request = signature.verify(&public_key, b"message");
    assert_eq!(request.signature_bytes(), &vec![2u8; 454][..]);
    assert_eq!(request.public_key_bytes(), &vec![1u8; 1420][..]);
    assert_eq!(request.message(), b"message");
    assert!(request.finish(0));
    assert!(!signature.verify(&public_key, b"message").finish(1));
    assert!(!signature.verify(&public_key, b"message").finish(-1));
}
