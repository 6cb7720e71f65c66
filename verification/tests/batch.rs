use sriracha_mayo::{
    expanded_public_key_words, BatchStep, BatchVerifier, Error, Mayo2, MayoError, ParameterSet,
    PublicKey, Signature,
};

fn public_key(fill: u8) -> PublicKey<Mayo2> {
    PublicKey::try_from(&vec![fill; Mayo2::PUBLIC_KEY_BYTES][..]).unwrap()
}

fn signature(fill: u8) -> Signature<Mayo2> {
    Signature::try_from(&vec![fill; Mayo2::SIGNATURE_BYTES][..]).unwrap()
}

fn words(fill: u64) -> Vec<u64> {
    vec![fill; expanded_public_key_words::<Mayo2>()]
}

/// Runs a verification, answering each requested pair with `status`.
fn run(batch: &BatchVerifier<Mayo2>, status: impl Fn(usize, usize) -> i32) -> (bool, Vec<(usize, usize)>) {
    let mut visited = Vec::new();
    let mut step = batch.verify();
    loop {
        match step {
            BatchStep::Finished(valid) => return (valid, visited),
            BatchStep::Verify { group, item } => {
                visited.push((group, item));
                step = batch.advance(group, item, status(group, item));
            }
        }
    }
}

#[test]
fn empty_batch_verifies() {
    let batch = BatchVerifier::<Mayo2>::new();
    assert!(batch.is_empty());
    assert_eq!(batch.len(), 0);
    assert_eq!(batch.verify(), BatchStep::Finished(true));
    let default = BatchVerifier::<Mayo2>::default();
    assert!(default.is_empty());
}

#[test]
fn duplicate_public_keys_share_one_expanded_key() {
    let key = public_key(1);
    let mut batch = BatchVerifier::new();

    let expansion = batch.add(&key, b"first batch message", &signature(10)).unwrap();
    assert!(batch.is_empty());
    assert_eq!(expansion.public_key_bytes(), key.as_ref());
    batch.finish_add(expansion, 0, words(5)).unwrap();
    assert_eq!(batch.len(), 1);

    assert!(batch.add(&key, b"second batch message", &signature(11)).is_none());
    assert_eq!(batch.len(), 1);

    assert_eq!(batch.expanded_public_key(0).words(), &words(5)[..]);
    assert_eq!(batch.queued_message(0, 0), b"first batch message");
    assert_eq!(batch.queued_message(0, 1), b"second batch message");
    assert_eq!(batch.queued_signature(0, 1), &signature(11));

    let (valid, visited) = run(&batch, |_, _| 0);
    assert!(valid);
    assert_eq!(visited, vec![(0, 0), (0, 1)]);
}

#[test]
fn failed_expansion_leaves_the_batch_unchanged() {
    let mut batch = BatchVerifier::new();
    let expansion = batch.add(&public_key(1), b"m", &signature(1)).unwrap();
    assert!(matches!(
        batch.finish_add(expansion, 1, words(0)),
        Err(Error::PublicKeyExpansion {
            error: MayoError::MayoErr
        })
    ));
    assert!(batch.is_empty());

    let expansion = batch.add(&public_key(1), b"m", &signature(1)).unwrap();
    assert!(matches!(
        batch.finish_add(expansion, 3, words(0)),
        Err(Error::PublicKeyExpansion {
            error: MayoError::Unknown(3)
        })
    ));
    assert_eq!(batch.verify(), BatchStep::Finished(true));
}

#[test]
fn late_expansion_of_a_known_key_only_queues() {
    let key = public_key(2);
    let mut batch = BatchVerifier::new();
    let first = batch.add(&key, b"one", &signature(1)).unwrap();
    let second = batch.add(&key, b"two", &signature(2)).unwrap();
    batch.finish_add(first, 0, words(1)).unwrap();
    // The key is now known, so the second expansion's status is not used.
    batch.finish_add(second, 1, words(2)).unwrap();
    assert_eq!(batch.len(), 1);
    assert_eq!(batch.expanded_public_key(0).words(), &words(1)[..]);
    assert_eq!(batch.queued_message(0, 1), b"two");
}

#[test]
fn verification_visits_every_pair_in_order_and_stops_at_a_failure() {
    let mut batch = BatchVerifier::new();
    for (fill, message) in [(1u8, b"a"), (2, b"b"), (1, b"c"), (3, b"d")] {
        if let Some(expansion) = batch.add(&public_key(fill), message, &signature(fill)) {
            batch.finish_add(expansion, 0, words(fill as u64)).unwrap();
        }
    }
    assert_eq!(batch.len(), 3);

    let (valid, visited) = run(&batch, |_, _| 0);
    assert!(valid);
    assert_eq!(visited, vec![(0, 0), (0, 1), (1, 0), (2, 0)]);

    let (valid, visited) = run(&batch, |group, item| if (group, item) == (1, 0) { 1 } else { 0 });
    assert!(!valid);
    assert_eq!(visited, vec![(0, 0), (0, 1), (1, 0)]);

    assert_eq!(batch.advance(2, 0, 0), BatchStep::Finished(true));
    assert_eq!(batch.advance(2, 0, -1), BatchStep::Finished(false));
    assert_eq!(batch.advance(0, 0, 0), BatchStep::Verify { group: 0, item: 1 });
    assert_eq!(batch.advance(0, 1, 0), BatchStep::Verify { group: 1, item: 0 });
}
