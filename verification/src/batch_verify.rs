//! Verifying many signatures while reusing expanded public keys.
//!
//! MAYO verification first expands the compact public key into a much larger
//! internal representation. [`BatchVerifier`] keeps one group per distinct
//! public key: its expanded key, computed once when the key is first added,
//! and the queued `(message, signature)` pairs for that key. Expanding a key
//! and checking a queued pair are MAYO-C routines that the caller runs when
//! the batch asks for them: [`BatchVerifier::add`] hands back a
//! [`KeyExpansion`] for a new key, and verification proceeds in
//! [`BatchStep`]s, one queued pair at a time.
use crate::buffers::{bytes_as_slice, bytes_clone, bytes_contents, bytes_copy_from_slice, bytes_eq};
use crate::errors::{error_for_code, Error, MayoError};
use crate::parameterization::ParameterSet;
use crate::public_key::PublicKey;
use crate::signature::Signature;
use core::marker::PhantomData;
use vstd::prelude::*;

verus! {

/// A public key in MAYO-C's expanded form.
///
/// It holds exactly `P::EXPANDED_PUBLIC_KEY_WORDS` words, as MAYO-C's
/// verification with an expanded key requires.
pub struct ExpandedPublicKey<P: ParameterSet> {
    words: Vec<u64>,
    parameter_set: PhantomData<P>,
}

impl<P: ParameterSet> View for ExpandedPublicKey<P> {
    type V = Seq<u64>;

    /// The expanded key's words.
    closed spec fn view(&self) -> Seq<u64> {
        self.words@
    }
}

impl<P: ParameterSet> ExpandedPublicKey<P> {
    /// Every expanded key has the expanded length of `P`.
    #[verifier::type_invariant]
    closed spec fn has_expanded_length(self) -> bool {
        self.words@.len() == P::EXPANDED_PUBLIC_KEY_WORDS
    }

    /// The words to hand to MAYO-C's verification with an expanded key.
    pub fn words(&self) -> (words: &[u64])
        ensures
            words@ == self@,
            words@.len() == P::EXPANDED_PUBLIC_KEY_WORDS,
    {
        proof {
            use_type_invariant(self);
        }
        self.words.as_slice()
    }
}

/// One queued verification: a copy of the message and the signature.
struct QueuedVerification<P: ParameterSet> {
    message: bytes::Bytes,
    signature: Signature<P>,
}

/// The public key, its expanded form, and the verifications queued for it.
struct PublicKeyGroup<P: ParameterSet> {
    public_key: bytes::Bytes,
    expanded_public_key: ExpandedPublicKey<P>,
    items: Vec<QueuedVerification<P>>,
}

/// What a batch holds for one public key.
pub struct GroupView {
    /// The compact public key.
    pub key: Seq<u8>,
    /// Its expanded form.
    pub expanded: Seq<u64>,
    /// The queued `(message, signature)` pairs, in the order they were added.
    pub queued: Seq<(Seq<u8>, Seq<u8>)>,
}

/// What a public-key expansion carries: the key, and the message and
/// signature to queue under it.
pub struct PendingView {
    /// The compact public key.
    pub key: Seq<u8>,
    /// The message.
    pub message: Seq<u8>,
    /// The signature.
    pub signature: Seq<u8>,
}

spec fn queued_view<P: ParameterSet>(item: QueuedVerification<P>) -> (Seq<u8>, Seq<u8>) {
    (bytes_contents(item.message), item.signature@)
}

spec fn group_view<P: ParameterSet>(group: PublicKeyGroup<P>) -> GroupView {
    GroupView {
        key: bytes_contents(group.public_key),
        expanded: group.expanded_public_key@,
        queued: group.items@.map_values(|item: QueuedVerification<P>| queued_view(item)),
    }
}

/// No two groups share a public key, and every group has at least one
/// queued verification.
pub open spec fn well_formed(groups: Seq<GroupView>) -> bool {
    &&& forall|g: int, h: int|
        0 <= g < groups.len() && 0 <= h < groups.len() && g != h ==> #[trigger] groups[g].key
            != #[trigger] groups[h].key
    &&& forall|g: int| 0 <= g < groups.len() ==> #[trigger] groups[g].queued.len() > 0
}

/// Whether a group holds `key`.
pub open spec fn holds_key(groups: Seq<GroupView>, key: Seq<u8>) -> bool {
    exists|g: int| 0 <= g < groups.len() && #[trigger] groups[g].key == key
}

/// `groups` with `(message, signature)` queued under the group at `g`.
pub open spec fn queue_at(
    groups: Seq<GroupView>,
    g: int,
    message: Seq<u8>,
    signature: Seq<u8>,
) -> Seq<GroupView> {
    groups.update(
        g,
        GroupView {
            key: groups[g].key,
            expanded: groups[g].expanded,
            queued: groups[g].queued.push((message, signature)),
        },
    )
}

/// A batch verifier's progress: the next queued verification to check, or
/// the batch's verdict.
#[derive(Clone, Copy, Debug, PartialEq, Eq, Structural)]
pub enum BatchStep {
    /// Check the `item`-th verification queued in the `group`-th group.
    Verify { group: usize, item: usize },
    /// Every queued verification has been checked (`true`), or one failed
    /// (`false`).
    Finished(bool),
}

/// Whether `(group, item)` names a queued verification.
pub open spec fn is_position(groups: Seq<GroupView>, group: int, item: int) -> bool {
    0 <= group < groups.len() && 0 <= item < groups[group].queued.len()
}

/// The first step of a verification: the first queued pair, or `true` for
/// an empty batch.
pub open spec fn first_step(groups: Seq<GroupView>) -> BatchStep {
    if groups.len() == 0 {
        BatchStep::Finished(true)
    } else {
        BatchStep::Verify { group: 0, item: 0 }
    }
}

/// The step after the pair at `(group, item)` passed: the next pair of the
/// same group, else the first pair of the next group, else `true`.
pub open spec fn next_step(groups: Seq<GroupView>, group: int, item: int) -> BatchStep {
    if item + 1 < groups[group].queued.len() {
        BatchStep::Verify { group: group as usize, item: (item + 1) as usize }
    } else if group + 1 < groups.len() {
        BatchStep::Verify { group: (group + 1) as usize, item: 0 }
    } else {
        BatchStep::Finished(true)
    }
}

/// The step after MAYO-C reported `status` for the pair at `(group, item)`:
/// any nonzero status ends the verification with `false`.
pub open spec fn step_after(groups: Seq<GroupView>, group: int, item: int, status: i32) -> BatchStep {
    if status != 0 {
        BatchStep::Finished(false)
    } else {
        next_step(groups, group, item)
    }
}

/// The verdict that verification reaches from the pair at `(group, item)`
/// when MAYO-C reports `status(g, i)` for the pair at `(g, i)`.
pub open spec fn verdict_from(
    groups: Seq<GroupView>,
    group: int,
    item: int,
    status: spec_fn(int, int) -> i32,
) -> bool
    decreases groups.len() - group, groups[group].queued.len() - item,
{
    if !is_position(groups, group, item) {
        true
    } else if status(group, item) != 0 {
        false
    } else if item + 1 < groups[group].queued.len() {
        verdict_from(groups, group, item + 1, status)
    } else if group + 1 < groups.len() {
        verdict_from(groups, group + 1, 0, status)
    } else {
        true
    }
}

/// The verdict of verifying a whole batch when MAYO-C reports
/// `status(g, i)` for the pair at `(g, i)`.
pub open spec fn verdict(groups: Seq<GroupView>, status: spec_fn(int, int) -> i32) -> bool {
    if groups.len() == 0 {
        true
    } else {
        verdict_from(groups, 0, 0, status)
    }
}

/// Whether the pair at `(g, i)` comes at or after the pair at `(group, item)`
/// in verification order.
pub open spec fn at_or_after(g: int, i: int, group: int, item: int) -> bool {
    g > group || (g == group && i >= item)
}

/// An empty batch verifies at once; any other batch begins with the first
/// pair of its first group.
pub proof fn lemma_first_step_starts_verdict(groups: Seq<GroupView>, status: spec_fn(int, int) -> i32)
    requires
        well_formed(groups),
    ensures
        match first_step(groups) {
            BatchStep::Finished(valid) => valid && verdict(groups, status),
            BatchStep::Verify { group, item } => group == 0 && item == 0 && is_position(
                groups,
                0,
                0,
            ) && verdict(groups, status) == verdict_from(groups, 0, 0, status),
        },
{
    if groups.len() > 0 {
        assert(groups[0].queued.len() > 0);
    }
}

/// A failing status ends verification with `false`, a passing last pair
/// ends it with `true`, and otherwise verification moves on to a later
/// queued pair, from which it reaches the same outcome.
pub proof fn lemma_step_keeps_verdict(
    groups: Seq<GroupView>,
    group: int,
    item: int,
    status: spec_fn(int, int) -> i32,
)
    requires
        well_formed(groups),
        is_position(groups, group, item),
        groups.len() <= usize::MAX,
        groups[group].queued.len() <= usize::MAX,
    ensures
        match step_after(groups, group, item, status(group, item)) {
            BatchStep::Finished(valid) => valid == verdict_from(groups, group, item, status),
            BatchStep::Verify { group: next_group, item: next_item } => {
                &&& is_position(groups, next_group as int, next_item as int)
                &&& at_or_after(next_group as int, next_item as int, group, item)
                &&& (next_group as int, next_item as int) != (group, item)
                &&& verdict_from(groups, group, item, status) == verdict_from(
                    groups,
                    next_group as int,
                    next_item as int,
                    status,
                )
            },
        },
{
    if group + 1 < groups.len() {
        assert(groups[group + 1].queued.len() > 0);
    }
}

/// From the pair at `(group, item)` verification reaches `true` exactly when
/// every pair at or after it passes.
pub proof fn lemma_verdict_from_is_all_pass(
    groups: Seq<GroupView>,
    group: int,
    item: int,
    status: spec_fn(int, int) -> i32,
)
    requires
        well_formed(groups),
        is_position(groups, group, item),
    ensures
        verdict_from(groups, group, item, status) <==> forall|g: int, i: int|
            is_position(groups, g, i) && at_or_after(g, i, group, item) ==> #[trigger] status(g, i)
                == 0,
    decreases groups.len() - group, groups[group].queued.len() - item,
{
    if status(group, item) != 0 {
    } else if item + 1 < groups[group].queued.len() {
        lemma_verdict_from_is_all_pass(groups, group, item + 1, status);
    } else if group + 1 < groups.len() {
        assert(groups[group + 1].queued.len() > 0);
        lemma_verdict_from_is_all_pass(groups, group + 1, 0, status);
    } else {
    }
}

/// A batch verifies exactly when every queued verification passes; an
/// empty batch verifies.
pub proof fn lemma_verdict_is_all_pass(groups: Seq<GroupView>, status: spec_fn(int, int) -> i32)
    requires
        well_formed(groups),
    ensures
        verdict(groups, status) <==> forall|g: int, i: int|
            is_position(groups, g, i) ==> #[trigger] status(g, i) == 0,
{
    if groups.len() > 0 {
        assert(groups[0].queued.len() > 0);
        lemma_verdict_from_is_all_pass(groups, 0, 0, status);
    }
}

/// Queuing a pair under an existing group keeps the groups and their keys:
/// a public key that is added again does not count again.
pub proof fn lemma_queue_keeps_keys(
    groups: Seq<GroupView>,
    g: int,
    message: Seq<u8>,
    signature: Seq<u8>,
)
    requires
        well_formed(groups),
        0 <= g < groups.len(),
    ensures
        queue_at(groups, g, message, signature).len() == groups.len(),
        forall|h: int|
            0 <= h < groups.len() ==> #[trigger] queue_at(groups, g, message, signature)[h].key
                == groups[h].key && queue_at(groups, g, message, signature)[h].expanded
                == groups[h].expanded,
        queue_at(groups, g, message, signature)[g].queued.last() == (message, signature),
        well_formed(queue_at(groups, g, message, signature)),
{
    let queued = queue_at(groups, g, message, signature);
    assert forall|h: int, k: int|
        0 <= h < queued.len() && 0 <= k < queued.len() && h != k implies #[trigger] queued[h].key
        != #[trigger] queued[k].key by {
        assert(queued[h].key == groups[h].key);
        assert(queued[k].key == groups[k].key);
    }
    assert forall|h: int| 0 <= h < queued.len() implies #[trigger] queued[h].queued.len() > 0 by {
        if h != g {
            assert(queued[h] == groups[h]);
        }
    }
}

/// Adding a group for a key that no group holds keeps the groups well formed.
pub proof fn lemma_push_group_keeps_well_formed(groups: Seq<GroupView>, group: GroupView)
    requires
        well_formed(groups),
        !holds_key(groups, group.key),
        group.queued.len() > 0,
    ensures
        well_formed(groups.push(group)),
{
    let after = groups.push(group);
    assert forall|h: int, k: int|
        0 <= h < after.len() && 0 <= k < after.len() && h != k implies #[trigger] after[h].key
        != #[trigger] after[k].key by {
        if h == groups.len() {
            assert(after[k] == groups[k]);
        } else if k == groups.len() {
            assert(after[h] == groups[h]);
        } else {
            assert(after[h] == groups[h]);
            assert(after[k] == groups[k]);
        }
    }
    assert forall|h: int| 0 <= h < after.len() implies #[trigger] after[h].queued.len() > 0 by {
        if h < groups.len() {
            assert(after[h] == groups[h]);
        }
    }
}

/// MAYO-C's status for each queued pair when it depends only on the pair's
/// expanded key, message and signature (`check(expanded, message,
/// signature)`).
pub open spec fn status_by(
    groups: Seq<GroupView>,
    check: spec_fn(Seq<u64>, Seq<u8>, Seq<u8>) -> i32,
) -> spec_fn(int, int) -> i32 {
    |g: int, i: int| check(groups[g].expanded, groups[g].queued[i].0, groups[g].queued[i].1)
}

/// Whether a pair passes `check` under an expanded key.
pub open spec fn passes(
    check: spec_fn(Seq<u64>, Seq<u8>, Seq<u8>) -> i32,
    expanded: Seq<u64>,
    pair: (Seq<u8>, Seq<u8>),
) -> bool {
    check(expanded, pair.0, pair.1) == 0
}

/// A batch verifies exactly when every queued pair passes under its
/// group's expanded key, so the verdict does not depend on the order in
/// which keys and pairs were added.
pub proof fn lemma_verdict_by_content(
    groups: Seq<GroupView>,
    check: spec_fn(Seq<u64>, Seq<u8>, Seq<u8>) -> i32,
)
    requires
        well_formed(groups),
    ensures
        verdict(groups, status_by(groups, check)) <==> forall|g: int, i: int|
            is_position(groups, g, i) ==> passes(check, groups[g].expanded, #[trigger] groups[g].queued[i]),
{
    let status = status_by(groups, check);
    lemma_verdict_is_all_pass(groups, status);
    if verdict(groups, status) {
        assert forall|g: int, i: int| is_position(groups, g, i) implies passes(
            check,
            groups[g].expanded,
            #[trigger] groups[g].queued[i],
        ) by {
            assert(status(g, i) == 0);
        }
    } else {
        let (g, i) = choose|g: int, i: int| is_position(groups, g, i) && #[trigger] status(g, i) != 0;
        assert(!passes(check, groups[g].expanded, groups[g].queued[i]));
    }
}

/// Queuing `(message, signature)` under an existing key: the batch then
/// verifies exactly when it verified before and the new pair passes under
/// that key. Adding can therefore never turn a failing batch into a passing
/// one.
pub proof fn lemma_queue_verdict(
    groups: Seq<GroupView>,
    g: int,
    message: Seq<u8>,
    signature: Seq<u8>,
    check: spec_fn(Seq<u64>, Seq<u8>, Seq<u8>) -> i32,
)
    requires
        well_formed(groups),
        0 <= g < groups.len(),
    ensures
        verdict(queue_at(groups, g, message, signature), status_by(queue_at(groups, g, message, signature), check))
            == (verdict(groups, status_by(groups, check)) && passes(
            check,
            groups[g].expanded,
            (message, signature),
        )),
{
    let after = queue_at(groups, g, message, signature);
    let old_status = status_by(groups, check);
    let new_status = status_by(after, check);
    lemma_queue_keeps_keys(groups, g, message, signature);
    lemma_verdict_is_all_pass(groups, old_status);
    lemma_verdict_is_all_pass(after, new_status);
    let last = groups[g].queued.len() as int;
    assert(after[g].queued[last] == (message, signature));
    assert(is_position(after, g, last));
    assert(new_status(g, last) == check(groups[g].expanded, message, signature));
    assert forall|h: int, i: int| is_position(groups, h, i) implies is_position(after, h, i)
        && #[trigger] old_status(h, i) == new_status(h, i) by {
        if h == g {
            assert(after[h].queued[i] == groups[h].queued[i]);
        } else {
            assert(after[h] == groups[h]);
        }
    }
    if verdict(groups, old_status) && passes(check, groups[g].expanded, (message, signature)) {
        assert forall|h: int, i: int| is_position(after, h, i) implies #[trigger] new_status(h, i)
            == 0 by {
            if h == g && i == last {
            } else if h == g {
                assert(is_position(groups, h, i));
                assert(old_status(h, i) == 0);
            } else {
                assert(after[h] == groups[h]);
                assert(is_position(groups, h, i));
                assert(old_status(h, i) == 0);
            }
        }
    }
    if verdict(after, new_status) {
        assert(new_status(g, last) == 0);
        assert forall|h: int, i: int| is_position(groups, h, i) implies #[trigger] old_status(h, i)
            == 0 by {
            assert(new_status(h, i) == 0);
        }
    }
}

/// Adding a group for a new key: the batch then verifies exactly when it
/// verified before and every pair of the new group passes under its
/// expanded key.
pub proof fn lemma_push_group_verdict(
    groups: Seq<GroupView>,
    group: GroupView,
    check: spec_fn(Seq<u64>, Seq<u8>, Seq<u8>) -> i32,
)
    requires
        well_formed(groups),
        !holds_key(groups, group.key),
        group.queued.len() > 0,
    ensures
        verdict(groups.push(group), status_by(groups.push(group), check)) == (verdict(
            groups,
            status_by(groups, check),
        ) && forall|i: int|
            0 <= i < group.queued.len() ==> passes(check, group.expanded, #[trigger] group.queued[i])),
{
    let after = groups.push(group);
    let old_status = status_by(groups, check);
    let new_status = status_by(after, check);
    let n = groups.len() as int;
    lemma_push_group_keeps_well_formed(groups, group);
    lemma_verdict_is_all_pass(groups, old_status);
    lemma_verdict_is_all_pass(after, new_status);
    assert(after[n] == group);
    assert forall|h: int, i: int| is_position(groups, h, i) implies is_position(after, h, i)
        && #[trigger] old_status(h, i) == new_status(h, i) by {
        assert(after[h] == groups[h]);
    }
    let all_new_pass = forall|i: int|
        0 <= i < group.queued.len() ==> passes(check, group.expanded, #[trigger] group.queued[i]);
    if verdict(groups, old_status) && all_new_pass {
        assert forall|h: int, i: int| is_position(after, h, i) implies #[trigger] new_status(h, i)
            == 0 by {
            if h == n {
                assert(passes(check, group.expanded, group.queued[i]));
            } else {
                assert(after[h] == groups[h]);
                assert(is_position(groups, h, i));
                assert(old_status(h, i) == 0);
            }
        }
    }
    if verdict(after, new_status) {
        assert forall|h: int, i: int| is_position(groups, h, i) implies #[trigger] old_status(h, i)
            == 0 by {
            assert(new_status(h, i) == 0);
        }
        assert forall|i: int| 0 <= i < group.queued.len() implies passes(
            check,
            group.expanded,
            #[trigger] group.queued[i],
        ) by {
            assert(is_position(after, n, i));
            assert(new_status(n, i) == 0);
        }
    }
}

/// Verifies many signatures while reusing expanded public keys.
///
/// This is an exact verifier, not a probabilistic batch check: verification
/// checks every queued `(public key, message, signature)` tuple and ends
/// with `false` as soon as one tuple fails.
pub struct BatchVerifier<P: ParameterSet> {
    groups: Vec<PublicKeyGroup<P>>,
}

impl<P: ParameterSet> View for BatchVerifier<P> {
    type V = Seq<GroupView>;

    /// The groups, one per distinct public key, in the order the keys were
    /// first added.
    closed spec fn view(&self) -> Seq<GroupView> {
        self.groups@.map_values(|group: PublicKeyGroup<P>| group_view(group))
    }
}

/// A public key that a batch has not seen yet, with the message and
/// signature to queue under it.
///
/// The caller hands [`public_key_bytes`](Self::public_key_bytes) to MAYO-C's
/// public-key expansion, with an output buffer of
/// [`crate::expanded_public_key_words`] words, and passes the status and the
/// buffer to [`BatchVerifier::finish_add`].
pub struct KeyExpansion<P: ParameterSet> {
    public_key: PublicKey<P>,
    message: bytes::Bytes,
    signature: Signature<P>,
}

impl<P: ParameterSet> View for KeyExpansion<P> {
    type V = PendingView;

    closed spec fn view(&self) -> PendingView {
        PendingView {
            key: self.public_key@,
            message: bytes_contents(self.message),
            signature: self.signature@,
        }
    }
}

impl<P: ParameterSet> KeyExpansion<P> {
    /// The compact public key to hand to MAYO-C's public-key expansion.
    pub fn public_key_bytes(&self) -> (bytes: &[u8])
        ensures
            bytes@ == self@.key,
            bytes@.len() == P::PUBLIC_KEY_BYTES,
    {
        self.public_key.as_ref()
    }
}

impl<P: ParameterSet> BatchVerifier<P> {
    #[verifier::type_invariant]
    closed spec fn groups_are_well_formed(self) -> bool {
        well_formed(self@)
    }

    /// Creates an empty batch verifier. No public keys are expanded until
    /// [`add`](Self::add) sees the first signature for a key.
    pub fn new() -> (batch: Self)
        ensures
            batch@ == Seq::<GroupView>::empty(),
    {
        let batch = BatchVerifier { groups: Vec::new() };
        assert(batch@ =~= Seq::<GroupView>::empty());
        batch
    }

    /// Returns the number of distinct public keys in the batch.
    ///
    /// This is not the number of queued signatures: multiple signatures
    /// under the same public key count as one group.
    pub fn len(&self) -> (count: usize)
        ensures
            count == self@.len(),
            well_formed(self@),
    {
        proof {
            use_type_invariant(self);
        }
        self.groups.len()
    }

    /// Returns true when no public keys are queued.
    pub fn is_empty(&self) -> (empty: bool)
        ensures
            empty == (self@.len() == 0),
    {
        self.groups.len() == 0
    }

    /// The index of the group that holds `key`, if any.
    fn find_group(&self, key: &bytes::Bytes) -> (found: Option<usize>)
        ensures
            match found {
                Some(g) => g < self@.len() && self@[g as int].key == bytes_contents(*key),
                None => !holds_key(self@, bytes_contents(*key)),
            },
    {
        let mut g: usize = 0;
        while g < self.groups.len()
            invariant
                g <= self.groups@.len(),
                forall|h: int| 0 <= h < g ==> self@[h].key != bytes_contents(*key),
            decreases self.groups@.len() - g,
        {
            if bytes_eq(&self.groups[g].public_key, key) {
                return Some(g);
            }
            g = g + 1;
        }
        None
    }

    /// Queues `(message, signature)` under the group at `g`.
    fn queue_in_group(&mut self, g: usize, message: bytes::Bytes, signature: Signature<P>)
        requires
            g < old(self)@.len(),
        ensures
            final(self)@ == queue_at(old(self)@, g as int, bytes_contents(message), signature@),
    {
        proof {
            use_type_invariant(&*self);
        }
        let ghost before = self@;
        let mut groups: Vec<PublicKeyGroup<P>> = Vec::new();
        core::mem::swap(&mut groups, &mut self.groups);
        let mut group = groups.remove(g);
        group.items.push(QueuedVerification { message, signature });
        groups.insert(g, group);
        let ghost after = groups@.map_values(|group: PublicKeyGroup<P>| group_view(group));
        assert(group_view(group).queued =~= before[g as int].queued.push(
            (bytes_contents(message), signature@),
        ));
        assert(after =~= queue_at(before, g as int, bytes_contents(message), signature@));
        proof {
            lemma_queue_keeps_keys(before, g as int, bytes_contents(message), signature@);
        }
        self.groups = groups;
    }

    /// Queues a signature verification.
    ///
    /// If `public_key` was already added to the batch, this only stores the
    /// message and signature and returns `None`. Otherwise the batch is left
    /// as it is and the returned [`KeyExpansion`] asks for the key to be
    /// expanded; [`finish_add`](Self::finish_add) then caches the expanded
    /// key for the rest of the batch. The message bytes are copied.
    pub fn add(&mut self, public_key: &PublicKey<P>, message: &[u8], signature: &Signature<P>) -> (pending:
        Option<KeyExpansion<P>>)
        ensures
            pending is None <==> holds_key(old(self)@, public_key@),
            match pending {
                None => exists|g: int|
                    0 <= g < old(self)@.len() && old(self)@[g].key == public_key@ && final(self)@
                        == queue_at(old(self)@, g, message@, signature@),
                Some(expansion) => final(self)@ == old(self)@ && expansion@ == (PendingView {
                    key: public_key@,
                    message: message@,
                    signature: signature@,
                }),
            },
    {
        let message = bytes_copy_from_slice(message);
        let key = public_key.buffer();
        match self.find_group(key) {
            Some(g) => {
                self.queue_in_group(g, message, signature.clone());
                None
            },
            None => Some(KeyExpansion { public_key: public_key.clone(), message, signature: signature.clone() }),
        }
    }

    /// Finishes adding a new public key with MAYO-C's expansion status and
    /// the expanded key it wrote into a buffer of
    /// [`crate::expanded_public_key_words`] words.
    ///
    /// If the key has meanwhile been added to the batch, the pair is queued
    /// under it and the expansion is not used. Otherwise a nonzero status is
    /// [`Error::PublicKeyExpansion`] and leaves the batch as it is, and a
    /// zero status adds a group with the expanded key and the pair.
    pub fn finish_add(&mut self, expansion: KeyExpansion<P>, status: i32, words: Vec<u64>) -> (result:
        Result<(), Error>)
        requires
            words@.len() == P::EXPANDED_PUBLIC_KEY_WORDS,
        ensures
            result is Err <==> (!holds_key(old(self)@, expansion@.key) && status != 0),
            holds_key(old(self)@, expansion@.key) ==> exists|g: int|
                0 <= g < old(self)@.len() && old(self)@[g].key == expansion@.key && final(self)@
                    == queue_at(old(self)@, g, expansion@.message, expansion@.signature),
            !holds_key(old(self)@, expansion@.key) && status != 0 ==> final(self)@ == old(self)@
                && result == Err::<(), Error>(
                Error::PublicKeyExpansion { error: error_for_code(status) },
            ),
            !holds_key(old(self)@, expansion@.key) && status == 0 ==> final(self)@ == old(self)@.push(
                GroupView {
                    key: expansion@.key,
                    expanded: words@,
                    queued: seq![(expansion@.message, expansion@.signature)],
                },
            ),
    {
        proof {
            use_type_invariant(&*self);
        }
        let KeyExpansion { public_key, message, signature } = expansion;
        let key = public_key.buffer();
        if let Some(g) = self.find_group(key) {
            self.queue_in_group(g, message, signature);
            return Ok(());
        }
        if status != 0 {
            return Err(Error::PublicKeyExpansion { error: MayoError::from_code(status) });
        }
        let ghost before = self@;
        let group = PublicKeyGroup {
            public_key: bytes_clone(key),
            expanded_public_key: ExpandedPublicKey { words, parameter_set: PhantomData },
            items: vec![QueuedVerification { message, signature }],
        };
        let mut groups: Vec<PublicKeyGroup<P>> = Vec::new();
        core::mem::swap(&mut groups, &mut self.groups);
        groups.push(group);
        let ghost after = groups@.map_values(|group: PublicKeyGroup<P>| group_view(group));
        assert(group_view(group).queued =~= seq![(bytes_contents(message), signature@)]);
        assert(after =~= before.push(group_view(group)));
        proof {
            lemma_push_group_keeps_well_formed(before, group_view(group));
        }
        self.groups = groups;
        Ok(())
    }

    /// Starts verifying every queued signature: the first queued pair, or
    /// `Finished(true)` when the batch is empty.
    pub fn verify(&self) -> (step: BatchStep)
        ensures
            step == first_step(self@),
            well_formed(self@),
            self@.len() <= usize::MAX,
            forall|g: int| 0 <= g < self@.len() ==> #[trigger] self@[g].queued.len() <= usize::MAX,
    {
        proof {
            use_type_invariant(self);
            assert forall|g: int| 0 <= g < self@.len() implies #[trigger] self@[g].queued.len()
                <= usize::MAX by {
                assert(self@[g].queued.len() == self.groups@[g].items@.len());
                assert(self.groups@[g].items.len() == self.groups@[g].items@.len());
            }
        }
        if self.groups.len() == 0 {
            BatchStep::Finished(true)
        } else {
            BatchStep::Verify { group: 0, item: 0 }
        }
    }

    /// Takes MAYO-C's status for the queued pair at `(group, item)` and
    /// returns the next step.
    pub fn advance(&self, group: usize, item: usize, status: i32) -> (step: BatchStep)
        requires
            is_position(self@, group as int, item as int),
        ensures
            step == step_after(self@, group as int, item as int, status),
    {
        proof {
            use_type_invariant(self);
        }
        if status != 0 {
            return BatchStep::Finished(false);
        }
        assert(self@[group as int].queued.len() == self.groups@[group as int].items@.len());
        if item < self.groups[group].items.len() - 1 {
            BatchStep::Verify { group, item: item + 1 }
        } else if group < self.groups.len() - 1 {
            BatchStep::Verify { group: group + 1, item: 0 }
        } else {
            BatchStep::Finished(true)
        }
    }

    /// The expanded key of the `group`-th group.
    pub fn expanded_public_key(&self, group: usize) -> (expanded: &ExpandedPublicKey<P>)
        requires
            group < self@.len(),
        ensures
            expanded@ == self@[group as int].expanded,
    {
        &self.groups[group].expanded_public_key
    }

    /// The message of the queued pair at `(group, item)`.
    pub fn queued_message(&self, group: usize, item: usize) -> (message: &[u8])
        requires
            is_position(self@, group as int, item as int),
        ensures
            message@ == self@[group as int].queued[item as int].0,
    {
        bytes_as_slice(&self.groups[group].items[item].message)
    }

    /// The signature of the queued pair at `(group, item)`.
    pub fn queued_signature(&self, group: usize, item: usize) -> (signature: &Signature<P>)
        requires
            is_position(self@, group as int, item as int),
        ensures
            signature@ == self@[group as int].queued[item as int].1,
    {
        &self.groups[group].items[item].signature
    }
}

impl<P: ParameterSet> Default for BatchVerifier<P> {
    fn default() -> (batch: Self)
        ensures
            batch@ == Seq::<GroupView>::empty(),
    {
        Self::new()
    }
}

} // verus!
