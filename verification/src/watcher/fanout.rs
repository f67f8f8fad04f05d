//! One-to-many publication of the latest bundle.
//!
//! A producer publishes bundles; any number of receivers, each created at its
//! own time, catch up to the latest one whenever they are polled. A receiver
//! that was slow skips the bundles in between.

use crate::handoff::{drain, lock, locked, send};
use crossbeam_channel::{Receiver, Sender};
use std::sync::{Arc, Mutex};
use vstd::prelude::*;

verus! {

/// What a receiver holds after taking `pending` (oldest first) on top of
/// `current`: the newest pending bundle, or `current` when nothing is pending.
pub open spec fn latest_of<B>(current: B, pending: Seq<B>) -> B {
    if pending.len() == 0 {
        current
    } else {
        pending.last()
    }
}

/// The entries of `senders` whose delivery succeeded, in their order.
pub open spec fn still_connected<S>(senders: Seq<S>, delivered: Seq<bool>) -> Seq<S>
    decreases senders.len(),
{
    if senders.len() == 0 {
        Seq::empty()
    } else if delivered.len() > 0 && delivered.last() {
        still_connected(senders.drop_last(), delivered.drop_last()).push(senders.last())
    } else {
        still_connected(senders.drop_last(), delivered.drop_last())
    }
}

/// What a receiver holds after a run of polls, each of which took what was
/// pending at its time.
pub open spec fn after_polls<B>(start: B, polls: Seq<Seq<B>>) -> B
    decreases polls.len(),
{
    if polls.len() == 0 {
        start
    } else {
        latest_of(after_polls(start, polls.drop_last()), polls.last())
    }
}

/// Everything that a run of polls took, oldest first.
pub open spec fn all_taken<B>(polls: Seq<Seq<B>>) -> Seq<B>
    decreases polls.len(),
{
    if polls.len() == 0 {
        Seq::empty()
    } else {
        all_taken(polls.drop_last()) + polls.last()
    }
}

/// Catching up in two polls comes to the same as catching up in one.
pub proof fn lemma_latest_of_composes<B>(start: B, earlier: Seq<B>, later: Seq<B>)
    ensures
        latest_of(latest_of(start, earlier), later) == latest_of(start, earlier + later),
{
    if later.len() > 0 {
        assert((earlier + later).last() == later.last());
    } else {
        assert(earlier + later == earlier);
    }
}

/// However the polls of a receiver fall between the publications, once it
/// has taken everything it holds the bundle that was published last; where
/// nothing was published it holds what it started with.
pub proof fn lemma_receiver_ends_at_latest<B>(start: B, polls: Seq<Seq<B>>)
    ensures
        after_polls(start, polls) == latest_of(start, all_taken(polls)),
        all_taken(polls).len() > 0 ==> after_polls(start, polls) == all_taken(polls).last(),
        all_taken(polls).len() == 0 ==> after_polls(start, polls) == start,
    decreases polls.len(),
{
    if polls.len() > 0 {
        lemma_receiver_ends_at_latest(start, polls.drop_last());
        lemma_latest_of_composes(start, all_taken(polls.drop_last()), polls.last());
    }
}

/// A receiver that is created while bundles are being published starts at the
/// bundle in force, which is the latest of what was published before. Once it
/// has taken what was published after, it holds the latest of all.
pub proof fn lemma_receiver_created_midway<B>(initial: B, before: Seq<B>, after: Seq<Seq<B>>)
    ensures
        after_polls(latest_of(initial, before), after) == latest_of(
            initial,
            before + all_taken(after),
        ),
{
    lemma_receiver_ends_at_latest(latest_of(initial, before), after);
    lemma_latest_of_composes(initial, before, all_taken(after));
}

/// Takes the pending bundles on top of `current`; the flag says whether there
/// was any.
pub fn take_latest<B>(current: B, pending: Vec<B>) -> (taken: (B, bool))
    ensures
        taken.0 == latest_of(current, pending@),
        taken.1 == (pending@.len() > 0),
{
    let mut pending = pending;
    match pending.pop() {
        Some(newest) => (newest, true),
        None => (current, false),
    }
}

/// Drops from `senders` every entry whose flag in `delivered` is false.
pub fn retain_delivered<S>(senders: &mut Vec<S>, delivered: &Vec<bool>)
    requires
        delivered@.len() == old(senders)@.len(),
    ensures
        final(senders)@ == still_connected(old(senders)@, delivered@),
{
    let ghost before = senders@;
    let mut kept: usize = 0;
    let mut seen: usize = 0;
    while seen < delivered.len()
        invariant
            delivered@.len() == before.len(),
            kept <= seen <= delivered@.len(),
            senders@.len() == kept + (before.len() - seen),
            senders@.take(kept as int) == still_connected(
                before.take(seen as int),
                delivered@.take(seen as int),
            ),
            senders@.skip(kept as int) == before.skip(seen as int),
        decreases delivered@.len() - seen,
    {
        let ghost held = senders@;
        proof {
            assert(before.take(seen + 1).drop_last() == before.take(seen as int));
            assert(delivered@.take(seen + 1).drop_last() == delivered@.take(seen as int));
            assert(held[kept as int] == held.skip(kept as int)[0]);
            assert(held.skip(kept + 1) == held.skip(kept as int).skip(1));
            assert(before.skip(seen + 1) == before.skip(seen as int).skip(1));
        }
        if delivered[seen] {
            proof {
                assert(held.take(kept + 1) == held.take(kept as int).push(before[seen as int]));
            }
            kept = kept + 1;
        } else {
            let _ = senders.remove(kept);
            proof {
                assert(senders@.take(kept as int) == held.take(kept as int));
                assert(senders@.skip(kept as int) == held.skip(kept + 1));
            }
        }
        seen = seen + 1;
    }
    proof {
        assert(senders@.take(kept as int) == senders@);
        assert(before.take(seen as int) == before);
        assert(delivered@.take(seen as int) == delivered@);
    }
}

/// The state behind the lock: the bundle in force and one channel per receiver.
#[verifier::reject_recursive_types(B)]
pub struct BundleFanoutInner<B> {
    current_bundle: B,
    senders: Vec<Sender<B>>,
}

impl<B: Clone> BundleFanoutInner<B> {
    /// The bundle in force.
    pub closed spec fn current(&self) -> B {
        self.current_bundle
    }

    /// The sending ends of the receivers that are still registered.
    pub closed spec fn senders(&self) -> Seq<Sender<B>> {
        self.senders@
    }

    /// A fan-out with `initial_bundle` in force and no receiver.
    pub fn new(initial_bundle: B) -> (inner: Self)
        ensures
            inner.current() == initial_bundle,
            inner.senders() == Seq::<Sender<B>>::empty(),
    {
        BundleFanoutInner { current_bundle: initial_bundle, senders: Vec::new() }
    }

    /// Sends a copy of `new_bundle` to every registered receiver; the flags say,
    /// receiver by receiver, whether the copy was taken.
    pub fn deliver(&self, new_bundle: &B) -> (delivered: Vec<bool>)
        ensures
            delivered@.len() == self.senders().len(),
    {
        let mut delivered: Vec<bool> = Vec::new();
        let mut index: usize = 0;
        while index < self.senders.len()
            invariant
                index <= self.senders@.len(),
                delivered@.len() == index,
            decreases self.senders@.len() - index,
        {
            let undelivered = send(&self.senders[index], new_bundle.clone());
            delivered.push(undelivered.is_none());
            index = index + 1;
        }
        delivered
    }

    /// Publishes `new_bundle`: it becomes the bundle in force and goes to every
    /// receiver; receivers that are gone are forgotten.
    pub fn produce(&mut self, new_bundle: &B)
        ensures
            cloned(*new_bundle, final(self).current()),
            exists|delivered: Seq<bool>|
                delivered.len() == old(self).senders().len() && final(self).senders()
                    == #[trigger] still_connected(old(self).senders(), delivered),
    {
        self.current_bundle = new_bundle.clone();
        let delivered = self.deliver(new_bundle);
        retain_delivered(&mut self.senders, &delivered);
        assert(self.senders() == still_connected(old(self).senders(), delivered@));
    }

    /// Registers a new receiver, which starts at the bundle in force.
    pub fn new_receiver(&mut self) -> (receiver: BundleReceiver<B>)
        ensures
            cloned(old(self).current(), receiver.current()),
            final(self).current() == old(self).current(),
            final(self).senders().len() == old(self).senders().len() + 1,
            final(self).senders().drop_last() == old(self).senders(),
    {
        let current_bundle = self.current_bundle.clone();
        let (sender, receiver) = crossbeam_channel::unbounded();
        self.senders.push(sender);
        BundleReceiver { current_bundle, receiver }
    }
}

/// The publishing side of a fan-out.
#[verifier::reject_recursive_types(B)]
pub struct BundleProducer<B> {
    inner: Arc<Mutex<BundleFanoutInner<B>>>,
}

impl<B> BundleProducer<B> {
    /// The lock behind which the state of the fan-out lies. Every end of one
    /// fan-out has the same.
    pub closed spec fn shared(&self) -> Mutex<BundleFanoutInner<B>> {
        *self.inner
    }
}

impl<B: Clone> BundleProducer<B> {
    /// Publishes `new_bundle` to the receivers registered at this moment. The
    /// producer keeps working on the same state.
    pub fn produce(&mut self, new_bundle: &B)
        ensures
            final(self).shared() == old(self).shared(),
    {
        let mut guard = lock(&self.inner);
        let state = locked(&mut guard);
        state.produce(new_bundle);
    }
}

/// Hands out receivers of a fan-out.
#[verifier::reject_recursive_types(B)]
pub struct BundleReceiverFactory<B> {
    inner: Arc<Mutex<BundleFanoutInner<B>>>,
}

impl<B> BundleReceiverFactory<B> {
    /// The lock behind which the state of the fan-out lies. Every end of one
    /// fan-out has the same.
    pub closed spec fn shared(&self) -> Mutex<BundleFanoutInner<B>> {
        *self.inner
    }
}

impl<B: Clone> BundleReceiverFactory<B> {
    /// A receiver that starts at the bundle in force at this moment.
    pub fn new_receiver(&self) -> (receiver: BundleReceiver<B>) {
        let mut guard = lock(&self.inner);
        let state = locked(&mut guard);
        state.new_receiver()
    }
}

/// One subscriber: the bundle it has caught up to, and its channel.
#[verifier::reject_recursive_types(B)]
pub struct BundleReceiver<B> {
    current_bundle: B,
    receiver: Receiver<B>,
}

impl<B> BundleReceiver<B> {
    /// The bundle this receiver has caught up to.
    pub closed spec fn current(&self) -> B {
        self.current_bundle
    }

    /// The bundle this receiver has caught up to.
    pub fn current_bundle(&self) -> (bundle: &B)
        ensures
            *bundle == self.current(),
    {
        &self.current_bundle
    }

    /// Catches up with `pending`, the bundles published since the last poll,
    /// oldest first. Returns whether there was any.
    pub fn catch_up(&mut self, pending: Vec<B>) -> (changed: bool)
        ensures
            final(self).current() == latest_of(old(self).current(), pending@),
            changed == (pending@.len() > 0),
    {
        let mut pending = pending;
        match pending.pop() {
            Some(newest) => {
                self.current_bundle = newest;
                true
            },
            None => false,
        }
    }

    /// Takes everything that is waiting in the channel and keeps the newest.
    /// Returns whether anything was waiting.
    pub fn receive_new_bundle(&mut self) -> (changed: bool)
        ensures
            !changed ==> final(self).current() == old(self).current(),
            exists|pending: Seq<B>|
                final(self).current() == #[trigger] latest_of(old(self).current(), pending)
                    && changed == (pending.len() > 0),
    {
        let pending = drain(&self.receiver);
        let ghost taken = pending@;
        let changed = self.catch_up(pending);
        assert(self.current() == latest_of(old(self).current(), taken));
        changed
    }
}

/// A fan-out that starts with `initial_bundle` in force and no receiver. Its
/// two ends work on one state: what the producer publishes is what the
/// receivers of the factory get.
pub fn new_bundle_fanout<B: Clone>(initial_bundle: B) -> (ends: (
    BundleProducer<B>,
    BundleReceiverFactory<B>,
))
    ensures
        ends.0.shared() == ends.1.shared(),
{
    let inner = Arc::new(Mutex::new(BundleFanoutInner::new(initial_bundle)));
    (BundleProducer { inner: inner.clone() }, BundleReceiverFactory { inner })
}

} // verus!
