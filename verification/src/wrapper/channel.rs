//! The two queues between the main thread and the audio thread.
//!
//! One carries freshly activated processors to the audio thread; the other
//! carries retired processors back, so that the main thread can deactivate the
//! instance each belongs to. The audio thread only ever polls.

use crate::handoff::{drain, send, try_recv};
use crossbeam_channel::{Receiver, Sender};
use vstd::prelude::*;

verus! {

/// A value together with the identity of the plugin instance it belongs to.
#[derive(Debug, PartialEq, Eq)]
pub struct Tagged<T> {
    pub instance: u64,
    pub value: T,
}

/// Index of the first entry of `awaiting` that belongs to `instance`.
pub open spec fn first_owned_by<I>(awaiting: Seq<Tagged<I>>, instance: u64) -> Option<int>
    decreases awaiting.len(),
{
    if awaiting.len() == 0 {
        None
    } else if awaiting[0].instance == instance {
        Some(0)
    } else {
        match first_owned_by(awaiting.drop_first(), instance) {
            Some(index) => Some(index + 1),
            None => None,
        }
    }
}

/// What `first_owned_by` finds is an entry of that instance, and the first one;
/// where it finds none, no entry belongs to the instance.
pub proof fn lemma_first_owned_by<I>(awaiting: Seq<Tagged<I>>, instance: u64)
    ensures
        match first_owned_by(awaiting, instance) {
            Some(index) => 0 <= index < awaiting.len() && awaiting[index].instance == instance
                && forall|earlier: int|
                0 <= earlier < index ==> awaiting[earlier].instance != instance,
            None => forall|any: int| 0 <= any < awaiting.len() ==> awaiting[any].instance != instance,
        },
    decreases awaiting.len(),
{
    if awaiting.len() > 0 && awaiting[0].instance != instance {
        let rest = awaiting.drop_first();
        lemma_first_owned_by(rest, instance);
        match first_owned_by(rest, instance) {
            Some(index) => {
                assert forall|earlier: int| 0 <= earlier < index + 1 implies awaiting[earlier].instance
                    != instance by {
                    if earlier > 0 {
                        assert(awaiting[earlier] == rest[earlier - 1]);
                    }
                }
                assert(awaiting[index + 1] == rest[index]);
            },
            None => {
                assert forall|any: int| 0 <= any < awaiting.len() implies awaiting[any].instance
                    != instance by {
                    if any > 0 {
                        assert(awaiting[any] == rest[any - 1]);
                    }
                }
            },
        }
    }
}

/// The newest of `pending` (oldest first), if there is any.
pub open spec fn newest<T>(pending: Seq<T>) -> Option<T> {
    if pending.len() == 0 {
        None
    } else {
        Some(pending.last())
    }
}

/// All of `pending` but the newest, oldest first.
pub open spec fn superseded<T>(pending: Seq<T>) -> Seq<T> {
    if pending.len() == 0 {
        pending
    } else {
        pending.drop_last()
    }
}

/// Splits what was pending into the newest entry, which is kept, and the
/// entries it supersedes.
pub fn split_latest<T>(pending: Vec<T>) -> (parts: (Option<T>, Vec<T>))
    ensures
        parts.0 == newest(pending@),
        parts.1@ == superseded(pending@),
{
    let mut pending = pending;
    let latest = pending.pop();
    (latest, pending)
}

/// Position of the first instance awaiting destruction that `instance` names.
pub fn find_awaiting<I>(awaiting: &Vec<Tagged<I>>, instance: u64) -> (found: Option<usize>)
    ensures
        match found {
            Some(index) => first_owned_by(awaiting@, instance) == Some(index as int),
            None => first_owned_by(awaiting@, instance) is None,
        },
{
    let mut index: usize = 0;
    proof {
        assert(awaiting@.skip(0) == awaiting@);
    }
    while index < awaiting.len()
        invariant
            index <= awaiting@.len(),
            first_owned_by(awaiting@, instance) == match first_owned_by(
                awaiting@.skip(index as int),
                instance,
            ) {
                Some(offset) => Some(offset + index),
                None => None,
            },
        decreases awaiting@.len() - index,
    {
        let ghost tail = awaiting@.skip(index as int);
        proof {
            assert(tail[0] == awaiting@[index as int]);
            assert(tail.drop_first() == awaiting@.skip(index + 1));
        }
        if awaiting[index].instance == instance {
            return Some(index);
        }
        index = index + 1;
    }
    proof {
        assert(awaiting@.skip(index as int).len() == 0);
    }
    None
}

/// Takes out of `awaiting` the instance that `processor` belongs to. Where no
/// awaiting instance owns it, the processor comes back and nothing changes.
pub fn claim<I, P>(awaiting: &mut Vec<Tagged<I>>, processor: Tagged<P>) -> (claimed: Result<
    (Tagged<I>, Tagged<P>),
    Tagged<P>,
>)
    ensures
        match first_owned_by(old(awaiting)@, processor.instance) {
            Some(index) => claimed == Ok::<(Tagged<I>, Tagged<P>), Tagged<P>>(
                (old(awaiting)@[index], processor),
            ) && final(awaiting)@ == old(awaiting)@.remove(index),
            None => claimed == Err::<(Tagged<I>, Tagged<P>), Tagged<P>>(processor)
                && final(awaiting)@ == old(awaiting)@,
        },
{
    proof {
        lemma_first_owned_by(awaiting@, processor.instance);
    }
    match find_awaiting(awaiting, processor.instance) {
        Some(index) => {
            let instance = awaiting.remove(index);
            Ok((instance, processor))
        },
        None => Err(processor),
    }
}

/// What one round of clean-up found: the instances to deactivate, each with
/// the processor that was retired for it, and the processors that no awaiting
/// instance owns, each list in the order in which the processors came.
pub struct Retirements<I, P> {
    pub deactivate: Vec<(Tagged<I>, Tagged<P>)>,
    pub orphans: Vec<Tagged<P>>,
}

/// Every pair joins an instance with a processor of that same instance.
pub open spec fn well_paired<I, P>(pairs: Seq<(Tagged<I>, Tagged<P>)>) -> bool {
    forall|k: int| 0 <= k < pairs.len() ==> (#[trigger] pairs[k]).0.instance == pairs[k].1.instance
}

/// What comes of claiming an instance for each of `retired`, in order: the
/// instances that still await, the pairs that were made, and the processors
/// for which no instance awaited. Each processor takes the first awaiting
/// instance that it belongs to.
pub open spec fn claimed_all<I, P>(awaiting: Seq<Tagged<I>>, retired: Seq<Tagged<P>>) -> (
    Seq<Tagged<I>>,
    Seq<(Tagged<I>, Tagged<P>)>,
    Seq<Tagged<P>>,
)
    decreases retired.len(),
{
    if retired.len() == 0 {
        (awaiting, Seq::empty(), Seq::empty())
    } else {
        let before = claimed_all(awaiting, retired.drop_last());
        match first_owned_by(before.0, retired.last().instance) {
            Some(index) => (
                before.0.remove(index),
                before.1.push((before.0[index], retired.last())),
                before.2,
            ),
            None => (before.0, before.1, before.2.push(retired.last())),
        }
    }
}

/// Whether one of `retired` belongs to `instance`.
pub open spec fn names<P>(retired: Seq<Tagged<P>>, instance: u64) -> bool {
    exists|j: int| 0 <= j < retired.len() && (#[trigger] retired[j]).instance == instance
}

/// The entries of `awaiting` whose instance `skip` does not hold of, in their
/// order.
pub open spec fn kept<I>(awaiting: Seq<Tagged<I>>, skip: spec_fn(u64) -> bool) -> Seq<Tagged<I>>
    decreases awaiting.len(),
{
    if awaiting.len() == 0 {
        awaiting
    } else if skip(awaiting.last().instance) {
        kept(awaiting.drop_last(), skip)
    } else {
        kept(awaiting.drop_last(), skip).push(awaiting.last())
    }
}

/// The instances of `awaiting` that none of `retired` belongs to, in their
/// order.
pub open spec fn unclaimed<I, P>(awaiting: Seq<Tagged<I>>, retired: Seq<Tagged<P>>) -> Seq<
    Tagged<I>,
> {
    kept(awaiting, |instance: u64| names(retired, instance))
}

/// Taking out an entry that is skipped anyway changes nothing of what is kept.
pub proof fn lemma_kept_without_skipped<I>(
    awaiting: Seq<Tagged<I>>,
    skip: spec_fn(u64) -> bool,
    index: int,
)
    requires
        0 <= index < awaiting.len(),
        skip(awaiting[index].instance),
    ensures
        kept(awaiting.remove(index), skip) == kept(awaiting, skip),
    decreases awaiting.len(),
{
    let shorter = awaiting.drop_last();
    if index == awaiting.len() - 1 {
        assert(awaiting.remove(index) == shorter);
    } else {
        let removed = awaiting.remove(index);
        assert(removed.drop_last() == shorter.remove(index));
        assert(removed.last() == awaiting.last());
        assert(shorter[index] == awaiting[index]);
        lemma_kept_without_skipped(shorter, skip, index);
    }
}

/// Claiming for processors whose instances are all skipped changes nothing of
/// what is kept.
pub proof fn lemma_claimed_all_keeps<I, P>(
    awaiting: Seq<Tagged<I>>,
    retired: Seq<Tagged<P>>,
    skip: spec_fn(u64) -> bool,
)
    requires
        forall|j: int| 0 <= j < retired.len() ==> skip((#[trigger] retired[j]).instance),
    ensures
        kept(claimed_all(awaiting, retired).0, skip) == kept(awaiting, skip),
    decreases retired.len(),
{
    if retired.len() > 0 {
        let earlier = retired.drop_last();
        assert forall|j: int| 0 <= j < earlier.len() implies skip((#[trigger] earlier[j]).instance) by {
            assert(earlier[j] == retired[j]);
        }
        lemma_claimed_all_keeps(awaiting, earlier, skip);
        let before = claimed_all(awaiting, earlier);
        assert(retired[retired.len() - 1] == retired.last());
        lemma_first_owned_by(before.0, retired.last().instance);
        match first_owned_by(before.0, retired.last().instance) {
            Some(index) => {
                lemma_kept_without_skipped(before.0, skip, index);
            },
            None => {},
        }
    }
}

/// The instances that none of the retired processors belongs to stay in the
/// queue, in their order.
pub proof fn lemma_unclaimed_stay_in_order<I, P>(awaiting: Seq<Tagged<I>>, retired: Seq<Tagged<P>>)
    ensures
        unclaimed(claimed_all(awaiting, retired).0, retired) == unclaimed(awaiting, retired),
{
    let skip = |instance: u64| names(retired, instance);
    assert forall|j: int| 0 <= j < retired.len() implies skip((#[trigger] retired[j]).instance) by {
        assert(names(retired, retired[j].instance));
    }
    lemma_claimed_all_keeps(awaiting, retired, skip);
}

/// Every processor is either paired or set aside; every pair joins an awaiting
/// instance with a processor of that instance and takes the instance out of
/// the queue; what stays in the queue was in it; and no instance that stays
/// owns a processor that was set aside.
pub proof fn lemma_claimed_all<I, P>(awaiting: Seq<Tagged<I>>, retired: Seq<Tagged<P>>)
    ensures
        well_paired(claimed_all(awaiting, retired).1),
        claimed_all(awaiting, retired).1.len() + claimed_all(awaiting, retired).2.len()
            == retired.len(),
        claimed_all(awaiting, retired).0.len() + claimed_all(awaiting, retired).1.len()
            == awaiting.len(),
        forall|k: int|
            0 <= k < claimed_all(awaiting, retired).1.len() ==> awaiting.contains(
                (#[trigger] claimed_all(awaiting, retired).1[k]).0,
            ),
        forall|i: int|
            0 <= i < claimed_all(awaiting, retired).0.len() ==> awaiting.contains(
                #[trigger] claimed_all(awaiting, retired).0[i],
            ),
        forall|k: int|
            0 <= k < claimed_all(awaiting, retired).2.len() ==> first_owned_by(
                claimed_all(awaiting, retired).0,
                (#[trigger] claimed_all(awaiting, retired).2[k]).instance,
            ) is None,
    decreases retired.len(),
{
    if retired.len() > 0 {
        let earlier = retired.drop_last();
        let last = retired.last();
        let before = claimed_all(awaiting, earlier);
        let after = claimed_all(awaiting, retired);
        lemma_claimed_all(awaiting, earlier);
        lemma_first_owned_by(before.0, last.instance);
        match first_owned_by(before.0, last.instance) {
            Some(index) => {
                assert forall|k: int| 0 <= k < after.1.len() implies (#[trigger] after.1[k]).0.instance
                    == after.1[k].1.instance && awaiting.contains(after.1[k].0) by {
                    if k < before.1.len() {
                        assert(after.1[k] == before.1[k]);
                    } else {
                        assert(after.1[k] == (before.0[index], last));
                        assert(awaiting.contains(before.0[index]));
                    }
                }
                assert forall|i: int| 0 <= i < after.0.len() implies awaiting.contains(
                    #[trigger] after.0[i],
                ) by {
                    if i < index {
                        assert(after.0[i] == before.0[i]);
                    } else {
                        assert(after.0[i] == before.0[i + 1]);
                    }
                    assert(awaiting.contains(after.0[i]));
                }
                assert forall|k: int| 0 <= k < after.2.len() implies first_owned_by(
                    after.0,
                    (#[trigger] after.2[k]).instance,
                ) is None by {
                    let instance = after.2[k].instance;
                    assert(after.2[k] == before.2[k]);
                    lemma_first_owned_by(before.0, instance);
                    lemma_first_owned_by(after.0, instance);
                    if first_owned_by(after.0, instance) is Some {
                        let at = first_owned_by(after.0, instance).unwrap();
                        if at < index {
                            assert(after.0[at] == before.0[at]);
                        } else {
                            assert(after.0[at] == before.0[at + 1]);
                        }
                    }
                }
            },
            None => {
                assert forall|k: int| 0 <= k < after.2.len() implies first_owned_by(
                    after.0,
                    (#[trigger] after.2[k]).instance,
                ) is None by {
                    if k < before.2.len() {
                        assert(after.2[k] == before.2[k]);
                    } else {
                        assert(after.2[k] == last);
                    }
                }
            },
        }
    }
}

/// Claims the awaiting instance of each of `retired`, in order. Every
/// processor is handled: it is paired with the first awaiting instance that it
/// belongs to, which leaves the queue, or set aside where there is none.
pub fn claim_all<I, P>(awaiting: &mut Vec<Tagged<I>>, retired: Vec<Tagged<P>>) -> (found:
    Retirements<I, P>)
    ensures
        (final(awaiting)@, found.deactivate@, found.orphans@) == claimed_all(
            old(awaiting)@,
            retired@,
        ),
{
    let ghost all = retired@;
    let ghost mut taken: int = 0;
    let mut retired = retired;
    let mut deactivate: Vec<(Tagged<I>, Tagged<P>)> = Vec::new();
    let mut orphans: Vec<Tagged<P>> = Vec::new();
    proof {
        assert(all.take(0) == Seq::<Tagged<P>>::empty());
        assert(all.skip(0) == all);
    }
    while retired.len() > 0
        invariant
            0 <= taken <= all.len(),
            retired@ == all.skip(taken),
            (awaiting@, deactivate@, orphans@) == claimed_all(old(awaiting)@, all.take(taken)),
        decreases retired@.len(),
    {
        let processor = retired.remove(0);
        proof {
            assert(processor == all[taken]);
            assert(all.take(taken + 1).drop_last() == all.take(taken));
            assert(all.take(taken + 1).last() == processor);
            assert(all.skip(taken).remove(0) == all.skip(taken + 1));
        }
        match claim(awaiting, processor) {
            Ok(pair) => {
                deactivate.push(pair);
            },
            Err(unowned) => {
                orphans.push(unowned);
            },
        }
        proof {
            taken = taken + 1;
        }
    }
    proof {
        assert(all.take(taken) == all);
    }
    Retirements { deactivate, orphans }
}

/// The audio thread's end of the two queues.
#[verifier::reject_recursive_types(P)]
pub struct AudioProcessorChannel<P> {
    sender: Sender<Tagged<P>>,
    receiver: Receiver<Tagged<P>>,
}

impl<P> AudioProcessorChannel<P> {
    /// The next new processor, if one has arrived.
    pub fn check_for_new_processor(&mut self) -> (arrived: Option<Tagged<P>>) {
        try_recv(&self.receiver)
    }

    /// Sends each of `retired` back to the main thread, oldest first. A
    /// processor that cannot be sent because the main thread's end is gone is
    /// dropped.
    pub fn dispose_all(&mut self, retired: Vec<Tagged<P>>) {
        let mut retired = retired;
        while retired.len() > 0
            decreases retired@.len(),
        {
            let processor = retired.remove(0);
            let _ = send(&self.sender, processor);
        }
    }

    /// Takes every new processor that has arrived, keeps the newest and sends
    /// the ones it supersedes straight back for disposal.
    pub fn move_to_latest_new_processor(&mut self) -> (latest: Option<Tagged<P>>) {
        let pending = drain(&self.receiver);
        let (latest, superseded) = split_latest(pending);
        self.dispose_all(superseded);
        latest
    }

    /// Hands a processor that the audio thread no longer touches back to the
    /// main thread. If the main thread's end is gone the processor is dropped.
    pub fn send_for_disposal(&mut self, processor: Tagged<P>) {
        let _ = send(&self.sender, processor);
    }
}

/// The main thread's end of the two queues, with the instances whose
/// processors are still in the audio thread's hands.
#[verifier::reject_recursive_types(P)]
pub struct MainThreadChannel<I, P> {
    sender: Sender<Tagged<P>>,
    receiver: Receiver<Tagged<P>>,
    instances_awaiting_destruction: Vec<Tagged<I>>,
}

impl<I, P> MainThreadChannel<I, P> {
    /// The instances that wait for their processor to come back, oldest first.
    pub closed spec fn awaiting(&self) -> Seq<Tagged<I>> {
        self.instances_awaiting_destruction@
    }

    /// A connected pair of ends with no instance awaiting destruction.
    pub fn new_pair() -> (ends: (MainThreadChannel<I, P>, AudioProcessorChannel<P>))
        ensures
            ends.0.awaiting() == Seq::<Tagged<I>>::empty(),
    {
        let (sender_main_thread, receiver_audio_processor) = crossbeam_channel::unbounded();
        let (sender_audio_processor, receiver_main_thread) = crossbeam_channel::unbounded();
        (
            MainThreadChannel {
                sender: sender_main_thread,
                receiver: receiver_main_thread,
                instances_awaiting_destruction: Vec::new(),
            },
            AudioProcessorChannel {
                sender: sender_audio_processor,
                receiver: receiver_audio_processor,
            },
        )
    }

    /// Queues `previous_instance` for destruction and sends `processor` to the
    /// audio thread. The processor comes back if the audio thread's end is gone.
    pub fn send_new_audio_processor(
        &mut self,
        processor: Tagged<P>,
        previous_instance: Tagged<I>,
    ) -> (sent: Result<(), Tagged<P>>)
        ensures
            final(self).awaiting() == old(self).awaiting().push(previous_instance),
            sent matches Err(returned) ==> returned == processor,
    {
        self.instances_awaiting_destruction.push(previous_instance);
        match send(&self.sender, processor) {
            None => Ok(()),
            Some(returned) => Err(returned),
        }
    }

    /// Queues `old_instance` for destruction without sending anything: its
    /// processor is still running and comes back when the host deactivates.
    pub fn defer_destroy_if_active(&mut self, old_instance: Tagged<I>)
        ensures
            final(self).awaiting() == old(self).awaiting().push(old_instance),
    {
        self.instances_awaiting_destruction.push(old_instance);
    }

    /// Finds the awaiting instance that `audio_processor` belongs to and takes
    /// it out of the queue, so that the caller can deactivate it.
    pub fn deactivate_old_instance(&mut self, audio_processor: Tagged<P>) -> (claimed: Result<
        (Tagged<I>, Tagged<P>),
        Tagged<P>,
    >)
        ensures
            match first_owned_by(old(self).awaiting(), audio_processor.instance) {
                Some(index) => claimed == Ok::<(Tagged<I>, Tagged<P>), Tagged<P>>(
                    (old(self).awaiting()[index], audio_processor),
                ) && final(self).awaiting() == old(self).awaiting().remove(index),
                None => claimed == Err::<(Tagged<I>, Tagged<P>), Tagged<P>>(audio_processor)
                    && final(self).awaiting() == old(self).awaiting(),
            },
    {
        claim(&mut self.instances_awaiting_destruction, audio_processor)
    }

    /// Collects every processor that the audio thread has retired and pairs it
    /// with its instance, which leaves the queue. Instances whose processor
    /// has not come back stay queued, in their order.
    pub fn destroy_awaiting(&mut self) -> (found: Retirements<I, P>)
        ensures
            exists|retired: Seq<Tagged<P>>|
                (final(self).awaiting(), found.deactivate@, found.orphans@) == #[trigger] claimed_all(
                    old(self).awaiting(),
                    retired,
                ),
            well_paired(found.deactivate@),
            final(self).awaiting().len() + found.deactivate@.len() == old(self).awaiting().len(),
            forall|k: int|
                0 <= k < found.deactivate@.len() ==> old(self).awaiting().contains(
                    (#[trigger] found.deactivate@[k]).0,
                ),
            forall|i: int|
                0 <= i < final(self).awaiting().len() ==> old(self).awaiting().contains(
                    #[trigger] final(self).awaiting()[i],
                ),
            forall|k: int|
                0 <= k < found.orphans@.len() ==> first_owned_by(
                    final(self).awaiting(),
                    (#[trigger] found.orphans@[k]).instance,
                ) is None,
    {
        let retired = drain(&self.receiver);
        proof {
            lemma_claimed_all(self.instances_awaiting_destruction@, retired@);
        }
        let found = claim_all(&mut self.instances_awaiting_destruction, retired);
        assert((self.awaiting(), found.deactivate@, found.orphans@) == claimed_all(
            old(self).awaiting(),
            retired@,
        ));
        found
    }

    /// Ends the hand-off: collects first the new processors that the audio
    /// thread never picked up, then the retired ones, and pairs each with its
    /// instance. Instances whose processor never came back are dropped with
    /// the channel.
    pub fn consume(self, audio_processor_channel: AudioProcessorChannel<P>) -> (found: Retirements<
        I,
        P,
    >)
        ensures
            exists|retired: Seq<Tagged<P>>|
                (found.deactivate@, found.orphans@) == (
                    (#[trigger] claimed_all(self.awaiting(), retired)).1,
                    claimed_all(self.awaiting(), retired).2,
                ),
            well_paired(found.deactivate@),
            found.deactivate@.len() <= self.awaiting().len(),
            forall|k: int|
                0 <= k < found.deactivate@.len() ==> self.awaiting().contains(
                    (#[trigger] found.deactivate@[k]).0,
                ),
    {
        let mut channel = self;
        let mut retired = drain(&audio_processor_channel.receiver);
        let mut returned = drain(&channel.receiver);
        retired.append(&mut returned);
        proof {
            lemma_claimed_all(channel.instances_awaiting_destruction@, retired@);
        }
        let found = claim_all(&mut channel.instances_awaiting_destruction, retired);
        assert((found.deactivate@, found.orphans@) == (
            claimed_all(self.awaiting(), retired@).1,
            claimed_all(self.awaiting(), retired@).2,
        ));
        found
    }
}

} // verus!
