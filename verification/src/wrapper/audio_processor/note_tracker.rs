//! Book-keeping of the notes that are sounding, so that they can be replayed
//! into a processor that is swapped in mid-performance.

use vstd::prelude::*;

verus! {

/// Address of one or several notes: port, channel, key and note id, each
/// either a specific value or `None`, which stands for all values.
#[derive(Clone, Copy, Debug, PartialEq, Eq, Structural)]
pub struct Pckn {
    pub port_index: Option<u16>,
    pub channel: Option<u16>,
    pub key: Option<u16>,
    pub note_id: Option<u32>,
}

/// A note that has been switched on and not yet off.
///
/// `velocity_bits` is the bit pattern of the velocity the note was triggered
/// with; the tracker carries it through unchanged.
#[derive(Clone, Copy, Debug, PartialEq, Eq, Structural)]
pub struct ActiveNote {
    pub port_index: u16,
    pub channel: u16,
    pub key: u16,
    pub note_id: Option<u32>,
    pub velocity_bits: u64,
}

/// The note events that the tracker follows, in the order of the block.
#[derive(Clone, Copy, Debug, PartialEq, Eq, Structural)]
pub enum NoteEvent {
    NoteOn { pckn: Pckn, velocity_bits: u64 },
    NoteOff { pckn: Pckn },
}

/// Block-relative time at which recovered notes are replayed.
pub const REPLAY_TIME: u32 = 0;

/// Whether `pattern` admits `value`: a wildcard admits everything.
pub open spec fn admits(pattern: Option<u16>, value: u16) -> bool {
    match pattern {
        Some(specific) => specific == value,
        None => true,
    }
}

/// Whether a note-off addressed to `off` ends `note`.
///
/// A note-off that carries a note id ends the notes with that id and no
/// others: a note without an id is not among them. A note-off without a note
/// id goes by port, channel and key, each of them possibly a wildcard.
pub open spec fn ends_note(off: Pckn, note: ActiveNote) -> bool {
    match off.note_id {
        Some(wanted) => note.note_id == Some(wanted),
        None => admits(off.port_index, note.port_index) && admits(off.channel, note.channel)
            && admits(off.key, note.key),
    }
}

/// The note that a note-on starts, if the event names port, channel and key.
pub open spec fn started_note(pckn: Pckn, velocity_bits: u64) -> Option<ActiveNote> {
    match (pckn.port_index, pckn.channel, pckn.key) {
        (Some(port_index), Some(channel), Some(key)) => Some(
            ActiveNote { port_index, channel, key, note_id: pckn.note_id, velocity_bits },
        ),
        _ => None,
    }
}

/// `notes` without those that a note-off addressed to `off` ends.
pub open spec fn without_ended(notes: Seq<ActiveNote>, off: Pckn) -> Seq<ActiveNote>
    decreases notes.len(),
{
    if notes.len() == 0 {
        notes
    } else if ends_note(off, notes.last()) {
        without_ended(notes.drop_last(), off)
    } else {
        without_ended(notes.drop_last(), off).push(notes.last())
    }
}

/// The sounding notes after one event.
pub open spec fn after_event(notes: Seq<ActiveNote>, event: NoteEvent) -> Seq<ActiveNote> {
    match event {
        NoteEvent::NoteOn { pckn, velocity_bits } => match started_note(pckn, velocity_bits) {
            Some(note) => notes.push(note),
            None => notes,
        },
        NoteEvent::NoteOff { pckn } => without_ended(notes, pckn),
    }
}

/// The sounding notes after a run of events, taken in order.
pub open spec fn after_events(notes: Seq<ActiveNote>, events: Seq<NoteEvent>) -> Seq<ActiveNote>
    decreases events.len(),
{
    if events.len() == 0 {
        notes
    } else {
        after_event(after_events(notes, events.drop_last()), events.last())
    }
}

/// Times of the events handed to a processor that is swapped in: the replayed
/// notes first, then the block's own events.
pub open spec fn replay_then_block(replayed: Seq<ActiveNote>, block_times: Seq<u32>) -> Seq<u32> {
    Seq::new(replayed.len(), |i: int| REPLAY_TIME) + block_times
}

/// A sequence of event times in which no event precedes an earlier one.
pub open spec fn time_ordered(times: Seq<u32>) -> bool {
    forall|i: int, j: int| 0 <= i <= j < times.len() ==> times[i] <= times[j]
}

/// A note-off leaves exactly the notes it does not end, in their order.
pub proof fn lemma_without_ended(notes: Seq<ActiveNote>, off: Pckn)
    ensures
        without_ended(notes, off).len() <= notes.len(),
        forall|k: int|
            0 <= k < without_ended(notes, off).len() ==> !ends_note(
                off,
                #[trigger] without_ended(notes, off)[k],
            ) && notes.contains(without_ended(notes, off)[k]),
        forall|k: int|
            0 <= k < notes.len() && !ends_note(off, notes[k]) ==> without_ended(
                notes,
                off,
            ).contains(#[trigger] notes[k]),
    decreases notes.len(),
{
    if notes.len() > 0 {
        let rest = notes.drop_last();
        let kept = without_ended(rest, off);
        lemma_without_ended(rest, off);
        let result = without_ended(notes, off);
        assert forall|k: int| 0 <= k < result.len() implies !ends_note(off, #[trigger] result[k])
            && notes.contains(result[k]) by {
            if k < kept.len() {
                assert(result[k] == kept[k]);
                assert(rest.contains(kept[k]));
                let at = choose|at: int| 0 <= at < rest.len() && rest[at] == kept[k];
                assert(notes[at] == rest[at]);
            } else {
                assert(result[k] == notes.last());
                assert(notes[notes.len() - 1] == notes.last());
            }
        }
        assert forall|k: int| 0 <= k < notes.len() && !ends_note(off, notes[k]) implies result.contains(
            #[trigger] notes[k],
        ) by {
            if k < rest.len() {
                assert(notes[k] == rest[k]);
                assert(kept.contains(rest[k]));
                let at = choose|at: int| 0 <= at < kept.len() && kept[at] == rest[k];
                assert(result[at] == kept[at]);
            } else {
                assert(result[result.len() - 1] == notes[k]);
            }
        }
    }
}

/// Replayed notes followed by a time-ordered block are time-ordered.
pub proof fn lemma_replay_keeps_time_order(replayed: Seq<ActiveNote>, block_times: Seq<u32>)
    requires
        time_ordered(block_times),
    ensures
        time_ordered(replay_then_block(replayed, block_times)),
        replay_then_block(replayed, block_times).len() == replayed.len() + block_times.len(),
{
    let merged = replay_then_block(replayed, block_times);
    assert forall|i: int, j: int| 0 <= i <= j < merged.len() implies merged[i] <= merged[j] by {
        if i >= replayed.len() {
            assert(merged[i] == block_times[i - replayed.len()]);
            assert(merged[j] == block_times[j - replayed.len()]);
        } else {
            assert(merged[i] == REPLAY_TIME);
        }
    }
}

impl Pckn {
    /// Whether a note-off addressed to `self` ends `note`.
    pub fn ends(&self, note: &ActiveNote) -> (ended: bool)
        ensures
            ended == ends_note(*self, *note),
    {
        match self.note_id {
            Some(wanted) => match note.note_id {
                Some(id) => wanted == id,
                None => false,
            },
            None => {
                let port = match self.port_index {
                    Some(specific) => specific == note.port_index,
                    None => true,
                };
                let channel = match self.channel {
                    Some(specific) => specific == note.channel,
                    None => true,
                };
                let key = match self.key {
                    Some(specific) => specific == note.key,
                    None => true,
                };
                port && channel && key
            },
        }
    }
}

impl ActiveNote {
    /// The note that a note-on starts. An event that leaves port, channel or
    /// key open starts none.
    pub fn from_note_on_event(pckn: &Pckn, velocity_bits: u64) -> (note: Option<ActiveNote>)
        ensures
            note == started_note(*pckn, velocity_bits),
    {
        match (pckn.port_index, pckn.channel, pckn.key) {
            (Some(port_index), Some(channel), Some(key)) => Some(
                ActiveNote { port_index, channel, key, note_id: pckn.note_id, velocity_bits },
            ),
            _ => None,
        }
    }

    /// The address under which this note is replayed.
    pub fn to_note_event(&self) -> (pckn: Pckn)
        ensures
            pckn.port_index == Some(self.port_index),
            pckn.channel == Some(self.channel),
            pckn.key == Some(self.key),
            pckn.note_id == self.note_id,
            started_note(pckn, self.velocity_bits) == Some(*self),
    {
        Pckn {
            port_index: Some(self.port_index),
            channel: Some(self.channel),
            key: Some(self.key),
            note_id: self.note_id,
        }
    }
}

/// The notes that are sounding, in the order in which they were switched on.
pub struct NoteTracker {
    active_notes: Vec<ActiveNote>,
}

impl View for NoteTracker {
    type V = Seq<ActiveNote>;

    closed spec fn view(&self) -> Seq<ActiveNote> {
        self.active_notes@
    }
}

impl NoteTracker {
    /// A tracker with no note sounding.
    pub fn new() -> (tracker: Self)
        ensures
            tracker@ == Seq::<ActiveNote>::empty(),
    {
        NoteTracker { active_notes: Vec::with_capacity(128) }
    }

    /// Takes out every note that a note-off addressed to `off` ends.
    pub fn note_off(&mut self, off: &Pckn)
        ensures
            final(self)@ == without_ended(old(self)@, *off),
    {
        let ghost before = self.active_notes@;
        let mut kept: usize = 0;
        let ghost mut seen: int = 0;
        let ghost total = before.len();
        while kept < self.active_notes.len()
            invariant
                kept <= seen <= total,
                total == before.len(),
                self.active_notes@.len() == kept + (total - seen),
                self.active_notes@.take(kept as int) == without_ended(before.take(seen), *off),
                self.active_notes@.skip(kept as int) == before.skip(seen),
            decreases total - seen,
        {
            let ghost held = self.active_notes@;
            proof {
                assert(before.take(seen + 1).drop_last() == before.take(seen));
                assert(held[kept as int] == held.skip(kept as int)[0]);
                assert(held.skip(kept + 1) == held.skip(kept as int).skip(1));
                assert(before.skip(seen + 1) == before.skip(seen).skip(1));
            }
            if off.ends(&self.active_notes[kept]) {
                let _ = self.active_notes.remove(kept);
                proof {
                    assert(self.active_notes@.take(kept as int) == held.take(kept as int));
                    assert(self.active_notes@.skip(kept as int) == held.skip(kept + 1));
                }
            } else {
                proof {
                    assert(held.take(kept + 1) == held.take(kept as int).push(before[seen]));
                }
                kept = kept + 1;
            }
            proof {
                seen = seen + 1;
            }
        }
        proof {
            assert(self.active_notes@.take(kept as int) == self.active_notes@);
            assert(before.take(seen) == before);
        }
    }

    /// Follows one event: a note-on adds its note, a note-off removes the notes
    /// it ends.
    pub fn handle_note_event(&mut self, event: &NoteEvent)
        ensures
            final(self)@ == after_event(old(self)@, *event),
    {
        match event {
            NoteEvent::NoteOn { pckn, velocity_bits } => {
                match ActiveNote::from_note_on_event(pckn, *velocity_bits) {
                    Some(note) => {
                        self.active_notes.push(note);
                    },
                    None => {},
                }
            },
            NoteEvent::NoteOff { pckn } => {
                self.note_off(pckn);
            },
        }
    }

    /// Follows the note events of one block, in order.
    pub fn handle_note_events(&mut self, events: &Vec<NoteEvent>)
        ensures
            final(self)@ == after_events(old(self)@, events@),
    {
        let mut index: usize = 0;
        proof {
            assert(events@.take(0) == Seq::<NoteEvent>::empty());
        }
        while index < events.len()
            invariant
                index <= events@.len(),
                self@ == after_events(old(self)@, events@.take(index as int)),
            decreases events@.len() - index,
        {
            proof {
                assert(events@.take(index + 1).drop_last() == events@.take(index as int));
            }
            self.handle_note_event(&events[index]);
            index = index + 1;
        }
        proof {
            assert(events@.take(index as int) == events@);
        }
    }

    /// The notes to replay into a processor that is swapped in now: every
    /// sounding note, in order, with the velocity it was triggered with.
    pub fn recover_all_current_notes(&self) -> (replay: Vec<ActiveNote>)
        ensures
            replay@ == self@,
    {
        let mut replay: Vec<ActiveNote> = Vec::new();
        let mut index: usize = 0;
        while index < self.active_notes.len()
            invariant
                index <= self.active_notes@.len(),
                replay@ == self.active_notes@.take(index as int),
            decreases self.active_notes@.len() - index,
        {
            replay.push(self.active_notes[index]);
            proof {
                assert(self.active_notes@.take(index + 1) == self.active_notes@.take(
                    index as int,
                ).push(self.active_notes@[index as int]));
            }
            index = index + 1;
        }
        proof {
            assert(self.active_notes@.take(index as int) == self.active_notes@);
        }
        replay
    }

    /// Forgets every note.
    pub fn reset(&mut self)
        ensures
            final(self)@ == Seq::<ActiveNote>::empty(),
    {
        self.active_notes.clear();
    }
}

} // verus!
