//! Audio-thread side of a hot swap.
//!
//! The audio thread owns the processor that renders and, during a cross-fade,
//! the one that is fading out. Before each block it polls for a newly
//! activated processor; when one has arrived and no fade is running, it is
//! swapped in, the sounding notes are replayed into it and a fade begins.

pub mod cross_fader;
pub mod note_tracker;
pub mod output_buffers;

use crate::wrapper::audio_processor::cross_fader::{ramp_down, CrossFader};
use crate::wrapper::audio_processor::note_tracker::{
    after_events,
    ActiveNote,
    NoteEvent,
    NoteTracker,
};
use crate::wrapper::audio_processor::output_buffers::{frames_within, OutputBuffers};
use crate::wrapper::channel::{AudioProcessorChannel, Tagged};
use vstd::prelude::*;

verus! {

/// What a processor asks of the host after a block.
#[derive(Clone, Copy, Debug, PartialEq, Eq, Structural)]
pub enum ProcessStatus {
    /// Keep processing.
    Continue,
    /// Keep processing unless all outputs are quiet.
    ContinueIfNotQuiet,
    /// The processor is rendering its tail.
    Tail,
    /// No processing is needed until the next event or change of input.
    Sleep,
}

/// How much processing a status asks for; a higher number asks for more.
pub open spec fn demand(status: ProcessStatus) -> nat {
    match status {
        ProcessStatus::Continue => 3,
        ProcessStatus::ContinueIfNotQuiet => 2,
        ProcessStatus::Tail => 1,
        ProcessStatus::Sleep => 0,
    }
}

/// The status that meets what both processors ask for.
pub open spec fn combined_status(first: ProcessStatus, second: ProcessStatus) -> ProcessStatus {
    if demand(first) >= demand(second) {
        first
    } else {
        second
    }
}

impl ProcessStatus {
    /// The status that meets what both `self` and `other` ask for: the more
    /// demanding of the two.
    pub fn combined_with(self, other: ProcessStatus) -> (combined: ProcessStatus)
        ensures
            combined == combined_status(self, other),
    {
        match (self, other) {
            (ProcessStatus::Continue, _) => ProcessStatus::Continue,
            (_, ProcessStatus::Continue) => ProcessStatus::Continue,
            (ProcessStatus::ContinueIfNotQuiet, _) => ProcessStatus::ContinueIfNotQuiet,
            (_, ProcessStatus::ContinueIfNotQuiet) => ProcessStatus::ContinueIfNotQuiet,
            (ProcessStatus::Tail, _) => ProcessStatus::Tail,
            (_, ProcessStatus::Tail) => ProcessStatus::Tail,
            (ProcessStatus::Sleep, ProcessStatus::Sleep) => ProcessStatus::Sleep,
        }
    }
}

/// The channels that stay constant through a cross-faded block: those that
/// both processors report as constant.
pub fn combined_constant_mask(main_mask: u64, fade_out_mask: u64) -> (mask: u64)
    ensures
        mask == main_mask & fade_out_mask,
{
    main_mask & fade_out_mask
}

/// How one block is to be rendered.
#[derive(Clone, Copy, Debug, PartialEq, Eq, Structural)]
pub enum BlockPlan {
    /// Through the current processor alone, with the host's events as they are.
    Direct,
    /// Through both processors, mixed by the cross-fader. The processor that
    /// fades out gets the host's events and its output events are discarded.
    /// With `replay_notes` the current processor gets the replay buffer ahead
    /// of the host's events, for this block only.
    CrossFade { replay_notes: bool },
}

/// What the audio thread holds between activation and deactivation.
#[verifier::reject_recursive_types(P)]
pub struct WrapperPluginAudioProcessor<P> {
    current_audio_processor: Tagged<P>,
    fade_out_audio_processor: Option<Tagged<P>>,
    channel: AudioProcessorChannel<P>,
    input_event_buffer: Vec<ActiveNote>,
    note_tracker: NoteTracker,
    cross_fader: CrossFader,
    output_buffers: OutputBuffers,
}

impl<P> WrapperPluginAudioProcessor<P> {
    /// The processor that renders.
    pub closed spec fn current(&self) -> Tagged<P> {
        self.current_audio_processor
    }

    /// The processor that is fading out, while a cross-fade runs.
    pub closed spec fn fading_out(&self) -> Option<Tagged<P>> {
        self.fade_out_audio_processor
    }

    /// The notes that are sounding.
    pub closed spec fn notes(&self) -> Seq<ActiveNote> {
        self.note_tracker@
    }

    /// The notes recovered at the last swap, to be replayed at block time
    /// zero.
    pub closed spec fn replay(&self) -> Seq<ActiveNote> {
        self.input_event_buffer@
    }

    /// Samples of the running fade that are left.
    pub closed spec fn fade_remaining(&self) -> nat {
        self.cross_fader.remaining()
    }

    /// Samples that a whole fade takes.
    pub closed spec fn fade_total(&self) -> nat {
        self.cross_fader.total()
    }

    /// Frames that the scratch buffers hold.
    pub closed spec fn buffer_capacity(&self) -> u32 {
        self.output_buffers.capacity()
    }

    /// Whether a cross-fade is running.
    pub open spec fn fading(&self) -> bool {
        self.fading_out() is Some
    }

    /// The state right after activation: one processor, no fade, no note.
    pub fn activate(
        audio_processor: Tagged<P>,
        channel: AudioProcessorChannel<P>,
        fade_time_samples: u32,
        output_buffers: OutputBuffers,
    ) -> (state: Self)
        ensures
            state.current() == audio_processor,
            !state.fading(),
            state.notes() == Seq::<ActiveNote>::empty(),
            state.replay() == Seq::<ActiveNote>::empty(),
            state.fade_total() == fade_time_samples,
            state.fade_remaining() == fade_time_samples,
            state.buffer_capacity() == output_buffers.capacity(),
    {
        WrapperPluginAudioProcessor {
            current_audio_processor: audio_processor,
            fade_out_audio_processor: None,
            channel,
            input_event_buffer: Vec::with_capacity(64),
            note_tracker: NoteTracker::new(),
            cross_fader: CrossFader::new(fade_time_samples),
            output_buffers,
        }
    }

    /// Swaps `new_processor` in: the processor that rendered so far starts to
    /// fade out, the sounding notes go to the replay buffer and the fade is
    /// rewound to its start. While a fade is running nothing is swapped and
    /// the processor comes back.
    pub fn hot_swap(&mut self, new_processor: Tagged<P>) -> (refused: Option<Tagged<P>>)
        ensures
            final(self).notes() == old(self).notes(),
            final(self).fade_total() == old(self).fade_total(),
            final(self).buffer_capacity() == old(self).buffer_capacity(),
            old(self).fading() ==> refused == Some(new_processor) && final(self).current() == old(self).current() && final(self).fading_out() == old(self).fading_out() && final(self).replay() == old(self).replay() && final(self).fade_remaining() == old(self).fade_remaining(),
            !old(self).fading() ==> refused is None && final(self).current() == new_processor
                && final(self).fading_out() == Some(old(self).current()) && final(self).replay()
                == old(self).notes() && final(self).fade_remaining() == old(self).fade_total(),
    {
        if self.fade_out_audio_processor.is_some() {
            return Some(new_processor);
        }
        let mut incoming = new_processor;
        std::mem::swap(&mut self.current_audio_processor, &mut incoming);
        self.fade_out_audio_processor = Some(incoming);
        self.input_event_buffer = self.note_tracker.recover_all_current_notes();
        self.cross_fader.reset();
        None
    }

    /// Polls for a new processor and swaps it in, unless a fade is running.
    /// Returns whether a swap took place.
    pub fn swap_if_needed(&mut self) -> (swapped: bool)
        ensures
            swapped ==> !old(self).fading(),
            swapped ==> final(self).fading_out() == Some(old(self).current()),
            swapped ==> final(self).replay() == old(self).notes(),
            swapped ==> final(self).fade_remaining() == old(self).fade_total(),
            !swapped ==> final(self).current() == old(self).current(),
            !swapped ==> final(self).fading_out() == old(self).fading_out(),
            !swapped ==> final(self).replay() == old(self).replay(),
            !swapped ==> final(self).fade_remaining() == old(self).fade_remaining(),
            final(self).notes() == old(self).notes(),
            final(self).fade_total() == old(self).fade_total(),
            final(self).buffer_capacity() == old(self).buffer_capacity(),
    {
        if self.fade_out_audio_processor.is_some() {
            return false;
        }
        match self.channel.move_to_latest_new_processor() {
            Some(new_processor) => {
                let _ = self.hot_swap(new_processor);
                true
            },
            None => false,
        }
    }

    /// Opens a block: a pending swap is carried out first, then the block's
    /// note events are tracked. The plan says how the block is to be rendered.
    pub fn begin_process(&mut self, events: &Vec<NoteEvent>) -> (plan: BlockPlan)
        ensures
            final(self).notes() == after_events(old(self).notes(), events@),
            final(self).fade_total() == old(self).fade_total(),
            final(self).buffer_capacity() == old(self).buffer_capacity(),
            old(self).fading() ==> plan == (BlockPlan::CrossFade { replay_notes: false }),
            old(self).fading() ==> final(self).fading_out() == old(self).fading_out() && final(self).current() == old(self).current() && final(self).fade_remaining() == old(self).fade_remaining(),
            plan == BlockPlan::Direct <==> !final(self).fading(),
            !old(self).fading() && final(self).fading() ==> plan == (BlockPlan::CrossFade {
                replay_notes: true,
            }),
            plan == (BlockPlan::CrossFade { replay_notes: true }) ==> final(self).fading_out() == Some(old(self).current()) && final(self).replay() == old(self).notes() && final(self).fade_remaining() == old(self).fade_total(),
            plan == BlockPlan::Direct ==> final(self).current() == old(self).current(),
    {
        let swapped = self.swap_if_needed();
        self.note_tracker.handle_note_events(events);
        if self.fade_out_audio_processor.is_some() {
            BlockPlan::CrossFade { replay_notes: swapped }
        } else {
            BlockPlan::Direct
        }
    }

    /// The processor that renders, to run it.
    pub fn current_audio_processor(&mut self) -> (processor: &mut Tagged<P>)
        ensures
            *processor == old(self).current(),
            final(self).current() == *final(processor),
            final(self).fading_out() == old(self).fading_out(),
            final(self).notes() == old(self).notes(),
            final(self).replay() == old(self).replay(),
            final(self).fade_remaining() == old(self).fade_remaining(),
            final(self).fade_total() == old(self).fade_total(),
            final(self).buffer_capacity() == old(self).buffer_capacity(),
    {
        &mut self.current_audio_processor
    }

    /// The processor that is fading out, to run it.
    pub fn fade_out_audio_processor(&mut self) -> (processor: Option<&mut Tagged<P>>)
        ensures
            match old(self).fading_out() {
                Some(fading) => processor is Some && *processor.unwrap() == fading
                    && final(self).fading_out() == Some(*final(processor.unwrap())),
                None => processor is None && final(self).fading_out() is None,
            },
            final(self).current() == old(self).current(),
            final(self).notes() == old(self).notes(),
            final(self).replay() == old(self).replay(),
            final(self).fade_remaining() == old(self).fade_remaining(),
            final(self).fade_total() == old(self).fade_total(),
            final(self).buffer_capacity() == old(self).buffer_capacity(),
    {
        self.fade_out_audio_processor.as_mut()
    }

    /// The notes to replay ahead of the host's events in the block that
    /// follows a swap.
    pub fn replay_buffer(&self) -> (replay: &Vec<ActiveNote>)
        ensures
            replay@ == self.replay(),
    {
        &self.input_event_buffer
    }

    /// The position of the running fade, for the weights of each sample.
    pub fn cross_fader(&self) -> (fader: &CrossFader)
        ensures
            fader.remaining() == self.fade_remaining(),
            fader.total() == self.fade_total(),
    {
        &self.cross_fader
    }

    /// The shape of the scratch buffers.
    pub fn output_buffers(&self) -> (buffers: &OutputBuffers)
        ensures
            buffers.capacity() == self.buffer_capacity(),
    {
        &self.output_buffers
    }

    /// Closes a cross-faded block of `frames_count` frames. The fade moves on
    /// by the frames processed. When it is complete, the processor that faded
    /// out is handed back for disposal and only the current one decides the
    /// status; until then the status meets what both processors ask for.
    /// Where no fade is running nothing changes and the current processor
    /// decides the status.
    pub fn end_crossfade(
        &mut self,
        frames_count: u32,
        main_status: ProcessStatus,
        fade_out_status: ProcessStatus,
    ) -> (outcome: (ProcessStatus, Option<Tagged<P>>))
        ensures
            final(self).current() == old(self).current(),
            final(self).notes() == old(self).notes(),
            final(self).replay() == old(self).replay(),
            final(self).fade_total() == old(self).fade_total(),
            final(self).buffer_capacity() == old(self).buffer_capacity(),
            !old(self).fading() ==> outcome.0 == main_status && outcome.1 is None && !final(self).fading() && final(self).fade_remaining() == old(self).fade_remaining(),
            old(self).fading() ==> final(self).fade_remaining() == ramp_down(
                old(self).fade_remaining(),
                frames_within(frames_count, old(self).buffer_capacity()) as nat,
            ),
            old(self).fading() && final(self).fade_remaining() == 0 ==> outcome.0 == main_status
                && outcome.1 == old(self).fading_out() && !final(self).fading(),
            old(self).fading() && final(self).fade_remaining() > 0 ==> outcome.0
                == combined_status(main_status, fade_out_status) && outcome.1 is None && final(self).fading_out() == old(self).fading_out(),
    {
        if self.fade_out_audio_processor.is_none() {
            return (main_status, None);
        }
        self.output_buffers.output_crossfade(&mut self.cross_fader, frames_count);
        if self.cross_fader.is_done() {
            let old_processor = self.fade_out_audio_processor.take();
            (main_status, old_processor)
        } else {
            (main_status.combined_with(fade_out_status), None)
        }
    }

    /// Hands a processor that has been stopped back to the main thread.
    pub fn send_for_disposal(&mut self, processor: Tagged<P>)
        ensures
            final(self).current() == old(self).current(),
            final(self).fading_out() == old(self).fading_out(),
            final(self).notes() == old(self).notes(),
            final(self).replay() == old(self).replay(),
            final(self).fade_remaining() == old(self).fade_remaining(),
            final(self).fade_total() == old(self).fade_total(),
    {
        self.channel.send_for_disposal(processor);
    }

    /// Forgets the sounding notes.
    pub fn reset(&mut self)
        ensures
            final(self).notes() == Seq::<ActiveNote>::empty(),
            final(self).current() == old(self).current(),
            final(self).fading_out() == old(self).fading_out(),
            final(self).fade_remaining() == old(self).fade_remaining(),
            final(self).fade_total() == old(self).fade_total(),
    {
        self.note_tracker.reset();
    }

    /// Resolves a pending swap at once, with no fade, as no audio is rendered
    /// at this moment: the newest processor that has arrived becomes the
    /// current one and the processor it replaces is returned, to be stopped
    /// and sent for disposal. The sounding notes are forgotten.
    pub fn swap_while_stopped(&mut self) -> (replaced: Option<Tagged<P>>)
        ensures
            final(self).notes() == Seq::<ActiveNote>::empty(),
            final(self).fading_out() == old(self).fading_out(),
            final(self).fade_remaining() == old(self).fade_remaining(),
            final(self).fade_total() == old(self).fade_total(),
            match replaced {
                Some(previous) => previous == old(self).current(),
                None => final(self).current() == old(self).current(),
            },
    {
        self.note_tracker.reset();
        match self.channel.move_to_latest_new_processor() {
            Some(new_processor) => {
                let mut incoming = new_processor;
                std::mem::swap(&mut self.current_audio_processor, &mut incoming);
                Some(incoming)
            },
            None => None,
        }
    }

    /// Start of processing: a pending swap is resolved at once.
    pub fn start_processing(&mut self) -> (replaced: Option<Tagged<P>>)
        ensures
            final(self).notes() == Seq::<ActiveNote>::empty(),
            final(self).fading_out() == old(self).fading_out(),
            match replaced {
                Some(previous) => previous == old(self).current(),
                None => final(self).current() == old(self).current(),
            },
    {
        self.swap_while_stopped()
    }

    /// End of processing: a pending swap is resolved at once.
    pub fn stop_processing(&mut self) -> (replaced: Option<Tagged<P>>)
        ensures
            final(self).notes() == Seq::<ActiveNote>::empty(),
            final(self).fading_out() == old(self).fading_out(),
            match replaced {
                Some(previous) => previous == old(self).current(),
                None => final(self).current() == old(self).current(),
            },
    {
        self.swap_while_stopped()
    }

    /// Ends the audio thread's part: gives up both processors and the audio
    /// thread's end of the queues.
    pub fn deactivate(self) -> (parts: (Tagged<P>, Option<Tagged<P>>, AudioProcessorChannel<P>))
        ensures
            parts.0 == self.current(),
            parts.1 == self.fading_out(),
    {
        (self.current_audio_processor, self.fade_out_audio_processor, self.channel)
    }
}

} // verus!
