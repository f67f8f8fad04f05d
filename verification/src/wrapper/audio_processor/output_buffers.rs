//! Shape of the scratch buffers into which the two processors of a cross-fade
//! render, and the bookkeeping of how far a block moves the fade.

use crate::wrapper::audio_processor::cross_fader::{ramp_down, CrossFader};
use crate::wrapper::extensions::audio_ports::PluginAudioPortsInfo;
use vstd::prelude::*;

verus! {

/// Number of channels over all ports.
pub open spec fn channel_sum(counts: Seq<u32>) -> nat
    decreases counts.len(),
{
    if counts.len() == 0 {
        0
    } else {
        channel_sum(counts.drop_last()) + counts.last() as nat
    }
}

/// The smaller of the block length and the capacity of the scratch buffers.
pub open spec fn frames_within(frames_count: u32, buffer_frame_count: u32) -> u32 {
    if frames_count <= buffer_frame_count {
        frames_count
    } else {
        buffer_frame_count
    }
}

/// One scratch buffer per channel per output port, each of
/// `buffer_frame_count` frames.
pub struct OutputBuffers {
    channel_count_per_port: Vec<u32>,
    buffer_frame_count: u32,
}

impl OutputBuffers {
    /// Channel count of each port, by port index.
    pub closed spec fn layout(&self) -> Seq<u32> {
        self.channel_count_per_port@
    }

    /// Frames that each buffer holds.
    pub closed spec fn capacity(&self) -> u32 {
        self.buffer_frame_count
    }

    /// Buffers for the ports of `info`, sized for blocks of at most
    /// `max_frames_count` frames.
    pub fn new_from_config(info: &PluginAudioPortsInfo, max_frames_count: u32) -> (buffers: Self)
        ensures
            buffers.layout() == info.layout(),
            buffers.capacity() == max_frames_count,
    {
        let counts = info.output_channels_count_per_port();
        let mut channel_count_per_port: Vec<u32> = Vec::new();
        let mut index: usize = 0;
        while index < counts.len()
            invariant
                index <= counts@.len(),
                channel_count_per_port@ == counts@.take(index as int),
            decreases counts@.len() - index,
        {
            channel_count_per_port.push(counts[index]);
            proof {
                assert(counts@.take(index + 1) == counts@.take(index as int).push(
                    counts@[index as int],
                ));
            }
            index = index + 1;
        }
        proof {
            assert(counts@.take(index as int) == counts@);
        }
        OutputBuffers { channel_count_per_port, buffer_frame_count: max_frames_count }
    }

    /// Number of output ports.
    pub fn port_count(&self) -> (count: usize)
        ensures
            count == self.layout().len(),
    {
        self.channel_count_per_port.len()
    }

    /// Channel count of each port, by port index.
    pub fn channel_count_per_port(&self) -> (counts: &Vec<u32>)
        ensures
            counts@ == self.layout(),
    {
        &self.channel_count_per_port
    }

    /// Frames that each buffer holds.
    pub fn buffer_frame_count(&self) -> (frames: u32)
        ensures
            frames == self.capacity(),
    {
        self.buffer_frame_count
    }

    /// Number of channels over all ports, or `None` where that number does not
    /// fit the machine's word.
    pub fn total_channel_count(&self) -> (total: Option<usize>)
        ensures
            match total {
                Some(sum) => sum == channel_sum(self.layout()),
                None => channel_sum(self.layout()) > usize::MAX,
            },
    {
        let mut sum: usize = 0;
        let mut index: usize = 0;
        proof {
            assert(self.channel_count_per_port@.take(0).len() == 0);
        }
        while index < self.channel_count_per_port.len()
            invariant
                index <= self.channel_count_per_port@.len(),
                sum == channel_sum(self.channel_count_per_port@.take(index as int)),
            decreases self.channel_count_per_port@.len() - index,
        {
            proof {
                assert(self.channel_count_per_port@.take(index + 1).drop_last()
                    == self.channel_count_per_port@.take(index as int));
            }
            let count = self.channel_count_per_port[index] as usize;
            match sum.checked_add(count) {
                Some(next) => {
                    sum = next;
                },
                None => {
                    proof {
                        lemma_channel_sum_grows(
                            self.channel_count_per_port@,
                            index as int + 1,
                        );
                    }
                    return None;
                },
            }
            index = index + 1;
        }
        proof {
            assert(self.channel_count_per_port@.take(index as int) == self.channel_count_per_port@);
        }
        Some(sum)
    }

    /// Frames of a block of `frames_count` frames that the buffers can hold.
    pub fn processed_frames(&self, frames_count: u32) -> (frames: u32)
        ensures
            frames == frames_within(frames_count, self.capacity()),
    {
        if frames_count <= self.buffer_frame_count {
            frames_count
        } else {
            self.buffer_frame_count
        }
    }

    /// Accounts for one cross-faded block of `frames_count` frames: the fade
    /// moves on by the frames that were processed.
    pub fn output_crossfade(&self, cross_fader: &mut CrossFader, frames_count: u32)
        ensures
            final(cross_fader).total() == old(cross_fader).total(),
            final(cross_fader).remaining() == ramp_down(
                old(cross_fader).remaining(),
                frames_within(frames_count, self.capacity()) as nat,
            ),
    {
        let processed_frames = self.processed_frames(frames_count);
        cross_fader.advance(processed_frames);
    }
}

/// The channels of the first ports are no more than the channels of all.
pub proof fn lemma_channel_sum_grows(counts: Seq<u32>, upto: int)
    requires
        0 <= upto <= counts.len(),
    ensures
        channel_sum(counts.take(upto)) <= channel_sum(counts),
    decreases counts.len() - upto,
{
    if upto < counts.len() {
        lemma_channel_sum_grows(counts, upto + 1);
        assert(counts.take(upto + 1).drop_last() == counts.take(upto));
    } else {
        assert(counts.take(upto) == counts);
    }
}

} // verus!
