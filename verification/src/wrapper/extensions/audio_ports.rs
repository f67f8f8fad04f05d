//! Output port layout of the wrapped plugin.

use vstd::prelude::*;

verus! {

/// Channel count of the single stereo port assumed for a plugin that does not
/// describe its audio ports.
pub const DEFAULT_CHANNEL_COUNT: u32 = 2;

/// The layout reported for `ports`, one entry per port index, `None` where the
/// plugin gave no description of that port.
pub open spec fn described_ports(ports: Seq<Option<u32>>) -> Seq<u32>
    decreases ports.len(),
{
    if ports.len() == 0 {
        Seq::empty()
    } else {
        match ports.last() {
            Some(channel_count) => described_ports(ports.drop_last()).push(channel_count),
            None => described_ports(ports.drop_last()),
        }
    }
}

/// The layout that the plugin's answers amount to. With no audio-ports
/// extension it is a single default stereo port; otherwise it holds the ports
/// that the plugin described.
pub open spec fn refreshed_layout(ports: Option<Seq<Option<u32>>>) -> Seq<u32> {
    match ports {
        None => seq![DEFAULT_CHANNEL_COUNT],
        Some(ports) => described_ports(ports),
    }
}

/// The union of the candidate flags that the host said it supports.
pub open spec fn supported_union(candidates: Seq<u32>, supported: Seq<bool>) -> u32
    decreases candidates.len(),
{
    if candidates.len() == 0 {
        0
    } else if supported.len() > 0 && supported.last() {
        supported_union(candidates.drop_last(), supported.drop_last()) | candidates.last()
    } else {
        supported_union(candidates.drop_last(), supported.drop_last())
    }
}

/// The rescan kinds that the host supports. `answers` is `None` where the host
/// has no audio-ports extension; otherwise it holds, for each candidate flag,
/// whether the host accepted it.
pub fn get_host_supported_rescan_types(candidates: &Vec<u32>, answers: Option<&Vec<bool>>) -> (flags:
    u32)
    requires
        answers matches Some(list) ==> list@.len() == candidates@.len(),
    ensures
        flags == match answers {
            None => 0,
            Some(list) => supported_union(candidates@, list@),
        },
{
    match answers {
        None => 0,
        Some(list) => {
            let mut flags: u32 = 0;
            let mut index: usize = 0;
            proof {
                assert(candidates@.take(0).len() == 0);
            }
            while index < candidates.len()
                invariant
                    index <= candidates@.len(),
                    list@.len() == candidates@.len(),
                    flags == supported_union(
                        candidates@.take(index as int),
                        list@.take(index as int),
                    ),
                decreases candidates@.len() - index,
            {
                proof {
                    assert(candidates@.take(index + 1).drop_last() == candidates@.take(
                        index as int,
                    ));
                    assert(list@.take(index + 1).drop_last() == list@.take(index as int));
                }
                if list[index] {
                    flags = flags | candidates[index];
                }
                index = index + 1;
            }
            proof {
                assert(candidates@.take(index as int) == candidates@);
                assert(list@.take(index as int) == list@);
            }
            flags
        },
    }
}

/// Channel count of each output port of the wrapped plugin, and the rescan
/// kinds that the outer host supports.
pub struct PluginAudioPortsInfo {
    output_channels_count_per_port: Vec<u32>,
    host_supported_rescan_flags: u32,
}

impl PluginAudioPortsInfo {
    /// Channel count per output port, by port index.
    pub closed spec fn layout(&self) -> Seq<u32> {
        self.output_channels_count_per_port@
    }

    /// The rescan kinds that the outer host supports, as a bit set.
    pub closed spec fn rescan_flags(&self) -> u32 {
        self.host_supported_rescan_flags
    }

    /// The layout of a freshly instantiated plugin.
    pub fn new(ports: Option<&Vec<Option<u32>>>, host_supported_rescan_flags: u32) -> (info: Self)
        ensures
            info.rescan_flags() == host_supported_rescan_flags,
            info.layout() == refreshed_layout(
                match ports {
                    Some(list) => Some(list@),
                    None => None,
                },
            ),
    {
        let mut info = PluginAudioPortsInfo {
            output_channels_count_per_port: Vec::new(),
            host_supported_rescan_flags,
        };
        info.update(ports);
        info
    }

    /// Channel count per output port, by port index.
    pub fn output_channels_count_per_port(&self) -> (counts: &Vec<u32>)
        ensures
            counts@ == self.layout(),
    {
        &self.output_channels_count_per_port
    }

    /// The rescan kinds that the outer host supports, as a bit set.
    pub fn host_supported_rescan_flags(&self) -> (flags: u32)
        ensures
            flags == self.rescan_flags(),
    {
        self.host_supported_rescan_flags
    }

    /// Takes over what the plugin now says of its output ports.
    pub fn update(&mut self, ports: Option<&Vec<Option<u32>>>)
        ensures
            final(self).rescan_flags() == old(self).rescan_flags(),
            final(self).layout() == refreshed_layout(
                match ports {
                    Some(list) => Some(list@),
                    None => None,
                },
            ),
    {
        match ports {
            None => {
                self.output_channels_count_per_port.clear();
                self.output_channels_count_per_port.push(DEFAULT_CHANNEL_COUNT);
            },
            Some(list) => {
                self.output_channels_count_per_port.clear();
                let mut index: usize = 0;
                proof {
                    assert(list@.take(0).len() == 0);
                }
                while index < list.len()
                    invariant
                        index <= list@.len(),
                        self.host_supported_rescan_flags == old(self).host_supported_rescan_flags,
                        self.output_channels_count_per_port@ == described_ports(
                            list@.take(index as int),
                        ),
                    decreases list@.len() - index,
                {
                    proof {
                        assert(list@.take(index + 1).drop_last() == list@.take(index as int));
                    }
                    match list[index] {
                        Some(channel_count) => {
                            self.output_channels_count_per_port.push(channel_count);
                        },
                        None => {},
                    }
                    index = index + 1;
                }
                proof {
                    assert(list@.take(index as int) == list@);
                }
            },
        }
    }
}

} // verus!
