use clack_extensions::params::{ParamInfo as AbiParamInfo, ParamInfoFlags, ParamRescanFlags as AbiRescan};
use clack_host::events::{Match, Pckn as AbiPckn};
use clack_host::process::ProcessStatus as AbiStatus;
use clack_host::utils::{ClapId, Cookie};
use clap_hot_reloader::wrapper::audio_processor::note_tracker::{ActiveNote, Pckn};
use clap_hot_reloader::wrapper::audio_processor::ProcessStatus;
use clap_hot_reloader::wrapper::extensions::params::{
    float_differs, ParamInfo, ParamRescanFlags, FLAGS_REQUIRING_FULL_RESCAN,
    FLAGS_REQUIRING_INFO_RESCAN, RESCAN_ALL, RESCAN_INFO, RESCAN_TEXT, RESCAN_VALUES,
};

fn abi_status(status: ProcessStatus) -> AbiStatus {
    match status {
        ProcessStatus::Continue => AbiStatus::Continue,
        ProcessStatus::ContinueIfNotQuiet => AbiStatus::ContinueIfNotQuiet,
        ProcessStatus::Tail => AbiStatus::Tail,
        ProcessStatus::Sleep => AbiStatus::Sleep,
    }
}

fn cookie(set: bool) -> Cookie {
    if set {
        Cookie::from_raw(std::ptr::NonNull::<u8>::dangling().as_ptr().cast())
    } else {
        Cookie::empty()
    }
}

fn cookie_address(set: bool) -> usize {
    cookie(set).as_raw().addr()
}

struct Sample {
    flags: u32,
    cookie: bool,
    name: &'static str,
    module: &'static str,
    min: f64,
    max: f64,
    default: f64,
}

impl Sample {
    fn held(&self) -> ParamInfo {
        ParamInfo {
            id: 7,
            flags: self.flags,
            cookie: cookie_address(self.cookie),
            name: self.name.as_bytes().to_vec(),
            module: self.module.as_bytes().to_vec(),
            min_value_bits: self.min.to_bits(),
            max_value_bits: self.max.to_bits(),
            default_value_bits: self.default.to_bits(),
        }
    }

    fn abi(&self) -> AbiParamInfo<'static> {
        AbiParamInfo {
            id: ClapId::new(7),
            flags: ParamInfoFlags::from_bits_truncate(self.flags),
            cookie: cookie(self.cookie),
            name: self.name.as_bytes(),
            module: self.module.as_bytes(),
            min_value: self.min,
            max_value: self.max,
            default_value: self.default,
        }
    }
}

fn samples() -> Vec<Sample> {
    let mut all = Vec::new();
    let base = || Sample {
        flags: 1 << 5,
        cookie: false,
        name: "Volume",
        module: "Main",
        min: 0.0,
        max: 1.0,
        default: 0.5,
    };
    all.push(base());
    for bit in 0..18 {
        all.push(Sample { flags: (1 << 5) ^ (1 << bit), ..base() });
    }
    all.push(Sample { flags: 0, ..base() });
    all.push(Sample { flags: u32::MAX, ..base() });
    all.push(Sample { cookie: true, ..base() });
    all.push(Sample { name: "Gain", ..base() });
    all.push(Sample { name: "", ..base() });
    all.push(Sample { module: "Other", ..base() });
    all.push(Sample { default: 0.25, ..base() });
    for value in [-0.0, 2.0, -1.0, f64::NAN, f64::INFINITY, f64::NEG_INFINITY, f64::MIN_POSITIVE] {
        all.push(Sample { min: value, ..base() });
        all.push(Sample { max: value, ..base() });
        all.push(Sample { min: value, max: value, name: "Both", ..base() });
    }
    all
}

#[test]
fn rescan_bits_are_those_of_the_plugin_interface() {
    assert_eq!(RESCAN_VALUES, AbiRescan::VALUES.bits());
    assert_eq!(RESCAN_TEXT, AbiRescan::TEXT.bits());
    assert_eq!(RESCAN_INFO, AbiRescan::INFO.bits());
    assert_eq!(RESCAN_ALL, AbiRescan::ALL.bits());
    assert_eq!(FLAGS_REQUIRING_INFO_RESCAN, ParamInfoFlags::FLAGS_REQUIRING_INFO_RESCAN.bits());
    assert_eq!(FLAGS_REQUIRING_FULL_RESCAN, ParamInfoFlags::FLAGS_REQUIRING_FULL_RESCAN.bits());
}

#[test]
fn restart_is_required_as_the_plugin_interface_says() {
    for bits in 0..16u32 {
        let flags = ParamRescanFlags {
            values: bits & RESCAN_VALUES != 0,
            text: bits & RESCAN_TEXT != 0,
            info: bits & RESCAN_INFO != 0,
            all: bits & RESCAN_ALL != 0,
        };
        let abi = AbiRescan::from_bits_truncate(bits);
        assert_eq!(flags.bits(), abi.bits());
        assert_eq!(flags.requires_restart(), abi.requires_restart());
        assert_eq!(flags.is_empty(), abi.is_empty());
    }
}

#[test]
fn rescan_differences_are_those_of_the_plugin_interface() {
    let samples = samples();
    for known in &samples {
        for told in &samples {
            let ours = known.held().diff_for_rescan(&told.held());
            let theirs = known.abi().diff_for_rescan(&told.abi());
            assert_eq!(
                ours.bits(),
                theirs.bits(),
                "{} [{:#x}] {}..{} against {} [{:#x}] {}..{}",
                known.name,
                known.flags,
                known.min,
                known.max,
                told.name,
                told.flags,
                told.min,
                told.max
            );
        }
    }
}

#[test]
fn values_differ_as_floating_point_numbers_do() {
    let values = [
        0.0,
        -0.0,
        1.0,
        -1.0,
        0.1,
        0.2,
        f64::NAN,
        -f64::NAN,
        f64::INFINITY,
        f64::NEG_INFINITY,
        f64::MIN_POSITIVE,
        f64::MAX,
        f64::EPSILON,
        f64::from_bits(1),
        f64::from_bits(0x7ff0_0000_0000_0001),
        f64::from_bits(0xfff8_0000_0000_0000),
    ];
    for first in values {
        for second in values {
            assert_eq!(float_differs(first.to_bits(), second.to_bits()), first != second);
        }
    }
}

#[test]
fn statuses_combine_as_the_plugin_interface_says() {
    let statuses = [
        ProcessStatus::Continue,
        ProcessStatus::ContinueIfNotQuiet,
        ProcessStatus::Tail,
        ProcessStatus::Sleep,
    ];
    for first in statuses {
        for second in statuses {
            assert_eq!(
                abi_status(first.combined_with(second)),
                abi_status(first).combined_with(abi_status(second))
            );
        }
    }
}

#[test]
fn wildcards_admit_what_the_plugin_interface_admits() {
    let parts: [Option<u16>; 3] = [None, Some(0), Some(1)];
    let matcher = |part: Option<u16>| match part {
        Some(value) => Match::Specific(value),
        None => Match::All,
    };
    for port in parts {
        for channel in parts {
            for key in parts {
                let off = Pckn { port_index: port, channel, key, note_id: None };
                let abi_off = AbiPckn {
                    port_index: matcher(port),
                    channel: matcher(channel),
                    key: matcher(key),
                    note_id: Match::All,
                };
                for note_port in 0..2u16 {
                    for note_channel in 0..2u16 {
                        for note_key in 0..2u16 {
                            let note = ActiveNote {
                                port_index: note_port,
                                channel: note_channel,
                                key: note_key,
                                note_id: None,
                                velocity_bits: 0,
                            };
                            let abi_note = AbiPckn::new(note_port, note_channel, note_key, Match::All);
                            assert_eq!(off.ends(&note), abi_off.matches(&abi_note));
                        }
                    }
                }
            }
        }
    }
}
