use clap_hot_reloader::watcher::fanout::new_bundle_fanout;
use clap_hot_reloader::wrapper::audio_processor::cross_fader::{
    fade_time_in_samples, CROSSFADE_TIME_MILLIS,
};
use clap_hot_reloader::wrapper::audio_processor::output_buffers::OutputBuffers;
use clap_hot_reloader::wrapper::audio_processor::{
    BlockPlan, ProcessStatus, WrapperPluginAudioProcessor,
};
use clap_hot_reloader::wrapper::channel::Tagged;
use clap_hot_reloader::wrapper::extensions::gui::{
    GuiApiType, GuiConfiguration, GuiSize, GuiStep,
};
use clap_hot_reloader::wrapper::extensions::params::{ParamInfo, ParamRescanFlags};
use clap_hot_reloader::wrapper::extensions::{
    HostExtension, OuterHostExtensions, PluginExtension, ReportedExtensions,
};
use clap_hot_reloader::wrapper::{
    declare_host_extensions, declare_plugin_extensions, AudioConfiguration, HotReloadState,
    OldInstanceFate, StoppedRoute, WrapperPluginMainThread,
};

type MainThread = WrapperPluginMainThread<&'static str, &'static str, &'static str, u32>;

const HOST: OuterHostExtensions = OuterHostExtensions { latency: true, params: true, gui: true };
const BARE_HOST: OuterHostExtensions =
    OuterHostExtensions { latency: false, params: false, gui: false };
const CONFIG: AudioConfiguration =
    AudioConfiguration { sample_rate_bits: 0x40e7_7000_0000_0000, min_frames_count: 1, max_frames_count: 512 };

fn tagged<T>(instance: u64, value: T) -> Tagged<T> {
    Tagged { instance, value }
}

fn param(id: u32, name: &str) -> ParamInfo {
    ParamInfo {
        id,
        flags: 0,
        cookie: 0,
        name: name.as_bytes().to_vec(),
        module: vec![],
        min_value_bits: 0.0f64.to_bits(),
        max_value_bits: 1.0f64.to_bits(),
        default_value_bits: 0.5f64.to_bits(),
    }
}

fn flags(text: bool, info: bool, all: bool) -> ParamRescanFlags {
    ParamRescanFlags { values: false, text, info, all }
}

fn volume_only(host: OuterHostExtensions) -> (MainThread, clap_hot_reloader::watcher::fanout::BundleProducer<&'static str>) {
    let (producer, factory) = new_bundle_fanout("bundle A");
    let main = WrapperPluginMainThread::new(
        "instance A",
        Some(factory.new_receiver()),
        String::from("com.example.synth"),
        host,
        None,
        0,
        Some(&vec![param(1, "Volume")]),
    );
    (main, producer)
}

#[test]
fn instance_without_receiver_is_idle() {
    let mut main: MainThread = WrapperPluginMainThread::new(
        "instance A",
        None,
        String::from("com.example.synth"),
        HOST,
        None,
        0,
        None,
    );
    assert_eq!(main.reload_state(), HotReloadState::Idle);
    assert_eq!(main.check_for_new_bundles(), None);
    main.activate(CONFIG);
    assert_eq!(main.reload_state(), HotReloadState::Idle);
    assert_eq!(main.plugin_id(), "com.example.synth");
    assert_eq!(main.host_extensions(), &HOST);
    assert_eq!(main.param_info_cache().count(), 0);
}

#[test]
fn state_follows_activation() {
    let (mut main, _producer) = volume_only(HOST);
    assert_eq!(main.reload_state(), HotReloadState::WatchingInactive);
    assert_eq!(main.current_audio_config(), None);
    let (audio_end, leftover) = main.activate(CONFIG);
    assert!(leftover.is_none());
    assert_eq!(main.reload_state(), HotReloadState::WatchingActive);
    assert_eq!(main.current_audio_config(), Some(CONFIG));
    let found = main.deactivate(audio_end).unwrap();
    assert!(found.deactivate.is_empty());
    assert_eq!(main.reload_state(), HotReloadState::WatchingInactive);
    assert_eq!(main.current_audio_config(), None);
    let (_audio_end, _) = MainThread::activate(&mut main, CONFIG);
    let (_, left_over) = main.activate(CONFIG);
    assert!(left_over.is_some());
}

#[test]
fn new_bundle_is_seen_on_the_next_poll() {
    let (mut main, mut producer) = volume_only(HOST);
    assert_eq!(main.check_for_new_bundles(), None);
    producer.produce(&"bundle B");
    producer.produce(&"bundle C");
    assert_eq!(main.check_for_new_bundles(), Some(&"bundle C"));
    assert_eq!(main.check_for_new_bundles(), None);
}

#[test]
fn added_parameter_voids_everything_and_the_swap_waits_for_a_restart() {
    let (mut main, mut producer) = volume_only(HOST);
    let (_audio_end, _) = main.activate(CONFIG);
    producer.produce(&"bundle B");
    assert_eq!(main.check_for_new_bundles(), Some(&"bundle B"));
    let told = vec![param(1, "Volume"), param(2, "Drive")];
    let swap = main.swap_instance("instance B", Some(&told), false, false);
    assert_eq!(swap.old_instance, tagged(0, "instance A"));
    assert_eq!(swap.required_rescan, flags(false, false, true));
    assert_eq!(swap.report_rescan, Some(flags(true, false, true)));
    assert!(swap.gui_steps.is_empty());
    assert_eq!(main.param_info_cache().count(), 2);
    assert_eq!(*main.plugin_instance(), tagged(1, "instance B"));
    let fate = main.retire_instance(swap.old_instance, swap.required_rescan);
    assert_eq!(fate, OldInstanceFate::AwaitingRestart);
    // The old instance waits for its processor, which comes when the host
    // deactivates the plugin.
    assert_eq!(
        main.deactivate_wrapped_instance(tagged(0, "processor A")),
        StoppedRoute::Old(tagged(0, "instance A"), tagged(0, "processor A"))
    );
}

#[test]
fn renamed_parameter_leads_to_a_hand_over_and_a_cross_fade() {
    let (mut main, mut producer) = volume_only(HOST);
    let (audio_end, _) = main.activate(CONFIG);
    let fade = fade_time_in_samples(48_000, CROSSFADE_TIME_MILLIS);
    assert_eq!(fade, 12_000);
    let buffers = OutputBuffers::new_from_config(main.audio_ports_info(), CONFIG.max_frames_count);
    let first = main.tag_processor("processor A");
    assert_eq!(first, tagged(0, "processor A"));
    let mut audio = WrapperPluginAudioProcessor::activate(first, audio_end, fade, buffers);
    producer.produce(&"bundle B");
    assert!(main.check_for_new_bundles().is_some());
    let swap = main.swap_instance("instance B", Some(&vec![param(1, "Gain")]), false, false);
    assert_eq!(swap.required_rescan, flags(false, true, false));
    assert_eq!(swap.report_rescan, Some(flags(true, true, false)));
    let fate = main.retire_instance(swap.old_instance, swap.required_rescan);
    let old_instance = match fate {
        OldInstanceFate::HandOff { old_instance, config } => {
            assert_eq!(config, CONFIG);
            old_instance
        }
        other => panic!("expected a hand-over, got {:?}", other),
    };
    assert_eq!(main.hand_off("processor B", old_instance), Ok(()));
    // The next audio block swaps and begins the fade.
    assert_eq!(audio.begin_process(&vec![]), BlockPlan::CrossFade { replay_notes: true });
    // The processor arrived marked as that of the new instance.
    assert_eq!(*audio.current_audio_processor(), tagged(1, "processor B"));
    let mut blocks: u32 = 0;
    let retired = loop {
        blocks += 1;
        let (_, retired) = audio.end_crossfade(512, ProcessStatus::Continue, ProcessStatus::Continue);
        if let Some(processor) = retired {
            break processor;
        }
        assert_eq!(audio.begin_process(&vec![]), BlockPlan::CrossFade { replay_notes: false });
    };
    // 12000 samples in blocks of 512: done with the 24th block and not before.
    assert_eq!(blocks, 24);
    assert_eq!(retired, tagged(0, "processor A"));
    audio.send_for_disposal(retired);
    let found = main.on_main_thread().unwrap();
    assert_eq!(found.deactivate, vec![(tagged(0, "instance A"), tagged(0, "processor A"))]);
    assert_eq!(audio.begin_process(&vec![]), BlockPlan::Direct);
}

#[test]
fn instance_that_is_not_activated_is_simply_dropped() {
    let (mut main, _producer) = volume_only(HOST);
    let swap = main.swap_instance("instance B", Some(&vec![param(1, "Volume")]), false, false);
    assert_eq!(swap.required_rescan, flags(false, false, false));
    assert_eq!(swap.report_rescan, Some(flags(true, false, false)));
    let fate = main.retire_instance(swap.old_instance, swap.required_rescan);
    assert_eq!(fate, OldInstanceFate::Dropped(tagged(0, "instance A")));
    let all = flags(false, false, true);
    assert_eq!(
        main.retire_instance(tagged(5, "x"), all),
        OldInstanceFate::Dropped(tagged(5, "x"))
    );
}

#[test]
fn host_without_parameter_extension_is_told_nothing() {
    let (mut main, _producer) = volume_only(BARE_HOST);
    let swap = main.swap_instance("instance B", Some(&vec![param(2, "Drive")]), false, false);
    assert_eq!(swap.required_rescan, flags(false, false, true));
    assert_eq!(swap.report_rescan, None);
}

#[test]
fn new_instance_without_parameters_keeps_the_cache() {
    let (mut main, _producer) = volume_only(HOST);
    let swap = main.swap_instance("instance B", None, false, false);
    assert_eq!(swap.required_rescan, flags(false, false, false));
    assert_eq!(swap.report_rescan, Some(flags(true, false, false)));
    assert_eq!(main.param_info_cache().count(), 1);
}

#[test]
fn window_is_moved_over_with_the_swap() {
    let (mut main, _producer) = volume_only(HOST);
    let embedded = GuiConfiguration { api_type: GuiApiType::Win32, is_floating: false };
    main.gui().create(embedded);
    main.gui().set_size(GuiSize { width: 400, height: 300 });
    main.gui().set_parent(42);
    main.gui().set_shown(true);
    let swap = main.swap_instance("instance B", None, true, true);
    assert_eq!(
        swap.gui_steps,
        vec![
            GuiStep::HideOld,
            GuiStep::DestroyOld,
            GuiStep::Create(embedded),
            GuiStep::FitSize,
            GuiStep::SetParent(42),
            GuiStep::Show,
        ]
    );
}

#[test]
fn hand_over_without_activation_gives_everything_back() {
    let (mut main, _producer) = volume_only(HOST);
    assert_eq!(
        main.hand_off("processor B", tagged(0, "instance A")),
        Err((tagged(0, "processor B"), Some(tagged(0, "instance A"))))
    );
    let (audio_end, _) = main.activate(CONFIG);
    drop(audio_end);
    assert_eq!(
        main.hand_off("processor B", tagged(0, "instance A")),
        Err((tagged(0, "processor B"), None))
    );
}

#[test]
fn old_instance_waits_for_its_processor_when_the_new_one_cannot_be_activated() {
    let (mut main, _producer) = volume_only(HOST);
    assert_eq!(main.activation_failed(tagged(0, "instance A")), Some(tagged(0, "instance A")));
    let (_audio_end, _) = main.activate(CONFIG);
    assert_eq!(main.activation_failed(tagged(0, "instance A")), None);
    assert_eq!(
        main.deactivate_wrapped_instance(tagged(0, "processor A")),
        StoppedRoute::Current(tagged(0, "processor A"))
    );
    let swap = main.swap_instance("instance B", None, false, false);
    assert_eq!(main.activation_failed(swap.old_instance), None);
    assert_eq!(
        main.deactivate_wrapped_instance(tagged(0, "processor A")),
        StoppedRoute::Old(tagged(0, "instance A"), tagged(0, "processor A"))
    );
}

#[test]
fn stopped_processor_is_routed_to_its_instance() {
    let (mut main, _producer) = volume_only(HOST);
    assert_eq!(
        main.deactivate_wrapped_instance(tagged(0, "processor A")),
        StoppedRoute::Current(tagged(0, "processor A"))
    );
    assert_eq!(
        main.deactivate_wrapped_instance(tagged(7, "stray")),
        StoppedRoute::Unowned(tagged(7, "stray"))
    );
    let (_audio_end, _) = main.activate(CONFIG);
    assert_eq!(
        main.deactivate_wrapped_instance(tagged(7, "stray")),
        StoppedRoute::Unowned(tagged(7, "stray"))
    );
    let swap = main.swap_instance("instance B", Some(&vec![]), false, false);
    main.retire_instance(swap.old_instance, swap.required_rescan);
    assert_eq!(
        main.deactivate_wrapped_instance(tagged(1, "processor B")),
        StoppedRoute::Current(tagged(1, "processor B"))
    );
    assert_eq!(
        main.deactivate_wrapped_instance(tagged(0, "processor A")),
        StoppedRoute::Old(tagged(0, "instance A"), tagged(0, "processor A"))
    );
}

#[test]
fn main_thread_tick_collects_nothing_when_not_activated() {
    let (mut main, _producer) = volume_only(HOST);
    assert!(main.on_main_thread().is_none());
    let (_audio_end, _) = main.activate(CONFIG);
    let found = main.on_main_thread().unwrap();
    assert!(found.deactivate.is_empty());
    assert!(found.orphans.is_empty());
}

#[test]
fn instances_get_identities_that_run_on() {
    let (mut main, _producer) = volume_only(HOST);
    assert_eq!(*main.plugin_instance(), tagged(0, "instance A"));
    let first = main.swap_instance("instance B", None, false, false);
    assert_eq!(first.old_instance, tagged(0, "instance A"));
    assert_eq!(*main.plugin_instance(), tagged(1, "instance B"));
    assert_eq!(main.tag_processor("processor B"), tagged(1, "processor B"));
    let second = main.swap_instance("instance C", None, false, false);
    assert_eq!(second.old_instance, tagged(1, "instance B"));
    assert_eq!(*main.plugin_instance(), tagged(2, "instance C"));
}

#[test]
fn configuration_is_valid_with_positive_ordered_block_sizes() {
    let with = |min_frames_count: u32, max_frames_count: u32| AudioConfiguration {
        sample_rate_bits: 0,
        min_frames_count,
        max_frames_count,
    };
    assert!(with(1, 1).is_valid());
    assert!(with(1, 512).is_valid());
    assert!(with(512, 512).is_valid());
    assert!(!with(0, 512).is_valid());
    assert!(!with(0, 0).is_valid());
    assert!(!with(513, 512).is_valid());
    assert!(!with(1, 0).is_valid());
}

#[test]
fn timer_is_registered_once() {
    let (mut main, _producer) = volume_only(HOST);
    assert!(main.timers().init(true));
    main.timers().registered(Some(17));
    assert!(!main.timers().init(true));
    assert!(main.timers().is_bundle_check(17));
    assert!(!main.timers().is_bundle_check(18));
}

#[test]
fn extensions_are_declared_in_order() {
    assert_eq!(declare_plugin_extensions(None), vec![PluginExtension::Timer]);
    let reported =
        ReportedExtensions { audio_ports: true, note_ports: false, params: true, state: false };
    assert_eq!(
        declare_plugin_extensions(Some(&reported)),
        vec![
            PluginExtension::Timer,
            PluginExtension::AudioPorts,
            PluginExtension::Params,
            PluginExtension::Gui,
            PluginExtension::Latency,
        ]
    );
    assert_eq!(
        declare_host_extensions(),
        vec![HostExtension::AudioPorts, HostExtension::Gui, HostExtension::Latency]
    );
}
