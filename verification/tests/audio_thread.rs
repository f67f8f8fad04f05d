use clap_hot_reloader::wrapper::audio_processor::note_tracker::{ActiveNote, NoteEvent, Pckn};
use clap_hot_reloader::wrapper::audio_processor::output_buffers::OutputBuffers;
use clap_hot_reloader::wrapper::audio_processor::{
    combined_constant_mask, BlockPlan, ProcessStatus, WrapperPluginAudioProcessor,
};
use clap_hot_reloader::wrapper::channel::{MainThreadChannel, Tagged};
use clap_hot_reloader::wrapper::extensions::audio_ports::PluginAudioPortsInfo;

const FADE: u32 = 100;
const BLOCK: u32 = 64;

fn tagged<T>(instance: u64, value: T) -> Tagged<T> {
    Tagged { instance, value }
}

fn on(key: u16, note_id: Option<u32>, velocity: f64) -> NoteEvent {
    NoteEvent::NoteOn {
        pckn: Pckn { port_index: Some(0), channel: Some(0), key: Some(key), note_id },
        velocity_bits: velocity.to_bits(),
    }
}

fn off(key: u16) -> NoteEvent {
    NoteEvent::NoteOff {
        pckn: Pckn { port_index: Some(0), channel: Some(0), key: Some(key), note_id: None },
    }
}

fn note(key: u16, note_id: Option<u32>, velocity: f64) -> ActiveNote {
    ActiveNote { port_index: 0, channel: 0, key, note_id, velocity_bits: velocity.to_bits() }
}

fn activated() -> (MainThreadChannel<char, &'static str>, WrapperPluginAudioProcessor<&'static str>)
{
    let (main, audio) = MainThreadChannel::new_pair();
    let buffers = OutputBuffers::new_from_config(&PluginAudioPortsInfo::new(None, 0), BLOCK);
    (main, WrapperPluginAudioProcessor::activate(tagged(1, "first"), audio, FADE, buffers))
}

#[test]
fn without_a_new_processor_blocks_are_rendered_directly() {
    let (_main, mut state) = activated();
    assert_eq!(state.begin_process(&vec![]), BlockPlan::Direct);
    assert_eq!(state.begin_process(&vec![on(60, None, 1.0)]), BlockPlan::Direct);
    assert_eq!(*state.current_audio_processor(), tagged(1, "first"));
    assert!(state.fade_out_audio_processor().is_none());
    assert!(state.replay_buffer().is_empty());
    assert!(!state.swap_if_needed());
}

#[test]
fn new_processor_is_swapped_in_and_the_old_one_fades_out() {
    let (mut main, mut state) = activated();
    main.send_new_audio_processor(tagged(2, "second"), tagged(1, 'a')).unwrap();
    assert_eq!(state.begin_process(&vec![]), BlockPlan::CrossFade { replay_notes: true });
    assert_eq!(*state.current_audio_processor(), tagged(2, "second"));
    assert_eq!(state.fade_out_audio_processor(), Some(&mut tagged(1, "first")));
    assert_eq!(state.cross_fader().remaining_samples(), FADE);
    assert_eq!(state.cross_fader().fade_out_weight(0), FADE);
}

#[test]
fn sounding_notes_are_replayed_into_the_new_processor() {
    let (mut main, mut state) = activated();
    state.begin_process(&vec![on(60, None, 0.5), on(64, Some(5), 0.75), on(67, None, 1.0)]);
    state.begin_process(&vec![off(67)]);
    main.send_new_audio_processor(tagged(2, "second"), tagged(1, 'a')).unwrap();
    let plan = state.begin_process(&vec![on(72, None, 0.25)]);
    assert_eq!(plan, BlockPlan::CrossFade { replay_notes: true });
    // Exactly the notes that sounded at the moment of the swap: the note of
    // this block reaches the new processor with the block's own events.
    assert_eq!(state.replay_buffer(), &vec![note(60, None, 0.5), note(64, Some(5), 0.75)]);
    // The block after the swap replays nothing.
    assert_eq!(state.begin_process(&vec![]), BlockPlan::CrossFade { replay_notes: false });
}

#[test]
fn fade_completes_after_exactly_the_fade_time() {
    let (mut main, mut state) = activated();
    main.send_new_audio_processor(tagged(2, "second"), tagged(1, 'a')).unwrap();
    assert_eq!(state.begin_process(&vec![]), BlockPlan::CrossFade { replay_notes: true });
    let first = state.end_crossfade(BLOCK, ProcessStatus::Sleep, ProcessStatus::Continue);
    assert_eq!(first, (ProcessStatus::Continue, None));
    assert_eq!(state.cross_fader().remaining_samples(), FADE - BLOCK);
    assert_eq!(state.begin_process(&vec![]), BlockPlan::CrossFade { replay_notes: false });
    let second = state.end_crossfade(FADE - BLOCK - 1, ProcessStatus::Sleep, ProcessStatus::Tail);
    assert_eq!(second, (ProcessStatus::Tail, None));
    assert_eq!(state.cross_fader().remaining_samples(), 1);
    assert_eq!(state.begin_process(&vec![]), BlockPlan::CrossFade { replay_notes: false });
    let last = state.end_crossfade(1, ProcessStatus::Sleep, ProcessStatus::Continue);
    assert_eq!(last, (ProcessStatus::Sleep, Some(tagged(1, "first"))));
    assert!(state.fade_out_audio_processor().is_none());
    assert_eq!(state.begin_process(&vec![]), BlockPlan::Direct);
    assert_eq!(*state.current_audio_processor(), tagged(2, "second"));
}

#[test]
fn retired_processor_goes_back_to_the_main_thread() {
    let (mut main, mut state) = activated();
    main.send_new_audio_processor(tagged(2, "second"), tagged(1, 'a')).unwrap();
    state.begin_process(&vec![]);
    let (_, retired) = state.end_crossfade(BLOCK, ProcessStatus::Continue, ProcessStatus::Continue);
    assert_eq!(retired, None);
    let (_, retired) = state.end_crossfade(BLOCK, ProcessStatus::Continue, ProcessStatus::Continue);
    state.send_for_disposal(retired.unwrap());
    let found = main.destroy_awaiting();
    assert_eq!(found.deactivate, vec![(tagged(1, 'a'), tagged(1, "first"))]);
}

#[test]
fn block_longer_than_the_buffers_moves_the_fade_by_what_fits() {
    let (mut main, mut state) = activated();
    main.send_new_audio_processor(tagged(2, "second"), tagged(1, 'a')).unwrap();
    state.begin_process(&vec![]);
    assert_eq!(state.output_buffers().processed_frames(1000), BLOCK);
    let (_, retired) = state.end_crossfade(1000, ProcessStatus::Continue, ProcessStatus::Continue);
    assert_eq!(retired, None);
    assert_eq!(state.cross_fader().remaining_samples(), FADE - BLOCK);
}

#[test]
fn no_second_swap_while_a_fade_is_running() {
    let (mut main, mut state) = activated();
    main.send_new_audio_processor(tagged(2, "second"), tagged(1, 'a')).unwrap();
    state.begin_process(&vec![]);
    main.send_new_audio_processor(tagged(3, "third"), tagged(2, 'b')).unwrap();
    assert!(!state.swap_if_needed());
    assert_eq!(state.begin_process(&vec![]), BlockPlan::CrossFade { replay_notes: false });
    assert_eq!(*state.current_audio_processor(), tagged(2, "second"));
    state.end_crossfade(BLOCK, ProcessStatus::Continue, ProcessStatus::Continue);
    assert_eq!(state.begin_process(&vec![]), BlockPlan::CrossFade { replay_notes: false });
    let (_, retired) = state.end_crossfade(BLOCK, ProcessStatus::Continue, ProcessStatus::Continue);
    assert_eq!(retired, Some(tagged(1, "first")));
    // Once the fade is over the processor that waited is swapped in.
    assert_eq!(state.begin_process(&vec![]), BlockPlan::CrossFade { replay_notes: true });
    assert_eq!(*state.current_audio_processor(), tagged(3, "third"));
    assert_eq!(state.fade_out_audio_processor(), Some(&mut tagged(2, "second")));
}

#[test]
fn only_the_latest_of_several_new_processors_is_swapped_in() {
    let (mut main, mut state) = activated();
    main.send_new_audio_processor(tagged(2, "second"), tagged(1, 'a')).unwrap();
    main.send_new_audio_processor(tagged(3, "third"), tagged(2, 'b')).unwrap();
    assert!(state.swap_if_needed());
    assert_eq!(*state.current_audio_processor(), tagged(3, "third"));
    let found = main.destroy_awaiting();
    assert_eq!(found.deactivate, vec![(tagged(2, 'b'), tagged(2, "second"))]);
}

#[test]
fn empty_fade_window_retires_the_old_processor_with_the_first_block() {
    let (mut main, audio) = MainThreadChannel::<char, &str>::new_pair();
    let buffers = OutputBuffers::new_from_config(&PluginAudioPortsInfo::new(None, 0), BLOCK);
    let mut state = WrapperPluginAudioProcessor::activate(tagged(1, "first"), audio, 0, buffers);
    main.send_new_audio_processor(tagged(2, "second"), tagged(1, 'a')).unwrap();
    assert_eq!(state.begin_process(&vec![]), BlockPlan::CrossFade { replay_notes: true });
    let (status, retired) = state.end_crossfade(0, ProcessStatus::Tail, ProcessStatus::Continue);
    assert_eq!((status, retired), (ProcessStatus::Tail, Some(tagged(1, "first"))));
}

#[test]
fn hot_swap_installs_the_processor_it_is_given() {
    let (_main, mut state) = activated();
    state.begin_process(&vec![on(60, None, 0.5)]);
    assert_eq!(state.hot_swap(tagged(9, "ninth")), None);
    assert_eq!(state.hot_swap(tagged(10, "tenth")), Some(tagged(10, "tenth")));
    assert_eq!(*state.current_audio_processor(), tagged(9, "ninth"));
    assert_eq!(state.fade_out_audio_processor(), Some(&mut tagged(1, "first")));
    assert_eq!(state.replay_buffer(), &vec![note(60, None, 0.5)]);
    assert_eq!(state.cross_fader().remaining_samples(), FADE);
}

#[test]
fn pending_swap_is_resolved_at_once_when_processing_starts_or_stops() {
    let (mut main, mut state) = activated();
    state.begin_process(&vec![on(60, None, 0.5)]);
    assert_eq!(state.start_processing(), None);
    assert_eq!(*state.current_audio_processor(), tagged(1, "first"));
    main.send_new_audio_processor(tagged(2, "second"), tagged(1, 'a')).unwrap();
    assert_eq!(state.start_processing(), Some(tagged(1, "first")));
    assert_eq!(*state.current_audio_processor(), tagged(2, "second"));
    assert!(state.fade_out_audio_processor().is_none());
    main.send_new_audio_processor(tagged(3, "third"), tagged(2, 'b')).unwrap();
    assert_eq!(state.stop_processing(), Some(tagged(2, "second")));
    assert_eq!(state.stop_processing(), None);
    assert_eq!(state.swap_while_stopped(), None);
    // No fade was begun, and the notes were forgotten.
    assert_eq!(state.begin_process(&vec![]), BlockPlan::Direct);
    assert_eq!(state.hot_swap(tagged(4, "fourth")), None);
    assert!(state.replay_buffer().is_empty());
}

#[test]
fn reset_forgets_the_notes_and_keeps_the_processors() {
    let (_main, mut state) = activated();
    state.begin_process(&vec![on(60, None, 0.5)]);
    state.reset();
    assert_eq!(*state.current_audio_processor(), tagged(1, "first"));
    assert_eq!(state.hot_swap(tagged(2, "second")), None);
    assert!(state.replay_buffer().is_empty());
}

#[test]
fn deactivation_gives_up_both_processors() {
    let (mut main, mut state) = activated();
    main.send_new_audio_processor(tagged(2, "second"), tagged(1, 'a')).unwrap();
    state.begin_process(&vec![]);
    let (current, fading, channel) = state.deactivate();
    assert_eq!(current, tagged(2, "second"));
    assert_eq!(fading, Some(tagged(1, "first")));
    let found = main.consume(channel);
    assert!(found.deactivate.is_empty());
    let (_main, state) = activated();
    let (current, fading, _channel) = state.deactivate();
    assert_eq!((current, fading), (tagged(1, "first"), None));
}

#[test]
fn processor_can_be_changed_in_place() {
    let (_main, mut state) = activated();
    state.current_audio_processor().value = "renamed";
    assert_eq!(*state.current_audio_processor(), tagged(1, "renamed"));
    assert_eq!(state.hot_swap(tagged(2, "second")), None);
    state.fade_out_audio_processor().unwrap().value = "fading";
    assert_eq!(state.fade_out_audio_processor(), Some(&mut tagged(1, "fading")));
}

#[test]
fn closing_a_block_without_a_fade_changes_nothing() {
    let (_main, mut state) = activated();
    let outcome = state.end_crossfade(BLOCK, ProcessStatus::Tail, ProcessStatus::Continue);
    assert_eq!(outcome, (ProcessStatus::Tail, None));
    assert_eq!(state.cross_fader().remaining_samples(), FADE);
    assert_eq!(state.begin_process(&vec![]), BlockPlan::Direct);
}

#[test]
fn combined_status_is_the_more_demanding() {
    let order = [
        ProcessStatus::Sleep,
        ProcessStatus::Tail,
        ProcessStatus::ContinueIfNotQuiet,
        ProcessStatus::Continue,
    ];
    for (i, first) in order.iter().enumerate() {
        for (j, second) in order.iter().enumerate() {
            let expected = order[i.max(j)];
            assert_eq!(first.combined_with(*second), expected);
            assert_eq!(second.combined_with(*first), expected);
        }
    }
    assert_eq!(ProcessStatus::Sleep.combined_with(ProcessStatus::Sleep), ProcessStatus::Sleep);
    assert_eq!(ProcessStatus::Tail.combined_with(ProcessStatus::Sleep), ProcessStatus::Tail);
    assert_eq!(
        ProcessStatus::ContinueIfNotQuiet.combined_with(ProcessStatus::Tail),
        ProcessStatus::ContinueIfNotQuiet
    );
    assert_eq!(
        ProcessStatus::Continue.combined_with(ProcessStatus::ContinueIfNotQuiet),
        ProcessStatus::Continue
    );
}

#[test]
fn channel_is_constant_only_if_both_processors_say_so() {
    assert_eq!(combined_constant_mask(0b1111, 0b0101), 0b0101);
    assert_eq!(combined_constant_mask(0b1010, 0b0101), 0);
    assert_eq!(combined_constant_mask(u64::MAX, u64::MAX), u64::MAX);
    assert_eq!(combined_constant_mask(0, u64::MAX), 0);
}
