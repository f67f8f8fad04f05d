use clap_hot_reloader::wrapper::audio_processor::cross_fader::{
    fade_time_in_samples, CrossFader, CROSSFADE_TIME_MILLIS,
};

#[test]
fn fresh_fader_stands_at_the_start_of_its_window() {
    let fader = CrossFader::new(4);
    assert_eq!(fader.fade_time_samples(), 4);
    assert_eq!(fader.remaining_samples(), 4);
    assert!(!fader.is_done());
}

#[test]
fn first_sample_is_all_fade_out_and_last_is_nearly_all_fade_in() {
    let fader = CrossFader::new(8);
    assert_eq!(fader.fade_out_weight(0), 8);
    assert_eq!(fader.fade_in_weight(0), 0);
    assert_eq!(fader.fade_out_weight(7), 1);
    assert_eq!(fader.fade_in_weight(7), 7);
}

#[test]
fn weights_ramp_linearly_and_add_up_to_the_window() {
    let fader = CrossFader::new(4);
    let outs: Vec<u32> = (0..6).map(|i| fader.fade_out_weight(i)).collect();
    let ins: Vec<u32> = (0..6).map(|i| fader.fade_in_weight(i)).collect();
    assert_eq!(outs, vec![4, 3, 2, 1, 0, 0]);
    assert_eq!(ins, vec![0, 1, 2, 3, 4, 4]);
    for i in 0..6 {
        assert_eq!(fader.fade_out_weight(i) + fader.fade_in_weight(i), 4);
    }
}

#[test]
fn weights_never_turn_back() {
    let fader = CrossFader::new(100);
    for i in 0..150u32 {
        assert!(fader.fade_out_weight(i + 1) <= fader.fade_out_weight(i));
        assert!(fader.fade_in_weight(i + 1) >= fader.fade_in_weight(i));
    }
}

#[test]
fn fade_is_done_after_exactly_the_window() {
    let mut fader = CrossFader::new(10);
    fader.advance(3);
    fader.advance(3);
    fader.advance(3);
    assert_eq!(fader.remaining_samples(), 1);
    assert!(!fader.is_done());
    fader.advance(1);
    assert_eq!(fader.remaining_samples(), 0);
    assert!(fader.is_done());
}

#[test]
fn advance_stops_at_the_end_of_the_window() {
    let mut fader = CrossFader::new(10);
    fader.advance(u32::MAX);
    assert_eq!(fader.remaining_samples(), 0);
    assert!(fader.is_done());
    fader.advance(5);
    assert_eq!(fader.remaining_samples(), 0);
}

#[test]
fn fade_carries_on_across_blocks() {
    let whole = CrossFader::new(16);
    let mut stepped = CrossFader::new(16);
    stepped.advance(5);
    for i in 0..20u32 {
        assert_eq!(stepped.fade_out_weight(i), whole.fade_out_weight(i + 5));
        assert_eq!(stepped.fade_in_weight(i), whole.fade_in_weight(i + 5));
    }
}

#[test]
fn reset_rewinds_to_the_whole_window() {
    let mut fader = CrossFader::new(7);
    fader.advance(7);
    assert!(fader.is_done());
    fader.reset();
    assert_eq!(fader.remaining_samples(), 7);
    assert_eq!(fader.fade_time_samples(), 7);
    assert!(!fader.is_done());
}

#[test]
fn empty_window_is_done_at_once() {
    let mut fader = CrossFader::new(0);
    assert!(fader.is_done());
    assert_eq!(fader.fade_out_weight(0), 0);
    assert_eq!(fader.fade_in_weight(0), 0);
    fader.reset();
    assert!(fader.is_done());
}

#[test]
fn fade_length_is_the_whole_samples_in_the_fade_time() {
    assert_eq!(CROSSFADE_TIME_MILLIS, 250);
    assert_eq!(fade_time_in_samples(48_000, 250), 12_000);
    assert_eq!(fade_time_in_samples(44_100, 250), 11_025);
    assert_eq!(fade_time_in_samples(22_051, 250), 5_512);
    assert_eq!(fade_time_in_samples(3, 250), 0);
    assert_eq!(fade_time_in_samples(0, 250), 0);
    assert_eq!(fade_time_in_samples(48_000, 0), 0);
}

#[test]
fn fade_length_stops_at_the_largest_number() {
    assert_eq!(fade_time_in_samples(u32::MAX, u32::MAX), u32::MAX);
    assert_eq!(fade_time_in_samples(u32::MAX, 1000), u32::MAX);
    assert_eq!(fade_time_in_samples(u32::MAX, 999), 4_290_672_327);
}
