use clap_hot_reloader::wrapper::channel::{
    claim, claim_all, find_awaiting, split_latest, MainThreadChannel, Tagged,
};

fn tagged<T>(instance: u64, value: T) -> Tagged<T> {
    Tagged { instance, value }
}

#[test]
fn split_latest_keeps_the_newest_and_lists_the_rest() {
    assert_eq!(split_latest(Vec::<u32>::new()), (None, vec![]));
    assert_eq!(split_latest(vec![1u32]), (Some(1), vec![]));
    assert_eq!(split_latest(vec![1u32, 2, 3]), (Some(3), vec![1, 2]));
}

#[test]
fn find_awaiting_gives_the_first_of_the_instance() {
    let awaiting = vec![tagged(1, 'a'), tagged(2, 'b'), tagged(1, 'c')];
    assert_eq!(find_awaiting(&awaiting, 1), Some(0));
    assert_eq!(find_awaiting(&awaiting, 2), Some(1));
    assert_eq!(find_awaiting(&awaiting, 3), None);
    assert_eq!(find_awaiting(&Vec::<Tagged<char>>::new(), 1), None);
}

#[test]
fn claim_takes_the_owner_out_of_the_queue() {
    let mut awaiting = vec![tagged(1, 'a'), tagged(2, 'b'), tagged(1, 'c')];
    assert_eq!(claim(&mut awaiting, tagged(1, 10)), Ok((tagged(1, 'a'), tagged(1, 10))));
    assert_eq!(awaiting, vec![tagged(2, 'b'), tagged(1, 'c')]);
    assert_eq!(claim(&mut awaiting, tagged(7, 11)), Err(tagged(7, 11)));
    assert_eq!(awaiting, vec![tagged(2, 'b'), tagged(1, 'c')]);
    assert_eq!(claim(&mut awaiting, tagged(1, 12)), Ok((tagged(1, 'c'), tagged(1, 12))));
    assert_eq!(awaiting, vec![tagged(2, 'b')]);
}

#[test]
fn audio_thread_gets_only_the_latest_processor() {
    let (mut main, mut audio) = MainThreadChannel::<char, u32>::new_pair();
    assert_eq!(audio.move_to_latest_new_processor(), None);
    assert_eq!(main.send_new_audio_processor(tagged(2, 20), tagged(1, 'a')), Ok(()));
    assert_eq!(main.send_new_audio_processor(tagged(3, 30), tagged(2, 'b')), Ok(()));
    assert_eq!(main.send_new_audio_processor(tagged(4, 40), tagged(3, 'c')), Ok(()));
    assert_eq!(audio.move_to_latest_new_processor(), Some(tagged(4, 40)));
    assert_eq!(audio.move_to_latest_new_processor(), None);
    // The processors that were superseded came straight back, each with the
    // instance that it belongs to.
    let found = main.destroy_awaiting();
    assert_eq!(
        found.deactivate,
        vec![(tagged(2, 'b'), tagged(2, 20)), (tagged(3, 'c'), tagged(3, 30))]
    );
    assert!(found.orphans.is_empty());
}

#[test]
fn check_for_new_processor_takes_one_at_a_time() {
    let (mut main, mut audio) = MainThreadChannel::<char, u32>::new_pair();
    assert_eq!(audio.check_for_new_processor(), None);
    main.send_new_audio_processor(tagged(2, 20), tagged(1, 'a')).unwrap();
    main.send_new_audio_processor(tagged(3, 30), tagged(2, 'b')).unwrap();
    assert_eq!(audio.check_for_new_processor(), Some(tagged(2, 20)));
    assert_eq!(audio.check_for_new_processor(), Some(tagged(3, 30)));
    assert_eq!(audio.check_for_new_processor(), None);
}

#[test]
fn retired_processors_are_paired_with_their_instances() {
    let (mut main, mut audio) = MainThreadChannel::<char, u32>::new_pair();
    main.send_new_audio_processor(tagged(2, 20), tagged(1, 'a')).unwrap();
    let picked = audio.move_to_latest_new_processor();
    assert_eq!(picked, Some(tagged(2, 20)));
    let nothing = main.destroy_awaiting();
    assert!(nothing.deactivate.is_empty());
    assert!(nothing.orphans.is_empty());
    audio.send_for_disposal(tagged(1, 10));
    let found = main.destroy_awaiting();
    assert_eq!(found.deactivate, vec![(tagged(1, 'a'), tagged(1, 10))]);
    assert!(found.orphans.is_empty());
    let again = main.destroy_awaiting();
    assert!(again.deactivate.is_empty());
}

#[test]
fn clean_up_takes_every_processor_and_sets_aside_those_without_owner() {
    let (mut main, mut audio) = MainThreadChannel::<char, u32>::new_pair();
    main.defer_destroy_if_active(tagged(1, 'a'));
    main.defer_destroy_if_active(tagged(2, 'b'));
    main.defer_destroy_if_active(tagged(3, 'c'));
    audio.send_for_disposal(tagged(9, 90));
    audio.send_for_disposal(tagged(3, 30));
    audio.send_for_disposal(tagged(8, 80));
    audio.send_for_disposal(tagged(1, 10));
    let found = main.destroy_awaiting();
    assert_eq!(
        found.deactivate,
        vec![(tagged(3, 'c'), tagged(3, 30)), (tagged(1, 'a'), tagged(1, 10))]
    );
    assert_eq!(found.orphans, vec![tagged(9, 90), tagged(8, 80)]);
    // The instance whose processor has not come back stays queued.
    let rest = main.destroy_awaiting();
    assert!(rest.deactivate.is_empty());
    assert!(rest.orphans.is_empty());
    audio.send_for_disposal(tagged(2, 20));
    let last = main.destroy_awaiting();
    assert_eq!(last.deactivate, vec![(tagged(2, 'b'), tagged(2, 20))]);
}

#[test]
fn claim_all_pairs_each_processor_with_the_first_instance_of_its_kind() {
    let mut awaiting = vec![tagged(1, 'a'), tagged(2, 'b'), tagged(1, 'c'), tagged(3, 'd')];
    let found = claim_all(&mut awaiting, vec![tagged(1, 10), tagged(7, 70), tagged(1, 11), tagged(1, 12)]);
    assert_eq!(
        found.deactivate,
        vec![(tagged(1, 'a'), tagged(1, 10)), (tagged(1, 'c'), tagged(1, 11))]
    );
    assert_eq!(found.orphans, vec![tagged(7, 70), tagged(1, 12)]);
    assert_eq!(awaiting, vec![tagged(2, 'b'), tagged(3, 'd')]);
    let nothing = claim_all(&mut awaiting, Vec::<Tagged<u32>>::new());
    assert!(nothing.deactivate.is_empty() && nothing.orphans.is_empty());
    assert_eq!(awaiting, vec![tagged(2, 'b'), tagged(3, 'd')]);
}

#[test]
fn deactivate_old_instance_finds_the_owner() {
    let (mut main, _audio) = MainThreadChannel::<char, u32>::new_pair();
    main.defer_destroy_if_active(tagged(1, 'a'));
    assert_eq!(main.deactivate_old_instance(tagged(5, 50)), Err(tagged(5, 50)));
    assert_eq!(
        main.deactivate_old_instance(tagged(1, 10)),
        Ok((tagged(1, 'a'), tagged(1, 10)))
    );
    assert_eq!(main.deactivate_old_instance(tagged(1, 11)), Err(tagged(1, 11)));
}

#[test]
fn processor_comes_back_when_the_audio_end_is_gone() {
    let (mut main, audio) = MainThreadChannel::<char, u32>::new_pair();
    drop(audio);
    assert_eq!(
        main.send_new_audio_processor(tagged(2, 20), tagged(1, 'a')),
        Err(tagged(2, 20))
    );
    // The old instance stays queued all the same.
    assert_eq!(
        main.deactivate_old_instance(tagged(1, 10)),
        Ok((tagged(1, 'a'), tagged(1, 10)))
    );
}

#[test]
fn disposal_after_the_main_end_is_gone_drops_the_processor() {
    let (main, mut audio) = MainThreadChannel::<char, u32>::new_pair();
    drop(main);
    audio.send_for_disposal(tagged(1, 10));
    audio.dispose_all(vec![tagged(2, 20), tagged(3, 30)]);
    assert_eq!(audio.move_to_latest_new_processor(), None);
}

#[test]
fn consume_collects_what_is_left_in_both_queues() {
    let (mut main, mut audio) = MainThreadChannel::<char, u32>::new_pair();
    main.send_new_audio_processor(tagged(2, 20), tagged(1, 'a')).unwrap();
    main.defer_destroy_if_active(tagged(2, 'b'));
    audio.send_for_disposal(tagged(1, 10));
    // The new processor was never picked up: it is collected first.
    let found = main.consume(audio);
    assert_eq!(
        found.deactivate,
        vec![(tagged(2, 'b'), tagged(2, 20)), (tagged(1, 'a'), tagged(1, 10))]
    );
    assert!(found.orphans.is_empty());
}

#[test]
fn consume_goes_on_after_an_unpicked_processor_without_owner() {
    let (mut main, mut audio) = MainThreadChannel::<char, u32>::new_pair();
    main.send_new_audio_processor(tagged(2, 20), tagged(1, 'a')).unwrap();
    audio.send_for_disposal(tagged(1, 10));
    let found = main.consume(audio);
    assert_eq!(found.deactivate, vec![(tagged(1, 'a'), tagged(1, 10))]);
    assert_eq!(found.orphans, vec![tagged(2, 20)]);
}
