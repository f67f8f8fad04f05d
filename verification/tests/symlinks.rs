use clap_hot_reloader::watcher::symlinks::{
    BundleSymlinkedPath, LinkMetadata, LinkProbe, WatchResults, MAX_SYMLINK_DEPTH,
};

fn link(target: &str, parent: Option<&str>) -> LinkProbe {
    LinkProbe {
        metadata: LinkMetadata::Symlink,
        target: Some(String::from(target)),
        parent: parent.map(String::from),
    }
}

fn file(parent: Option<&str>) -> LinkProbe {
    LinkProbe { metadata: LinkMetadata::NotSymlink, target: None, parent: parent.map(String::from) }
}

fn paths(chain: &BundleSymlinkedPath) -> Vec<String> {
    let mut iter = chain.iter();
    let mut found = Vec::new();
    while let Some(node) = iter.next() {
        found.push(node.path().clone());
    }
    found
}

fn chain_of_three() -> BundleSymlinkedPath {
    BundleSymlinkedPath::get_info(
        String::from("/plugins/synth.clap"),
        &vec![
            link("/opt/current/synth.clap", Some("/plugins")),
            link("/opt/v2/synth.clap", Some("/opt/current")),
            file(Some("/opt/v2")),
        ],
    )
}

#[test]
fn plain_file_is_a_chain_of_one() {
    let chain = BundleSymlinkedPath::get_info(String::from("/a/b.clap"), &vec![file(Some("/a"))]);
    assert_eq!(chain.path(), "/a/b.clap");
    assert_eq!(chain.final_path(), "/a/b.clap");
    assert!(!chain.is_symlink());
    assert!(!chain.is_watched());
    assert!(!chain.is_parent_watched());
    assert_eq!(paths(&chain), vec!["/a/b.clap"]);
}

#[test]
fn links_are_followed_down_to_the_file() {
    let chain = chain_of_three();
    assert_eq!(
        paths(&chain),
        vec!["/plugins/synth.clap", "/opt/current/synth.clap", "/opt/v2/synth.clap"]
    );
    assert_eq!(chain.path(), "/plugins/synth.clap");
    assert_eq!(chain.final_path(), "/opt/v2/synth.clap");
    assert!(chain.is_symlink());
    let mut iter = chain.iter();
    assert!(iter.next().unwrap().is_symlink());
    assert!(iter.next().unwrap().is_symlink());
    assert!(!iter.next().unwrap().is_symlink());
    assert!(iter.next().is_none());
    assert!(iter.next().is_none());
}

#[test]
fn path_that_was_not_probed_is_a_leaf() {
    let chain = BundleSymlinkedPath::get_info(String::from("/a/b.clap"), &vec![]);
    assert_eq!(paths(&chain), vec!["/a/b.clap"]);
    assert!(!chain.is_symlink());
    assert_eq!(chain.watch_targets(), vec!["/a/b.clap"]);
}

#[test]
fn broken_link_ends_the_chain_and_is_still_watched() {
    let broken =
        LinkProbe { metadata: LinkMetadata::Symlink, target: None, parent: Some(String::from("/a")) };
    let chain = BundleSymlinkedPath::get_info(String::from("/a/b.clap"), &vec![broken]);
    assert_eq!(paths(&chain), vec!["/a/b.clap"]);
    assert!(chain.is_symlink());
    assert_eq!(chain.watch_targets(), vec!["/a/b.clap", "/a"]);
}

#[test]
fn unreadable_metadata_still_follows_a_readable_link() {
    let unreadable = LinkProbe {
        metadata: LinkMetadata::Unreadable,
        target: Some(String::from("/c/d.clap")),
        parent: None,
    };
    let chain =
        BundleSymlinkedPath::get_info(String::from("/a/b.clap"), &vec![unreadable, file(None)]);
    assert_eq!(paths(&chain), vec!["/a/b.clap", "/c/d.clap"]);
    assert!(chain.is_symlink());
    let lost = LinkProbe { metadata: LinkMetadata::Unreadable, target: None, parent: None };
    let leaf = BundleSymlinkedPath::get_info(String::from("/a/b.clap"), &vec![lost]);
    assert_eq!(paths(&leaf), vec!["/a/b.clap"]);
    assert!(!leaf.is_symlink());
}

#[test]
fn target_of_a_plain_file_is_left_aside() {
    let odd = LinkProbe {
        metadata: LinkMetadata::NotSymlink,
        target: Some(String::from("/elsewhere")),
        parent: None,
    };
    let chain = BundleSymlinkedPath::get_info(String::from("/a/b.clap"), &vec![odd, file(None)]);
    assert_eq!(paths(&chain), vec!["/a/b.clap"]);
}

#[test]
fn probes_beyond_the_end_of_the_chain_are_left_aside() {
    let chain = BundleSymlinkedPath::get_info(
        String::from("/a"),
        &vec![link("/b", None), file(None), link("/c", None), file(None)],
    );
    assert_eq!(paths(&chain), vec!["/a", "/b"]);
}

#[test]
fn cycle_of_links_ends_at_the_depth_limit() {
    let mut probes = Vec::new();
    for _ in 0..100 {
        probes.push(link("/loop", Some("/")));
    }
    let chain = BundleSymlinkedPath::get_info(String::from("/loop"), &probes);
    let found = paths(&chain);
    assert_eq!(MAX_SYMLINK_DEPTH, 40);
    assert_eq!(found.len(), MAX_SYMLINK_DEPTH + 1);
    assert!(found.iter().all(|path| path == "/loop"));
}

#[test]
fn every_path_and_its_directory_are_to_be_watched() {
    let chain = chain_of_three();
    assert_eq!(
        chain.watch_targets(),
        vec![
            "/plugins/synth.clap",
            "/plugins",
            "/opt/current/synth.clap",
            "/opt/current",
            "/opt/v2/synth.clap",
            "/opt/v2",
        ]
    );
    let rootless = BundleSymlinkedPath::get_info(
        String::from("synth.clap"),
        &vec![link("/opt/synth.clap", None), file(Some("/opt"))],
    );
    assert_eq!(rootless.watch_targets(), vec!["synth.clap", "/opt/synth.clap", "/opt"]);
}

#[test]
fn watch_outcomes_are_taken_over_node_by_node() {
    let mut chain = chain_of_three();
    let mut outcomes: Vec<Result<(), &str>> =
        vec![Ok(()), Err("no /plugins"), Err("gone"), Ok(()), Ok(()), Ok(()), Err("extra")];
    let mut results = WatchResults::empty();
    chain.watch_all(&mut outcomes, &mut results);
    assert_eq!(outcomes, vec![Err("extra")]);
    assert_eq!(results.succeeded(), 4);
    assert!(results.has_any_success());
    assert_eq!(results.failed(), &vec!["no /plugins", "gone"]);
    let mut iter = chain.iter();
    let first = iter.next().unwrap();
    assert!(first.is_watched() && !first.is_parent_watched());
    let second = iter.next().unwrap();
    assert!(!second.is_watched() && second.is_parent_watched());
    let third = iter.next().unwrap();
    assert!(third.is_watched() && third.is_parent_watched());
}

#[test]
fn nothing_watched_means_no_success() {
    let mut chain = chain_of_three();
    let mut outcomes: Vec<Result<(), u32>> =
        vec![Err(1), Err(2), Err(3), Err(4), Err(5), Err(6)];
    let mut results = WatchResults::empty();
    chain.watch_all(&mut outcomes, &mut results);
    assert!(outcomes.is_empty());
    assert!(!results.has_any_success());
    assert_eq!(results.succeeded(), 0);
    assert_eq!(results.failed(), &vec![1, 2, 3, 4, 5, 6]);
    assert!(!chain.is_watched());
}

#[test]
fn watch_results_count_successes_and_keep_errors() {
    let mut results = WatchResults::<&str>::empty();
    assert!(!results.has_any_success());
    assert_eq!(results.succeeded(), 0);
    assert!(results.failed().is_empty());
    assert!(!results.record(Err("a")));
    assert!(!results.has_any_success());
    assert!(results.record(Ok(())));
    assert!(results.record(Ok(())));
    assert!(!results.record(Err("b")));
    assert!(results.has_any_success());
    assert_eq!(results.succeeded(), 2);
    assert_eq!(results.failed(), &vec!["a", "b"]);
}

#[test]
fn contains_path_looks_along_the_whole_chain() {
    let chain = chain_of_three();
    assert!(chain.contains_path(&String::from("/plugins/synth.clap")));
    assert!(chain.contains_path(&String::from("/opt/current/synth.clap")));
    assert!(chain.contains_path(&String::from("/opt/v2/synth.clap")));
    assert!(!chain.contains_path(&String::from("/opt/v2")));
    assert!(!chain.contains_path(&String::from("/opt/v3/synth.clap")));
    assert!(!chain.contains_path(&String::new()));
}

#[test]
fn iterator_hands_out_the_rest_of_the_chain() {
    let chain = chain_of_three();
    let mut iter = chain.iter();
    let whole = iter.next().unwrap();
    assert_eq!(paths(whole).len(), 3);
    let rest = iter.next().unwrap();
    assert_eq!(paths(rest), vec!["/opt/current/synth.clap", "/opt/v2/synth.clap"]);
    assert_eq!(rest.final_path(), "/opt/v2/synth.clap");
}

#[test]
fn probe_says_where_the_chain_goes_on() {
    let followed = link("/b", None);
    assert!(followed.is_symlink());
    assert_eq!(followed.next_path(), Some(&String::from("/b")));
    let plain = LinkProbe {
        metadata: LinkMetadata::NotSymlink,
        target: Some(String::from("/b")),
        parent: None,
    };
    assert!(!plain.is_symlink());
    assert_eq!(plain.next_path(), None);
    let broken = LinkProbe { metadata: LinkMetadata::Symlink, target: None, parent: None };
    assert!(broken.is_symlink());
    assert_eq!(broken.next_path(), None);
    let guessed = LinkProbe {
        metadata: LinkMetadata::Unreadable,
        target: Some(String::from("/c")),
        parent: None,
    };
    assert!(guessed.is_symlink());
    assert_eq!(guessed.next_path(), Some(&String::from("/c")));
    let lost = LinkProbe { metadata: LinkMetadata::Unreadable, target: None, parent: None };
    assert!(!lost.is_symlink());
    assert_eq!(lost.next_path(), None);
    assert!(!LinkMetadata::NotSymlink.wants_target());
    assert!(LinkMetadata::Symlink.wants_target());
    assert!(LinkMetadata::Unreadable.wants_target());
}

#[test]
fn duplicate_copies_the_whole_chain() {
    let mut chain = chain_of_three();
    let mut outcomes: Vec<Result<(), ()>> = vec![Ok(()), Err(()), Ok(()), Ok(()), Err(()), Ok(())];
    let mut results = WatchResults::empty();
    chain.watch_all(&mut outcomes, &mut results);
    let copy = chain.duplicate();
    assert_eq!(paths(&copy), paths(&chain));
    assert_eq!(copy.watch_targets(), chain.watch_targets());
    let mut copied = copy.iter();
    let mut held = chain.iter();
    while let (Some(a), Some(b)) = (copied.next(), held.next()) {
        assert_eq!(a.is_symlink(), b.is_symlink());
        assert_eq!(a.is_watched(), b.is_watched());
        assert_eq!(a.is_parent_watched(), b.is_parent_watched());
    }
}
