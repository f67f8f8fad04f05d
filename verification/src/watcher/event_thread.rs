//! What the watcher thread decides when the file system reports changes:
//! whether they concern the bundle, whether the file holds a new bundle, and
//! what becomes the bundle in force.
//!
//! A reload attempt alternates work on the file system with decisions. The
//! decisions are made here, step by step; whoever drives the attempt carries
//! out the action that each step asks for and reports back what came of it.

use crate::bytes::bytes_equal;
use crate::util::{entry_verdict, load_if_different_bundle, EntryVerdict, ReloadError, SymbolLookup};
use crate::watcher::fanout::BundleProducer;
use crate::watcher::symlinks::BundleSymlinkedPath;
use vstd::prelude::*;

verus! {

/// Number of bytes of a content hash.
pub const HASH_LEN: usize = 32;

/// The BLAKE3 hash of a byte string, as `blake3::hash` computes it.
pub uninterp spec fn blake3_digest(contents: Seq<u8>) -> Seq<u8>;

/// `blake3::hash`: the 32 bytes of the hash of `contents`.
#[verifier::external_body]
fn digest(contents: &Vec<u8>) -> (hash: Vec<u8>)
    ensures
        hash@ == blake3_digest(contents@),
        hash@.len() == HASH_LEN,
{
    blake3::hash(contents.as_slice()).as_bytes().to_vec()
}

/// The hash of a file's contents.
pub struct ContentHash {
    bytes: Vec<u8>,
}

impl View for ContentHash {
    type V = Seq<u8>;

    closed spec fn view(&self) -> Seq<u8> {
        self.bytes@
    }
}

impl ContentHash {
    /// The hash of `contents`.
    pub fn of(contents: &Vec<u8>) -> (hash: Self)
        ensures
            hash@ == blake3_digest(contents@),
    {
        ContentHash { bytes: digest(contents) }
    }

    /// Whether two hashes are the same.
    pub fn same_as(&self, other: &ContentHash) -> (same: bool)
        ensures
            same == (self@ == other@),
    {
        bytes_equal(&self.bytes, &other.bytes)
    }

    /// The bytes of the hash.
    pub fn as_bytes(&self) -> (bytes: &Vec<u8>)
        ensures
            bytes@ == self@,
    {
        &self.bytes
    }
}

/// The hash of a file, where the file could be read.
pub fn compute_hash(contents: Option<&Vec<u8>>) -> (hash: Option<ContentHash>)
    ensures
        hash_view(hash) == hashed(
            match contents {
                Some(bytes) => Some(bytes@),
                None => None,
            },
        ),
{
    match contents {
        Some(bytes) => Some(ContentHash::of(bytes)),
        None => None,
    }
}

/// The bytes of a hash that may be unknown.
pub open spec fn hash_view(hash: Option<ContentHash>) -> Option<Seq<u8>> {
    match hash {
        Some(known) => Some(known@),
        None => None,
    }
}

/// The hash of what was read of a file: unknown where nothing could be read.
pub open spec fn hashed(contents: Option<Seq<u8>>) -> Option<Seq<u8>> {
    match contents {
        Some(bytes) => Some(blake3_digest(bytes)),
        None => None,
    }
}

/// How a reload attempt ended.
#[derive(Clone, Copy, Debug, PartialEq, Eq, Structural)]
pub enum ReloadOutcome {
    /// The file holds the bundle that is in force.
    Unchanged,
    /// A new bundle was loaded.
    Changed,
    /// The attempt failed; the bundle in force stays.
    Failed(ReloadError),
}

/// Where a reload attempt stands.
#[derive(Clone, Copy, Debug, PartialEq, Eq, Structural)]
pub enum ReloadStage {
    AwaitingCopy,
    AwaitingProbe,
    AwaitingLoad,
    Finished(ReloadOutcome),
}

/// What the driver of a reload attempt is to do next.
#[derive(Clone, Copy, Debug, PartialEq, Eq, Structural)]
pub enum ReloadAction {
    /// Copy the file to a private temporary file.
    CopyToTemp,
    /// Open the copy as a library and look up the wrapped entry.
    ProbeLibrary,
    /// Load the plugin bundle from the library.
    LoadBundle,
    /// Nothing more: the attempt has ended.
    Finish(ReloadOutcome),
}

/// What came of the action that the attempt asked for.
#[derive(Clone, Copy, Debug, PartialEq, Eq, Structural)]
pub enum ReloadEvent {
    /// Whether the copy was made.
    Copied(bool),
    /// What the lookup in the copy found.
    Probed(SymbolLookup),
    /// Whether the bundle was loaded.
    Loaded(bool),
}

/// The stage at which an attempt begins: it ends at once where the hash of the
/// file is known and is the hash of the bundle in force.
pub open spec fn first_stage(current_hash: Option<Seq<u8>>, file_hash: Option<Seq<u8>>) -> ReloadStage {
    if current_hash is Some && file_hash == current_hash {
        ReloadStage::Finished(ReloadOutcome::Unchanged)
    } else {
        ReloadStage::AwaitingCopy
    }
}

/// The stage after an event. An event that does not answer the action of the
/// stage changes nothing.
pub open spec fn next_stage(stage: ReloadStage, current_entry: usize, event: ReloadEvent) -> ReloadStage {
    match (stage, event) {
        (ReloadStage::AwaitingCopy, ReloadEvent::Copied(copied)) => if copied {
            ReloadStage::AwaitingProbe
        } else {
            ReloadStage::Finished(ReloadOutcome::Failed(ReloadError::CopyFailed))
        },
        (ReloadStage::AwaitingProbe, ReloadEvent::Probed(lookup)) => match entry_verdict(
            current_entry,
            lookup,
        ) {
            EntryVerdict::Same => ReloadStage::Finished(ReloadOutcome::Unchanged),
            EntryVerdict::Different => ReloadStage::AwaitingLoad,
            EntryVerdict::Failed(error) => ReloadStage::Finished(ReloadOutcome::Failed(error)),
        },
        (ReloadStage::AwaitingLoad, ReloadEvent::Loaded(loaded)) => if loaded {
            ReloadStage::Finished(ReloadOutcome::Changed)
        } else {
            ReloadStage::Finished(ReloadOutcome::Failed(ReloadError::BundleRejected))
        },
        _ => stage,
    }
}

/// The action that a stage asks for.
pub open spec fn stage_action(stage: ReloadStage) -> ReloadAction {
    match stage {
        ReloadStage::AwaitingCopy => ReloadAction::CopyToTemp,
        ReloadStage::AwaitingProbe => ReloadAction::ProbeLibrary,
        ReloadStage::AwaitingLoad => ReloadAction::LoadBundle,
        ReloadStage::Finished(outcome) => ReloadAction::Finish(outcome),
    }
}

/// The stage after a run of events.
pub open spec fn stage_after(stage: ReloadStage, current_entry: usize, events: Seq<ReloadEvent>) -> ReloadStage
    decreases events.len(),
{
    if events.len() == 0 {
        stage
    } else {
        next_stage(stage_after(stage, current_entry, events.drop_last()), current_entry, events.last())
    }
}

/// Loading the same bytes twice: once a file with these contents has become
/// the bundle in force, its hash is on record, and an attempt on a file with
/// the same contents, under whatever path, ends at once as unchanged.
pub proof fn lemma_same_bytes_are_unchanged(contents: Seq<u8>)
    ensures
        first_stage(hashed(Some(contents)), hashed(Some(contents))) == ReloadStage::Finished(
            ReloadOutcome::Unchanged,
        ),
{
}

/// Where the hash of the file or of the bundle in force is unknown, or the
/// two differ, the file is copied and looked into.
pub proof fn lemma_unknown_hash_proceeds(current_hash: Option<Seq<u8>>, file_hash: Option<Seq<u8>>)
    requires
        current_hash is None || file_hash is None || current_hash != file_hash,
    ensures
        first_stage(current_hash, file_hash) == ReloadStage::AwaitingCopy,
{
}

/// Loading the same image twice: where the library maps the very entry that
/// is in force, the attempt ends as unchanged, whether or not a hash was to
/// be had.
pub proof fn lemma_same_entry_is_unchanged(
    current_hash: Option<Seq<u8>>,
    file_hash: Option<Seq<u8>>,
    current_entry: usize,
)
    ensures
        stage_after(
            first_stage(current_hash, file_hash),
            current_entry,
            seq![ReloadEvent::Copied(true), ReloadEvent::Probed(SymbolLookup::Entry(current_entry))],
        ) == ReloadStage::Finished(ReloadOutcome::Unchanged),
{
    let copied = ReloadEvent::Copied(true);
    let probed = ReloadEvent::Probed(SymbolLookup::Entry(current_entry));
    let events = seq![copied, probed];
    let first = first_stage(current_hash, file_hash);
    let one = events.drop_last();
    assert(one == seq![copied]);
    assert(one.drop_last() == Seq::<ReloadEvent>::empty());
    assert(one.last() == copied);
    assert(events.last() == probed);
    assert(stage_after(first, current_entry, one.drop_last()) == first);
    assert(stage_after(first, current_entry, one) == next_stage(first, current_entry, copied));
    assert(stage_after(first, current_entry, events) == next_stage(
        stage_after(first, current_entry, one),
        current_entry,
        probed,
    ));
}

/// An attempt that has ended stays as it is.
pub proof fn lemma_finished_stays(outcome: ReloadOutcome, current_entry: usize, event: ReloadEvent)
    ensures
        next_stage(ReloadStage::Finished(outcome), current_entry, event) == ReloadStage::Finished(
            outcome,
        ),
{
}

/// One attempt to reload the bundle from its file.
pub struct ReloadAttempt {
    current_entry: usize,
    file_hash: Option<ContentHash>,
    stage: ReloadStage,
}

impl ReloadAttempt {
    /// Where the attempt stands.
    pub closed spec fn stage(&self) -> ReloadStage {
        self.stage
    }

    /// Address of the entry of the bundle in force.
    pub closed spec fn current_entry(&self) -> usize {
        self.current_entry
    }

    /// The hash of the file, where the file could be read.
    pub closed spec fn file_hash(&self) -> Option<Seq<u8>> {
        hash_view(self.file_hash)
    }

    /// Begins an attempt. `contents` is what could be read of the file, and
    /// `current_hash` and `current_entry` belong to the bundle in force. A file
    /// that cannot be read, and so has no hash, does not end the attempt.
    pub fn begin(
        contents: Option<&Vec<u8>>,
        current_hash: Option<&ContentHash>,
        current_entry: usize,
    ) -> (attempt: Self)
        ensures
            attempt.current_entry() == current_entry,
            attempt.file_hash() == hashed(
                match contents {
                    Some(bytes) => Some(bytes@),
                    None => None,
                },
            ),
            attempt.stage() == first_stage(
                match current_hash {
                    Some(known) => Some(known@),
                    None => None,
                },
                attempt.file_hash(),
            ),
    {
        let file_hash = compute_hash(contents);
        let unchanged = match (&file_hash, current_hash) {
            (Some(found), Some(known)) => found.same_as(known),
            _ => false,
        };
        let stage = if unchanged {
            ReloadStage::Finished(ReloadOutcome::Unchanged)
        } else {
            ReloadStage::AwaitingCopy
        };
        ReloadAttempt { current_entry, file_hash, stage }
    }

    /// The hash of the file, where the file could be read.
    pub fn hash(&self) -> (hash: Option<&ContentHash>)
        ensures
            match hash {
                Some(known) => self.file_hash() == Some(known@),
                None => self.file_hash() is None,
            },
    {
        self.file_hash.as_ref()
    }

    /// What is to be done next.
    pub fn action(&self) -> (action: ReloadAction)
        ensures
            action == stage_action(self.stage()),
    {
        match self.stage {
            ReloadStage::AwaitingCopy => ReloadAction::CopyToTemp,
            ReloadStage::AwaitingProbe => ReloadAction::ProbeLibrary,
            ReloadStage::AwaitingLoad => ReloadAction::LoadBundle,
            ReloadStage::Finished(outcome) => ReloadAction::Finish(outcome),
        }
    }

    /// Takes in what came of the last action and returns what is to be done
    /// next.
    pub fn on_event(&mut self, event: ReloadEvent) -> (action: ReloadAction)
        ensures
            final(self).stage() == next_stage(old(self).stage(), old(self).current_entry(), event),
            final(self).current_entry() == old(self).current_entry(),
            final(self).file_hash() == old(self).file_hash(),
            action == stage_action(final(self).stage()),
    {
        let next = match (self.stage, event) {
            (ReloadStage::AwaitingCopy, ReloadEvent::Copied(copied)) => if copied {
                ReloadStage::AwaitingProbe
            } else {
                ReloadStage::Finished(ReloadOutcome::Failed(ReloadError::CopyFailed))
            },
            (ReloadStage::AwaitingProbe, ReloadEvent::Probed(lookup)) => {
                match load_if_different_bundle(self.current_entry, lookup) {
                    EntryVerdict::Same => ReloadStage::Finished(ReloadOutcome::Unchanged),
                    EntryVerdict::Different => ReloadStage::AwaitingLoad,
                    EntryVerdict::Failed(error) => ReloadStage::Finished(
                        ReloadOutcome::Failed(error),
                    ),
                }
            },
            (ReloadStage::AwaitingLoad, ReloadEvent::Loaded(loaded)) => if loaded {
                ReloadStage::Finished(ReloadOutcome::Changed)
            } else {
                ReloadStage::Finished(ReloadOutcome::Failed(ReloadError::BundleRejected))
            },
            _ => self.stage,
        };
        self.stage = next;
        self.action()
    }
}

/// A bundle together with what is known of the file it was loaded from.
pub struct PluginBundleFile<B, F> {
    bundle: B,
    entry: usize,
    file_hash: Option<ContentHash>,
    temp_file: Option<F>,
}

impl<B, F> PluginBundleFile<B, F> {
    /// The bundle.
    pub closed spec fn bundle(&self) -> B {
        self.bundle
    }

    /// Address of the bundle's entry.
    pub closed spec fn entry(&self) -> usize {
        self.entry
    }

    /// The hash of the file, where it is known.
    pub closed spec fn file_hash(&self) -> Option<Seq<u8>> {
        hash_view(self.file_hash)
    }

    /// The private copy of the file that the bundle was loaded from, which
    /// lives as long as this record.
    pub closed spec fn temp_file(&self) -> Option<F> {
        self.temp_file
    }

    /// A bundle that was not loaded from a file of its own: no hash, no copy.
    pub fn new_fileless(bundle: B, entry: usize) -> (file: Self)
        ensures
            file.bundle() == bundle,
            file.entry() == entry,
            file.file_hash() is None,
            file.temp_file() is None,
    {
        PluginBundleFile { bundle, entry, file_hash: None, temp_file: None }
    }

    /// Begins the attempt to load a bundle from a file with these contents, to
    /// take the place of this bundle.
    pub fn new_compare_to_hash(&self, contents: Option<&Vec<u8>>) -> (attempt: ReloadAttempt)
        ensures
            attempt.current_entry() == self.entry(),
            attempt.file_hash() == hashed(
                match contents {
                    Some(bytes) => Some(bytes@),
                    None => None,
                },
            ),
            attempt.stage() == first_stage(self.file_hash(), attempt.file_hash()),
    {
        ReloadAttempt::begin(contents, self.file_hash.as_ref(), self.entry)
    }

    /// The record of the bundle that an attempt has loaded, with the private
    /// copy it was loaded from. There is none unless the attempt ended with a
    /// new bundle.
    pub fn from_reload(attempt: ReloadAttempt, bundle: B, entry: usize, temp_file: F) -> (file: Option<
        Self,
    >)
        ensures
            match file {
                Some(loaded) => attempt.stage() == ReloadStage::Finished(ReloadOutcome::Changed)
                    && loaded.bundle() == bundle && loaded.entry() == entry && loaded.file_hash()
                    == attempt.file_hash() && loaded.temp_file() == Some(temp_file),
                None => attempt.stage() != ReloadStage::Finished(ReloadOutcome::Changed),
            },
    {
        match attempt.stage {
            ReloadStage::Finished(ReloadOutcome::Changed) => Some(
                PluginBundleFile {
                    bundle,
                    entry,
                    file_hash: attempt.file_hash,
                    temp_file: Some(temp_file),
                },
            ),
            _ => None,
        }
    }

    /// The bundle.
    pub fn get_bundle(&self) -> (bundle: &B)
        ensures
            *bundle == self.bundle(),
    {
        &self.bundle
    }

    /// Address of the bundle's entry.
    pub fn raw_entry(&self) -> (entry: usize)
        ensures
            entry == self.entry(),
    {
        self.entry
    }

    /// The hash of the file, where it is known.
    pub fn hash(&self) -> (hash: Option<&ContentHash>)
        ensures
            match hash {
                Some(known) => self.file_hash() == Some(known@),
                None => self.file_hash() is None,
            },
    {
        self.file_hash.as_ref()
    }
}

/// Whether one of `event_paths` is a path of `chain`.
pub open spec fn concerns(chain: Seq<crate::watcher::symlinks::PathNode>, event_paths: Seq<String>) -> bool {
    exists|e: int, n: int|
        0 <= e < event_paths.len() && 0 <= n < chain.len() && (#[trigger] chain[n]).path@ == (
        #[trigger] event_paths[e])@
}

/// The state of the watcher thread: the chain it watches, the bundle in force
/// and the publishing side of the fan-out.
#[verifier::reject_recursive_types(B)]
pub struct WatcherEventThread<B, F> {
    bundle_path: BundleSymlinkedPath,
    current_bundle: PluginBundleFile<B, F>,
    producer: BundleProducer<B>,
}

impl<B: Clone, F> WatcherEventThread<B, F> {
    /// The chain that is watched.
    pub closed spec fn watched(&self) -> BundleSymlinkedPath {
        self.bundle_path
    }

    /// The bundle in force.
    pub closed spec fn current(&self) -> PluginBundleFile<B, F> {
        self.current_bundle
    }

    /// The state at the start: `initial_bundle`, whose entry lies at
    /// `initial_entry`, is in force.
    pub fn new(
        bundle_path: BundleSymlinkedPath,
        initial_bundle: B,
        initial_entry: usize,
        producer: BundleProducer<B>,
    ) -> (thread: Self)
        ensures
            thread.watched() == bundle_path,
            thread.current().bundle() == initial_bundle,
            thread.current().entry() == initial_entry,
            thread.current().file_hash() is None,
    {
        WatcherEventThread {
            bundle_path,
            current_bundle: PluginBundleFile::new_fileless(initial_bundle, initial_entry),
            producer,
        }
    }

    /// Whether a batch of change events concerns the bundle: one of the paths
    /// that changed is a path of the chain.
    pub fn something_updated(&self, event_paths: &Vec<String>) -> (relevant: bool)
        ensures
            relevant == concerns(self.watched().chain(), event_paths@),
    {
        let mut index: usize = 0;
        while index < event_paths.len()
            invariant
                index <= event_paths@.len(),
                !concerns(self.bundle_path.chain(), event_paths@.take(index as int)),
            decreases event_paths@.len() - index,
        {
            if self.bundle_path.contains_path(&event_paths[index]) {
                proof {
                    let n = choose|n: int|
                        0 <= n < self.bundle_path.chain().len() && (
                        #[trigger] self.bundle_path.chain()[n]).path@ == event_paths@[index as int]@;
                    assert(self.bundle_path.chain()[n].path@ == event_paths@[index as int]@);
                }
                return true;
            }
            proof {
                let chain = self.bundle_path.chain();
                let longer = event_paths@.take(index + 1);
                if concerns(chain, longer) {
                    let (e, n) = choose|e: int, n: int|
                        0 <= e < longer.len() && 0 <= n < chain.len() && (#[trigger] chain[n]).path@
                            == (#[trigger] longer[e])@;
                    if e < index {
                        assert(event_paths@.take(index as int)[e] == longer[e]);
                    }
                }
            }
            index = index + 1;
        }
        proof {
            assert(event_paths@.take(index as int) == event_paths@);
        }
        false
    }

    /// Decides what a batch of change events calls for. Where the batch
    /// concerns the bundle, the path to reload from comes back: the last path
    /// of the chain. Where it does not, nothing is to be done.
    pub fn handle_updates(&self, event_paths: &Vec<String>) -> (reload_from: Option<&String>)
        ensures
            match reload_from {
                Some(path) => concerns(self.watched().chain(), event_paths@) && *path
                    == self.watched().chain().last().path,
                None => !concerns(self.watched().chain(), event_paths@),
            },
    {
        if !self.something_updated(event_paths) {
            return None;
        }
        Some(self.bundle_path.final_path())
    }

    /// The bundle in force.
    pub fn current_bundle(&self) -> (current: &PluginBundleFile<B, F>)
        ensures
            *current == self.current(),
    {
        &self.current_bundle
    }

    /// The chain that is watched.
    pub fn bundle_path(&self) -> (path: &BundleSymlinkedPath)
        ensures
            *path == self.watched(),
    {
        &self.bundle_path
    }

    /// Begins the attempt to reload from a file with these contents.
    pub fn begin_reload(&self, contents: Option<&Vec<u8>>) -> (attempt: ReloadAttempt)
        ensures
            attempt.current_entry() == self.current().entry(),
            attempt.file_hash() == hashed(
                match contents {
                    Some(bytes) => Some(bytes@),
                    None => None,
                },
            ),
            attempt.stage() == first_stage(self.current().file_hash(), attempt.file_hash()),
    {
        self.current_bundle.new_compare_to_hash(contents)
    }

    /// Puts a newly loaded bundle in force and publishes it.
    pub fn install(&mut self, new_bundle: PluginBundleFile<B, F>)
        ensures
            final(self).current() == new_bundle,
            final(self).watched() == old(self).watched(),
    {
        self.current_bundle = new_bundle;
        self.producer.produce(&self.current_bundle.bundle);
    }
}

} // verus!
