//! Detection of a changed bundle on disk and its publication to the plugin
//! instances.

pub mod event_thread;
pub mod fanout;
pub mod symlinks;

use crate::watcher::fanout::{BundleReceiver, BundleReceiverFactory};
use crate::watcher::symlinks::WatchResults;
use vstd::prelude::*;

verus! {

/// Quiet time after which a burst of file-system events is passed on as one
/// change, in milliseconds.
pub const DEBOUNCE_MILLIS: u64 = 750;

/// Owner of the file watcher and of the receiving side of the fan-out. The
/// watcher runs as long as this value lives.
#[verifier::reject_recursive_types(B)]
pub struct WatcherMaster<B, N> {
    notifier: N,
    factory: BundleReceiverFactory<B>,
}

impl<B: Clone, N> WatcherMaster<B, N> {
    /// Takes charge of a watcher that has been started, where it watches
    /// anything at all. Where every attempt to watch failed, there is nothing
    /// to reload from: the watcher is dropped and `None` comes back.
    pub fn new<E>(notifier: N, factory: BundleReceiverFactory<B>, results: &WatchResults<E>) -> (master:
        Option<Self>)
        ensures
            master is Some == (results.success_count() > 0),
    {
        if results.has_any_success() {
            Some(WatcherMaster { notifier, factory })
        } else {
            None
        }
    }

    /// A receiver for a new plugin instance, which starts at the bundle in
    /// force at this moment.
    pub fn new_receiver(&self) -> BundleReceiver<B> {
        self.factory.new_receiver()
    }
}

} // verus!
