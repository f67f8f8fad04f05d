//! The entry of the wrapper: the plugins it offers, and from which bundle a
//! new instance of one is made.

use crate::util::EntryVerdict;
use crate::watcher::fanout::BundleReceiver;
use crate::watcher::WatcherMaster;
use vstd::prelude::*;

verus! {

/// Why the entry could not be set up.
#[derive(Clone, Copy, Debug, PartialEq, Eq, Structural)]
pub enum EntryLoadError {
    /// The path of the bundle is no valid text.
    InvalidBundlePath,
}

/// A plugin description as a bundle gives it: every text may be missing or
/// unreadable.
#[derive(Debug, PartialEq, Eq)]
pub struct RawPluginDescriptor {
    pub id: Option<String>,
    pub name: Option<String>,
    pub vendor: Option<String>,
    pub url: Option<String>,
    pub manual_url: Option<String>,
    pub support_url: Option<String>,
    pub version: Option<String>,
    pub description: Option<String>,
    pub features: Vec<String>,
}

/// A plugin description as the wrapper offers it to the host.
#[derive(Debug, PartialEq, Eq)]
pub struct PluginDescriptor {
    pub id: String,
    pub name: String,
    pub vendor: String,
    pub url: String,
    pub manual_url: String,
    pub support_url: String,
    pub version: String,
    pub description: String,
    pub features: Vec<String>,
}

/// Whether `text` stands for `given`: the text itself where there is one, the
/// empty text where there is none.
pub open spec fn or_empty(given: Option<String>, text: String) -> bool {
    match given {
        Some(present) => text == present,
        None => text@ == Seq::<char>::empty(),
    }
}

/// Whether `copy` is the description that the wrapper offers for `raw`.
pub open spec fn describes(raw: RawPluginDescriptor, copy: PluginDescriptor) -> bool {
    &&& raw.id == Some(copy.id)
    &&& raw.name == Some(copy.name)
    &&& or_empty(raw.vendor, copy.vendor)
    &&& or_empty(raw.url, copy.url)
    &&& or_empty(raw.manual_url, copy.manual_url)
    &&& or_empty(raw.support_url, copy.support_url)
    &&& or_empty(raw.version, copy.version)
    &&& or_empty(raw.description, copy.description)
    &&& copy.features == raw.features
}

/// The text that was given, or the empty text.
fn text_or_empty(given: Option<String>) -> (text: String)
    ensures
        or_empty(given, text),
{
    match given {
        Some(present) => present,
        None => String::new(),
    }
}

/// The description that the wrapper offers for a plugin of the bundle. A
/// plugin without a readable id or name is not offered; any other text that
/// is missing is offered as empty.
pub fn clone_plugin_descriptor(desc: RawPluginDescriptor) -> (copy: Option<PluginDescriptor>)
    ensures
        match copy {
            Some(offered) => describes(desc, offered),
            None => desc.id is None || desc.name is None,
        },
{
    let RawPluginDescriptor {
        id,
        name,
        vendor,
        url,
        manual_url,
        support_url,
        version,
        description,
        features,
    } = desc;
    let id = match id {
        Some(id) => id,
        None => {
            return None;
        },
    };
    let name = match name {
        Some(name) => name,
        None => {
            return None;
        },
    };
    Some(
        PluginDescriptor {
            id,
            name,
            vendor: text_or_empty(vendor),
            url: text_or_empty(url),
            manual_url: text_or_empty(manual_url),
            support_url: text_or_empty(support_url),
            version: text_or_empty(version),
            description: text_or_empty(description),
            features,
        },
    )
}

/// Which of `raw` are offered: those with an id and a name, in their order.
pub open spec fn offered(raw: Seq<RawPluginDescriptor>) -> Seq<RawPluginDescriptor>
    decreases raw.len(),
{
    if raw.len() == 0 {
        raw
    } else if raw[0].id is Some && raw[0].name is Some {
        seq![raw[0]] + offered(raw.drop_first())
    } else {
        offered(raw.drop_first())
    }
}

/// Whether `copies` are the descriptions offered for `raw`, one for one.
pub open spec fn describes_all(raw: Seq<RawPluginDescriptor>, copies: Seq<PluginDescriptor>) -> bool {
    &&& copies.len() == offered(raw).len()
    &&& forall|i: int| 0 <= i < copies.len() ==> describes(offered(raw)[i], #[trigger] copies[i])
}

/// The descriptions that the wrapper offers for the plugins of a bundle.
pub fn clone_plugin_descriptors(raw: Vec<RawPluginDescriptor>) -> (copies: Vec<PluginDescriptor>)
    ensures
        describes_all(raw@, copies@),
{
    let ghost all = raw@;
    let ghost mut done: Seq<RawPluginDescriptor> = Seq::empty();
    let mut raw = raw;
    let mut copies: Vec<PluginDescriptor> = Vec::new();
    while raw.len() > 0
        invariant
            offered(all) == done + offered(raw@),
            copies@.len() == done.len(),
            forall|i: int| 0 <= i < copies@.len() ==> describes(done[i], #[trigger] copies@[i]),
        decreases raw@.len(),
    {
        let ghost held = raw@;
        let ghost copied = copies@;
        let first = raw.remove(0);
        proof {
            assert(raw@ == held.drop_first());
            assert(first == held[0]);
        }
        match clone_plugin_descriptor(first) {
            Some(copy) => {
                copies.push(copy);
                proof {
                    assert(offered(held) == seq![first] + offered(raw@));
                    assert(done + (seq![first] + offered(raw@)) == done.push(first) + offered(
                        raw@,
                    ));
                    done = done.push(first);
                    assert forall|i: int| 0 <= i < copies@.len() implies describes(
                        done[i],
                        #[trigger] copies@[i],
                    ) by {
                        if i < copied.len() {
                            assert(copies@[i] == copied[i]);
                        }
                    }
                }
            },
            None => {},
        }
    }
    proof {
        assert(done + offered(raw@) == done);
    }
    copies
}

/// From where the first bundle is taken.
#[derive(Clone, Copy, Debug, PartialEq, Eq, Structural)]
pub enum InitialBundle {
    /// From the library on disk, which holds another entry than the one that
    /// the wrapper was built with and could be loaded.
    Loaded,
    /// From the entry that the wrapper was built with.
    FromEntry,
}

/// Decides from where the first bundle is taken, given the verdict on the
/// library on disk and, where it holds another entry, whether that could be
/// loaded.
pub fn load_initial_bundle(verdict: EntryVerdict, loaded: bool) -> (source: InitialBundle)
    ensures
        source == if verdict == EntryVerdict::Different && loaded {
            InitialBundle::Loaded
        } else {
            InitialBundle::FromEntry
        },
{
    match verdict {
        EntryVerdict::Different => if loaded {
            InitialBundle::Loaded
        } else {
            InitialBundle::FromEntry
        },
        _ => InitialBundle::FromEntry,
    }
}

/// The bundle from which a new instance is made.
#[verifier::reject_recursive_types(B)]
pub enum InstanceSource<'a, B> {
    /// The instance follows the bundle as it changes on disk.
    Reloading(BundleReceiver<B>),
    /// The bundle is fixed.
    Static(&'a B),
}

impl<'a, B> InstanceSource<'a, B> {
    /// The bundle to make the instance from now.
    pub open spec fn current(&self) -> B {
        match *self {
            InstanceSource::Reloading(receiver) => receiver.current(),
            InstanceSource::Static(bundle) => *bundle,
        }
    }

    /// The bundle to make the instance from now.
    pub fn bundle(&self) -> (bundle: &B)
        ensures
            *bundle == self.current(),
    {
        match self {
            InstanceSource::Reloading(receiver) => receiver.current_bundle(),
            InstanceSource::Static(bundle) => bundle,
        }
    }
}

/// Where the bundles of new instances come from: a watcher, or one bundle
/// that stays.
#[verifier::reject_recursive_types(B)]
enum BundleSource<B, N> {
    Watched(WatcherMaster<B, N>),
    Fixed(B),
}

/// The plugins that the wrapper offers, and the source of their bundles.
#[verifier::reject_recursive_types(B)]
pub struct HotReloaderPluginFactory<B, N> {
    source: BundleSource<B, N>,
    descriptors: Vec<PluginDescriptor>,
}

/// Position of the first description with this id.
pub open spec fn described_at(descriptors: Seq<PluginDescriptor>, plugin_id: Seq<char>) -> Option<int>
    decreases descriptors.len(),
{
    if descriptors.len() == 0 {
        None
    } else if descriptors[0].id@ == plugin_id {
        Some(0)
    } else {
        match described_at(descriptors.drop_first(), plugin_id) {
            Some(index) => Some(index + 1),
            None => None,
        }
    }
}

impl<B: Clone, N> HotReloaderPluginFactory<B, N> {
    /// The descriptions of the plugins on offer.
    pub closed spec fn descriptors(&self) -> Seq<PluginDescriptor> {
        self.descriptors@
    }

    /// Whether new instances follow the bundle as it changes on disk.
    pub closed spec fn reloading(&self) -> bool {
        self.source is Watched
    }

    /// The bundle that stays, where instances do not follow the disk.
    pub closed spec fn fixed_bundle(&self) -> Option<B> {
        match self.source {
            BundleSource::Fixed(bundle) => Some(bundle),
            BundleSource::Watched(_) => None,
        }
    }

    /// A factory whose instances follow the bundle that `watcher` watches.
    pub fn new(watcher: WatcherMaster<B, N>, raw: Vec<RawPluginDescriptor>) -> (factory: Self)
        ensures
            factory.reloading(),
            describes_all(raw@, factory.descriptors()),
    {
        HotReloaderPluginFactory {
            source: BundleSource::Watched(watcher),
            descriptors: clone_plugin_descriptors(raw),
        }
    }

    /// A factory whose instances are all made from `plugin_bundle`.
    pub fn new_non_reloading(plugin_bundle: B, raw: Vec<RawPluginDescriptor>) -> (factory: Self)
        ensures
            !factory.reloading(),
            factory.fixed_bundle() == Some(plugin_bundle),
            describes_all(raw@, factory.descriptors()),
    {
        HotReloaderPluginFactory {
            source: BundleSource::Fixed(plugin_bundle),
            descriptors: clone_plugin_descriptors(raw),
        }
    }

    /// Number of plugins on offer, as the host is told it.
    pub fn plugin_count(&self) -> (count: u32)
        ensures
            count == if self.descriptors().len() <= u32::MAX {
                self.descriptors().len()
            } else {
                u32::MAX as nat
            },
    {
        if self.descriptors.len() <= u32::MAX as usize {
            self.descriptors.len() as u32
        } else {
            u32::MAX
        }
    }

    /// The description of the plugin at `index`, if there is one.
    pub fn plugin_descriptor(&self, index: u32) -> (descriptor: Option<&PluginDescriptor>)
        ensures
            match descriptor {
                Some(found) => index < self.descriptors().len() && *found
                    == self.descriptors()[index as int],
                None => index >= self.descriptors().len(),
            },
    {
        if (index as usize) < self.descriptors.len() {
            Some(&self.descriptors[index as usize])
        } else {
            None
        }
    }

    /// Position of the plugin with this id among those on offer.
    pub fn find_plugin(&self, plugin_id: &String) -> (found: Option<usize>)
        ensures
            match found {
                Some(index) => described_at(self.descriptors(), plugin_id@) == Some(index as int)
                    && index < self.descriptors().len(),
                None => described_at(self.descriptors(), plugin_id@) is None,
            },
    {
        let mut index: usize = 0;
        proof {
            assert(self.descriptors@.skip(0) == self.descriptors@);
        }
        while index < self.descriptors.len()
            invariant
                index <= self.descriptors@.len(),
                described_at(self.descriptors@, plugin_id@) == match described_at(
                    self.descriptors@.skip(index as int),
                    plugin_id@,
                ) {
                    Some(offset) => Some(offset + index),
                    None => None,
                },
            decreases self.descriptors@.len() - index,
        {
            let ghost tail = self.descriptors@.skip(index as int);
            proof {
                assert(tail[0] == self.descriptors@[index as int]);
                assert(tail.drop_first() == self.descriptors@.skip(index + 1));
            }
            if self.descriptors[index].id == *plugin_id {
                return Some(index);
            }
            index = index + 1;
        }
        proof {
            assert(self.descriptors@.skip(index as int).len() == 0);
        }
        None
    }

    /// What a new instance of the plugin with this id is made from: the
    /// position of its description, and the source of its bundle. A factory
    /// that follows the disk gives the instance a receiver of its own; the
    /// other gives its one bundle. There is nothing for an id that is not on
    /// offer.
    pub fn create_plugin(&self, plugin_id: &String) -> (made: Option<(usize, InstanceSource<'_, B>)>)
        ensures
            match made {
                Some((index, source)) => described_at(self.descriptors(), plugin_id@) == Some(
                    index as int,
                ) && (source is Reloading) == self.reloading() && (!self.reloading()
                    ==> self.fixed_bundle() == Some(source.current())),
                None => described_at(self.descriptors(), plugin_id@) is None,
            },
    {
        let index = match self.find_plugin(plugin_id) {
            Some(index) => index,
            None => {
                return None;
            },
        };
        let source = match &self.source {
            BundleSource::Watched(watcher) => InstanceSource::Reloading(watcher.new_receiver()),
            BundleSource::Fixed(bundle) => InstanceSource::Static(bundle),
        };
        Some((index, source))
    }
}

/// The entry of the wrapper.
#[verifier::reject_recursive_types(B)]
pub struct HotReloaderEntry<B, N> {
    plugin_factory: Option<HotReloaderPluginFactory<B, N>>,
}

impl<B: Clone, N> HotReloaderEntry<B, N> {
    /// The factory of the entry, if the bundle offers plugins at all.
    pub closed spec fn factory(&self) -> Option<HotReloaderPluginFactory<B, N>> {
        self.plugin_factory
    }

    /// Sets up the entry for `initial_bundle`. `raw` holds the descriptions of
    /// the bundle's plugins, or is `None` where the bundle has no plugin
    /// factory: then the entry has none either. `watcher` is the watcher on
    /// the bundle's file, or `None` where nothing could be watched: then every
    /// instance is made from `initial_bundle`.
    pub fn new(
        initial_bundle: B,
        raw: Option<Vec<RawPluginDescriptor>>,
        watcher: Option<WatcherMaster<B, N>>,
    ) -> (entry: Self)
        ensures
            match raw {
                None => entry.factory() is None,
                Some(list) => entry.factory() matches Some(factory) && describes_all(
                    list@,
                    factory.descriptors(),
                ) && factory.reloading() == (watcher is Some) && (watcher is None
                    ==> factory.fixed_bundle() == Some(initial_bundle)),
            },
    {
        let list = match raw {
            Some(list) => list,
            None => {
                return HotReloaderEntry { plugin_factory: None };
            },
        };
        let factory = match watcher {
            None => HotReloaderPluginFactory::new_non_reloading(initial_bundle, list),
            Some(watching) => HotReloaderPluginFactory::new(watching, list),
        };
        HotReloaderEntry { plugin_factory: Some(factory) }
    }

    /// The factory to declare to the host, if there is one.
    pub fn declare_factories(&self) -> (factory: Option<&HotReloaderPluginFactory<B, N>>)
        ensures
            match factory {
                Some(declared) => self.factory() == Some(*declared),
                None => self.factory() is None,
            },
    {
        self.plugin_factory.as_ref()
    }
}

/// Checks the path of the bundle, which the host gives as bytes: it has to be
/// valid text to be watched.
pub fn check_bundle_path(bundle_path: Option<String>) -> (checked: Result<String, EntryLoadError>)
    ensures
        match bundle_path {
            Some(path) => checked == Ok::<String, EntryLoadError>(path),
            None => checked == Err::<String, EntryLoadError>(EntryLoadError::InvalidBundlePath),
        },
{
    match bundle_path {
        Some(path) => Ok(path),
        None => Err(EntryLoadError::InvalidBundlePath),
    }
}

} // verus!
