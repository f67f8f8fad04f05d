//! The chain of paths behind a bundle path: the path itself and, where it is a
//! symbolic link, what it points to, and so on down to the file.
//!
//! Every path of the chain is watched, and so is the directory of each, so
//! that replacing the file, deleting and recreating it, and repointing a link
//! anywhere in the chain are all seen.

use vstd::prelude::*;

verus! {

/// Longest run of links that is followed. A chain that is longer, as a cycle
/// of links is, ends at the path where the limit is reached.
pub const MAX_SYMLINK_DEPTH: usize = 40;

/// What the file system says a path is.
#[derive(Clone, Copy, Debug, PartialEq, Eq, Structural)]
pub enum LinkMetadata {
    /// The metadata could be read and the path is no symbolic link.
    NotSymlink,
    /// The metadata could be read and the path is a symbolic link.
    Symlink,
    /// The metadata could not be read.
    Unreadable,
}

/// What was found out about one path of the chain.
#[derive(Debug, PartialEq, Eq)]
pub struct LinkProbe {
    pub metadata: LinkMetadata,
    /// Where the path points to, if it could be read as a link.
    pub target: Option<String>,
    /// The directory that holds the path, if it has one.
    pub parent: Option<String>,
}

/// One path of the chain.
#[derive(Debug, PartialEq, Eq)]
pub struct PathNode {
    pub path: String,
    pub parent: Option<String>,
    pub is_symlink: bool,
    pub is_watched: bool,
    pub is_parent_watched: bool,
}

/// Whether a probed path counts as a symbolic link: its metadata says so, or
/// the metadata could not be read and the path could still be read as a link.
pub open spec fn probed_symlink(probe: LinkProbe) -> bool {
    match probe.metadata {
        LinkMetadata::NotSymlink => false,
        LinkMetadata::Symlink => true,
        LinkMetadata::Unreadable => probe.target is Some,
    }
}

/// The path that follows a probed path in the chain, if any. A link whose
/// target cannot be read ends the chain.
pub open spec fn probed_target(probe: LinkProbe) -> Option<String> {
    match probe.metadata {
        LinkMetadata::NotSymlink => None,
        _ => probe.target,
    }
}

impl LinkMetadata {
    /// Whether the path is to be read as a link at all: it is unless its
    /// metadata says that it is none.
    pub fn wants_target(&self) -> (wanted: bool)
        ensures
            wanted == !(*self is NotSymlink),
    {
        match self {
            LinkMetadata::NotSymlink => false,
            _ => true,
        }
    }
}

impl LinkProbe {
    /// Whether the probed path counts as a symbolic link.
    pub fn is_symlink(&self) -> (linked: bool)
        ensures
            linked == probed_symlink(*self),
    {
        match self.metadata {
            LinkMetadata::NotSymlink => false,
            LinkMetadata::Symlink => true,
            LinkMetadata::Unreadable => self.target.is_some(),
        }
    }

    /// The path to probe next, if the chain goes on.
    pub fn next_path(&self) -> (next: Option<&String>)
        ensures
            match next {
                Some(target) => probed_target(*self) == Some(*target),
                None => probed_target(*self) is None,
            },
    {
        match self.metadata {
            LinkMetadata::NotSymlink => None,
            _ => self.target.as_ref(),
        }
    }
}

/// The node of a path that was not probed, or whose probing is not known: a
/// plain leaf.
pub open spec fn unprobed_node(path: String) -> PathNode {
    PathNode { path, parent: None, is_symlink: false, is_watched: false, is_parent_watched: false }
}

/// The node of a probed path, not yet watched.
pub open spec fn probed_node(path: String, probe: LinkProbe) -> PathNode {
    PathNode {
        path,
        parent: probe.parent,
        is_symlink: probed_symlink(probe),
        is_watched: false,
        is_parent_watched: false,
    }
}

/// The chain that starts at `path`, where `probes` holds what was found out
/// about `path`, about its target, about the target's target and so on.
pub open spec fn resolved_chain(path: String, probes: Seq<LinkProbe>) -> Seq<PathNode>
    decreases probes.len(),
{
    if probes.len() == 0 {
        seq![unprobed_node(path)]
    } else {
        match probed_target(probes[0]) {
            Some(target) => seq![probed_node(path, probes[0])] + resolved_chain(
                target,
                probes.drop_first(),
            ),
            None => seq![probed_node(path, probes[0])],
        }
    }
}

/// The first `limit` of `probes`.
pub open spec fn within_depth(probes: Seq<LinkProbe>, limit: int) -> Seq<LinkProbe> {
    if probes.len() <= limit {
        probes
    } else {
        probes.take(limit)
    }
}

/// A chain has one node for its start and at most one for each probe.
pub proof fn lemma_resolved_chain_length(path: String, probes: Seq<LinkProbe>)
    ensures
        1 <= resolved_chain(path, probes).len() <= probes.len() + 1,
        resolved_chain(path, probes)[0].path == path,
    decreases probes.len(),
{
    if probes.len() > 0 {
        match probed_target(probes[0]) {
            Some(target) => {
                lemma_resolved_chain_length(target, probes.drop_first());
            },
            None => {},
        }
    }
}

/// The paths to watch for one node: the path, then its directory if any.
pub open spec fn node_targets(node: PathNode) -> Seq<String> {
    match node.parent {
        Some(parent) => seq![node.path, parent],
        None => seq![node.path],
    }
}

/// The paths to watch for a chain, node by node.
pub open spec fn chain_targets(chain: Seq<PathNode>) -> Seq<String>
    decreases chain.len(),
{
    if chain.len() == 0 {
        Seq::empty()
    } else {
        node_targets(chain[0]) + chain_targets(chain.drop_first())
    }
}

/// A node after the attempts to watch its targets; `watched` holds, target by
/// target, whether the attempt succeeded.
pub open spec fn watched_node(node: PathNode, watched: Seq<bool>) -> PathNode {
    PathNode {
        is_watched: watched[0],
        is_parent_watched: match node.parent {
            Some(_) => watched[1],
            None => node.is_parent_watched,
        },
        ..node
    }
}

/// A chain after the attempts to watch its targets.
pub open spec fn watched_chain(chain: Seq<PathNode>, watched: Seq<bool>) -> Seq<PathNode>
    decreases chain.len(),
{
    if chain.len() == 0 {
        Seq::empty()
    } else {
        seq![watched_node(chain[0], watched)] + watched_chain(
            chain.drop_first(),
            watched.skip(node_targets(chain[0]).len() as int),
        )
    }
}

/// Whether each attempt succeeded.
pub open spec fn successes<E>(outcomes: Seq<Result<(), E>>) -> Seq<bool> {
    Seq::new(outcomes.len(), |i: int| outcomes[i] is Ok)
}

/// Number of attempts that succeeded.
pub open spec fn success_total<E>(outcomes: Seq<Result<(), E>>) -> nat
    decreases outcomes.len(),
{
    if outcomes.len() == 0 {
        0
    } else {
        success_total(outcomes.drop_last()) + if outcomes.last() is Ok {
            1nat
        } else {
            0nat
        }
    }
}

/// The errors of the attempts that failed, in order.
pub open spec fn failures<E>(outcomes: Seq<Result<(), E>>) -> Seq<E>
    decreases outcomes.len(),
{
    if outcomes.len() == 0 {
        Seq::empty()
    } else {
        match outcomes.last() {
            Ok(_) => failures(outcomes.drop_last()),
            Err(error) => failures(outcomes.drop_last()).push(error),
        }
    }
}

/// Counts of the attempts to watch, with the errors of those that failed.
pub struct WatchResults<E> {
    success_count: usize,
    errors: Vec<E>,
}

impl<E> WatchResults<E> {
    /// Number of attempts that succeeded.
    pub closed spec fn success_count(&self) -> nat {
        self.success_count as nat
    }

    /// The errors of the attempts that failed, in order.
    pub closed spec fn errors(&self) -> Seq<E> {
        self.errors@
    }

    /// No attempt made yet.
    pub fn empty() -> (results: Self)
        ensures
            results.success_count() == 0,
            results.errors() == Seq::<E>::empty(),
    {
        WatchResults { success_count: 0, errors: Vec::new() }
    }

    /// Whether anything is being watched at all.
    pub fn has_any_success(&self) -> (any: bool)
        ensures
            any == (self.success_count() > 0),
    {
        self.success_count > 0
    }

    /// Number of attempts that succeeded.
    pub fn succeeded(&self) -> (count: usize)
        ensures
            count == self.success_count(),
    {
        self.success_count
    }

    /// The errors of the attempts that failed, in order.
    pub fn failed(&self) -> (errors: &Vec<E>)
        ensures
            errors@ == self.errors(),
    {
        &self.errors
    }

    /// Takes one attempt into the counts. Returns whether it had succeeded.
    pub fn record(&mut self, outcome: Result<(), E>) -> (watched: bool)
        requires
            old(self).success_count() < usize::MAX,
        ensures
            watched == (outcome is Ok),
            final(self).success_count() == old(self).success_count() + success_total(seq![outcome]),
            final(self).errors() == old(self).errors() + failures(seq![outcome]),
    {
        proof {
            let one = seq![outcome];
            assert(one.drop_last() == Seq::<Result<(), E>>::empty());
            assert(success_total(one.drop_last()) == 0);
            assert(failures(one.drop_last()) == Seq::<E>::empty());
            assert(one.last() == outcome);
        }
        match outcome {
            Ok(_) => {
                self.success_count = self.success_count + 1;
                true
            },
            Err(error) => {
                self.errors.push(error);
                false
            },
        }
    }
}

/// No more attempts succeeded than were made.
pub proof fn lemma_success_total_bound<E>(outcomes: Seq<Result<(), E>>)
    ensures
        success_total(outcomes) <= outcomes.len(),
    decreases outcomes.len(),
{
    if outcomes.len() > 0 {
        lemma_success_total_bound(outcomes.drop_last());
    }
}

/// The counts of a run of attempts are those of its first part and of the
/// rest together.
pub proof fn lemma_outcomes_split<E>(outcomes: Seq<Result<(), E>>, at: int)
    requires
        0 <= at <= outcomes.len(),
    ensures
        success_total(outcomes) == success_total(outcomes.take(at)) + success_total(
            outcomes.skip(at),
        ),
        failures(outcomes) == failures(outcomes.take(at)) + failures(outcomes.skip(at)),
    decreases outcomes.len(),
{
    if at == outcomes.len() {
        assert(outcomes.take(at) == outcomes);
        assert(outcomes.skip(at).len() == 0);
    } else {
        let shorter = outcomes.drop_last();
        lemma_outcomes_split(shorter, at);
        assert(shorter.take(at) == outcomes.take(at));
        assert(outcomes.skip(at).drop_last() == shorter.skip(at));
        assert(outcomes.skip(at).last() == outcomes.last());
    }
}

/// A bundle path with the chain of links behind it.
pub struct BundleSymlinkedPath {
    path: String,
    parent: Option<String>,
    is_symlink: bool,
    is_watched: bool,
    is_parent_watched: bool,
    symlink_target: Option<Box<BundleSymlinkedPath>>,
}

impl BundleSymlinkedPath {
    /// The first node of the chain.
    pub closed spec fn head(&self) -> PathNode {
        PathNode {
            path: self.path,
            parent: self.parent,
            is_symlink: self.is_symlink,
            is_watched: self.is_watched,
            is_parent_watched: self.is_parent_watched,
        }
    }

    /// The chain behind the first node, if the path is a link that could be
    /// followed.
    pub closed spec fn target(&self) -> Option<BundleSymlinkedPath> {
        match self.symlink_target {
            Some(target) => Some(*target),
            None => None,
        }
    }

    /// Number of links between the first node and the last.
    pub closed spec fn depth(&self) -> nat
        decreases self,
    {
        match self.symlink_target {
            Some(target) => target.depth() + 1,
            None => 0,
        }
    }

    /// The nodes of the chain, from the bundle path down to the file.
    pub open spec fn chain(&self) -> Seq<PathNode>
        decreases self.depth(),
    {
        match self.target() {
            Some(target) => if target.depth() < self.depth() {
                seq![self.head()] + target.chain()
            } else {
                seq![self.head()]
            },
            None => seq![self.head()],
        }
    }

    /// A chain is as long as its depth and one more, and each link leads one
    /// level down.
    pub proof fn lemma_chain_unfolds(&self)
        ensures
            self.chain().len() == self.depth() + 1,
            self.chain()[0] == self.head(),
            match self.target() {
                Some(target) => self.depth() == target.depth() + 1 && self.chain() == seq![
                    self.head(),
                ] + target.chain(),
                None => self.depth() == 0 && self.chain() == seq![self.head()],
            },
        decreases self.depth(),
    {
        match self.target() {
            Some(target) => {
                target.lemma_chain_unfolds();
            },
            None => {},
        }
    }

    /// The bundle path itself: the first path of the chain.
    pub fn path(&self) -> (path: &String)
        ensures
            *path == self.head().path,
            *path == self.chain()[0].path,
    {
        proof {
            self.lemma_chain_unfolds();
        }
        &self.path
    }

    /// The chain that starts at `path`. `probes` holds what was found out about
    /// `path`, about its target, about the target's target and so on; probes
    /// beyond the depth limit are left aside, and so are probes beyond the end
    /// of the chain.
    pub fn get_info(path: String, probes: &Vec<LinkProbe>) -> (info: Self)
        ensures
            info.chain() == resolved_chain(path, within_depth(probes@, MAX_SYMLINK_DEPTH as int)),
            info.chain().len() <= MAX_SYMLINK_DEPTH + 1,
    {
        let limit = if probes.len() <= MAX_SYMLINK_DEPTH {
            probes.len()
        } else {
            MAX_SYMLINK_DEPTH
        };
        proof {
            assert(probes@.take(limit as int) == within_depth(probes@, MAX_SYMLINK_DEPTH as int));
            assert(probes@.take(limit as int).skip(0) == probes@.take(limit as int));
            lemma_resolved_chain_length(path, probes@.take(limit as int));
        }
        Self::resolve_from(path, probes, 0, limit)
    }

    fn resolve_from(path: String, probes: &Vec<LinkProbe>, from: usize, limit: usize) -> (info: Self)
        requires
            from <= limit <= probes@.len(),
        ensures
            info.chain() == resolved_chain(path, probes@.take(limit as int).skip(from as int)),
        decreases limit - from,
    {
        let ghost rest = probes@.take(limit as int).skip(from as int);
        if from >= limit {
            let info = BundleSymlinkedPath {
                path,
                parent: None,
                is_symlink: false,
                is_watched: false,
                is_parent_watched: false,
                symlink_target: None,
            };
            proof {
                info.lemma_chain_unfolds();
                assert(rest.len() == 0);
            }
            return info;
        }
        let probe = &probes[from];
        proof {
            assert(rest[0] == probes@[from as int]);
            assert(rest.drop_first() == probes@.take(limit as int).skip(from + 1));
        }
        let is_symlink = match probe.metadata {
            LinkMetadata::NotSymlink => false,
            LinkMetadata::Symlink => true,
            LinkMetadata::Unreadable => probe.target.is_some(),
        };
        let symlink_target = match probe.metadata {
            LinkMetadata::NotSymlink => None,
            _ => match &probe.target {
                Some(target) => Some(
                    Box::new(Self::resolve_from(target.clone(), probes, from + 1, limit)),
                ),
                None => None,
            },
        };
        let info = BundleSymlinkedPath {
            path,
            parent: probe.parent.clone(),
            is_symlink,
            is_watched: false,
            is_parent_watched: false,
            symlink_target,
        };
        proof {
            info.lemma_chain_unfolds();
        }
        info
    }

    /// Whether the path counts as a symbolic link.
    pub fn is_symlink(&self) -> (linked: bool)
        ensures
            linked == self.head().is_symlink,
    {
        self.is_symlink
    }

    /// Whether the path itself is watched.
    pub fn is_watched(&self) -> (watched: bool)
        ensures
            watched == self.head().is_watched,
    {
        self.is_watched
    }

    /// Whether the directory that holds the path is watched.
    pub fn is_parent_watched(&self) -> (watched: bool)
        ensures
            watched == self.head().is_parent_watched,
    {
        self.is_parent_watched
    }

    /// A copy of the whole chain.
    pub fn duplicate(&self) -> (copy: Self)
        ensures
            copy.chain() == self.chain(),
            copy.depth() == self.depth(),
        decreases self.depth(),
    {
        proof {
            self.lemma_chain_unfolds();
        }
        let symlink_target = match &self.symlink_target {
            Some(target) => {
                proof {
                    target.lemma_chain_unfolds();
                }
                Some(Box::new(target.duplicate()))
            },
            None => None,
        };
        let parent = match &self.parent {
            Some(directory) => Some(directory.clone()),
            None => None,
        };
        let copy = BundleSymlinkedPath {
            path: self.path.clone(),
            parent,
            is_symlink: self.is_symlink,
            is_watched: self.is_watched,
            is_parent_watched: self.is_parent_watched,
            symlink_target,
        };
        proof {
            copy.lemma_chain_unfolds();
        }
        copy
    }

    /// An iterator over the chain, from the bundle path down to the file.
    pub fn iter(&self) -> (iter: BundleSymlinkedPathIter<'_>)
        ensures
            iter.remaining() == self.chain(),
    {
        BundleSymlinkedPathIter { current: Some(self) }
    }

    /// The last path of the chain: the file that the bundle path comes to.
    pub fn final_path(&self) -> (path: &String)
        ensures
            *path == self.chain().last().path,
        decreases self.depth(),
    {
        proof {
            self.lemma_chain_unfolds();
        }
        match &self.symlink_target {
            Some(target) => {
                proof {
                    target.lemma_chain_unfolds();
                }
                target.final_path()
            },
            None => &self.path,
        }
    }

    /// Whether `candidate` is one of the paths of the chain.
    pub fn contains_path(&self, candidate: &String) -> (found: bool)
        ensures
            found == exists|i: int|
                0 <= i < self.chain().len() && (#[trigger] self.chain()[i]).path@ == candidate@,
        decreases self.depth(),
    {
        proof {
            self.lemma_chain_unfolds();
        }
        if self.path == *candidate {
            assert(self.chain()[0].path@ == candidate@);
            return true;
        }
        match &self.symlink_target {
            Some(target) => {
                let found = target.contains_path(candidate);
                proof {
                    let chain = self.chain();
                    let rest = target.chain();
                    if found {
                        let i = choose|i: int|
                            0 <= i < rest.len() && (#[trigger] rest[i]).path@ == candidate@;
                        assert(chain[i + 1] == rest[i]);
                    } else {
                        assert forall|i: int| 0 <= i < chain.len() implies (
                        #[trigger] chain[i]).path@ != candidate@ by {
                            if i > 0 {
                                assert(chain[i] == rest[i - 1]);
                            }
                        }
                    }
                }
                found
            },
            None => false,
        }
    }

    /// The paths to watch, in the order in which they are to be tried: node by
    /// node, the path and then the directory that holds it.
    pub fn watch_targets(&self) -> (targets: Vec<String>)
        ensures
            targets@ == chain_targets(self.chain()),
        decreases self.depth(),
    {
        proof {
            self.lemma_chain_unfolds();
        }
        let mut targets: Vec<String> = Vec::new();
        targets.push(self.path.clone());
        match &self.parent {
            Some(parent) => {
                targets.push(parent.clone());
            },
            None => {},
        }
        assert(targets@ == node_targets(self.head()));
        match &self.symlink_target {
            Some(target) => {
                let mut rest = target.watch_targets();
                targets.append(&mut rest);
                proof {
                    assert(self.chain().drop_first() == target.chain());
                }
            },
            None => {
                proof {
                    assert(self.chain().drop_first().len() == 0);
                    assert(chain_targets(self.chain().drop_first()) == Seq::<String>::empty());
                }
            },
        }
        targets
    }

    /// Takes over the outcome of the attempts to watch the first node and its
    /// directory, from the front of `outcomes`.
    fn watch_head<E>(&mut self, outcomes: &mut Vec<Result<(), E>>, results: &mut WatchResults<E>)
        requires
            old(outcomes)@.len() >= node_targets(old(self).head()).len(),
            old(results).success_count() + old(outcomes)@.len() <= usize::MAX,
        ensures
            final(self).head() == watched_node(old(self).head(), successes(old(outcomes)@)),
            final(self).target() == old(self).target(),
            final(self).depth() == old(self).depth(),
            final(outcomes)@ == old(outcomes)@.skip(node_targets(old(self).head()).len() as int),
            final(results).success_count() == old(results).success_count() + success_total(
                old(outcomes)@.take(node_targets(old(self).head()).len() as int),
            ),
            final(results).errors() == old(results).errors() + failures(
                old(outcomes)@.take(node_targets(old(self).head()).len() as int),
            ),
    {
        let ghost given = outcomes@;
        let ghost counted = *results;
        let first = outcomes.remove(0);
        proof {
            lemma_success_total_bound(seq![first]);
        }
        self.is_watched = results.record(first);
        match &self.parent {
            Some(_) => {
                let second = outcomes.remove(0);
                self.is_parent_watched = results.record(second);
                proof {
                    let both = given.take(2);
                    lemma_outcomes_split(both, 1);
                    assert(both.take(1) == seq![first]);
                    assert(both.skip(1) == seq![second]);
                    assert(outcomes@ == given.skip(2));
                }
            },
            None => {
                proof {
                    assert(given.take(1) == seq![first]);
                    assert(outcomes@ == given.skip(1));
                }
            },
        }
    }

    /// Takes over the outcome of the attempts to watch the targets of the
    /// chain, in the order of `watch_targets`, from the front of `outcomes`:
    /// each node learns whether it and its directory are watched, and
    /// `results` counts the successes and keeps the errors. A failure stops
    /// nothing.
    pub fn watch_all<E>(&mut self, outcomes: &mut Vec<Result<(), E>>, results: &mut WatchResults<E>)
        requires
            old(outcomes)@.len() >= chain_targets(old(self).chain()).len(),
            old(results).success_count() + old(outcomes)@.len() <= usize::MAX,
        ensures
            final(self).chain() == watched_chain(old(self).chain(), successes(old(outcomes)@)),
            final(self).depth() == old(self).depth(),
            final(outcomes)@ == old(outcomes)@.skip(chain_targets(old(self).chain()).len() as int),
            final(results).success_count() == old(results).success_count() + success_total(
                old(outcomes)@.take(chain_targets(old(self).chain()).len() as int),
            ),
            final(results).errors() == old(results).errors() + failures(
                old(outcomes)@.take(chain_targets(old(self).chain()).len() as int),
            ),
        decreases old(self).depth(),
    {
        let ghost before = *self;
        let ghost given = outcomes@;
        let ghost taken = node_targets(before.head()).len() as int;
        proof {
            before.lemma_chain_unfolds();
        }
        self.watch_head(outcomes, results);
        proof {
            lemma_success_total_bound(given.take(taken));
        }
        match &mut self.symlink_target {
            Some(target) => {
                let ghost target_before = **target;
                let ghost inner = chain_targets(target_before.chain()).len() as int;
                proof {
                    assert(before.chain().drop_first() == target_before.chain());
                }
                target.watch_all(outcomes, results);
                proof {
                    assert(given.skip(taken).skip(inner) == given.skip(taken + inner));
                    lemma_outcomes_split(given.take(taken + inner), taken);
                    assert(given.take(taken + inner).take(taken) == given.take(taken));
                    assert(given.take(taken + inner).skip(taken) == given.skip(taken).take(inner));
                    assert(successes(given).skip(taken) == successes(given.skip(taken)));
                }
            },
            None => {
                proof {
                    assert(before.chain().drop_first().len() == 0);
                    assert(chain_targets(before.chain().drop_first()).len() == 0);
                    assert(watched_chain(before.chain().drop_first(), successes(given).skip(taken))
                        == Seq::<PathNode>::empty());
                }
            },
        }
        proof {
            self.lemma_chain_unfolds();
        }
    }
}

/// A walk along the chain of a bundle path.
pub struct BundleSymlinkedPathIter<'a> {
    current: Option<&'a BundleSymlinkedPath>,
}

impl<'a> BundleSymlinkedPathIter<'a> {
    /// The nodes that are still to come.
    pub closed spec fn remaining(&self) -> Seq<PathNode> {
        match self.current {
            Some(current) => current.chain(),
            None => Seq::empty(),
        }
    }

    /// The next part of the chain: the chain from the next node on.
    pub fn next(&mut self) -> (item: Option<&'a BundleSymlinkedPath>)
        ensures
            match item {
                Some(rest) => old(self).remaining().len() > 0 && rest.chain() == old(self).remaining() && final(self).remaining() == old(self).remaining().drop_first(),
                None => old(self).remaining().len() == 0 && final(self).remaining().len() == 0,
            },
    {
        match self.current {
            Some(current) => {
                proof {
                    current.lemma_chain_unfolds();
                }
                self.current = match &current.symlink_target {
                    Some(target) => Some(&**target),
                    None => None,
                };
                proof {
                    assert(self.remaining() == current.chain().drop_first());
                }
                Some(current)
            },
            None => None,
        }
    }
}

} // verus!
