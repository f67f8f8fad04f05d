//! The wrapper's copy of the plugin's parameter descriptions, and what the
//! host has to rescan when a new instance describes them differently.

use crate::bytes::{bytes_equal, copy_bytes};
use vstd::prelude::*;

verus! {

/// Bit of a rescan set: the parameter values changed.
pub const RESCAN_VALUES: u32 = 1;

/// Bit of a rescan set: the conversion of values to text changed.
pub const RESCAN_TEXT: u32 = 2;

/// Bit of a rescan set: name, module or a display flag of a parameter changed.
pub const RESCAN_INFO: u32 = 4;

/// Bit of a rescan set: everything the host knows of the parameters is void.
pub const RESCAN_ALL: u32 = 8;

/// The parameter flags whose change calls for an info rescan: periodic and
/// hidden.
pub const FLAGS_REQUIRING_INFO_RESCAN: u32 = 0x6;

/// The parameter flags whose change voids everything: stepped, read-only,
/// bypass, and every kind of automation and modulation.
pub const FLAGS_REQUIRING_FULL_RESCAN: u32 = 0x7ff9;

/// What the host has to rescan of the parameters.
#[derive(Clone, Copy, Debug, PartialEq, Eq, Structural)]
pub struct ParamRescanFlags {
    pub values: bool,
    pub text: bool,
    pub info: bool,
    pub all: bool,
}

/// Nothing to rescan.
pub open spec fn no_rescan() -> ParamRescanFlags {
    ParamRescanFlags { values: false, text: false, info: false, all: false }
}

/// Everything is void.
pub open spec fn full_rescan() -> ParamRescanFlags {
    ParamRescanFlags { values: false, text: false, info: false, all: true }
}

/// What either of two sets asks for.
pub open spec fn either(first: ParamRescanFlags, second: ParamRescanFlags) -> ParamRescanFlags {
    ParamRescanFlags {
        values: first.values || second.values,
        text: first.text || second.text,
        info: first.info || second.info,
        all: first.all || second.all,
    }
}

/// The bit set that stands for `flags` at the plugin interface.
pub open spec fn rescan_bits(flags: ParamRescanFlags) -> u32 {
    ((if flags.values {
        RESCAN_VALUES as int
    } else {
        0
    }) + (if flags.text {
        RESCAN_TEXT as int
    } else {
        0
    }) + (if flags.info {
        RESCAN_INFO as int
    } else {
        0
    }) + (if flags.all {
        RESCAN_ALL as int
    } else {
        0
    })) as u32
}

/// `clack_extensions::params::ParamRescanFlags::requires_restart`, applied to
/// the flags with these bits: whether the bit for "everything is void" is set.
#[verifier::external_body]
fn bits_require_restart(bits: u32) -> (restart: bool)
    ensures
        restart == (bits & RESCAN_ALL == RESCAN_ALL),
{
    clack_extensions::params::ParamRescanFlags::from_bits_truncate(bits).requires_restart()
}

impl ParamRescanFlags {
    /// Nothing to rescan.
    pub fn empty() -> (flags: Self)
        ensures
            flags == no_rescan(),
    {
        ParamRescanFlags { values: false, text: false, info: false, all: false }
    }

    /// Everything is void.
    pub fn all() -> (flags: Self)
        ensures
            flags == full_rescan(),
    {
        ParamRescanFlags { values: false, text: false, info: false, all: true }
    }

    /// Whether there is nothing to rescan.
    pub fn is_empty(&self) -> (none: bool)
        ensures
            none == (*self == no_rescan()),
    {
        !self.values && !self.text && !self.info && !self.all
    }

    /// What either of the two sets asks for.
    pub fn union(self, other: ParamRescanFlags) -> (both: Self)
        ensures
            both == either(self, other),
    {
        ParamRescanFlags {
            values: self.values || other.values,
            text: self.text || other.text,
            info: self.info || other.info,
            all: self.all || other.all,
        }
    }

    /// The bit set that stands for these flags at the plugin interface.
    pub fn bits(&self) -> (bits: u32)
        ensures
            bits == rescan_bits(*self),
            bits < 16,
    {
        let mut bits: u32 = 0;
        if self.values {
            bits = bits + RESCAN_VALUES;
        }
        if self.text {
            bits = bits + RESCAN_TEXT;
        }
        if self.info {
            bits = bits + RESCAN_INFO;
        }
        if self.all {
            bits = bits + RESCAN_ALL;
        }
        bits
    }

    /// Whether the plugin has to be restarted before the host can rescan:
    /// that is so exactly when everything is void.
    pub fn requires_restart(&self) -> (restart: bool)
        ensures
            restart == self.all,
    {
        let bits = self.bits();
        assert(bits < 16 ==> ((bits & 8 == 8) <==> bits >= 8)) by (bit_vector);
        bits_require_restart(bits)
    }
}

/// Whether a bit pattern stands for a floating-point value that is no number.
pub open spec fn is_nan(bits: u64) -> bool {
    bits & 0x7fff_ffff_ffff_ffff > 0x7ff0_0000_0000_0000
}

/// Whether a bit pattern stands for zero, of either sign.
pub open spec fn is_zero(bits: u64) -> bool {
    bits & 0x7fff_ffff_ffff_ffff == 0
}

/// Whether the floating-point values with these bit patterns compare as
/// different: what is no number differs from everything, the two zeros are
/// the same, and otherwise the bits decide.
pub open spec fn values_differ(first: u64, second: u64) -> bool {
    is_nan(first) || is_nan(second) || (first != second && !(is_zero(first) && is_zero(second)))
}

/// Whether the floating-point values with these bit patterns compare as
/// different.
pub fn float_differs(first: u64, second: u64) -> (differ: bool)
    ensures
        differ == values_differ(first, second),
{
    let first_magnitude = first & 0x7fff_ffff_ffff_ffff;
    let second_magnitude = second & 0x7fff_ffff_ffff_ffff;
    first_magnitude > 0x7ff0_0000_0000_0000 || second_magnitude > 0x7ff0_0000_0000_0000 || (first
        != second && !(first_magnitude == 0 && second_magnitude == 0))
}

/// What a plugin says of one parameter. Range and default are kept as the
/// bit patterns of their floating-point values, the cookie as its address.
pub struct ParamInfoView {
    pub id: u32,
    pub flags: u32,
    pub cookie: usize,
    pub name: Seq<u8>,
    pub module: Seq<u8>,
    pub min_value_bits: u64,
    pub max_value_bits: u64,
    pub default_value_bits: u64,
}

/// What a plugin says of one parameter.
#[derive(Debug, PartialEq, Eq)]
pub struct ParamInfo {
    pub id: u32,
    pub flags: u32,
    pub cookie: usize,
    pub name: Vec<u8>,
    pub module: Vec<u8>,
    pub min_value_bits: u64,
    pub max_value_bits: u64,
    pub default_value_bits: u64,
}

impl View for ParamInfo {
    type V = ParamInfoView;

    open spec fn view(&self) -> ParamInfoView {
        ParamInfoView {
            id: self.id,
            flags: self.flags,
            cookie: self.cookie,
            name: self.name@,
            module: self.module@,
            min_value_bits: self.min_value_bits,
            max_value_bits: self.max_value_bits,
            default_value_bits: self.default_value_bits,
        }
    }
}

/// Whether the host has to rescan the info of a parameter: name, module or a
/// display flag differ.
pub open spec fn info_differs(known: ParamInfoView, told: ParamInfoView) -> bool {
    known.name != told.name || known.module != told.module || known.flags
        & FLAGS_REQUIRING_INFO_RESCAN != told.flags & FLAGS_REQUIRING_INFO_RESCAN
}

/// Whether a difference voids everything: the range, the cookie or a flag of
/// substance differ.
pub open spec fn substance_differs(known: ParamInfoView, told: ParamInfoView) -> bool {
    values_differ(known.min_value_bits, told.min_value_bits) || values_differ(
        known.max_value_bits,
        told.max_value_bits,
    ) || known.cookie != told.cookie || known.flags & FLAGS_REQUIRING_FULL_RESCAN != told.flags
        & FLAGS_REQUIRING_FULL_RESCAN
}

/// What the host has to rescan when a parameter known as `known` is now told
/// as `told`. The default value plays no part.
pub open spec fn rescan_diff(known: ParamInfoView, told: ParamInfoView) -> ParamRescanFlags {
    ParamRescanFlags {
        values: false,
        text: false,
        info: info_differs(known, told),
        all: substance_differs(known, told),
    }
}

/// The cached description after the plugin told the parameter anew. The
/// default value is always taken over; the rest only where a rescan is due.
pub open spec fn refreshed(known: ParamInfoView, told: ParamInfoView) -> ParamInfoView {
    if rescan_diff(known, told) == no_rescan() {
        ParamInfoView { default_value_bits: told.default_value_bits, ..known }
    } else {
        ParamInfoView { id: known.id, ..told }
    }
}

impl ParamInfo {
    /// What the host has to rescan when this parameter is now told as `other`.
    pub fn diff_for_rescan(&self, other: &ParamInfo) -> (flags: ParamRescanFlags)
        ensures
            flags == rescan_diff(self@, other@),
    {
        let info = !bytes_equal(&self.name, &other.name) || !bytes_equal(
            &self.module,
            &other.module,
        ) || (self.flags & FLAGS_REQUIRING_INFO_RESCAN) != (other.flags
            & FLAGS_REQUIRING_INFO_RESCAN);
        let all = float_differs(self.min_value_bits, other.min_value_bits) || float_differs(
            self.max_value_bits,
            other.max_value_bits,
        ) || self.cookie != other.cookie || (self.flags & FLAGS_REQUIRING_FULL_RESCAN) != (
        other.flags & FLAGS_REQUIRING_FULL_RESCAN);
        ParamRescanFlags { values: false, text: false, info, all }
    }
}

/// The wrapper's copy of one parameter description.
pub struct CachedParamInfo {
    id: u32,
    flags: u32,
    min_value_bits: u64,
    max_value_bits: u64,
    default_value_bits: u64,
    name: Vec<u8>,
    module: Vec<u8>,
    cookie: usize,
}

impl View for CachedParamInfo {
    type V = ParamInfoView;

    closed spec fn view(&self) -> ParamInfoView {
        ParamInfoView {
            id: self.id,
            flags: self.flags,
            cookie: self.cookie,
            name: self.name@,
            module: self.module@,
            min_value_bits: self.min_value_bits,
            max_value_bits: self.max_value_bits,
            default_value_bits: self.default_value_bits,
        }
    }
}

impl CachedParamInfo {
    /// A copy of what the plugin said.
    pub fn from_info(info: &ParamInfo) -> (cached: Self)
        ensures
            cached@ == info@,
    {
        CachedParamInfo {
            id: info.id,
            flags: info.flags,
            min_value_bits: info.min_value_bits,
            max_value_bits: info.max_value_bits,
            default_value_bits: info.default_value_bits,
            cookie: info.cookie,
            module: copy_bytes(&info.module),
            name: copy_bytes(&info.name),
        }
    }

    /// The description in the form in which a plugin tells it.
    pub fn as_info(&self) -> (info: ParamInfo)
        ensures
            info@ == self@,
    {
        ParamInfo {
            id: self.id,
            flags: self.flags,
            min_value_bits: self.min_value_bits,
            max_value_bits: self.max_value_bits,
            default_value_bits: self.default_value_bits,
            cookie: self.cookie,
            module: copy_bytes(&self.module),
            name: copy_bytes(&self.name),
        }
    }

    /// The id under which the plugin knows the parameter.
    pub fn id(&self) -> (id: u32)
        ensures
            id == self@.id,
    {
        self.id
    }

    /// Takes over what the plugin now says of the parameter and returns what
    /// the host has to rescan for it.
    pub fn update(&mut self, info: &ParamInfo) -> (flags: ParamRescanFlags)
        ensures
            flags == rescan_diff(old(self)@, info@),
            final(self)@ == refreshed(old(self)@, info@),
    {
        let known = self.as_info();
        let coarse_diff = known.diff_for_rescan(info);
        self.default_value_bits = info.default_value_bits;
        if !coarse_diff.is_empty() {
            self.flags = info.flags;
            self.min_value_bits = info.min_value_bits;
            self.max_value_bits = info.max_value_bits;
            self.cookie = info.cookie;
            self.module = copy_bytes(&info.module);
            self.name = copy_bytes(&info.name);
        }
        coarse_diff
    }
}

/// The descriptions told by a list of parameters.
pub open spec fn told(infos: Seq<ParamInfo>) -> Seq<ParamInfoView> {
    Seq::new(infos.len(), |i: int| infos[i]@)
}

/// The descriptions held by a list of cached parameters.
pub open spec fn held(params: Seq<CachedParamInfo>) -> Seq<ParamInfoView> {
    Seq::new(params.len(), |i: int| params[i]@)
}

/// Position of the first description with this id.
pub open spec fn position_of(cache: Seq<ParamInfoView>, id: u32) -> Option<int>
    decreases cache.len(),
{
    if cache.len() == 0 {
        None
    } else if cache[0].id == id {
        Some(0)
    } else {
        match position_of(cache.drop_first(), id) {
            Some(index) => Some(index + 1),
            None => None,
        }
    }
}

/// Whether a description with this id is among `infos`.
pub open spec fn mentions(infos: Seq<ParamInfoView>, id: u32) -> bool {
    exists|i: int| 0 <= i < infos.len() && (#[trigger] infos[i]).id == id
}

/// The cache and the rescan due after the plugin told one parameter: one that
/// was not known is added and voids everything; one that was known is
/// refreshed and asks for what its differences ask for.
pub open spec fn after_info(cache: Seq<ParamInfoView>, info: ParamInfoView) -> (
    Seq<ParamInfoView>,
    ParamRescanFlags,
) {
    match position_of(cache, info.id) {
        Some(index) => (
            cache.update(index, refreshed(cache[index], info)),
            rescan_diff(cache[index], info),
        ),
        None => (cache.push(info), full_rescan()),
    }
}

/// The cache and the rescan due after the plugin told its parameters in order.
pub open spec fn after_infos(cache: Seq<ParamInfoView>, infos: Seq<ParamInfoView>) -> (
    Seq<ParamInfoView>,
    ParamRescanFlags,
)
    decreases infos.len(),
{
    if infos.len() == 0 {
        (cache, no_rescan())
    } else {
        let before = after_infos(cache, infos.drop_last());
        let step = after_info(before.0, infos.last());
        (step.0, either(before.1, step.1))
    }
}

/// The descriptions of `cache` whose id is among `infos`, in their order.
pub open spec fn still_told(cache: Seq<ParamInfoView>, infos: Seq<ParamInfoView>) -> Seq<
    ParamInfoView,
>
    decreases cache.len(),
{
    if cache.len() == 0 {
        cache
    } else if mentions(infos, cache.last().id) {
        still_told(cache.drop_last(), infos).push(cache.last())
    } else {
        still_told(cache.drop_last(), infos)
    }
}

/// Whether some description of `cache` has an id that is not among `infos`.
pub open spec fn any_untold(cache: Seq<ParamInfoView>, infos: Seq<ParamInfoView>) -> bool {
    exists|i: int| 0 <= i < cache.len() && !mentions(infos, (#[trigger] cache[i]).id)
}

/// The cache after the plugin told all its parameters: every parameter told
/// is added or refreshed, and what was not told is dropped.
pub open spec fn reconciled_cache(cache: Seq<ParamInfoView>, infos: Seq<ParamInfoView>) -> Seq<
    ParamInfoView,
> {
    still_told(after_infos(cache, infos).0, infos)
}

/// What the host has to rescan after the plugin told all its parameters: what
/// each parameter asks for, and everything where a parameter was dropped.
pub open spec fn reconciled_flags(
    cache: Seq<ParamInfoView>,
    infos: Seq<ParamInfoView>,
) -> ParamRescanFlags {
    let told_all = after_infos(cache, infos);
    if any_untold(told_all.0, infos) {
        either(told_all.1, full_rescan())
    } else {
        told_all.1
    }
}

/// What `position_of` finds has the id and is the first that has it; where it
/// finds none, no description has the id.
pub proof fn lemma_position_of(cache: Seq<ParamInfoView>, id: u32)
    ensures
        match position_of(cache, id) {
            Some(index) => 0 <= index < cache.len() && cache[index].id == id && forall|earlier: int|
                0 <= earlier < index ==> cache[earlier].id != id,
            None => forall|any: int| 0 <= any < cache.len() ==> cache[any].id != id,
        },
    decreases cache.len(),
{
    if cache.len() > 0 && cache[0].id != id {
        let rest = cache.drop_first();
        lemma_position_of(rest, id);
        match position_of(rest, id) {
            Some(index) => {
                assert forall|earlier: int| 0 <= earlier < index + 1 implies cache[earlier].id
                    != id by {
                    if earlier > 0 {
                        assert(cache[earlier] == rest[earlier - 1]);
                    }
                }
                assert(cache[index + 1] == rest[index]);
            },
            None => {
                assert forall|any: int| 0 <= any < cache.len() implies cache[any].id != id by {
                    if any > 0 {
                        assert(cache[any] == rest[any - 1]);
                    }
                }
            },
        }
    }
}

/// The wrapper's copy of the plugin's parameter descriptions.
pub struct ParamInfoCache {
    params: Vec<CachedParamInfo>,
}

impl View for ParamInfoCache {
    type V = Seq<ParamInfoView>;

    closed spec fn view(&self) -> Seq<ParamInfoView> {
        held(self.params@)
    }
}

impl ParamInfoCache {
    /// The cache for a fresh instance: what the plugin tells of its parameters,
    /// or nothing where it has no parameter extension.
    pub fn new(infos: Option<&Vec<ParamInfo>>) -> (cache: Self)
        ensures
            cache@ == match infos {
                Some(list) => reconciled_cache(Seq::empty(), told(list@)),
                None => Seq::empty(),
            },
            distinct_ids(cache@),
    {
        let mut cache = ParamInfoCache { params: Vec::new() };
        assert(cache@ == Seq::<ParamInfoView>::empty());
        let _ = cache.update(infos);
        cache
    }

    /// Number of parameters, as the host is told it.
    pub fn count(&self) -> (count: u32)
        ensures
            count == if self@.len() <= u32::MAX {
                self@.len()
            } else {
                u32::MAX as nat
            },
    {
        if self.params.len() <= u32::MAX as usize {
            self.params.len() as u32
        } else {
            u32::MAX
        }
    }

    /// The parameter at `param_index`, if there is one.
    pub fn get(&self, param_index: u32) -> (param: Option<&CachedParamInfo>)
        ensures
            match param {
                Some(cached) => param_index < self@.len() && cached@ == self@[param_index as int],
                None => param_index >= self@.len(),
            },
    {
        if (param_index as usize) < self.params.len() {
            Some(&self.params[param_index as usize])
        } else {
            None
        }
    }

    /// Position of the parameter with this id.
    fn find(&self, id: u32) -> (found: Option<usize>)
        ensures
            match found {
                Some(index) => position_of(self@, id) == Some(index as int),
                None => position_of(self@, id) is None,
            },
    {
        let ghost cache = self@;
        let mut index: usize = 0;
        proof {
            assert(cache.skip(0) == cache);
        }
        while index < self.params.len()
            invariant
                cache == self@,
                index <= self.params@.len(),
                position_of(cache, id) == match position_of(cache.skip(index as int), id) {
                    Some(offset) => Some(offset + index),
                    None => None,
                },
            decreases self.params@.len() - index,
        {
            let ghost tail = cache.skip(index as int);
            proof {
                assert(tail[0] == cache[index as int]);
                assert(tail.drop_first() == cache.skip(index + 1));
            }
            if self.params[index].id == id {
                return Some(index);
            }
            index = index + 1;
        }
        proof {
            assert(cache.skip(index as int).len() == 0);
        }
        None
    }

    /// Takes over what the plugin told of one parameter.
    fn apply(&mut self, info: &ParamInfo) -> (flags: ParamRescanFlags)
        ensures
            (final(self)@, flags) == after_info(old(self)@, info@),
    {
        proof {
            lemma_position_of(self@, info.id);
        }
        match self.find(info.id) {
            Some(index) => {
                let ghost before = self.params@;
                let mut param = self.params.remove(index);
                let flags = param.update(info);
                self.params.insert(index, param);
                proof {
                    assert(self.params@ == before.update(index as int, param));
                    assert(held(self.params@) == held(before).update(index as int, param@));
                }
                flags
            },
            None => {
                let ghost before = self.params@;
                self.params.push(CachedParamInfo::from_info(info));
                proof {
                    assert(held(self.params@) == held(before).push(info@));
                }
                ParamRescanFlags::all()
            },
        }
    }

    /// Drops the parameters that `infos` does not mention. Returns whether any
    /// was dropped.
    fn drop_untold(&mut self, infos: &Vec<ParamInfo>) -> (dropped: bool)
        ensures
            final(self)@ == still_told(old(self)@, told(infos@)),
            dropped == any_untold(old(self)@, told(infos@)),
    {
        let ghost before = self.params@;
        let ghost total = before.len();
        let ghost mut seen: int = 0;
        let mut kept: usize = 0;
        let mut dropped = false;
        while kept < self.params.len()
            invariant
                kept <= seen <= total,
                total == before.len(),
                self.params@.len() == kept + (total - seen),
                held(self.params@.take(kept as int)) == still_told(
                    held(before.take(seen)),
                    told(infos@),
                ),
                self.params@.skip(kept as int) == before.skip(seen),
                dropped == any_untold(held(before.take(seen)), told(infos@)),
            decreases total - seen,
        {
            let ghost kept_so_far = self.params@;
            proof {
                assert(held(before.take(seen + 1)).drop_last() == held(before.take(seen)));
                assert(held(before.take(seen + 1)).last() == before[seen]@);
                assert(kept_so_far[kept as int] == kept_so_far.skip(kept as int)[0]);
                assert(kept_so_far.skip(kept + 1) == kept_so_far.skip(kept as int).skip(1));
                assert(before.skip(seen + 1) == before.skip(seen).skip(1));
                lemma_any_untold_grows(held(before.take(seen + 1)), told(infos@));
            }
            if Self::is_told(infos, self.params[kept].id) {
                proof {
                    assert(kept_so_far.take(kept + 1) == kept_so_far.take(kept as int).push(
                        before[seen],
                    ));
                    assert(held(kept_so_far.take(kept + 1)) == held(
                        kept_so_far.take(kept as int),
                    ).push(before[seen]@));
                }
                kept = kept + 1;
            } else {
                let _ = self.params.remove(kept);
                dropped = true;
                proof {
                    assert(self.params@.take(kept as int) == kept_so_far.take(kept as int));
                    assert(self.params@.skip(kept as int) == kept_so_far.skip(kept + 1));
                }
            }
            proof {
                seen = seen + 1;
            }
        }
        proof {
            assert(self.params@.take(kept as int) == self.params@);
            assert(before.take(seen) == before);
        }
        dropped
    }

    /// Whether a parameter with this id is among `infos`.
    fn is_told(infos: &Vec<ParamInfo>, id: u32) -> (mentioned: bool)
        ensures
            mentioned == mentions(told(infos@), id),
    {
        let mut index: usize = 0;
        while index < infos.len()
            invariant
                index <= infos@.len(),
                forall|i: int| 0 <= i < index ==> (#[trigger] told(infos@)[i]).id != id,
            decreases infos@.len() - index,
        {
            if infos[index].id == id {
                assert(told(infos@)[index as int].id == id);
                return true;
            }
            index = index + 1;
        }
        false
    }

    /// Reconciles the cache with what a new instance tells of its parameters,
    /// and returns what the host has to rescan. `infos` is `None` where the
    /// instance has no parameter extension: then nothing changes and nothing
    /// is to be rescanned.
    pub fn update(&mut self, infos: Option<&Vec<ParamInfo>>) -> (flags: ParamRescanFlags)
        ensures
            match infos {
                Some(list) => final(self)@ == reconciled_cache(old(self)@, told(list@)) && flags
                    == reconciled_flags(old(self)@, told(list@)),
                None => final(self)@ == old(self)@ && flags == no_rescan(),
            },
            distinct_ids(old(self)@) ==> distinct_ids(final(self)@),
    {
        proof {
            match infos {
                Some(list) => {
                    if distinct_ids(self@) {
                        lemma_reconciled_ids_stay_distinct(self@, told(list@));
                    }
                },
                None => {},
            }
        }
        let list = match infos {
            Some(list) => list,
            None => {
                return ParamRescanFlags::empty();
            },
        };
        let mut flags = ParamRescanFlags::empty();
        let mut index: usize = 0;
        proof {
            assert(told(list@).take(0).len() == 0);
        }
        while index < list.len()
            invariant
                index <= list@.len(),
                (self@, flags) == after_infos(old(self)@, told(list@).take(index as int)),
            decreases list@.len() - index,
        {
            proof {
                assert(told(list@).take(index + 1).drop_last() == told(list@).take(index as int));
                assert(told(list@).take(index + 1).last() == list@[index as int]@);
            }
            let step = self.apply(&list[index]);
            flags = flags.union(step);
            index = index + 1;
        }
        proof {
            assert(told(list@).take(index as int) == told(list@));
        }
        if self.drop_untold(list) {
            flags = flags.union(ParamRescanFlags::all());
        }
        flags
    }
}

/// A cache that has an untold parameter keeps having one when it grows.
pub proof fn lemma_any_untold_grows(cache: Seq<ParamInfoView>, infos: Seq<ParamInfoView>)
    requires
        cache.len() > 0,
    ensures
        any_untold(cache, infos) == (any_untold(cache.drop_last(), infos) || !mentions(
            infos,
            cache.last().id,
        )),
{
    let shorter = cache.drop_last();
    if any_untold(shorter, infos) {
        let i = choose|i: int| 0 <= i < shorter.len() && !mentions(infos, (#[trigger] shorter[i]).id);
        assert(cache[i] == shorter[i]);
    }
    if !mentions(infos, cache.last().id) {
        assert(cache[cache.len() - 1] == cache.last());
    }
    if any_untold(cache, infos) {
        let i = choose|i: int| 0 <= i < cache.len() && !mentions(infos, (#[trigger] cache[i]).id);
        if i < shorter.len() {
            assert(shorter[i] == cache[i]);
        }
    }
}

/// Whether a description with this id is in the cache.
pub open spec fn caches(cache: Seq<ParamInfoView>, id: u32) -> bool {
    exists|i: int| 0 <= i < cache.len() && (#[trigger] cache[i]).id == id
}

/// Telling one parameter keeps every cached id in its place, and adds at
/// most the id that was told.
pub proof fn lemma_after_info_ids(cache: Seq<ParamInfoView>, info: ParamInfoView)
    ensures
        after_info(cache, info).0.len() >= cache.len(),
        forall|i: int| 0 <= i < cache.len() ==> (#[trigger] after_info(cache, info).0[i]).id == cache[i].id,
        forall|i: int|
            cache.len() <= i < after_info(cache, info).0.len() ==> (#[trigger] after_info(
                cache,
                info,
            ).0[i]).id == info.id,
        caches(cache, info.id) ==> after_info(cache, info).0.len() == cache.len(),
        !caches(cache, info.id) ==> after_info(cache, info) == (cache.push(info), full_rescan()),
{
    lemma_position_of(cache, info.id);
}

/// Telling parameters keeps every cached id in its place, and what is added
/// was told.
pub proof fn lemma_after_infos_ids(cache: Seq<ParamInfoView>, infos: Seq<ParamInfoView>)
    ensures
        after_infos(cache, infos).0.len() >= cache.len(),
        forall|i: int|
            0 <= i < cache.len() ==> (#[trigger] after_infos(cache, infos).0[i]).id == cache[i].id,
        forall|i: int|
            cache.len() <= i < after_infos(cache, infos).0.len() ==> mentions(
                infos,
                (#[trigger] after_infos(cache, infos).0[i]).id,
            ),
    decreases infos.len(),
{
    if infos.len() > 0 {
        let earlier = infos.drop_last();
        let before = after_infos(cache, earlier).0;
        let after = after_infos(cache, infos).0;
        lemma_after_infos_ids(cache, earlier);
        lemma_after_info_ids(before, infos.last());
        assert forall|i: int| cache.len() <= i < after.len() implies mentions(
            infos,
            (#[trigger] after[i]).id,
        ) by {
            if i < before.len() {
                assert(after[i].id == before[i].id);
                let j = choose|j: int| 0 <= j < earlier.len() && (#[trigger] earlier[j]).id == before[i].id;
                assert(infos[j] == earlier[j]);
            } else {
                assert(infos[infos.len() - 1].id == after[i].id);
            }
        }
    }
}

/// Where only the name of a parameter changes, the host has to rescan the
/// parameter info and nothing else; in particular not everything is void.
pub proof fn lemma_rename_asks_for_info(known: ParamInfoView, renamed: ParamInfoView)
    requires
        renamed.name != known.name,
        renamed.id == known.id,
        renamed.flags == known.flags,
        renamed.cookie == known.cookie,
        renamed.module == known.module,
        renamed.min_value_bits == known.min_value_bits,
        renamed.max_value_bits == known.max_value_bits,
        !is_nan(known.min_value_bits),
        !is_nan(known.max_value_bits),
    ensures
        rescan_diff(known, renamed) == (ParamRescanFlags {
            values: false,
            text: false,
            info: true,
            all: false,
        }),
        refreshed(known, renamed) == renamed,
{
}

/// The same holds of the whole reconciliation of a cache of one parameter
/// that the new instance tells under another name.
pub proof fn lemma_rename_reconciles(known: ParamInfoView, renamed: ParamInfoView)
    requires
        renamed.name != known.name,
        renamed.id == known.id,
        renamed.flags == known.flags,
        renamed.cookie == known.cookie,
        renamed.module == known.module,
        renamed.min_value_bits == known.min_value_bits,
        renamed.max_value_bits == known.max_value_bits,
        !is_nan(known.min_value_bits),
        !is_nan(known.max_value_bits),
    ensures
        reconciled_flags(seq![known], seq![renamed]) == (ParamRescanFlags {
            values: false,
            text: false,
            info: true,
            all: false,
        }),
        reconciled_cache(seq![known], seq![renamed]) == seq![renamed],
{
    let cache = seq![known];
    let infos = seq![renamed];
    lemma_rename_asks_for_info(known, renamed);
    assert(infos.drop_last() == Seq::<ParamInfoView>::empty());
    assert(after_infos(cache, infos.drop_last()) == (cache, no_rescan()));
    assert(cache.drop_first().len() == 0);
    assert(position_of(cache, renamed.id) == Some(0int));
    let updated = cache.update(0, renamed);
    assert(updated == seq![renamed]);
    assert(after_infos(cache, infos).0 == updated);
    assert(infos[0].id == renamed.id);
    assert(mentions(infos, updated.last().id));
    assert(updated.drop_last() == Seq::<ParamInfoView>::empty());
    assert(still_told(updated.drop_last(), infos) == Seq::<ParamInfoView>::empty());
    assert(still_told(updated, infos) == Seq::<ParamInfoView>::empty().push(renamed));
    assert forall|i: int| 0 <= i < updated.len() implies mentions(infos, (#[trigger] updated[i]).id) by {
        assert(infos[0].id == updated[i].id);
    }
}

/// A parameter that the cache does not hold and the new instance tells voids
/// everything, and is in the cache afterwards.
pub proof fn lemma_added_param_voids_all(
    cache: Seq<ParamInfoView>,
    infos: Seq<ParamInfoView>,
    id: u32,
)
    requires
        !caches(cache, id),
        mentions(infos, id),
    ensures
        after_infos(cache, infos).1.all,
        reconciled_flags(cache, infos).all,
        caches(after_infos(cache, infos).0, id),
    decreases infos.len(),
{
    let earlier = infos.drop_last();
    let before = after_infos(cache, earlier);
    let j = choose|j: int| 0 <= j < infos.len() && (#[trigger] infos[j]).id == id;
    lemma_after_info_ids(before.0, infos.last());
    let after = after_infos(cache, infos).0;
    if j < earlier.len() {
        assert(earlier[j] == infos[j]);
        lemma_added_param_voids_all(cache, earlier, id);
        let at = choose|at: int| 0 <= at < before.0.len() && (#[trigger] before.0[at]).id == id;
        assert(after[at].id == id);
    } else {
        assert(infos.last().id == id);
        lemma_after_infos_ids(cache, earlier);
        if caches(before.0, id) {
            let at = choose|at: int| 0 <= at < before.0.len() && (#[trigger] before.0[at]).id == id;
            if at < cache.len() {
                assert(cache[at].id == id);
            } else {
                assert(mentions(earlier, before.0[at].id));
                let k = choose|k: int| 0 <= k < earlier.len() && (#[trigger] earlier[k]).id == id;
                assert(infos[k] == earlier[k]);
                lemma_added_param_voids_all(cache, earlier, id);
            }
            assert(after[at].id == id);
        } else {
            assert(after[after.len() - 1].id == id);
        }
    }
}

/// A parameter that the cache holds and the new instance does not tell voids
/// everything, and is in the cache no more.
pub proof fn lemma_removed_param_voids_all(
    cache: Seq<ParamInfoView>,
    infos: Seq<ParamInfoView>,
    id: u32,
)
    requires
        caches(cache, id),
        !mentions(infos, id),
    ensures
        reconciled_flags(cache, infos).all,
        !caches(reconciled_cache(cache, infos), id),
{
    lemma_after_infos_ids(cache, infos);
    let told_all = after_infos(cache, infos).0;
    let at = choose|at: int| 0 <= at < cache.len() && (#[trigger] cache[at]).id == id;
    assert(told_all[at].id == id);
    lemma_still_told(told_all, infos);
}

/// What is kept of a cache was in the cache and was told.
pub proof fn lemma_still_told(cache: Seq<ParamInfoView>, infos: Seq<ParamInfoView>)
    ensures
        still_told(cache, infos).len() <= cache.len(),
        forall|k: int|
            0 <= k < still_told(cache, infos).len() ==> mentions(
                infos,
                (#[trigger] still_told(cache, infos)[k]).id,
            ) && cache.contains(still_told(cache, infos)[k]),
        !any_untold(cache, infos) ==> still_told(cache, infos) == cache,
    decreases cache.len(),
{
    if cache.len() > 0 {
        let shorter = cache.drop_last();
        let kept = still_told(shorter, infos);
        let result = still_told(cache, infos);
        lemma_still_told(shorter, infos);
        lemma_any_untold_grows(cache, infos);
        assert forall|k: int| 0 <= k < result.len() implies mentions(infos, (#[trigger] result[k]).id)
            && cache.contains(result[k]) by {
            if k < kept.len() {
                assert(result[k] == kept[k]);
                let at = choose|at: int| 0 <= at < shorter.len() && shorter[at] == kept[k];
                assert(cache[at] == shorter[at]);
            } else {
                assert(result[k] == cache.last());
                assert(cache[cache.len() - 1] == cache.last());
            }
        }
        if !any_untold(cache, infos) {
            assert(result == kept.push(cache.last()));
            assert(shorter.push(cache.last()) == cache);
        }
    }
}

/// No two descriptions have the same id.
pub open spec fn distinct_ids(cache: Seq<ParamInfoView>) -> bool {
    forall|i: int, j: int| 0 <= i < j < cache.len() ==> (#[trigger] cache[i]).id != (#[trigger] cache[j]).id
}

/// Every parameter that was told is in the cache once all were told.
pub proof fn lemma_after_infos_holds_what_is_told(
    cache: Seq<ParamInfoView>,
    infos: Seq<ParamInfoView>,
)
    ensures
        forall|j: int| 0 <= j < infos.len() ==> caches(after_infos(cache, infos).0, (#[trigger] infos[j]).id),
    decreases infos.len(),
{
    if infos.len() > 0 {
        let earlier = infos.drop_last();
        let before = after_infos(cache, earlier).0;
        let after = after_infos(cache, infos).0;
        lemma_after_infos_holds_what_is_told(cache, earlier);
        lemma_after_info_ids(before, infos.last());
        lemma_position_of(before, infos.last().id);
        assert forall|j: int| 0 <= j < infos.len() implies caches(after, (#[trigger] infos[j]).id) by {
            if j < earlier.len() {
                assert(earlier[j] == infos[j]);
                let at = choose|at: int| 0 <= at < before.len() && (#[trigger] before[at]).id == earlier[j].id;
                assert(after[at].id == before[at].id);
            } else {
                match position_of(before, infos.last().id) {
                    Some(at) => {
                        assert(after[at].id == before[at].id);
                    },
                    None => {
                        assert(after[after.len() - 1].id == infos.last().id);
                    },
                }
            }
        }
    }
}

/// What is told is kept.
pub proof fn lemma_still_told_keeps(cache: Seq<ParamInfoView>, infos: Seq<ParamInfoView>)
    ensures
        forall|k: int|
            0 <= k < cache.len() && mentions(infos, (#[trigger] cache[k]).id) ==> still_told(
                cache,
                infos,
            ).contains(cache[k]),
    decreases cache.len(),
{
    if cache.len() > 0 {
        let shorter = cache.drop_last();
        let kept = still_told(shorter, infos);
        let result = still_told(cache, infos);
        lemma_still_told_keeps(shorter, infos);
        assert forall|k: int| 0 <= k < cache.len() && mentions(infos, (#[trigger] cache[k]).id) implies result.contains(
            cache[k],
        ) by {
            if k < shorter.len() {
                assert(cache[k] == shorter[k]);
                let at = choose|at: int| 0 <= at < kept.len() && kept[at] == shorter[k];
                assert(result[at] == kept[at]);
            } else {
                assert(result[result.len() - 1] == cache[k]);
            }
        }
    }
}

/// After the reconciliation the cache holds the parameters that the new
/// instance told and no others.
pub proof fn lemma_reconciled_cache_is_what_is_told(
    cache: Seq<ParamInfoView>,
    infos: Seq<ParamInfoView>,
)
    ensures
        forall|i: int|
            0 <= i < reconciled_cache(cache, infos).len() ==> mentions(
                infos,
                (#[trigger] reconciled_cache(cache, infos)[i]).id,
            ),
        forall|j: int|
            0 <= j < infos.len() ==> caches(reconciled_cache(cache, infos), (#[trigger] infos[j]).id),
{
    let told_all = after_infos(cache, infos).0;
    let result = reconciled_cache(cache, infos);
    lemma_still_told(told_all, infos);
    lemma_after_infos_holds_what_is_told(cache, infos);
    lemma_still_told_keeps(told_all, infos);
    assert forall|j: int| 0 <= j < infos.len() implies caches(result, (#[trigger] infos[j]).id) by {
        let at = choose|at: int| 0 <= at < told_all.len() && (#[trigger] told_all[at]).id == infos[j].id;
        assert(mentions(infos, told_all[at].id));
        assert(result.contains(told_all[at]));
        let k = choose|k: int| 0 <= k < result.len() && result[k] == told_all[at];
        assert(result[k].id == infos[j].id);
    }
}

/// A cache in which every id occurs once stays so through a reconciliation.
pub proof fn lemma_reconciled_ids_stay_distinct(
    cache: Seq<ParamInfoView>,
    infos: Seq<ParamInfoView>,
)
    requires
        distinct_ids(cache),
    ensures
        distinct_ids(after_infos(cache, infos).0),
        distinct_ids(reconciled_cache(cache, infos)),
{
    lemma_after_infos_distinct(cache, infos);
    lemma_still_told_distinct(after_infos(cache, infos).0, infos);
}

/// Telling parameters keeps the ids of a cache distinct.
pub proof fn lemma_after_infos_distinct(cache: Seq<ParamInfoView>, infos: Seq<ParamInfoView>)
    requires
        distinct_ids(cache),
    ensures
        distinct_ids(after_infos(cache, infos).0),
    decreases infos.len(),
{
    if infos.len() > 0 {
        let before = after_infos(cache, infos.drop_last()).0;
        let after = after_infos(cache, infos).0;
        lemma_after_infos_distinct(cache, infos.drop_last());
        lemma_after_info_ids(before, infos.last());
        lemma_position_of(before, infos.last().id);
        assert forall|i: int, j: int| 0 <= i < j < after.len() implies (#[trigger] after[i]).id != (
        #[trigger] after[j]).id by {
            if j < before.len() {
                assert(after[i].id == before[i].id);
                assert(after[j].id == before[j].id);
            } else {
                assert(after[i].id == before[i].id);
            }
        }
    }
}

/// Dropping descriptions keeps the ids of a cache distinct.
pub proof fn lemma_still_told_distinct(cache: Seq<ParamInfoView>, infos: Seq<ParamInfoView>)
    requires
        distinct_ids(cache),
    ensures
        distinct_ids(still_told(cache, infos)),
    decreases cache.len(),
{
    if cache.len() > 0 {
        let shorter = cache.drop_last();
        let kept = still_told(shorter, infos);
        let result = still_told(cache, infos);
        assert forall|i: int, j: int| 0 <= i < j < shorter.len() implies (#[trigger] shorter[i]).id != (
        #[trigger] shorter[j]).id by {
            assert(shorter[i] == cache[i]);
            assert(shorter[j] == cache[j]);
        }
        lemma_still_told_distinct(shorter, infos);
        lemma_still_told(shorter, infos);
        assert forall|i: int, j: int| 0 <= i < j < result.len() implies (#[trigger] result[i]).id != (
        #[trigger] result[j]).id by {
            if j < kept.len() {
                assert(result[i] == kept[i]);
                assert(result[j] == kept[j]);
            } else {
                assert(result[i] == kept[i]);
                assert(shorter.contains(kept[i]));
                let at = choose|at: int| 0 <= at < shorter.len() && shorter[at] == kept[i];
                assert(cache[at] == shorter[at]);
                assert(result[j] == cache[cache.len() - 1]);
            }
        }
    }
}

/// Whether the range of a description is made of numbers.
pub open spec fn range_is_numeric(info: ParamInfoView) -> bool {
    !is_nan(info.min_value_bits) && !is_nan(info.max_value_bits)
}

/// Telling the first `upto` parameters of a cache to the cache itself changes
/// nothing and asks for nothing.
pub proof fn lemma_same_again_upto(cache: Seq<ParamInfoView>, upto: int)
    requires
        distinct_ids(cache),
        forall|i: int| 0 <= i < cache.len() ==> range_is_numeric(#[trigger] cache[i]),
        0 <= upto <= cache.len(),
    ensures
        after_infos(cache, cache.take(upto)) == (cache, no_rescan()),
    decreases upto,
{
    if upto > 0 {
        let told = cache.take(upto);
        lemma_same_again_upto(cache, upto - 1);
        assert(told.drop_last() == cache.take(upto - 1));
        let info = told.last();
        assert(info == cache[upto - 1]);
        lemma_position_of(cache, info.id);
        assert(position_of(cache, info.id) == Some(upto - 1));
        assert(range_is_numeric(cache[upto - 1]));
        assert(rescan_diff(info, info) == no_rescan());
        assert(refreshed(info, info) == info);
        assert(cache.update(upto - 1, info) == cache);
    }
}

/// An instance that tells the very parameters that are cached asks for no
/// rescan, and the cache stays as it is.
pub proof fn lemma_same_again_asks_for_nothing(cache: Seq<ParamInfoView>)
    requires
        distinct_ids(cache),
        forall|i: int| 0 <= i < cache.len() ==> range_is_numeric(#[trigger] cache[i]),
    ensures
        reconciled_flags(cache, cache) == no_rescan(),
        reconciled_cache(cache, cache) == cache,
{
    lemma_same_again_upto(cache, cache.len() as int);
    assert(cache.take(cache.len() as int) == cache);
    assert forall|i: int| 0 <= i < cache.len() implies mentions(cache, (#[trigger] cache[i]).id) by {
        assert(cache[i].id == cache[i].id);
    }
    lemma_still_told(cache, cache);
}

/// Whether two descriptions are of the same parameter and agree in all that
/// is of substance: they differ at most in the name and the default value.
pub open spec fn same_but_name(known: ParamInfoView, told: ParamInfoView) -> bool {
    &&& known.id == told.id
    &&& known.flags == told.flags
    &&& known.cookie == told.cookie
    &&& known.module == told.module
    &&& known.min_value_bits == told.min_value_bits
    &&& known.max_value_bits == told.max_value_bits
}

/// Whether `info` is one of the parameters of the cache, told at most under
/// another name.
pub open spec fn is_cached_but_name(cache: Seq<ParamInfoView>, info: ParamInfoView) -> bool {
    exists|i: int| 0 <= i < cache.len() && #[trigger] same_but_name(cache[i], info)
}

/// Whether every parameter that is told is one of the cache, told at most
/// under another name.
pub open spec fn told_under_names(cache: Seq<ParamInfoView>, infos: Seq<ParamInfoView>) -> bool {
    forall|j: int| 0 <= j < infos.len() ==> is_cached_but_name(cache, #[trigger] infos[j])
}

/// Whether some parameter is told under a name that the cache does not have
/// for it.
pub open spec fn some_renamed(cache: Seq<ParamInfoView>, infos: Seq<ParamInfoView>) -> bool {
    exists|i: int, j: int|
        0 <= i < cache.len() && 0 <= j < infos.len() && #[trigger] same_but_name(cache[i], infos[j])
            && infos[j].name != cache[i].name
}

/// Telling parameters that differ from the cached ones in their names at most
/// leaves everything of substance as it was and never voids everything; it
/// asks for an info rescan as soon as one name differs.
pub proof fn lemma_renames_keep_substance(cache: Seq<ParamInfoView>, infos: Seq<ParamInfoView>)
    requires
        distinct_ids(cache),
        forall|i: int| 0 <= i < cache.len() ==> range_is_numeric(#[trigger] cache[i]),
        told_under_names(cache, infos),
    ensures
        after_infos(cache, infos).0.len() == cache.len(),
        forall|i: int|
            0 <= i < cache.len() ==> same_but_name(cache[i], #[trigger] after_infos(cache, infos).0[i]),
        !after_infos(cache, infos).1.all,
        !after_infos(cache, infos).1.values,
        !after_infos(cache, infos).1.text,
        !after_infos(cache, infos).1.info ==> forall|i: int|
            0 <= i < cache.len() ==> (#[trigger] after_infos(cache, infos).0[i]).name
                == cache[i].name,
        some_renamed(cache, infos) ==> after_infos(cache, infos).1.info,
    decreases infos.len(),
{
    if infos.len() > 0 {
        let earlier = infos.drop_last();
        let info = infos.last();
        let before = after_infos(cache, earlier);
        let after = after_infos(cache, infos);
        assert forall|j: int| 0 <= j < earlier.len() implies is_cached_but_name(
            cache,
            #[trigger] earlier[j],
        ) by {
            assert(earlier[j] == infos[j]);
        }
        lemma_renames_keep_substance(cache, earlier);
        assert(infos[infos.len() - 1] == info);
        assert(is_cached_but_name(cache, info));
        let at = choose|i: int| 0 <= i < cache.len() && #[trigger] same_but_name(cache[i], info);
        assert(same_but_name(cache[at], before.0[at]));
        lemma_position_of(before.0, info.id);
        assert(position_of(before.0, info.id) == Some(at)) by {
            match position_of(before.0, info.id) {
                Some(found) => {
                    assert(same_but_name(cache[found], before.0[found]));
                    if found < at {
                        assert(cache[found].id != cache[at].id);
                    } else if found > at {
                        assert(cache[at].id != cache[found].id);
                    }
                },
                None => {
                    assert(before.0[at].id == info.id);
                },
            }
        }
        let known = before.0[at];
        assert(range_is_numeric(cache[at]));
        assert(!substance_differs(known, info));
        assert(info_differs(known, info) == (known.name != info.name));
        let step = rescan_diff(known, info);
        assert(after.0 == before.0.update(at, refreshed(known, info)));
        assert(after.1 == either(before.1, step));
        assert(same_but_name(cache[at], refreshed(known, info)));
        assert forall|i: int| 0 <= i < cache.len() implies same_but_name(
            cache[i],
            #[trigger] after.0[i],
        ) by {
            if i != at {
                assert(after.0[i] == before.0[i]);
                assert(same_but_name(cache[i], before.0[i]));
            }
        }
        if !after.1.info {
            assert(known.name == info.name);
            assert(refreshed(known, info).name == known.name);
            assert forall|i: int| 0 <= i < cache.len() implies (#[trigger] after.0[i]).name
                == cache[i].name by {
                assert(before.0[i].name == cache[i].name);
                if i != at {
                    assert(after.0[i] == before.0[i]);
                }
            }
        }
        if some_renamed(cache, infos) && !after.1.info {
            let (i, j) = choose|i: int, j: int|
                0 <= i < cache.len() && 0 <= j < infos.len() && #[trigger] same_but_name(
                    cache[i],
                    infos[j],
                ) && infos[j].name != cache[i].name;
            if j < earlier.len() {
                assert(earlier[j] == infos[j]);
                assert(same_but_name(cache[i], earlier[j]));
                assert(some_renamed(cache, earlier));
            } else {
                assert(infos[j] == info);
                if i < at {
                    assert(cache[i].id != cache[at].id);
                } else if i > at {
                    assert(cache[at].id != cache[i].id);
                }
                assert(before.0[at].name == cache[at].name);
            }
        }
    }
}

/// A new instance that tells the cached parameters, in whatever order, with
/// nothing changed but names, asks for an info rescan and for nothing else,
/// and for that only if a name did change. The cache keeps its parameters.
pub proof fn lemma_renames_ask_for_info(cache: Seq<ParamInfoView>, infos: Seq<ParamInfoView>)
    requires
        distinct_ids(cache),
        forall|i: int| 0 <= i < cache.len() ==> range_is_numeric(#[trigger] cache[i]),
        told_under_names(cache, infos),
        forall|i: int| 0 <= i < cache.len() ==> mentions(infos, (#[trigger] cache[i]).id),
    ensures
        !reconciled_flags(cache, infos).all,
        !reconciled_flags(cache, infos).values,
        !reconciled_flags(cache, infos).text,
        some_renamed(cache, infos) ==> reconciled_flags(cache, infos) == (ParamRescanFlags {
            values: false,
            text: false,
            info: true,
            all: false,
        }),
        reconciled_cache(cache, infos).len() == cache.len(),
        forall|i: int|
            0 <= i < cache.len() ==> same_but_name(
                cache[i],
                #[trigger] reconciled_cache(cache, infos)[i],
            ),
{
    lemma_renames_keep_substance(cache, infos);
    let told_all = after_infos(cache, infos);
    assert forall|i: int| 0 <= i < told_all.0.len() implies mentions(
        infos,
        (#[trigger] told_all.0[i]).id,
    ) by {
        assert(same_but_name(cache[i], told_all.0[i]));
        assert(mentions(infos, cache[i].id));
    }
    lemma_still_told(told_all.0, infos);
}

} // verus!
