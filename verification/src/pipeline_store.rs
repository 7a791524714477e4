//! The registry of compiled pipelines: stable keys, lookup, and replacement
//! of a pipeline in place when its shader source changes.
//!
//! The registry never compiles anything. Whoever builds a pipeline hands
//! the result in, and a failed build leaves the registry as it was.

use vstd::prelude::*;
use std::collections::HashMap;
use slotmap::DefaultKey;
use slotmap::Key;
use slotmap::KeyData;
use slotmap::SlotMap;
use crate::pipeline::ComputePipeline;
use crate::pipeline::PipelineErr;
use crate::pipeline::PushConstantRange;
use crate::shader_path::path_ends_with;
use crate::shader_path::ShaderPath;

verus! {

/// What a pipeline is built from.
#[derive(Clone, PartialEq, Eq, Debug)]
pub struct PipelineConfig {
    pub shader_path: ShaderPath,
    pub descriptor_set_layouts: Vec<u64>,
    pub push_constant_ranges: Vec<PushConstantRange>,
    /// Preprocessor macros: for each name its replacement.
    pub macros: HashMap<String, String>,
}

/// Names a pipeline of the registry for as long as the registry lives.
#[derive(Clone, Copy, PartialEq, Eq, Structural, Debug)]
pub struct PipelineKey {
    pub raw: u64,
}

/// The key that names no pipeline: the largest slot index, with the first version.
pub const NULL_KEY: u64 = 0x1_ffff_ffff;

impl PipelineKey {
    /// Whether a key is a null key: one with the largest slot index.
    pub open spec fn null_like(self) -> bool {
        self.raw & 0xffff_ffff == 0xffff_ffff
    }

    /// The key that names no pipeline.
    pub fn null() -> (key: Self)
        ensures
            key.raw == NULL_KEY,
            key.null_like(),
    {
        assert(0x1_ffff_ffffu64 & 0xffff_ffff == 0xffff_ffff) by (bit_vector);
        PipelineKey { raw: NULL_KEY }
    }

    /// Tells whether the key is a null key.
    pub fn is_null(&self) -> (null: bool)
        ensures
            null == self.null_like(),
    {
        self.raw & 0xffff_ffff == 0xffff_ffff
    }
}

impl Default for PipelineKey {
    /// The null key.
    fn default() -> (key: Self)
        ensures
            key.raw == NULL_KEY,
    {
        PipelineKey { raw: NULL_KEY }
    }
}

/// A pipeline as registered: what it was built from, and what it is now.
#[derive(Clone, PartialEq, Eq, Debug)]
pub struct PipelineHandle {
    pub config: PipelineConfig,
    pub pipeline: ComputePipeline,
}

/// The bit that every key handed out by the slot map has set: the lowest bit
/// of the key's version, which is the upper half of the key.
pub const OCCUPIED_BIT: u64 = 0x1_0000_0000;

/// The key as the slot map reads it: with its version made odd.
pub open spec fn normalized(raw: u64) -> u64 {
    raw | OCCUPIED_BIT
}

/// The slot map that holds the registered pipelines. Its inside is hidden
/// from the proofs: what they know of it is what the functions below, which
/// call into `slotmap`, are assumed to do. A value is made by `slots_new`
/// and changed by `slots_insert` and `slots_get_mut` alone, so nothing is
/// ever removed from it.
#[verifier::external_body]
pub struct PipelineSlots {
    inner: SlotMap<DefaultKey, PipelineHandle>,
}

/// What a slot map holds: its values by key, each key as the 64-bit number
/// that `slotmap::KeyData::as_ffi` gives for it.
pub uninterp spec fn slot_entries(slots: PipelineSlots) -> Map<u64, PipelineHandle>;

/// `slotmap::SlotMap::new`: a slot map that holds nothing. Assumed, not proved.
#[verifier::external_body]
fn slots_new() -> (slots: PipelineSlots)
    ensures
        slot_entries(slots) =~= Map::empty(),
{
    PipelineSlots { inner: SlotMap::new() }
}

/// `slotmap::SlotMap::insert`: the value is stored under a key that was not
/// in use, and all else stays. The key comes back as `KeyData::as_ffi` gives
/// it, with an odd version.
///
/// The slot map refuses to grow past `u32::MAX` slots, one of which it keeps
/// for itself; nothing is ever removed from this one, so its slots are its
/// values and that one. All of this is assumed, not proved.
#[verifier::external_body]
fn slots_insert(slots: &mut PipelineSlots, handle: PipelineHandle) -> (key: u64)
    requires
        slot_entries(*old(slots)).dom().finite(),
        slot_entries(*old(slots)).len() + 1 < u32::MAX,
    ensures
        !slot_entries(*old(slots)).contains_key(key),
        normalized(key) == key,
        slot_entries(*final(slots)) == slot_entries(*old(slots)).insert(key, handle),
{
    slots.inner.insert(handle).data().as_ffi()
}

/// `slotmap::SlotMap::get` on the key that `KeyData::from_ffi` makes of
/// `key`, which is `key` with its version made odd: the value stored under
/// it, if there is one. Assumed, not proved.
#[verifier::external_body]
fn slots_get(slots: &PipelineSlots, key: u64) -> (found: Option<&PipelineHandle>)
    ensures
        found == (if slot_entries(*slots).contains_key(normalized(key)) {
            Some(&slot_entries(*slots)[normalized(key)])
        } else {
            None
        }),
{
    slots.inner.get(DefaultKey::from(KeyData::from_ffi(key)))
}

/// `slotmap::SlotMap::index_mut` on the key that `KeyData::from_ffi` makes
/// of `key`, which must be present: the value stored under it, to be
/// changed in place. All other values stay. Assumed, not proved.
#[verifier::external_body]
fn slots_get_mut(slots: &mut PipelineSlots, key: u64) -> (found: &mut PipelineHandle)
    requires
        slot_entries(*old(slots)).contains_key(normalized(key)),
    ensures
        *found == slot_entries(*old(slots))[normalized(key)],
        slot_entries(*final(slots)) == slot_entries(*old(slots)).insert(normalized(key), *final(found)),
{
    &mut slots.inner[DefaultKey::from(KeyData::from_ffi(key))]
}

/// The registry as a mathematical value.
pub struct PipelinesView {
    /// The registered pipelines by key.
    pub entries: Map<u64, PipelineHandle>,
    /// The keys in the order of registration.
    pub order: Seq<u64>,
}

/// The keys, in order of registration, of the pipelines whose shader source
/// a changed file is: those whose registered path ends the changed path.
pub open spec fn reload_targets_of(
    order: Seq<u64>,
    entries: Map<u64, PipelineHandle>,
    changed: Seq<Seq<char>>,
) -> Seq<u64>
    decreases order.len(),
{
    if order.len() == 0 {
        Seq::empty()
    } else {
        let before = reload_targets_of(order.drop_last(), entries, changed);
        if path_ends_with(changed, entries[order.last()].config.shader_path@) {
            before.push(order.last())
        } else {
            before
        }
    }
}

/// The entries after every target was given its build, target by target:
/// a successful build takes the place of the pipeline registered under the
/// target, which keeps its configuration; a failed build leaves what is
/// registered under the target. Every target is visited, whatever becomes
/// of the targets before it.
pub open spec fn entries_after_reload(
    entries: Map<u64, PipelineHandle>,
    targets: Seq<u64>,
    builds: Seq<Result<ComputePipeline, PipelineErr>>,
) -> Map<u64, PipelineHandle>
    decreases targets.len(),
{
    if targets.len() == 0 || builds.len() == 0 {
        entries
    } else {
        entries_after_reload(
            entries_after_build(entries, targets[0], builds[0]),
            targets.drop_first(),
            builds.drop_first(),
        )
    }
}

/// The entries after one target was given its build.
pub open spec fn entries_after_build(
    entries: Map<u64, PipelineHandle>,
    target: u64,
    build: Result<ComputePipeline, PipelineErr>,
) -> Map<u64, PipelineHandle> {
    match build {
        Ok(pipeline) => entries.insert(
            target,
            PipelineHandle { config: entries[target].config, pipeline },
        ),
        Err(_) => entries,
    }
}

/// The pipelines a reload takes out of the registry, in the order of their
/// targets: what each target with a successful build held before.
pub open spec fn replaced_by_reload(
    entries: Map<u64, PipelineHandle>,
    targets: Seq<u64>,
    builds: Seq<Result<ComputePipeline, PipelineErr>>,
) -> Seq<ComputePipeline>
    decreases targets.len(),
{
    if targets.len() == 0 || builds.len() == 0 {
        Seq::empty()
    } else {
        let first = if builds[0] is Ok {
            seq![entries[targets[0]].pipeline]
        } else {
            Seq::empty()
        };
        first + replaced_by_reload(
            entries_after_build(entries, targets[0], builds[0]),
            targets.drop_first(),
            builds.drop_first(),
        )
    }
}

/// The first failure among the builds, or success where every build succeeded.
pub open spec fn first_failure(builds: Seq<Result<ComputePipeline, PipelineErr>>) -> Result<
    (),
    PipelineErr,
>
    decreases builds.len(),
{
    if builds.len() == 0 {
        Ok(())
    } else {
        match builds[0] {
            Err(error) => Err(error),
            Ok(_) => first_failure(builds.drop_first()),
        }
    }
}

/// The pipelines of the successful builds, in order.
pub open spec fn built_pipelines(builds: Seq<Result<ComputePipeline, PipelineErr>>) -> Seq<
    ComputePipeline,
>
    decreases builds.len(),
{
    if builds.len() == 0 {
        Seq::empty()
    } else {
        let first = match builds[0] {
            Ok(pipeline) => seq![pipeline],
            Err(_) => Seq::empty(),
        };
        first + built_pipelines(builds.drop_first())
    }
}

impl PipelinesView {
    /// What always holds of a registry: its keys are the registered ones,
    /// each once, as the slot map hands them out.
    pub open spec fn wf(self) -> bool {
        &&& self.order.no_duplicates()
        &&& forall|key: u64| self.entries.contains_key(key) <==> self.order.contains(key)
        &&& forall|key: u64| self.entries.contains_key(key) ==> normalized(key) == key
        &&& self.order.len() + 1 < u32::MAX
    }

    /// The pipeline registered under a key, if any.
    pub open spec fn pipeline(self, key: PipelineKey) -> Option<ComputePipeline> {
        if self.entries.contains_key(normalized(key.raw)) {
            Some(self.entries[normalized(key.raw)].pipeline)
        } else {
            None
        }
    }

    /// The registry's keys to reload when a file changed.
    pub open spec fn reload_targets(self, changed: Seq<Seq<char>>) -> Seq<u64> {
        reload_targets_of(self.order, self.entries, changed)
    }

    /// Whether there is one build for each key to reload.
    pub open spec fn reload_applies(
        self,
        changed: Seq<Seq<char>>,
        builds: Seq<Result<ComputePipeline, PipelineErr>>,
    ) -> bool {
        builds.len() == self.reload_targets(changed).len()
    }

    /// The entries after a reload with the given builds; a reload with
    /// another number of builds than keys to reload changes nothing.
    pub open spec fn entries_reloaded(
        self,
        changed: Seq<Seq<char>>,
        builds: Seq<Result<ComputePipeline, PipelineErr>>,
    ) -> Map<u64, PipelineHandle> {
        if self.reload_applies(changed, builds) {
            entries_after_reload(self.entries, self.reload_targets(changed), builds)
        } else {
            self.entries
        }
    }

    /// The pipelines that a reload leaves outside the registry, for their
    /// owner to let go of: those it replaced, or, where the number of builds
    /// does not fit, every pipeline that was built for it.
    pub open spec fn given_up_by_reload(
        self,
        changed: Seq<Seq<char>>,
        builds: Seq<Result<ComputePipeline, PipelineErr>>,
    ) -> Seq<ComputePipeline> {
        if self.reload_applies(changed, builds) {
            replaced_by_reload(self.entries, self.reload_targets(changed), builds)
        } else {
            built_pipelines(builds)
        }
    }

    /// What a reload reports: the first failed build, a number of builds
    /// that does not fit, or success.
    pub open spec fn reload_outcome(
        self,
        changed: Seq<Seq<char>>,
        builds: Seq<Result<ComputePipeline, PipelineErr>>,
    ) -> Result<(), PipelineErr> {
        if self.reload_applies(changed, builds) {
            first_failure(builds)
        } else {
            Err(PipelineErr::BuildCountMismatch)
        }
    }
}

/// The registry of compiled pipelines.
pub struct PipelineStore {
    slots: PipelineSlots,
    order: Vec<u64>,
}

impl View for PipelineStore {
    type V = PipelinesView;

    closed spec fn view(&self) -> PipelinesView {
        PipelinesView { entries: slot_entries(self.slots), order: self.order@ }
    }
}

/// How many pipelines a registry can hold.
pub const STORE_CAPACITY: usize = 0xffff_fff0;

impl PipelineStore {
    /// An empty registry.
    pub fn new() -> (store: Self)
        ensures
            store@.wf(),
            store@.entries == Map::<u64, PipelineHandle>::empty(),
            store@.order == Seq::<u64>::empty(),
    {
        PipelineStore { slots: slots_new(), order: Vec::new() }
    }

    /// Registers a pipeline that was built from `config`, or reports why it
    /// was not built.
    ///
    /// A failed build comes back as it is and registers nothing. A built
    /// pipeline gets a fresh key, unless the registry is full.
    pub fn insert(&mut self, config: PipelineConfig, built: Result<ComputePipeline, PipelineErr>) -> (outcome:
        Result<PipelineKey, PipelineErr>)
        requires
            old(self)@.wf(),
        ensures
            final(self)@.wf(),
            built matches Err(error) ==> outcome == Err::<PipelineKey, PipelineErr>(error),
            built is Ok ==> (outcome is Ok <==> old(self)@.order.len() < STORE_CAPACITY),
            built is Ok && outcome is Err ==> outcome matches Err(PipelineErr::StoreFull),
            outcome is Err ==> final(self)@ == old(self)@,
            outcome matches Ok(key) ==> {
                &&& !old(self)@.entries.contains_key(key.raw)
                &&& final(self)@.order == old(self)@.order.push(key.raw)
                &&& final(self)@.entries == old(self)@.entries.insert(
                    key.raw,
                    PipelineHandle { config, pipeline: built->Ok_0 },
                )
            },
    {
        let pipeline = match built {
            Err(error) => {
                return Err(error);
            },
            Ok(pipeline) => pipeline,
        };
        if self.order.len() >= STORE_CAPACITY {
            return Err(PipelineErr::StoreFull);
        }
        proof {
            lemma_entries_counted(self@);
        }
        let raw = slots_insert(&mut self.slots, PipelineHandle { config, pipeline });
        self.order.push(raw);
        proof {
            let before = old(self)@;
            let after = self@;
            assert(!before.order.contains(raw));
            assert forall|i: int, j: int|
                0 <= i < after.order.len() && 0 <= j < after.order.len() && i != j implies after.order[i]
                != after.order[j] by {
                if i < before.order.len() {
                    assert(before.order.contains(before.order[i]));
                }
                if j < before.order.len() {
                    assert(before.order.contains(before.order[j]));
                }
            }
            assert forall|key: u64| after.entries.contains_key(key) <==> after.order.contains(
                key,
            ) by {
                if after.order.contains(key) {
                    let i = choose|i: int| 0 <= i < after.order.len() && after.order[i] == key;
                    if i < before.order.len() {
                        assert(before.order.contains(key));
                    }
                }
                if after.entries.contains_key(key) && key != raw {
                    assert(before.order.contains(key));
                    let i = choose|i: int| 0 <= i < before.order.len() && before.order[i] == key;
                    assert(after.order[i] == key);
                }
                if key == raw {
                    assert(after.order[before.order.len() as int] == raw);
                }
            }
        }
        Ok(PipelineKey { raw })
    }

    /// Gives another handle to the pipeline registered under a key, or
    /// nothing for a key that names none.
    pub fn get(&self, key: PipelineKey) -> (found: Option<ComputePipeline>)
        ensures
            found is Some <==> self@.pipeline(key) is Some,
            found matches Some(pipeline) ==> pipeline@ == self@.pipeline(key)->Some_0@,
    {
        match slots_get(&self.slots, key.raw) {
            Some(handle) => Some(handle.pipeline.clone()),
            None => None,
        }
    }

    /// Gives what the pipeline registered under a key was built from.
    pub fn config(&self, key: PipelineKey) -> (found: Option<&PipelineConfig>)
        ensures
            found == (if self@.entries.contains_key(normalized(key.raw)) {
                Some(&self@.entries[normalized(key.raw)].config)
            } else {
                None
            }),
    {
        match slots_get(&self.slots, key.raw) {
            Some(handle) => Some(&handle.config),
            None => None,
        }
    }

    /// Lists, in order of registration, the pipelines to rebuild when the
    /// file at `changed` was written: those whose registered shader path
    /// ends the changed path.
    pub fn reload_targets(&self, changed: &ShaderPath) -> (targets: Vec<PipelineKey>)
        requires
            self@.wf(),
        ensures
            targets@.map_values(|key: PipelineKey| key.raw) == self@.reload_targets(changed@),
    {
        let mut targets: Vec<PipelineKey> = Vec::new();
        let mut i: usize = 0;
        while i < self.order.len()
            invariant
                self@.wf(),
                i <= self.order@.len(),
                targets@.map_values(|key: PipelineKey| key.raw) == reload_targets_of(
                    self.order@.subrange(0, i as int),
                    self@.entries,
                    changed@,
                ),
            decreases self.order@.len() - i,
        {
            let raw = self.order[i];
            let ghost done = self.order@.subrange(0, i as int);
            let ghost next = self.order@.subrange(0, i + 1);
            let ghost listed = targets@;
            proof {
                assert(next.drop_last() =~= done);
                assert(next.last() == raw);
                assert(self@.order.contains(raw));
                assert(self@.entries.contains_key(raw));
            }
            match slots_get(&self.slots, raw) {
                Some(handle) => {
                    if changed.ends_with(&handle.config.shader_path) {
                        targets.push(PipelineKey { raw });
                        proof {
                            assert(targets@.map_values(|key: PipelineKey| key.raw)
                                =~= listed.map_values(|key: PipelineKey| key.raw).push(raw));
                        }
                    }
                },
                None => {},
            }
            i += 1;
        }
        proof {
            assert(self.order@.subrange(0, self.order@.len() as int) =~= self.order@);
        }
        targets
    }

    /// Puts a newly built pipeline in the place of the one registered under
    /// `key`, and hands the old one back; the key and the configuration
    /// stay. An unknown key gets the new pipeline back.
    pub fn replace(&mut self, key: PipelineKey, pipeline: ComputePipeline) -> (outcome: Result<
        ComputePipeline,
        ComputePipeline,
    >)
        requires
            old(self)@.wf(),
        ensures
            final(self)@.wf(),
            final(self)@.order == old(self)@.order,
            outcome is Ok <==> old(self)@.entries.contains_key(normalized(key.raw)),
            outcome matches Err(unused) ==> unused == pipeline && final(self)@ == old(self)@,
            outcome matches Ok(replaced) ==> {
                &&& replaced == old(self)@.entries[normalized(key.raw)].pipeline
                &&& final(self)@.entries == old(self)@.entries.insert(
                    normalized(key.raw),
                    PipelineHandle {
                        config: old(self)@.entries[normalized(key.raw)].config,
                        pipeline,
                    },
                )
            },
    {
        if slots_get(&self.slots, key.raw).is_none() {
            return Err(pipeline);
        }
        let mut swapped = pipeline;
        let handle = slots_get_mut(&mut self.slots, key.raw);
        std::mem::swap(&mut handle.pipeline, &mut swapped);
        proof {
            let before = old(self)@;
            let after = self@;
            let raw = key.raw;
            let at = normalized(raw);
            assert(at | 0x1_0000_0000u64 == at) by (bit_vector)
                requires
                    at == raw | 0x1_0000_0000u64,
            ;
            assert forall|other: u64| after.entries.contains_key(other) <==> after.order.contains(
                other,
            ) by {}
            assert forall|other: u64| after.entries.contains_key(other) implies normalized(other)
                == other by {}
        }
        Ok(swapped)
    }

    /// Reloads the pipelines whose shader source is the file at `changed`.
    ///
    /// `builds` holds the outcome of rebuilding each of `reload_targets`, in
    /// that order. Every target is visited: a successful build takes the
    /// place of the registered pipeline under the same key, a failed build
    /// leaves the registered pipeline as it is, and neither keeps the
    /// targets after it from their builds. The first failure is reported.
    ///
    /// Where `builds` has another length than `reload_targets`, nothing is
    /// registered and the mismatch is reported.
    ///
    /// The first answer holds the pipelines that are now outside the
    /// registry, for their owner to let go of: the replaced ones in the
    /// order of their keys, or, on a mismatch, the pipelines that were built.
    pub fn reload(
        &mut self,
        changed: &ShaderPath,
        builds: Vec<Result<ComputePipeline, PipelineErr>>,
    ) -> (outcome: (Vec<ComputePipeline>, Result<(), PipelineErr>))
        requires
            old(self)@.wf(),
        ensures
            final(self)@.wf(),
            final(self)@.order == old(self)@.order,
            final(self)@.entries == old(self)@.entries_reloaded(changed@, builds@),
            outcome.0@ == old(self)@.given_up_by_reload(changed@, builds@),
            outcome.1 == old(self)@.reload_outcome(changed@, builds@),
    {
        let targets = self.reload_targets(changed);
        let ghost keys = targets@.map_values(|key: PipelineKey| key.raw);
        let mut rest = builds;
        if rest.len() != targets.len() {
            let mut unused: Vec<ComputePipeline> = Vec::new();
            proof {
                assert(unused@ + built_pipelines(rest@) =~= built_pipelines(builds@));
            }
            while rest.len() > 0
                invariant
                    unused@ + built_pipelines(rest@) == built_pipelines(builds@),
                decreases rest@.len(),
            {
                let ghost pending = rest@;
                let ghost taken = unused@;
                let build = rest.remove(0);
                proof {
                    assert(rest@ =~= pending.drop_first());
                    assert(build == pending[0]);
                }
                match build {
                    Ok(pipeline) => {
                        unused.push(pipeline);
                        proof {
                            assert(taken + (seq![pipeline] + built_pipelines(rest@)) =~= unused@
                                + built_pipelines(rest@));
                        }
                    },
                    Err(_) => {
                        proof {
                            assert(taken + (Seq::<ComputePipeline>::empty() + built_pipelines(
                                rest@,
                            )) =~= unused@ + built_pipelines(rest@));
                        }
                    },
                }
            }
            proof {
                assert(unused@ + Seq::<ComputePipeline>::empty() =~= unused@);
            }
            return (unused, Err(PipelineErr::BuildCountMismatch));
        }
        let mut replaced: Vec<ComputePipeline> = Vec::new();
        let mut failure: Option<PipelineErr> = None;
        let mut i: usize = 0;
        proof {
            lemma_targets_are_registered(old(self)@, changed@);
            assert(keys.skip(0) =~= keys);
            assert(replaced@ + replaced_by_reload(self@.entries, keys, rest@) =~= replaced_by_reload(
                self@.entries,
                keys,
                rest@,
            ));
        }
        while i < targets.len()
            invariant
                self@.wf(),
                self@.order == old(self)@.order,
                i <= targets@.len(),
                rest@.len() == targets@.len() - i,
                builds@.len() == targets@.len(),
                keys == targets@.map_values(|key: PipelineKey| key.raw),
                keys == old(self)@.reload_targets(changed@),
                forall|j: int| 0 <= j < keys.len() ==> old(self)@.entries.contains_key(#[trigger] keys[j]),
                forall|key: u64|
                    self@.entries.contains_key(key) <==> old(self)@.entries.contains_key(key),
                entries_after_reload(self@.entries, keys.skip(i as int), rest@)
                    == entries_after_reload(old(self)@.entries, keys, builds@),
                replaced@ + replaced_by_reload(self@.entries, keys.skip(i as int), rest@)
                    == replaced_by_reload(old(self)@.entries, keys, builds@),
                (match failure {
                    Some(error) => Err::<(), PipelineErr>(error),
                    None => first_failure(rest@),
                }) == first_failure(builds@),
            decreases targets@.len() - i,
        {
            let ghost ahead = keys.skip(i as int);
            let ghost pending = rest@;
            let ghost entries = self@.entries;
            let ghost taken = replaced@;
            let build = rest.remove(0);
            proof {
                assert(rest@ =~= pending.drop_first());
                assert(ahead[0] == keys[i as int]);
                assert(ahead.drop_first() =~= keys.skip(i + 1));
                assert(build == pending[0]);
                assert(old(self)@.entries.contains_key(keys[i as int]));
                assert(entries.contains_key(keys[i as int]));
                assert(normalized(keys[i as int]) == keys[i as int]);
            }
            match build {
                Err(error) => {
                    proof {
                        assert(taken + (Seq::<ComputePipeline>::empty() + replaced_by_reload(
                            self@.entries,
                            keys.skip(i + 1),
                            rest@,
                        )) =~= replaced@ + replaced_by_reload(
                            self@.entries,
                            keys.skip(i + 1),
                            rest@,
                        ));
                    }
                    if failure.is_none() {
                        failure = Some(error);
                    }
                },
                Ok(pipeline) => {
                    match self.replace(targets[i], pipeline) {
                        Ok(old_pipeline) => {
                            replaced.push(old_pipeline);
                            proof {
                                assert(taken + (seq![old_pipeline] + replaced_by_reload(
                                    self@.entries,
                                    keys.skip(i + 1),
                                    rest@,
                                )) =~= replaced@ + replaced_by_reload(
                                    self@.entries,
                                    keys.skip(i + 1),
                                    rest@,
                                ));
                            }
                        },
                        Err(unused) => {
                            proof {
                                assert(false);
                            }
                        },
                    }
                },
            }
            i += 1;
        }
        proof {
            assert(replaced@ + Seq::<ComputePipeline>::empty() =~= replaced@);
            assert(rest@.len() == 0);
        }
        let report = match failure {
            Some(error) => Err(error),
            None => Ok(()),
        };
        (replaced, report)
    }

    /// The number of registered pipelines.
    pub fn len(&self) -> (count: usize)
        ensures
            count == self@.order.len(),
    {
        self.order.len()
    }
}

/// A well-formed registry holds as many pipelines as it has keys in order.
pub proof fn lemma_entries_counted(store: PipelinesView)
    requires
        store.wf(),
    ensures
        store.entries.dom().finite(),
        store.entries.len() == store.order.len(),
{
    store.order.unique_seq_to_set();
    vstd::seq_lib::seq_to_set_is_finite(store.order);
    assert(store.entries.dom() =~= store.order.to_set());
}

/// Every pipeline a reload is to rebuild is registered.
pub proof fn lemma_targets_are_registered(store: PipelinesView, changed: Seq<Seq<char>>)
    requires
        store.wf(),
    ensures
        forall|j: int|
            0 <= j < store.reload_targets(changed).len() ==> store.entries.contains_key(
                #[trigger] store.reload_targets(changed)[j],
            ),
{
    lemma_targets_come_from(store.order, store.entries, changed);
    assert forall|j: int| 0 <= j < store.reload_targets(changed).len() implies store.entries.contains_key(
        #[trigger] store.reload_targets(changed)[j],
    ) by {
        assert(store.order.contains(store.reload_targets(changed)[j]));
    }
}

/// The keys to reload are among the keys given, in the same order and
/// without repetition where the given keys have none.
pub proof fn lemma_targets_come_from(
    order: Seq<u64>,
    entries: Map<u64, PipelineHandle>,
    changed: Seq<Seq<char>>,
)
    ensures
        forall|j: int|
            0 <= j < reload_targets_of(order, entries, changed).len() ==> order.contains(
                #[trigger] reload_targets_of(order, entries, changed)[j],
            ),
        order.no_duplicates() ==> reload_targets_of(order, entries, changed).no_duplicates(),
    decreases order.len(),
{
    if order.len() > 0 {
        let front = order.drop_last();
        lemma_targets_come_from(front, entries, changed);
        let before = reload_targets_of(front, entries, changed);
        let all = reload_targets_of(order, entries, changed);
        assert forall|j: int| 0 <= j < all.len() implies order.contains(#[trigger] all[j]) by {
            if j < before.len() {
                assert(front.contains(before[j]));
                let i = choose|i: int| 0 <= i < front.len() && front[i] == before[j];
                assert(order[i] == before[j]);
            } else {
                assert(order[order.len() - 1] == order.last());
            }
        }
        if order.no_duplicates() {
            assert(front.no_duplicates());
            assert forall|a: int, b: int| 0 <= a < all.len() && 0 <= b < all.len() && a != b implies all[a]
                != all[b] by {
                if a < before.len() && b < before.len() {
                } else {
                    let inner = if a < before.len() {
                        a
                    } else {
                        b
                    };
                    assert(front.contains(before[inner]));
                    let i = choose|i: int| 0 <= i < front.len() && front[i] == before[inner];
                    assert(order[i] == before[inner]);
                    assert(order[order.len() - 1] == order.last());
                }
            }
        }
    }
}

/// What a reload does, key by key, where every key to reload has its build.
///
/// Every key stays registered with its configuration. Each target whose
/// build succeeded holds that build; each target whose build failed holds
/// what it held; every other key holds what it held.
pub proof fn lemma_reload_effect(
    entries: Map<u64, PipelineHandle>,
    targets: Seq<u64>,
    builds: Seq<Result<ComputePipeline, PipelineErr>>,
)
    requires
        targets.no_duplicates(),
        forall|j: int| 0 <= j < targets.len() ==> entries.contains_key(#[trigger] targets[j]),
        builds.len() == targets.len(),
    ensures
        ({
            let after = entries_after_reload(entries, targets, builds);
            &&& after.dom() == entries.dom()
            &&& forall|key: u64|
                entries.contains_key(key) ==> (#[trigger] after[key]).config == entries[key].config
            &&& forall|i: int|
                0 <= i < targets.len() && builds[i] is Ok ==> (#[trigger] after[targets[i]]).pipeline
                    == builds[i]->Ok_0
            &&& forall|i: int|
                0 <= i < targets.len() && builds[i] is Err ==> #[trigger] after[targets[i]]
                    == entries[targets[i]]
            &&& forall|key: u64|
                entries.contains_key(key) && !targets.contains(key) ==> #[trigger] after[key]
                    == entries[key]
        }),
    decreases targets.len(),
{
    let after = entries_after_reload(entries, targets, builds);
    if targets.len() == 0 {
        assert(after.dom() =~= entries.dom());
    } else {
        let first = targets[0];
        let stepped = entries_after_build(entries, first, builds[0]);
        let tail = targets.drop_first();
        let later = builds.drop_first();
        assert(tail.no_duplicates());
        assert(stepped.dom() =~= entries.dom());
        assert forall|j: int| 0 <= j < tail.len() implies stepped.contains_key(#[trigger] tail[j]) by {
            assert(tail[j] == targets[j + 1]);
        }
        lemma_reload_effect(stepped, tail, later);
        assert(after == entries_after_reload(stepped, tail, later));
        assert(!tail.contains(first)) by {
            if tail.contains(first) {
                let j = choose|j: int| 0 <= j < tail.len() && tail[j] == first;
                assert(targets[j + 1] == first);
            }
        }
        assert(after[first] == stepped[first]);
        assert forall|key: u64| entries.contains_key(key) implies (#[trigger] after[key]).config
            == entries[key].config by {
            assert(stepped.contains_key(key));
            assert(after[key].config == stepped[key].config);
        }
        assert forall|i: int| 0 <= i < targets.len() && builds[i] is Ok implies (
        #[trigger] after[targets[i]]).pipeline == builds[i]->Ok_0 by {
            if i > 0 {
                assert(tail[i - 1] == targets[i]);
                assert(later[i - 1] == builds[i]);
                assert(after[tail[i - 1]].pipeline == later[i - 1]->Ok_0);
            }
        }
        assert forall|i: int| 0 <= i < targets.len() && builds[i] is Err implies #[trigger] after[targets[i]]
            == entries[targets[i]] by {
            if i > 0 {
                assert(tail[i - 1] == targets[i]);
                assert(later[i - 1] == builds[i]);
                assert(after[tail[i - 1]] == stepped[tail[i - 1]]);
                assert(targets[i] != first);
            }
        }
        assert forall|key: u64|
            entries.contains_key(key) && !targets.contains(key) implies #[trigger] after[key]
            == entries[key] by {
            assert(targets[0] == first);
            assert(key != first);
            if tail.contains(key) {
                let j = choose|j: int| 0 <= j < tail.len() && tail[j] == key;
                assert(targets[j + 1] == key);
            }
            assert(stepped.contains_key(key));
            assert(after[key] == stepped[key]);
        }
    }
}

/// What a reload reports: success exactly where every build succeeded, and
/// else the failure of the first build that failed.
pub proof fn lemma_first_failure(builds: Seq<Result<ComputePipeline, PipelineErr>>)
    ensures
        first_failure(builds) is Ok <==> forall|i: int|
            0 <= i < builds.len() ==> #[trigger] builds[i] is Ok,
        first_failure(builds) is Err ==> exists|i: int|
            0 <= i < builds.len() && #[trigger] builds[i] is Err && first_failure(builds)
                == Err::<(), PipelineErr>(builds[i]->Err_0) && forall|j: int|
                0 <= j < i ==> #[trigger] builds[j] is Ok,
    decreases builds.len(),
{
    if builds.len() > 0 {
        let later = builds.drop_first();
        lemma_first_failure(later);
        match builds[0] {
            Err(error) => {
                assert(builds[0] is Err);
            },
            Ok(_) => {
                if first_failure(later) is Ok {
                    assert forall|i: int| 0 <= i < builds.len() implies #[trigger] builds[i] is Ok by {
                        if i > 0 {
                            assert(later[i - 1] is Ok);
                        }
                    }
                } else {
                    let k = choose|k: int|
                        0 <= k < later.len() && #[trigger] later[k] is Err && first_failure(later)
                            == Err::<(), PipelineErr>(later[k]->Err_0) && forall|j: int|
                            0 <= j < k ==> #[trigger] later[j] is Ok;
                    assert(builds[k + 1] == later[k]);
                    assert forall|j: int| 0 <= j < k + 1 implies #[trigger] builds[j] is Ok by {
                        if j > 0 {
                            assert(later[j - 1] is Ok);
                        }
                    }
                    assert(builds[k + 1] is Err);
                }
            },
        }
    }
}

/// Key stability under reload: a reload of a well-formed registry leaves
/// every key registered with its configuration, and only the keys to reload
/// may hold something new.
pub proof fn lemma_reload_keeps_keys(
    store: PipelinesView,
    changed: Seq<Seq<char>>,
    builds: Seq<Result<ComputePipeline, PipelineErr>>,
    key: u64,
)
    requires
        store.wf(),
        store.entries.contains_key(key),
    ensures
        ({
            let after = store.entries_reloaded(changed, builds);
            &&& after.contains_key(key)
            &&& after[key].config == store.entries[key].config
            &&& !store.reload_targets(changed).contains(key) ==> after[key] == store.entries[key]
        }),
{
    if store.reload_applies(changed, builds) {
        let targets = store.reload_targets(changed);
        lemma_targets_come_from(store.order, store.entries, changed);
        lemma_targets_are_registered(store, changed);
        lemma_reload_effect(store.entries, targets, builds);
    }
}

/// A failed rebuild leaves its pipeline as it was, whatever becomes of the
/// other rebuilds of the same reload.
pub proof fn lemma_failed_build_keeps_the_pipeline(
    store: PipelinesView,
    changed: Seq<Seq<char>>,
    builds: Seq<Result<ComputePipeline, PipelineErr>>,
    i: int,
)
    requires
        store.wf(),
        store.reload_applies(changed, builds),
        0 <= i < builds.len(),
        builds[i] is Err,
    ensures
        ({
            let targets = store.reload_targets(changed);
            let after = store.entries_reloaded(changed, builds);
            &&& after.contains_key(targets[i])
            &&& after[targets[i]] == store.entries[targets[i]]
            &&& store.reload_outcome(changed, builds) is Err
        }),
{
    let targets = store.reload_targets(changed);
    lemma_targets_come_from(store.order, store.entries, changed);
    lemma_targets_are_registered(store, changed);
    lemma_reload_effect(store.entries, targets, builds);
    lemma_first_failure(builds);
    assert(store.entries.contains_key(targets[i]));
}

/// A successful rebuild takes effect under the same key, whatever becomes
/// of the other rebuilds of the same reload: the key holds the new build
/// and keeps its configuration.
pub proof fn lemma_successful_build_is_installed(
    store: PipelinesView,
    changed: Seq<Seq<char>>,
    builds: Seq<Result<ComputePipeline, PipelineErr>>,
    i: int,
)
    requires
        store.wf(),
        store.reload_applies(changed, builds),
        0 <= i < builds.len(),
        builds[i] is Ok,
    ensures
        ({
            let targets = store.reload_targets(changed);
            let after = store.entries_reloaded(changed, builds);
            &&& after.contains_key(targets[i])
            &&& after[targets[i]].pipeline == builds[i]->Ok_0
            &&& after[targets[i]].config == store.entries[targets[i]].config
        }),
{
    let targets = store.reload_targets(changed);
    lemma_targets_come_from(store.order, store.entries, changed);
    lemma_targets_are_registered(store, changed);
    lemma_reload_effect(store.entries, targets, builds);
    assert(store.entries.contains_key(targets[i]));
}

} // verus!
