//! The binding-set cache: a mapping from the canonical key of a binding
//! request (the sorted identifiers of every participating buffer, plus the
//! program identity) to the binding-set resource that serves it. Lookups
//! reuse, misses construct, and invalidation sweeps remove and destroy
//! exactly the entries whose key names a dead resource.

use vstd::prelude::*;

use crate::BindingError;
use crate::device::{Device, bind_vao, spec_bind_vao_commands};
use crate::key::{ids_equal, lemma_strictly_sorted_same_set, sorted_id_list, spec_key_ids, strictly_sorted};
use crate::resource::{
    Program, VertexArrayObject, VertexBufferInfo, VertexSource, VertexSourceV, clone_entries,
    entries_view, has_mismatch, has_missing, is_mismatch_witness, is_missing_witness, sources_view,
    spec_construction_commands, spec_construction_ok, spec_final_array_buffer,
};

verus! {

/// The composite key one binding-set resource is cached under: the strictly
/// sorted identifiers of its buffers (index buffer included) and the
/// identity of its program.
#[derive(Debug, Clone, PartialEq, Eq)]
pub struct CacheKey {
    pub buffers: Vec<u32>,
    pub program: u64,
}

impl CacheKey {
    /// The identifier list is kept strictly sorted, so that a key is
    /// determined by the identifier set alone.
    pub open spec fn wf(self) -> bool {
        strictly_sorted(self.buffers@)
    }

    /// The set of buffer identifiers this key names.
    pub open spec fn id_set(self) -> Set<u32> {
        self.buffers@.to_set()
    }
}

/// The buffer identifiers of a request's sources, in the order added.
pub open spec fn spec_source_ids(sources: Seq<VertexSource>) -> Seq<u32> {
    sources.map_values(|v: VertexSource| v.buffer)
}

/// Which cached entries an invalidation sweep removes.
#[derive(Debug, Clone, Copy, PartialEq, Eq, Structural)]
pub enum PurgeKind {
    /// Every entry whose key set contains this buffer identifier.
    Buffer(u32),
    /// Every entry cached for this program identity.
    Program(u64),
    /// Every entry.
    All,
}

/// Whether a sweep of the given kind removes an entry under this key.
pub open spec fn key_matches(kind: PurgeKind, key: CacheKey) -> bool {
    match kind {
        PurgeKind::Buffer(b) => key.id_set().contains(b),
        PurgeKind::Program(p) => key.program == p,
        PurgeKind::All => true,
    }
}

/// The entries a sweep keeps, in their original order.
pub open spec fn spec_kept(entries: Seq<(CacheKey, VertexArrayObject)>, kind: PurgeKind) -> Seq<(CacheKey, VertexArrayObject)>
    decreases entries.len(),
{
    if entries.len() == 0 {
        Seq::empty()
    } else if key_matches(kind, entries[0].0) {
        spec_kept(entries.drop_first(), kind)
    } else {
        seq![entries[0]] + spec_kept(entries.drop_first(), kind)
    }
}

/// The calls a sweep issues: for each removed entry, in order, its
/// destruction sequence, threading the tracked active binding object.
pub open spec fn spec_purge_commands(entries: Seq<(CacheKey, VertexArrayObject)>, kind: PurgeKind, vertex_array: u32) -> Seq<crate::device::DeviceCommand>
    decreases entries.len(),
{
    if entries.len() == 0 {
        Seq::empty()
    } else if key_matches(kind, entries[0].0) {
        VertexArrayObject::spec_destroy_commands(entries[0].1.id, vertex_array)
            + spec_purge_commands(entries.drop_first(), kind, spec_va_after_destroy(entries[0].1.id, vertex_array))
    } else {
        spec_purge_commands(entries.drop_first(), kind, vertex_array)
    }
}

/// The active binding object after destroying the given handle: cleared if
/// it was the destroyed one.
pub open spec fn spec_va_after_destroy(id: u32, vertex_array: u32) -> u32 {
    if vertex_array == id {
        0
    } else {
        vertex_array
    }
}

/// The active binding object after a whole sweep.
pub open spec fn spec_purge_final_va(entries: Seq<(CacheKey, VertexArrayObject)>, kind: PurgeKind, vertex_array: u32) -> u32
    decreases entries.len(),
{
    if entries.len() == 0 {
        vertex_array
    } else if key_matches(kind, entries[0].0) {
        spec_purge_final_va(entries.drop_first(), kind, spec_va_after_destroy(entries[0].1.id, vertex_array))
    } else {
        spec_purge_final_va(entries.drop_first(), kind, vertex_array)
    }
}

proof fn lemma_purge_snoc(entries: Seq<(CacheKey, VertexArrayObject)>, x: (CacheKey, VertexArrayObject), kind: PurgeKind, vertex_array: u32)
    ensures
        spec_kept(entries.push(x), kind)
            == spec_kept(entries, kind) + (if key_matches(kind, x.0) { Seq::empty() } else { seq![x] }),
        spec_purge_commands(entries.push(x), kind, vertex_array)
            == spec_purge_commands(entries, kind, vertex_array)
                + (if key_matches(kind, x.0) {
                    VertexArrayObject::spec_destroy_commands(x.1.id, spec_purge_final_va(entries, kind, vertex_array))
                } else {
                    Seq::empty()
                }),
        spec_purge_final_va(entries.push(x), kind, vertex_array)
            == (if key_matches(kind, x.0) {
                spec_va_after_destroy(x.1.id, spec_purge_final_va(entries, kind, vertex_array))
            } else {
                spec_purge_final_va(entries, kind, vertex_array)
            }),
    decreases entries.len(),
{
    let whole = entries.push(x);
    if entries.len() == 0 {
        assert(whole[0] == x);
        assert(whole.drop_first() =~= Seq::<(CacheKey, VertexArrayObject)>::empty());
        assert(spec_kept(Seq::<(CacheKey, VertexArrayObject)>::empty(), kind)
            == Seq::<(CacheKey, VertexArrayObject)>::empty());
        assert(spec_purge_commands(Seq::<(CacheKey, VertexArrayObject)>::empty(), kind, spec_va_after_destroy(x.1.id, vertex_array))
            == Seq::<crate::device::DeviceCommand>::empty());
        assert(spec_purge_final_va(Seq::<(CacheKey, VertexArrayObject)>::empty(), kind, spec_va_after_destroy(x.1.id, vertex_array))
            == spec_va_after_destroy(x.1.id, vertex_array));
        assert(spec_purge_commands(Seq::<(CacheKey, VertexArrayObject)>::empty(), kind, vertex_array)
            == Seq::<crate::device::DeviceCommand>::empty());
        assert(spec_purge_final_va(Seq::<(CacheKey, VertexArrayObject)>::empty(), kind, vertex_array)
            == vertex_array);
        if key_matches(kind, x.0) {
            assert(spec_kept(whole, kind) =~= spec_kept(entries, kind) + Seq::<(CacheKey, VertexArrayObject)>::empty());
            assert(spec_purge_commands(whole, kind, vertex_array)
                =~= spec_purge_commands(entries, kind, vertex_array)
                    + VertexArrayObject::spec_destroy_commands(x.1.id, spec_purge_final_va(entries, kind, vertex_array)));
        } else {
            assert(spec_kept(whole, kind) =~= spec_kept(entries, kind) + seq![x]);
            assert(spec_purge_commands(whole, kind, vertex_array)
                =~= spec_purge_commands(entries, kind, vertex_array) + Seq::<crate::device::DeviceCommand>::empty());
        }
    } else {
        assert(whole[0] == entries[0]);
        assert(whole.drop_first() =~= entries.drop_first().push(x));
        if key_matches(kind, entries[0].0) {
            lemma_purge_snoc(entries.drop_first(), x, kind, spec_va_after_destroy(entries[0].1.id, vertex_array));
        } else {
            lemma_purge_snoc(entries.drop_first(), x, kind, vertex_array);
        }
        if key_matches(kind, x.0) {
            assert(spec_kept(whole, kind) =~= spec_kept(entries, kind) + Seq::<(CacheKey, VertexArrayObject)>::empty());
            assert(spec_purge_commands(whole, kind, vertex_array)
                =~= spec_purge_commands(entries, kind, vertex_array)
                    + VertexArrayObject::spec_destroy_commands(x.1.id, spec_purge_final_va(entries, kind, vertex_array)));
        } else {
            assert(spec_kept(whole, kind) =~= spec_kept(entries, kind) + seq![x]);
            assert(spec_purge_commands(whole, kind, vertex_array)
                =~= spec_purge_commands(entries, kind, vertex_array) + Seq::<crate::device::DeviceCommand>::empty());
        }
    }
}

/// Stores and serves the binding-set resources of one rendering context.
pub struct VertexAttributesSystem {
    pub vaos: Vec<(CacheKey, VertexArrayObject)>,
}

/// Every key is canonical, every cached resource is live, and no two
/// entries share a key.
pub open spec fn entries_wf(entries: Seq<(CacheKey, VertexArrayObject)>) -> bool {
    &&& forall|i: int|
        0 <= i < entries.len() ==> (#[trigger] entries[i]).0.wf() && entries[i].1.alive
    &&& forall|i: int, j: int|
        0 <= i < j < entries.len()
            ==> !((#[trigger] entries[i]).0.id_set() == (#[trigger] entries[j]).0.id_set()
                && entries[i].0.program == entries[j].0.program)
}

/// What a sweep keeps is itself a well-formed cache, made of original
/// entries, none of which the sweep's criterion matches.
proof fn lemma_kept_entries(entries: Seq<(CacheKey, VertexArrayObject)>, kind: PurgeKind)
    ensures
        forall|i: int| 0 <= i < spec_kept(entries, kind).len()
            ==> entries.contains(#[trigger] spec_kept(entries, kind)[i]),
        forall|i: int| 0 <= i < spec_kept(entries, kind).len()
            ==> !key_matches(kind, (#[trigger] spec_kept(entries, kind)[i]).0),
        entries_wf(entries) ==> entries_wf(spec_kept(entries, kind)),
    decreases entries.len(),
{
    if entries.len() == 0 {
    } else {
        let rest = entries.drop_first();
        lemma_kept_entries(rest, kind);
        let kept = spec_kept(entries, kind);
        let kept_rest = spec_kept(rest, kind);
        assert forall|x: (CacheKey, VertexArrayObject)| rest.contains(x) implies entries.contains(x) by {
            let k = choose|k: int| 0 <= k < rest.len() && rest[k] == x;
            assert(entries[k + 1] == x);
        }
        if key_matches(kind, entries[0].0) {
            assert(kept == kept_rest);
            assert forall|i: int| 0 <= i < kept.len() implies entries.contains(#[trigger] kept[i]) by {
                assert(rest.contains(kept_rest[i]));
            }
        } else {
            assert(kept == seq![entries[0]] + kept_rest);
            assert forall|i: int| 0 <= i < kept.len() implies entries.contains(#[trigger] kept[i])
                && !key_matches(kind, kept[i].0) by {
                if i == 0 {
                    assert(kept[0] == entries[0]);
                    assert(entries.contains(entries[0]));
                } else {
                    assert(kept[i] == kept_rest[i - 1]);
                    assert(rest.contains(kept_rest[i - 1]));
                }
            }
        }
        if entries_wf(entries) {
            assert(entries_wf(rest)) by {
                assert forall|i: int| 0 <= i < rest.len() implies (#[trigger] rest[i]).0.wf() && rest[i].1.alive by {
                    assert(rest[i] == entries[i + 1]);
                }
                assert forall|i: int, j: int| 0 <= i < j < rest.len() implies
                    !((#[trigger] rest[i]).0.id_set() == (#[trigger] rest[j]).0.id_set()
                        && rest[i].0.program == rest[j].0.program) by {
                    assert(rest[i] == entries[i + 1] && rest[j] == entries[j + 1]);
                }
            }
            if key_matches(kind, entries[0].0) {
                assert(entries_wf(kept));
            } else {
                assert forall|i: int| 0 <= i < kept.len() implies (#[trigger] kept[i]).0.wf() && kept[i].1.alive by {
                    if i == 0 {
                        assert(kept[0] == entries[0]);
                    } else {
                        assert(kept[i] == kept_rest[i - 1]);
                    }
                }
                assert forall|i: int, j: int| 0 <= i < j < kept.len() implies
                    !((#[trigger] kept[i]).0.id_set() == (#[trigger] kept[j]).0.id_set()
                        && kept[i].0.program == kept[j].0.program) by {
                    if i == 0 {
                        assert(kept[0] == entries[0]);
                        assert(kept[j] == kept_rest[j - 1]);
                        assert(rest.contains(kept_rest[j - 1]));
                        let m = choose|m: int| 0 <= m < rest.len() && rest[m] == kept_rest[j - 1];
                        assert(entries[m + 1] == kept[j]);
                        assert(!(entries[0].0.id_set() == entries[m + 1].0.id_set()
                            && entries[0].0.program == entries[m + 1].0.program));
                    } else {
                        assert(kept[i] == kept_rest[i - 1] && kept[j] == kept_rest[j - 1]);
                    }
                }
            }
        }
    }
}

/// A sweep whose criterion matches nothing removes nothing and issues no
/// call.
proof fn lemma_purge_no_match(entries: Seq<(CacheKey, VertexArrayObject)>, kind: PurgeKind, vertex_array: u32)
    requires
        forall|i: int| 0 <= i < entries.len() ==> !key_matches(kind, (#[trigger] entries[i]).0),
    ensures
        spec_kept(entries, kind) == entries,
        spec_purge_commands(entries, kind, vertex_array) == Seq::<crate::device::DeviceCommand>::empty(),
        spec_purge_final_va(entries, kind, vertex_array) == vertex_array,
    decreases entries.len(),
{
    if entries.len() == 0 {
    } else {
        let rest = entries.drop_first();
        assert(forall|i: int| 0 <= i < rest.len() ==> (#[trigger] rest[i]) == entries[i + 1]);
        lemma_purge_no_match(rest, kind, vertex_array);
        assert(entries[0] == entries.first());
        assert(!key_matches(kind, entries[0].0));
        assert(spec_kept(entries, kind) =~= entries);
        assert(spec_purge_commands(entries, kind, vertex_array)
            =~= Seq::<crate::device::DeviceCommand>::empty());
    }
}

impl VertexAttributesSystem {
    /// Every key is canonical, every cached resource is live, and no two
    /// entries share a key.
    pub open spec fn wf(self) -> bool {
        entries_wf(self.vaos@)
    }

    /// The cache holds an entry for this identifier set and program.
    pub open spec fn has_entry(self, ids: Set<u32>, program: u64) -> bool {
        exists|i: int|
            0 <= i < self.vaos@.len() && (#[trigger] self.vaos@[i]).0.id_set() == ids
                && self.vaos@[i].0.program == program
    }

    /// The index of that entry (meaningful when `has_entry` holds; under
    /// `wf` it is unique).
    pub open spec fn entry_index(self, ids: Set<u32>, program: u64) -> int {
        choose|i: int|
            0 <= i < self.vaos@.len() && (#[trigger] self.vaos@[i]).0.id_set() == ids
                && self.vaos@[i].0.program == program
    }

    /// The handle of the cached resource for this identifier set and program.
    pub open spec fn cached_id(self, ids: Set<u32>, program: u64) -> u32 {
        self.vaos@[self.entry_index(ids, program)].1.id
    }

    /// An empty cache.
    pub fn new() -> (r: VertexAttributesSystem)
        ensures
            r.vaos@ == Seq::<(CacheKey, VertexArrayObject)>::empty(),
            r.wf(),
    {
        VertexAttributesSystem { vaos: Vec::new() }
    }

    /// Starts accumulating a binding request for one program and one index
    /// buffer. Allocates the accumulator and nothing else.
    pub fn start<'a>(&self, program: &'a Program, indices: u32) -> (r: Binder<'a>)
        ensures
            r.program == program,
            r.element_array_buffer == indices,
            r.vertex_buffers@ == Seq::<VertexSource>::empty(),
    {
        Binder { program, element_array_buffer: indices, vertex_buffers: Vec::new() }
    }
}

/// Whether a sweep of the given kind would remove an entry under this key.
fn key_matches_exec(key: &CacheKey, kind: PurgeKind) -> (r: bool)
    ensures
        r == key_matches(kind, *key),
{
    match kind {
        PurgeKind::Buffer(b) => {
            let mut i: usize = 0;
            while i < key.buffers.len()
                invariant
                    0 <= i <= key.buffers@.len(),
                    kind == PurgeKind::Buffer(b),
                    forall|k: int| 0 <= k < i ==> key.buffers@[k] != b,
                decreases key.buffers@.len() - i,
            {
                if key.buffers[i] == b {
                    proof {
                        assert(key.buffers@.contains(b));
                    }
                    return true;
                }
                i += 1;
            }
            proof {
                assert(!key.id_set().contains(b)) by {
                    if key.buffers@.contains(b) {
                        let k = choose|k: int| 0 <= k < key.buffers@.len() && key.buffers@[k] == b;
                        assert(false);
                    }
                }
            }
            false
        },
        PurgeKind::Program(p) => key.program == p,
        PurgeKind::All => true,
    }
}

impl VertexAttributesSystem {
    /// Removes and destroys every entry the criterion matches, in entry
    /// order. Fails, changing nothing, exactly when an entry would have to
    /// be destroyed and no binding-object tier is available.
    fn purge_if(&mut self, device: &mut Device, kind: PurgeKind) -> (r: Result<(), BindingError>)
        requires
            old(self).wf(),
        ensures
            r is Ok <==> !(old(device).tier is None
                && exists|i: int| 0 <= i < old(self).vaos@.len()
                    && key_matches(kind, (#[trigger] old(self).vaos@[i]).0)),
            r is Err ==> r == Err::<(), BindingError>(BindingError::NoVertexArrayCapability)
                && *final(self) == *old(self) && *final(device) == *old(device),
            r is Ok ==> {
                &&& final(self).vaos@ == spec_kept(old(self).vaos@, kind)
                &&& final(self).wf()
                &&& (forall|i: int| 0 <= i < final(self).vaos@.len()
                    ==> !key_matches(kind, (#[trigger] final(self).vaos@[i]).0))
                &&& final(device).commands@ == old(device).commands@
                    + spec_purge_commands(old(self).vaos@, kind, old(device).vertex_array)
                &&& final(device).vertex_array
                    == spec_purge_final_va(old(self).vaos@, kind, old(device).vertex_array)
                &&& final(device).tier == old(device).tier
                &&& final(device).buffer_tier == old(device).buffer_tier
                &&& final(device).array_buffer == old(device).array_buffer
                &&& final(device).next_id == old(device).next_id
            },
    {
        let ghost orig = self.vaos@;
        let ghost va0 = old(device).vertex_array;
        if device.tier.is_none() {
            let mut i: usize = 0;
            while i < self.vaos.len()
                invariant
                    0 <= i <= self.vaos@.len(),
                    *self == *old(self),
                    *device == *old(device),
                    old(device).tier is None,
                    forall|k: int| 0 <= k < i ==> !key_matches(kind, (#[trigger] self.vaos@[k]).0),
                decreases self.vaos@.len() - i,
            {
                if key_matches_exec(&self.vaos[i].0, kind) {
                    proof {
                        assert(key_matches(kind, (old(self).vaos@[i as int]).0));
                    }
                    return Err(BindingError::NoVertexArrayCapability);
                }
                i += 1;
            }
            proof {
                lemma_purge_no_match(orig, kind, va0);
                lemma_kept_entries(orig, kind);
                assert(device.commands@ =~= old(device).commands@
                    + spec_purge_commands(orig, kind, va0));
            }
            return Ok(());
        }
        let mut kept: Vec<(CacheKey, VertexArrayObject)> = Vec::new();
        let ghost mut p: int = 0;
        proof {
            assert(orig.skip(0) =~= orig);
            assert(orig.take(0) =~= Seq::<(CacheKey, VertexArrayObject)>::empty());
        }
        while self.vaos.len() > 0
            invariant
                0 <= p <= orig.len(),
                orig == old(self).vaos@,
                va0 == old(device).vertex_array,
                entries_wf(orig),
                self.vaos@ == orig.skip(p),
                kept@ == spec_kept(orig.take(p), kind),
                device.commands@ == old(device).commands@ + spec_purge_commands(orig.take(p), kind, va0),
                device.vertex_array == spec_purge_final_va(orig.take(p), kind, va0),
                device.tier == old(device).tier,
                device.tier is Some,
                device.buffer_tier == old(device).buffer_tier,
                device.array_buffer == old(device).array_buffer,
                device.next_id == old(device).next_id,
            decreases self.vaos@.len(),
        {
            proof {
                assert(self.vaos@[0] == orig[p]);
            }
            let (key0, mut vao0) = self.vaos.remove(0);
            proof {
                assert(key0 == orig[p].0 && vao0 == orig[p].1);
                assert(self.vaos@ =~= orig.skip(p + 1));
                assert(orig.take(p + 1) =~= orig.take(p).push(orig[p]));
                lemma_purge_snoc(orig.take(p), orig[p], kind, va0);
            }
            if key_matches_exec(&key0, kind) {
                proof {
                    assert(vao0.alive);
                }
                let _ = vao0.destroy(device);
                proof {
                    assert(device.commands@ =~= old(device).commands@
                        + spec_purge_commands(orig.take(p + 1), kind, va0));
                    assert(kept@ =~= spec_kept(orig.take(p + 1), kind));
                }
            } else {
                kept.push((key0, vao0));
                proof {
                    assert((key0, vao0) == orig[p]);
                    assert(kept@ =~= spec_kept(orig.take(p + 1), kind));
                    assert(device.commands@ =~= old(device).commands@
                        + spec_purge_commands(orig.take(p + 1), kind, va0));
                }
            }
            proof {
                p = p + 1;
            }
        }
        proof {
            assert(p == orig.len());
            assert(orig.take(p) =~= orig);
        }
        self.vaos = kept;
        proof {
            lemma_kept_entries(orig, kind);
        }
        Ok(())
    }

    /// Must be called whenever a buffer is destroyed, before its handle is
    /// released: removes and destroys every cached binding set whose key
    /// names that buffer. Afterwards no entry's key contains the buffer.
    pub fn purge_buffer(&mut self, device: &mut Device, id: u32) -> (r: Result<(), BindingError>)
        requires
            old(self).wf(),
        ensures
            r is Ok <==> !(old(device).tier is None
                && exists|i: int| 0 <= i < old(self).vaos@.len()
                    && key_matches(PurgeKind::Buffer(id), (#[trigger] old(self).vaos@[i]).0)),
            r is Err ==> r == Err::<(), BindingError>(BindingError::NoVertexArrayCapability)
                && *final(self) == *old(self) && *final(device) == *old(device),
            r is Ok ==> {
                &&& final(self).vaos@ == spec_kept(old(self).vaos@, PurgeKind::Buffer(id))
                &&& final(self).wf()
                &&& (forall|i: int| 0 <= i < final(self).vaos@.len()
                    ==> !(#[trigger] final(self).vaos@[i]).0.id_set().contains(id))
                &&& final(device).commands@ == old(device).commands@
                    + spec_purge_commands(old(self).vaos@, PurgeKind::Buffer(id), old(device).vertex_array)
                &&& final(device).vertex_array
                    == spec_purge_final_va(old(self).vaos@, PurgeKind::Buffer(id), old(device).vertex_array)
                &&& final(device).tier == old(device).tier
                &&& final(device).buffer_tier == old(device).buffer_tier
                &&& final(device).array_buffer == old(device).array_buffer
                &&& final(device).next_id == old(device).next_id
            },
    {
        self.purge_if(device, PurgeKind::Buffer(id))
    }

    /// Must be called whenever a program is destroyed, before its handle is
    /// released: removes and destroys every cached binding set of that
    /// program. Afterwards no entry is cached for it.
    pub fn purge_program(&mut self, device: &mut Device, program: u64) -> (r: Result<(), BindingError>)
        requires
            old(self).wf(),
        ensures
            r is Ok <==> !(old(device).tier is None
                && exists|i: int| 0 <= i < old(self).vaos@.len()
                    && key_matches(PurgeKind::Program(program), (#[trigger] old(self).vaos@[i]).0)),
            r is Err ==> r == Err::<(), BindingError>(BindingError::NoVertexArrayCapability)
                && *final(self) == *old(self) && *final(device) == *old(device),
            r is Ok ==> {
                &&& final(self).vaos@ == spec_kept(old(self).vaos@, PurgeKind::Program(program))
                &&& final(self).wf()
                &&& (forall|i: int| 0 <= i < final(self).vaos@.len()
                    ==> (#[trigger] final(self).vaos@[i]).0.program != program)
                &&& final(device).commands@ == old(device).commands@
                    + spec_purge_commands(old(self).vaos@, PurgeKind::Program(program), old(device).vertex_array)
                &&& final(device).vertex_array
                    == spec_purge_final_va(old(self).vaos@, PurgeKind::Program(program), old(device).vertex_array)
                &&& final(device).tier == old(device).tier
                &&& final(device).buffer_tier == old(device).buffer_tier
                &&& final(device).array_buffer == old(device).array_buffer
                &&& final(device).next_id == old(device).next_id
            },
    {
        self.purge_if(device, PurgeKind::Program(program))
    }

    /// Removes and destroys every cached binding set; the cache object
    /// itself stays usable. Used when the rendering context is torn down
    /// but the cache will be reused.
    pub fn purge_all(&mut self, device: &mut Device) -> (r: Result<(), BindingError>)
        requires
            old(self).wf(),
        ensures
            r is Ok <==> !(old(device).tier is None && old(self).vaos@.len() > 0),
            r is Err ==> r == Err::<(), BindingError>(BindingError::NoVertexArrayCapability)
                && *final(self) == *old(self) && *final(device) == *old(device),
            r is Ok ==> {
                &&& final(self).vaos@.len() == 0
                &&& final(self).wf()
                &&& final(device).commands@ == old(device).commands@
                    + spec_purge_commands(old(self).vaos@, PurgeKind::All, old(device).vertex_array)
                &&& final(device).vertex_array
                    == spec_purge_final_va(old(self).vaos@, PurgeKind::All, old(device).vertex_array)
                &&& final(device).tier == old(device).tier
                &&& final(device).buffer_tier == old(device).buffer_tier
                &&& final(device).array_buffer == old(device).array_buffer
                &&& final(device).next_id == old(device).next_id
            },
    {
        let r = self.purge_if(device, PurgeKind::All);
        proof {
            if old(device).tier is None && old(self).vaos@.len() > 0 {
                assert(key_matches(PurgeKind::All, old(self).vaos@[0].0));
            }
            if r is Ok && self.vaos@.len() > 0 {
                assert(!key_matches(PurgeKind::All, self.vaos@[0].0));
                assert(false);
            }
        }
        r
    }

    /// Like [`Self::purge_all`], for the moment the cache itself is about
    /// to be discarded.
    pub fn cleanup(&mut self, device: &mut Device) -> (r: Result<(), BindingError>)
        requires
            old(self).wf(),
        ensures
            r is Ok <==> !(old(device).tier is None && old(self).vaos@.len() > 0),
            r is Err ==> r == Err::<(), BindingError>(BindingError::NoVertexArrayCapability)
                && *final(self) == *old(self) && *final(device) == *old(device),
            r is Ok ==> {
                &&& final(self).vaos@.len() == 0
                &&& final(self).wf()
                &&& final(device).commands@ == old(device).commands@
                    + spec_purge_commands(old(self).vaos@, PurgeKind::All, old(device).vertex_array)
                &&& final(device).vertex_array
                    == spec_purge_final_va(old(self).vaos@, PurgeKind::All, old(device).vertex_array)
                &&& final(device).tier == old(device).tier
                &&& final(device).buffer_tier == old(device).buffer_tier
                &&& final(device).array_buffer == old(device).array_buffer
                &&& final(device).next_id == old(device).next_id
            },
    {
        self.purge_all(device)
    }
}

/// Cache identity: two requests keyed on the same identifier set and bound
/// to the same program identity are served by the same cache entry, and so
/// reuse the same binding-set resource rather than constructing a new one.
pub proof fn lemma_cache_identity(sys: VertexAttributesSystem, ids1: Seq<u32>, ib1: u32, ids2: Seq<u32>, ib2: u32, program: u64)
    requires
        spec_key_ids(ids1, ib1) == spec_key_ids(ids2, ib2),
        sys.has_entry(spec_key_ids(ids1, ib1), program),
    ensures
        sys.has_entry(spec_key_ids(ids2, ib2), program),
        sys.cached_id(spec_key_ids(ids2, ib2), program) == sys.cached_id(spec_key_ids(ids1, ib1), program),
{
}

/// A short-lived, per-draw accumulator of vertex sources, bound to one
/// program and one index buffer, consumed by [`Binder::bind`].
pub struct Binder<'a> {
    pub program: &'a Program,
    pub element_array_buffer: u32,
    pub vertex_buffers: Vec<VertexSource>,
}

impl<'a> Binder<'a> {
    /// The identifier set this request is keyed on.
    pub open spec fn req_ids(self) -> Set<u32> {
        spec_key_ids(spec_source_ids(self.vertex_buffers@), self.element_array_buffer)
    }

    /// The views of this request's sources.
    pub open spec fn req_sources(self) -> Seq<VertexSourceV> {
        sources_view(self.vertex_buffers@)
    }

    /// Appends one vertex source, pulling identifier, layout and stride from
    /// the buffer at call time. A nonzero first-element offset is explicitly
    /// unsupported: the call fails and the pending request is unchanged.
    pub fn add(&mut self, buffer: &VertexBufferInfo, first: usize, divisor: Option<u32>) -> (r: Result<(), BindingError>)
        ensures
            first != 0 ==> r == Err::<(), BindingError>(BindingError::UnsupportedFirstElement { first })
                && *final(self) == *old(self),
            first == 0 ==> {
                &&& r is Ok
                &&& final(self).program == old(self).program
                &&& final(self).element_array_buffer == old(self).element_array_buffer
                &&& final(self).req_sources() == old(self).req_sources().push(
                    VertexSourceV {
                        buffer: buffer.id,
                        bindings: entries_view(buffer.bindings@),
                        stride: buffer.elements_size,
                        divisor,
                    },
                )
                &&& spec_source_ids(final(self).vertex_buffers@)
                    == spec_source_ids(old(self).vertex_buffers@).push(buffer.id)
                &&& final(self).req_ids() == old(self).req_ids().insert(buffer.id)
            },
    {
        if first != 0 {
            return Err(BindingError::UnsupportedFirstElement { first });
        }
        let bindings = clone_entries(&buffer.bindings);
        let source = VertexSource { buffer: buffer.id, bindings, stride: buffer.elements_size, divisor };
        self.vertex_buffers.push(source);
        proof {
            let os = old(self).vertex_buffers@;
            let ns = self.vertex_buffers@;
            assert(ns == os.push(source));
            assert(source@ == (VertexSourceV {
                buffer: buffer.id,
                bindings: entries_view(buffer.bindings@),
                stride: buffer.elements_size,
                divisor,
            }));
            assert(sources_view(ns) =~= sources_view(os).push(source@));
            assert(spec_source_ids(ns) =~= spec_source_ids(os).push(buffer.id));
            assert(spec_key_ids(spec_source_ids(ns), self.element_array_buffer)
                =~= spec_key_ids(spec_source_ids(os), self.element_array_buffer).insert(buffer.id)) by {
                let a = spec_source_ids(os);
                let b = spec_source_ids(ns);
                assert forall|y: u32| b.contains(y) implies a.contains(y) || y == buffer.id by {
                    let k = choose|k: int| 0 <= k < b.len() && b[k] == y;
                    if k < a.len() {
                        assert(a[k] == y);
                    }
                }
                assert forall|y: u32| a.contains(y) implies b.contains(y) by {
                    let k = choose|k: int| 0 <= k < a.len() && a[k] == y;
                    assert(b[k] == y);
                }
                assert(b.contains(buffer.id)) by {
                    assert(b[a.len() as int] == buffer.id);
                }
            }
        }
        Ok(())
    }

    /// Finishes the request: computes the canonical key, reuses the cached
    /// binding set when one exists (activating it only when it is not
    /// already active), and otherwise validates, constructs, activates and
    /// caches a new one. Returns the handle of the binding set in use.
    pub fn bind(self, system: &mut VertexAttributesSystem, device: &mut Device) -> (r: Result<u32, BindingError>)
        requires
            old(system).wf(),
            old(device).wf(),
            old(device).can_allocate(),
            self.program.wf(),
        ensures
            old(system).has_entry(self.req_ids(), self.program.id) ==> {
                &&& *final(system) == *old(system)
                &&& {
                    let cid = old(system).cached_id(self.req_ids(), self.program.id);
                    &&& (old(device).vertex_array == cid
                        ==> r == Ok::<u32, BindingError>(cid) && *final(device) == *old(device))
                    &&& (old(device).vertex_array != cid && old(device).tier is Some ==> {
                        &&& r == Ok::<u32, BindingError>(cid)
                        &&& final(device).commands@ == old(device).commands@
                            + spec_bind_vao_commands(old(device).vertex_array, cid)
                        &&& final(device).vertex_array == cid
                        &&& final(device).tier == old(device).tier
                        &&& final(device).buffer_tier == old(device).buffer_tier
                        &&& final(device).array_buffer == old(device).array_buffer
                        &&& final(device).next_id == old(device).next_id
                    })
                    &&& (old(device).vertex_array != cid && old(device).tier is None
                        ==> r == Err::<u32, BindingError>(BindingError::NoVertexArrayCapability)
                            && *final(device) == *old(device))
                }
            },
            !old(system).has_entry(self.req_ids(), self.program.id) ==> {
                &&& (r is Ok <==> spec_construction_ok(
                    self.req_sources(), self.program@, old(device).tier, old(device).buffer_tier))
                &&& (r is Err ==> *final(device) == *old(device) && *final(system) == *old(system))
                &&& (has_mismatch(self.req_sources(), self.program@)
                    ==> (r matches Err(e) && is_mismatch_witness(e, self.req_sources(), self.program@)))
                &&& (!has_mismatch(self.req_sources(), self.program@)
                    && has_missing(self.req_sources(), self.program@)
                    ==> (r matches Err(e) && is_missing_witness(e, self.req_sources(), self.program@)))
                &&& (!has_mismatch(self.req_sources(), self.program@)
                    && !has_missing(self.req_sources(), self.program@)
                    && old(device).tier is None
                    ==> r == Err::<u32, BindingError>(BindingError::NoVertexArrayCapability))
                &&& (!has_mismatch(self.req_sources(), self.program@)
                    && !has_missing(self.req_sources(), self.program@)
                    && old(device).tier is Some
                    && old(device).buffer_tier is None
                    ==> r == Err::<u32, BindingError>(BindingError::NoBufferCapability))
                &&& (r matches Ok(rid) ==> {
                    &&& rid == old(device).next_id
                    &&& final(device).commands@ == old(device).commands@
                        + spec_construction_commands(
                            self.req_sources(),
                            self.element_array_buffer,
                            self.program@,
                            old(device).vertex_array,
                            old(device).next_id,
                            old(device).array_buffer,
                        )
                    &&& final(device).vertex_array == old(device).next_id
                    &&& final(device).next_id == old(device).next_id + 1
                    &&& final(device).tier == old(device).tier
                    &&& final(device).buffer_tier == old(device).buffer_tier
                    &&& final(device).array_buffer
                        == spec_final_array_buffer(self.req_sources(), old(device).array_buffer)
                    &&& final(system).vaos@.len() == old(system).vaos@.len() + 1
                    &&& (forall|k: int| 0 <= k < old(system).vaos@.len()
                        ==> final(system).vaos@[k] == old(system).vaos@[k])
                    &&& final(system).vaos@.last().0.wf()
                    &&& final(system).vaos@.last().0.id_set() == self.req_ids()
                    &&& final(system).vaos@.last().0.program == self.program.id
                    &&& final(system).vaos@.last().1.id == rid
                    &&& final(system).vaos@.last().1.alive
                })
            },
            r matches Ok(rid) ==> {
                &&& final(system).wf()
                &&& final(system).has_entry(self.req_ids(), self.program.id)
                &&& final(system).cached_id(self.req_ids(), self.program.id) == rid
            },
            r is Err ==> *final(system) == *old(system) && final(system).wf(),
    {
        let ghost ids = self.req_ids();

        let mut buffer_ids: Vec<u32> = Vec::new();
        let mut i: usize = 0;
        while i < self.vertex_buffers.len()
            invariant
                0 <= i <= self.vertex_buffers@.len(),
                buffer_ids@.len() == i,
                forall|k: int| 0 <= k < i ==> buffer_ids@[k] == (#[trigger] self.vertex_buffers@[k]).buffer,
            decreases self.vertex_buffers@.len() - i,
        {
            buffer_ids.push(self.vertex_buffers[i].buffer);
            i += 1;
        }
        proof {
            assert(buffer_ids@ =~= spec_source_ids(self.vertex_buffers@));
        }
        let sorted = sorted_id_list(&buffer_ids, self.element_array_buffer);
        let program_id = self.program.id;
        proof {
            assert(sorted@.to_set() == ids);
        }

        let mut idx: usize = 0;
        while idx < system.vaos.len()
            invariant
                0 <= idx <= system.vaos@.len(),
                ids == self.req_ids(),
                program_id == self.program.id,
                *system == *old(system),
                *device == *old(device),
                old(system).wf(),
                strictly_sorted(sorted@),
                sorted@.to_set() == ids,
                forall|k: int| 0 <= k < idx
                    ==> !((#[trigger] system.vaos@[k]).0.buffers@ == sorted@
                        && system.vaos@[k].0.program == program_id),
            decreases system.vaos@.len() - idx,
        {
            if ids_equal(&system.vaos[idx].0.buffers, &sorted) && system.vaos[idx].0.program == program_id {
                proof {
                    assert(system.vaos@[idx as int].0.buffers@ == sorted@);
                    assert(system.vaos@[idx as int].0.id_set() == ids);
                    assert(old(system).has_entry(ids, program_id));
                }
                let cid = system.vaos[idx].1.id;
                proof {
                    let ei = old(system).entry_index(ids, program_id);
                    assert(0 <= ei < system.vaos@.len()
                        && system.vaos@[ei].0.id_set() == ids
                        && system.vaos@[ei].0.program == program_id);
                    if ei != idx as int {
                        if ei < idx as int {
                            assert(!(system.vaos@[ei].0.id_set() == system.vaos@[idx as int].0.id_set()
                                && system.vaos@[ei].0.program == system.vaos@[idx as int].0.program));
                        } else {
                            assert(!(system.vaos@[idx as int].0.id_set() == system.vaos@[ei].0.id_set()
                                && system.vaos@[idx as int].0.program == system.vaos@[ei].0.program));
                        }
                        assert(false);
                    }
                    assert(old(system).cached_id(ids, program_id) == cid);
                }
                return match bind_vao(device, cid) {
                    Ok(()) => Ok(cid),
                    Err(e) => Err(e),
                };
            }
            idx += 1;
        }
        proof {
            assert(!old(system).has_entry(ids, program_id)) by {
                if old(system).has_entry(ids, program_id) {
                    let w = old(system).entry_index(ids, program_id);
                    assert(0 <= w < system.vaos@.len()
                        && system.vaos@[w].0.id_set() == ids
                        && system.vaos@[w].0.program == program_id);
                    assert(system.vaos@[w].0.wf());
                    lemma_strictly_sorted_same_set(system.vaos@[w].0.buffers@, sorted@);
                    assert(false);
                }
            }
        }

        let vao = match VertexArrayObject::new(device, &self.vertex_buffers, self.element_array_buffer, self.program) {
            Ok(v) => v,
            Err(e) => {
                return Err(e);
            },
        };
        let new_id = vao.get_id();
        let _ = bind_vao(device, new_id);
        system.vaos.push((CacheKey { buffers: sorted, program: program_id }, vao));
        proof {
            let ov = old(system).vaos@;
            let nv = system.vaos@;
            let n = ov.len() as int;
            assert(nv.len() == n + 1);
            assert(forall|k: int| 0 <= k < n ==> nv[k] == ov[k]);
            assert(nv[n].0.id_set() == ids);
            assert(nv[n].0.program == program_id);
            assert(system.wf()) by {
                assert forall|a: int| 0 <= a < nv.len() implies (#[trigger] nv[a]).0.wf() && nv[a].1.alive by {
                    if a < n {
                        assert(ov[a].0.wf() && ov[a].1.alive);
                    }
                }
                assert forall|a: int, b: int| 0 <= a < b < nv.len() implies
                    !((#[trigger] nv[a]).0.id_set() == (#[trigger] nv[b]).0.id_set()
                        && nv[a].0.program == nv[b].0.program) by {
                    if b < n {
                        assert(!(ov[a].0.id_set() == ov[b].0.id_set() && ov[a].0.program == ov[b].0.program));
                    } else {
                        assert(b == n);
                        if nv[a].0.id_set() == ids && nv[a].0.program == program_id {
                            assert(old(system).has_entry(ids, program_id));
                            assert(false);
                        }
                    }
                }
            }
            assert(system.has_entry(ids, program_id)) by {
                assert(nv[n].0.id_set() == ids && nv[n].0.program == program_id);
            }
            let ei = system.entry_index(ids, program_id);
            assert(0 <= ei < nv.len() && nv[ei].0.id_set() == ids && nv[ei].0.program == program_id);
            if ei < n {
                assert(ov[ei].0.id_set() == ids && ov[ei].0.program == program_id);
                assert(old(system).has_entry(ids, program_id));
                assert(false);
            }
            assert(system.cached_id(ids, program_id) == new_id);
        }
        Ok(new_id)
    }
}

} // verus!
