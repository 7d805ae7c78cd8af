//! The transform registry: a hierarchy of local transforms addressed by id,
//! with world-space (global) transforms resolved on demand by walking the
//! parent chain.
//!
//! Ids are handed out by a strictly increasing counter, and a node's kept
//! parent is always an id that was issued earlier, so every parent chain
//! is provably acyclic and resolution provably terminates.  Resolution
//! walks the chain and reports a lookup miss (absent) if any ancestor has
//! left the map.

use std::collections::HashMap;

use vstd::prelude::*;

use crate::math::{compose, BasicTransform, Quat, Vec3};

verus! {

broadcast use vstd::std_specs::hash::group_hash_axioms;

/// Identifies one transform node in a [`TransformRegistry`].
#[derive(Clone, Copy, Debug, PartialEq, Eq, Structural, Hash)]
pub struct TransformId(pub u64);

/// The transform node stored in the registry: a parent link, the
/// parent-relative (local) transform, and the most recently resolved
/// world-space (global) transform.  The stored `global` field is only a
/// scratch value; [`TransformRegistry::get`] always returns a node whose
/// `global` has been freshly resolved from the parent chain.
#[derive(Clone, Copy, Debug, PartialEq, Eq, Structural, Hash)]
pub struct RegistryTransform {
    pub id: TransformId,
    pub parent: Option<TransformId>,
    pub local: BasicTransform,
    pub global: BasicTransform,
}

impl RegistryTransform {
    pub fn id(&self) -> (r: TransformId)
        ensures
            r == self.id,
    {
        self.id
    }

    pub open spec fn spec_id(self) -> TransformId {
        self.id
    }

    pub fn parent(&self) -> (r: Option<TransformId>)
        ensures
            r == self.parent,
    {
        self.parent
    }

    pub open spec fn spec_parent(self) -> Option<TransformId> {
        self.parent
    }

    pub fn local(&self) -> (r: BasicTransform)
        ensures
            r == self.local,
    {
        self.local
    }

    pub open spec fn spec_local(self) -> BasicTransform {
        self.local
    }

    /// Mutable access to the local transform; the caller's writes through
    /// the returned reference land in this node's local transform.
    pub fn local_mut(&mut self) -> (r: &mut BasicTransform)
        ensures
            *r == old(self).local,
            final(self).local == *final(r),
            final(self).id == old(self).id,
            final(self).parent == old(self).parent,
            final(self).global == old(self).global,
    {
        &mut self.local
    }

    pub fn global(&self) -> (r: BasicTransform)
        ensures
            r == self.global,
    {
        self.global
    }

    pub open spec fn spec_global(self) -> BasicTransform {
        self.global
    }
}

/// The acyclicity skeleton of a node map: every node sits under its own
/// id and every parent link names a strictly smaller id.  Nothing here
/// asks the parent to be present: an absent ancestor is tolerated and
/// surfaces as a lookup miss during resolution.
pub open spec fn parents_decreasing(m: Map<u64, RegistryTransform>) -> bool {
    forall|i: u64| #[trigger] m.contains_key(i) ==> {
        &&& m[i].spec_id() == TransformId(i)
        &&& match m[i].spec_parent() {
            Some(p) => p.0 < i,
            None => true,
        }
    }
}

/// Well-formedness of the stored nodes against the registry's id
/// counter: the skeleton above, and every id below the counter.
pub open spec fn nodes_wf(m: Map<u64, RegistryTransform>, next: u64) -> bool {
    &&& parents_decreasing(m)
    &&& forall|i: u64| #[trigger] m.contains_key(i) ==> i < next
}

/// The world-space transform of node `id`, or absent when the node or
/// any of its ancestors is missing from the map: a node's resolved
/// transform is its local transform if it has no parent, and otherwise
/// the parent's resolved transform composed with the node's local
/// transform.
pub open spec fn resolved_global(m: Map<u64, RegistryTransform>, id: u64) -> Option<BasicTransform>
    decreases id
        when parents_decreasing(m)
{
    if !m.contains_key(id) {
        None
    } else {
        match m[id].spec_parent() {
            None => Some(m[id].spec_local()),
            Some(p) => match resolved_global(m, p.0) {
                None => None,
                Some(g) => Some(compose(g, m[id].spec_local())),
            },
        }
    }
}

/// A handle to one transform node.  It is bound to the registry that
/// issued it; all accessors take that registry explicitly.
#[derive(Clone, Copy, Debug, PartialEq, Eq, Structural, Hash)]
pub struct Transform {
    pub id: TransformId,
}

/// The registry that stores transforms and manages the hierarchy.
#[derive(Clone, Debug)]
pub struct TransformRegistry {
    transforms: HashMap<u64, RegistryTransform>,
    next_id: u64,
}

impl View for TransformRegistry {
    type V = Map<u64, RegistryTransform>;

    closed spec fn view(&self) -> Map<u64, RegistryTransform> {
        self.transforms@
    }
}

impl TransformRegistry {
    /// The id the registry will assign to the next transform created.
    pub closed spec fn next_key(self) -> u64 {
        self.next_id
    }

    /// Validity of a registry value: its stored nodes are well-formed
    /// with respect to its id counter.  Every registry the library hands
    /// out satisfies it, and every mutation preserves it.
    pub open spec fn wf(self) -> bool {
        nodes_wf(self@, self.next_key())
    }

    pub fn new() -> (r: Self)
        ensures
            r@ == Map::<u64, RegistryTransform>::empty(),
            r.next_key() == 0,
            r.wf(),
    {
        Self { transforms: HashMap::new(), next_id: 0 }
    }

    /// Creates a new transform node and returns a handle to it.  A parent
    /// link is kept when it names an id this registry issued earlier
    /// (below its counter); an id that was never issued here cannot be an
    /// ancestor and the link is skipped as a lookup miss.
    pub fn transform(
        &mut self,
        translation: Vec3,
        rotation: Quat,
        scale: Vec3,
        parent: Option<TransformId>,
    ) -> (t: Transform)
        requires
            old(self).wf(),
            old(self).next_key() < u64::MAX,
        ensures
            final(self).wf(),
            t.spec_id() == TransformId(old(self).next_key()),
            !old(self)@.contains_key(old(self).next_key()),
            final(self).next_key() == old(self).next_key() + 1,
            final(self)@ == old(self)@.insert(
                old(self).next_key(),
                (RegistryTransform {
                    id: TransformId(old(self).next_key()),
                    parent: (match parent {
                        Some(p) => if p.0 < old(self).next_key() { Some(p) } else { None },
                        None => None,
                    }),
                    local: (BasicTransform { translation, rotation, scale }),
                    global: (BasicTransform { translation, rotation, scale }),
                }),
            ),
    {
        let id = self.next_id;
        let kept_parent = match parent {
            Some(p) => {
                if p.0 < id {
                    Some(p)
                } else {
                    None
                }
            },
            None => None,
        };
        let node = RegistryTransform {
            id: TransformId(id),
            parent: kept_parent,
            local: BasicTransform { translation, rotation, scale },
            global: BasicTransform { translation, rotation, scale },
        };
        self.transforms.insert(id, node);
        self.next_id = id + 1;
        proof {
            assert forall|i: u64| #[trigger] self.transforms@.contains_key(i) implies {
                &&& i < self.next_id
                &&& self.transforms@[i].spec_id() == TransformId(i)
                &&& match self.transforms@[i].spec_parent() {
                    Some(p) => p.0 < i,
                    None => true,
                }
            } by {
                if i != id {
                    assert(old(self)@.contains_key(i));
                }
            }
        }
        Transform { id: TransformId(id) }
    }

    /// Returns the node for `id` with its global transform freshly
    /// resolved from the parent chain.  Absent when the id is unknown or
    /// when any ancestor of the node has left the map: an absent ancestor
    /// is a lookup miss for the whole chain.
    pub fn get(&self, id: TransformId) -> (r: Option<RegistryTransform>)
        requires
            self.wf(),
        ensures
            r is Some <==> resolved_global(self@, id.0) is Some,
            r matches Some(n) ==> self@.contains_key(id.0) && n == (RegistryTransform {
                global: resolved_global(self@, id.0)->0,
                ..self@[id.0]
            }),
        decreases id.0,
    {
        let mut node = match self.transforms.get(&id.0) {
            Some(n) => *n,
            None => {
                return None;
            },
        };
        match node.parent {
            Some(p) => {
                let parent_node = self.get(p);
                match parent_node {
                    Some(pn) => {
                        node.global = pn.global.add(node.local);
                        Some(node)
                    },
                    None => None,
                }
            },
            None => {
                node.global = node.local;
                Some(node)
            },
        }
    }

    /// Replaces the local transform of `id`, leaving the global transform
    /// to be recomputed lazily on the next read.  Returns `None` for an
    /// unknown id, which leaves the registry unchanged.
    pub fn set(&mut self, id: TransformId, transform: BasicTransform) -> (r: Option<()>)
        requires
            old(self).wf(),
        ensures
            final(self).wf(),
            r is Some <==> old(self)@.contains_key(id.0),
            final(self).next_key() == old(self).next_key(),
            old(self)@.contains_key(id.0) ==> final(self)@ == old(self)@.insert(
                id.0,
                (RegistryTransform { local: transform, ..old(self)@[id.0] }),
            ),
            !old(self)@.contains_key(id.0) ==> final(self)@ == old(self)@,
    {
        let node = match self.transforms.get(&id.0) {
            Some(n) => *n,
            None => {
                return None;
            },
        };
        let updated = RegistryTransform { local: transform, ..node };
        self.transforms.insert(id.0, updated);
        proof {
            assert forall|i: u64| #[trigger] self.transforms@.contains_key(i) implies {
                &&& i < self.next_id
                &&& self.transforms@[i].spec_id() == TransformId(i)
                &&& match self.transforms@[i].spec_parent() {
                    Some(p) => p.0 < i,
                    None => true,
                }
            } by {
                assert(old(self)@.contains_key(i));
            }
        }
        Some(())
    }
}

impl Transform {
    pub fn id(&self) -> (r: TransformId)
        ensures
            r == self.id,
    {
        self.id
    }

    pub open spec fn spec_id(self) -> TransformId {
        self.id
    }

    /// The local transform of this node in `registry`; absent when the
    /// node or any of its ancestors cannot be resolved there.
    pub fn local(&self, registry: &TransformRegistry) -> (r: Option<BasicTransform>)
        requires
            registry.wf(),
        ensures
            r is Some <==> resolved_global(registry@, self.spec_id().0) is Some,
            r matches Some(t) ==> registry@.contains_key(self.spec_id().0) && t == registry@[self.spec_id().0].spec_local(),
    {
        match registry.get(self.id) {
            Some(n) => Some(n.local()),
            None => None,
        }
    }

    /// The resolved world-space transform of this node in `registry`;
    /// absent when the node or any of its ancestors cannot be resolved
    /// there.
    pub fn global(&self, registry: &TransformRegistry) -> (r: Option<BasicTransform>)
        requires
            registry.wf(),
        ensures
            r is Some <==> resolved_global(registry@, self.spec_id().0) is Some,
            r matches Some(t) ==> Some(t) == resolved_global(registry@, self.spec_id().0),
    {
        match registry.get(self.id) {
            Some(n) => Some(n.global()),
            None => None,
        }
    }

    /// Runs the provided function on this node's current local transform
    /// and writes the result back, atomically with respect to other
    /// mutators of the same registry; returns the new local transform.
    /// Absent when the node's chain cannot be resolved, which leaves the
    /// registry unchanged.
    pub fn with_mut<F: FnOnce(BasicTransform) -> BasicTransform>(
        &self,
        registry: &mut TransformRegistry,
        f: F,
    ) -> (r: Option<BasicTransform>)
        requires
            old(registry).wf(),
            forall|t: BasicTransform| call_requires(f, (t,)),
        ensures
            final(registry).wf(),
            final(registry).next_key() == old(registry).next_key(),
            r is Some <==> resolved_global(old(registry)@, self.spec_id().0) is Some,
            r matches Some(updated) ==> call_ensures(
                f,
                (old(registry)@[self.spec_id().0].spec_local(),),
                updated,
            ) && final(registry)@ == old(registry)@.insert(
                self.spec_id().0,
                (RegistryTransform { local: updated, ..old(registry)@[self.spec_id().0] }),
            ),
            r is None ==> final(registry)@ == old(registry)@,
    {
        let current = match registry.get(self.id) {
            Some(n) => n.local(),
            None => {
                return None;
            },
        };
        let updated = f(current);
        registry.set(self.id, updated);
        Some(updated)
    }

    /// Replaces the local transform of this node in `registry`.
    pub fn set(&self, registry: &mut TransformRegistry, transform: BasicTransform) -> (r: Option<()>)
        requires
            old(registry).wf(),
        ensures
            final(registry).wf(),
            r is Some <==> old(registry)@.contains_key(self.spec_id().0),
            final(registry).next_key() == old(registry).next_key(),
            old(registry)@.contains_key(self.spec_id().0) ==> final(registry)@ == old(registry)@.insert(
                self.spec_id().0,
                (RegistryTransform { local: transform, ..old(registry)@[self.spec_id().0] }),
            ),
            !old(registry)@.contains_key(self.spec_id().0) ==> final(registry)@ == old(registry)@,
    {
        registry.set(self.id, transform)
    }
}

/// A transform with no parent resolves to its local transform: its global
/// and local transforms always agree.
pub proof fn lemma_root_global_is_local(m: Map<u64, RegistryTransform>, id: u64)
    requires
        parents_decreasing(m),
        m.contains_key(id),
        m[id].spec_parent() is None,
    ensures
        resolved_global(m, id) == Some(m[id].spec_local()),
{
}

/// For any parent/child link, at any depth of the hierarchy: when the
/// parent resolves, the child's resolved transform is the parent's
/// resolved transform composed with the child's local transform; when
/// the parent's chain misses, the child's resolution is the same lookup
/// miss.
pub proof fn lemma_child_global_composes(m: Map<u64, RegistryTransform>, c: u64)
    requires
        parents_decreasing(m),
        m.contains_key(c),
        m[c].spec_parent() is Some,
    ensures
        resolved_global(m, (m[c].spec_parent()->0).0) matches Some(g) ==> resolved_global(m, c)
            == Some(compose(g, m[c].spec_local())),
        resolved_global(m, (m[c].spec_parent()->0).0) is None ==> resolved_global(m, c) is None,
{
}

/// An absent ancestor is a lookup miss: a node whose parent link names
/// an id outside the map does not resolve.
pub proof fn lemma_dangling_parent_misses(m: Map<u64, RegistryTransform>, c: u64)
    requires
        parents_decreasing(m),
        m.contains_key(c),
        m[c].spec_parent() matches Some(p) && !m.contains_key(p.0),
    ensures
        resolved_global(m, c) is None,
{
    assert(resolved_global(m, (m[c].spec_parent()->0).0) is None);
}

/// Resolution is a pure function of the registry contents: without an
/// intervening mutation, two reads of the same id resolve to the same
/// value.
pub proof fn lemma_get_deterministic(
    m: Map<u64, RegistryTransform>,
    id: u64,
    first: Option<BasicTransform>,
    second: Option<BasicTransform>,
)
    requires
        first == resolved_global(m, id),
        second == resolved_global(m, id),
    ensures
        first == second,
{
}

/// Nothing is cached across mutations: after a parent's local transform
/// is replaced, the very next resolution of a child already composes with
/// the new parent transform.  Stated here for a parentless parent, which
/// is the shape of the scenario the engine exercises.
pub proof fn lemma_set_parent_visible(
    m: Map<u64, RegistryTransform>,
    p: u64,
    c: u64,
    l: BasicTransform,
)
    requires
        parents_decreasing(m),
        m.contains_key(c),
        m.contains_key(p),
        m[c].spec_parent() == Some(TransformId(p)),
        m[p].spec_parent() is None,
    ensures
        ({
            let m2 = m.insert(p, (RegistryTransform { local: l, ..m[p] }));
            resolved_global(m2, c) == Some(compose(l, m[c].spec_local()))
        }),
{
    let m2 = m.insert(p, (RegistryTransform { local: l, ..m[p] }));
    assert(parents_decreasing(m2));
    assert(p < c);
    assert(m2[c] == m[c]);
    assert(resolved_global(m2, p) == Some(l));
}

} // verus!
