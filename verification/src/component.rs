//! Typed components and the per-entity component store.
//!
//! A component is a typed, labeled data fragment; an entity carries at most
//! one component of each kind, and inserting a component replaces any
//! previous component of the same kind.

use std::collections::HashMap;

use vstd::prelude::*;

use crate::physics::PhysicsBody;
use crate::transform::Transform;

verus! {

broadcast use vstd::std_specs::hash::group_hash_axioms;

/// The kinds of component the engine knows; the store is keyed by kind.
#[derive(Clone, Copy, Debug, PartialEq, Eq, Structural, Hash)]
pub enum ComponentKind {
    Transform,
    PhysicsBody,
    Parent,
    Children,
}

/// The key under which a component kind is stored.
pub open spec fn kind_code(k: ComponentKind) -> u64 {
    match k {
        ComponentKind::Transform => 0,
        ComponentKind::PhysicsBody => 1,
        ComponentKind::Parent => 2,
        ComponentKind::Children => 3,
    }
}

/// Exec twin of [`kind_code`].
pub fn component_code(k: ComponentKind) -> (r: u64)
    ensures
        r == kind_code(k),
{
    match k {
        ComponentKind::Transform => 0,
        ComponentKind::PhysicsBody => 1,
        ComponentKind::Parent => 2,
        ComponentKind::Children => 3,
    }
}

/// Links a child entity to its parent entity.
#[derive(Clone, Copy, Debug, PartialEq, Eq, Structural, Hash)]
pub struct Parent {
    pub parent: u64,
    pub child: u64,
}

impl Parent {
    pub fn new(parent: u64, child: u64) -> (r: Self)
        ensures
            r == (Parent { parent, child }),
    {
        Self { parent, child }
    }

    pub fn get_id(&self) -> (r: u64)
        ensures
            r == self.parent,
    {
        self.parent
    }
}

/// Lists the child entities of a parent entity.
#[derive(Clone, Debug, PartialEq, Eq)]
pub struct Children {
    pub parent: u64,
    pub children: Vec<u64>,
}

impl Children {
    pub fn new(parent: u64, children: Vec<u64>) -> (r: Self)
        ensures
            r.parent == parent,
            r.children@ == children@,
    {
        Self { parent, children }
    }

    pub fn get_ids(&self) -> (r: &Vec<u64>)
        ensures
            r@ == self.children@,
    {
        &self.children
    }

    /// Registers each given entity as a child of `parent`: stamps it
    /// with a `Parent` component naming `parent` and its own id, adds it
    /// to the registry, and records the child ids in creation order.
    /// Every entity the registry held before that is not among the
    /// children is left exactly as it was; a child stored under an id
    /// that repeats keeps the last stamping.
    pub fn attach(
        parent: u64,
        children: Vec<crate::entity::Entity>,
        entities: &mut crate::entity::EntityRegistry,
    ) -> (r: Children)
        requires
            old(entities).wf(),
        ensures
            final(entities).wf(),
            r.parent == parent,
            r.children@.len() == children@.len(),
            forall|j: int| 0 <= j < children@.len() ==> r.children@[j] == children@[j].id,
            forall|j: int| #![auto] 0 <= j < children@.len() ==> final(entities)@.contains_key(
                children@[j].id,
            ),
            forall|j: int| #![auto] 0 <= j < children@.len() && (forall|l: int|
                j < l < children@.len() ==> children@[l].id != children@[j].id)
                ==> stamped(children@[j], final(entities)@[children@[j].id], parent),
            forall|k: u64| (forall|j: int| #![auto] 0 <= j < children@.len() ==> children@[j].id != k)
                ==> ((#[trigger] final(entities)@.contains_key(k) <==> old(entities)@.contains_key(
                k,
            )) && (old(entities)@.contains_key(k) ==> final(entities)@[k] == old(entities)@[k])),
    {
        let ghost orig = children@;
        let mut children = children;
        let mut ids: Vec<u64> = Vec::new();
        let ghost mut i: int = 0;
        while children.len() > 0
            invariant
                0 <= i <= orig.len(),
                children@ == orig.subrange(i, orig.len() as int),
                entities.wf(),
                ids@.len() == i,
                forall|j: int| 0 <= j < i ==> ids@[j] == orig[j].id,
                forall|j: int| #![auto] 0 <= j < i ==> entities@.contains_key(orig[j].id),
                forall|j: int| #![auto] 0 <= j < i && (forall|l: int|
                    j < l < i ==> orig[l].id != orig[j].id) ==> stamped(
                    orig[j],
                    entities@[orig[j].id],
                    parent,
                ),
                forall|k: u64| (forall|j: int| #![auto] 0 <= j < i ==> orig[j].id != k) ==> ((
                #[trigger] entities@.contains_key(k) <==> old(entities)@.contains_key(k)) && (old(
                    entities,
                )@.contains_key(k) ==> entities@[k] == old(entities)@[k])),
            decreases children@.len(),
        {
            let mut child = children.remove(0);
            proof {
                assert(child == orig[i]);
            }
            let child_id = child.id();
            child.components_mut().add(Component::Parent(Parent { parent, child: child_id }));
            proof {
                assert(stamped(orig[i], child, parent));
            }
            entities.add(child);
            ids.push(child_id);
            proof {
                assert(children@ =~= orig.subrange(i + 1, orig.len() as int));
                assert(stamped(orig[i], entities@[orig[i].id], parent));
                assert forall|j: int| #![auto] 0 <= j < i + 1 && (forall|l: int|
                    j < l < i + 1 ==> orig[l].id != orig[j].id) implies stamped(
                    orig[j],
                    entities@[orig[j].id],
                    parent,
                ) by {
                    if j < i {
                        assert(orig[i].id != orig[j].id);
                    }
                }
                i = i + 1;
            }
        }
        proof {
            assert(orig.subrange(0, orig.len() as int) =~= orig);
        }
        Children { parent, children: ids }
    }
}

/// The stored child after attachment: the given child, with a `Parent`
/// component naming `parent` and the child's own id inserted; nothing
/// else about the child moves.
pub open spec fn stamped(pre: crate::entity::Entity, post: crate::entity::Entity, parent: u64) -> bool {
    &&& post.id == pre.id
    &&& post.kind == pre.kind
    &&& post.messages == pre.messages
    &&& post.model == pre.model
    &&& post.inputs == pre.inputs
    &&& post.components@ == pre.components@.insert(
        kind_code(ComponentKind::Parent),
        Component::Parent(Parent { parent, child: pre.id }),
    )
}

/// A typed data fragment attached to an entity.
#[derive(Clone, Debug, PartialEq)]
pub enum Component {
    Transform(Transform),
    PhysicsBody(PhysicsBody),
    Parent(Parent),
    Children(Children),
}

impl Component {
    /// The kind of this component, which is the key it is stored under.
    pub open spec fn spec_kind(self) -> ComponentKind {
        match self {
            Component::Transform(_) => ComponentKind::Transform,
            Component::PhysicsBody(_) => ComponentKind::PhysicsBody,
            Component::Parent(_) => ComponentKind::Parent,
            Component::Children(_) => ComponentKind::Children,
        }
    }

    pub fn kind(&self) -> (r: ComponentKind)
        ensures
            r == self.spec_kind(),
    {
        match self {
            Component::Transform(_) => ComponentKind::Transform,
            Component::PhysicsBody(_) => ComponentKind::PhysicsBody,
            Component::Parent(_) => ComponentKind::Parent,
            Component::Children(_) => ComponentKind::Children,
        }
    }

    /// The component's label: the name of its kind.
    pub fn label(&self) -> (r: &'static str)
        ensures
            r@ == self.spec_label(),
    {
        match self {
            Component::Transform(_) => "Transform",
            Component::PhysicsBody(_) => "PhysicsBody",
            Component::Parent(_) => "Parent",
            Component::Children(_) => "Children",
        }
    }

    pub open spec fn spec_label(self) -> Seq<char> {
        match self {
            Component::Transform(_) => "Transform"@,
            Component::PhysicsBody(_) => "PhysicsBody"@,
            Component::Parent(_) => "Parent"@,
            Component::Children(_) => "Children"@,
        }
    }
}

/// The per-entity component store: a type-identity-keyed bag holding at
/// most one component per kind.
#[derive(Clone, Debug, PartialEq)]
pub struct ComponentSet {
    components: HashMap<u64, Component>,
}

impl View for ComponentSet {
    type V = Map<u64, Component>;

    closed spec fn view(&self) -> Map<u64, Component> {
        self.components@
    }
}

impl ComponentSet {
    /// Validity of a component store: every stored component sits under
    /// its own kind's key.  Constructors and the kind-keyed operations
    /// establish and preserve it; a caller mutating through
    /// [`ComponentSet::get_mut`] keeps it by writing a component of the
    /// kind it asked for.
    pub open spec fn wf(self) -> bool {
        forall|k: u64| #[trigger] self@.contains_key(k) ==> kind_code(self@[k].spec_kind()) == k
    }

    pub fn new() -> (r: Self)
        ensures
            r@ == Map::<u64, Component>::empty(),
            r.wf(),
    {
        Self { components: HashMap::new() }
    }

    /// Inserts `component`, replacing any component of the same kind.
    pub fn add(&mut self, component: Component)
        ensures
            final(self)@ == old(self)@.insert(kind_code(component.spec_kind()), component),
            old(self).wf() ==> final(self).wf(),
    {
        let code = component_code(component.kind());
        self.components.insert(code, component);
    }

    /// Detaches and returns the component of kind `kind`, if present.
    pub fn remove(&mut self, kind: ComponentKind) -> (r: Option<Component>)
        ensures
            final(self)@ == old(self)@.remove(kind_code(kind)),
            old(self).wf() ==> final(self).wf(),
            match r {
                Some(c) => old(self)@.contains_key(kind_code(kind)) && c == old(self)@[kind_code(kind)],
                None => !old(self)@.contains_key(kind_code(kind)),
            },
    {
        self.components.remove(&component_code(kind))
    }

    /// The component of kind `kind`, or absent.
    pub fn get(&self, kind: ComponentKind) -> (r: Option<&Component>)
        ensures
            match r {
                Some(c) => self@.contains_key(kind_code(kind)) && *c == self@[kind_code(kind)],
                None => !self@.contains_key(kind_code(kind)),
            },
    {
        self.components.get(&component_code(kind))
    }

    /// Mutable access to the component of kind `kind`, or absent; the
    /// caller's writes through the returned reference land in the store.
    pub fn get_mut(&mut self, kind: ComponentKind) -> (r: Option<&mut Component>)
        ensures
            r is Some <==> old(self)@.contains_key(kind_code(kind)),
            r matches Some(c) ==> *c == old(self)@[kind_code(kind)] && final(self)@ == old(
                self,
            )@.insert(kind_code(kind), *final(c)),
            r matches Some(c) ==> ((old(self).wf() && final(c).spec_kind() == kind)
                ==> final(self).wf()),
            r is None ==> final(self)@ == old(self)@,
    {
        let code = component_code(kind);
        if self.components.contains_key(&code) {
            // The entry is occupied, so `or_insert` only hands back the
            // stored component; the default it is given is never inserted.
            let slot = self.components.entry(code).or_insert(
                Component::Parent(Parent { parent: 0, child: 0 }),
            );
            Some(slot)
        } else {
            None
        }
    }

    /// Whether a component of kind `kind` is attached.
    pub fn has(&self, kind: ComponentKind) -> (r: bool)
        ensures
            r == self@.contains_key(kind_code(kind)),
    {
        self.components.contains_key(&component_code(kind))
    }
}

/// Round trip: after adding a component, looking up its kind returns
/// exactly that component, for every component and every prior contents
/// of the store.
pub proof fn lemma_add_then_get(m: Map<u64, Component>, c: Component)
    ensures
        m.insert(kind_code(c.spec_kind()), c).contains_key(kind_code(c.spec_kind())),
        m.insert(kind_code(c.spec_kind()), c)[kind_code(c.spec_kind())] == c,
{
}

} // verus!
