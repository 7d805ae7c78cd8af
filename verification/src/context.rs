//! The context registry: the shared, world-level items (the transform
//! registry, the system registry) that are threaded explicitly into every
//! component that needs them, keyed by item kind.

use std::collections::HashMap;

use vstd::prelude::*;

use crate::systems::SystemRegistry;
use crate::transform::TransformRegistry;

verus! {

broadcast use vstd::std_specs::hash::group_hash_axioms;

/// The kinds of item a context can hold.
#[derive(Clone, Copy, Debug, PartialEq, Eq, Structural, Hash)]
pub enum ContextKind {
    Transforms,
    Systems,
}

/// The key under which a context-item kind is stored.
pub open spec fn context_code(k: ContextKind) -> u64 {
    match k {
        ContextKind::Transforms => 0,
        ContextKind::Systems => 1,
    }
}

/// Exec twin of [`context_code`].
pub fn context_kind_code(k: ContextKind) -> (r: u64)
    ensures
        r == context_code(k),
{
    match k {
        ContextKind::Transforms => 0,
        ContextKind::Systems => 1,
    }
}

/// A world-level item stored in a context.
#[derive(Clone, Debug)]
pub enum ContextItem {
    Transforms(TransformRegistry),
    Systems(SystemRegistry),
}

impl ContextItem {
    /// The kind of this item, which is the key it is stored under.
    pub open spec fn spec_kind(self) -> ContextKind {
        match self {
            ContextItem::Transforms(_) => ContextKind::Transforms,
            ContextItem::Systems(_) => ContextKind::Systems,
        }
    }

    pub fn kind(&self) -> (r: ContextKind)
        ensures
            r == self.spec_kind(),
    {
        match self {
            ContextItem::Transforms(_) => ContextKind::Transforms,
            ContextItem::Systems(_) => ContextKind::Systems,
        }
    }

    /// The item's label: the name of its kind.
    pub fn label(&self) -> (r: &'static str)
        ensures
            self is Transforms ==> r@ == "TransformRegistry"@,
            self is Systems ==> r@ == "SystemRegistry"@,
    {
        match self {
            ContextItem::Transforms(_) => "TransformRegistry",
            ContextItem::Systems(_) => "SystemRegistry",
        }
    }
}

/// A registry that holds the global context needed for running a world:
/// at most one item per kind, inserting replaces.
#[derive(Clone, Debug)]
pub struct Context {
    items: HashMap<u64, ContextItem>,
}

impl View for Context {
    type V = Map<u64, ContextItem>;

    closed spec fn view(&self) -> Map<u64, ContextItem> {
        self.items@
    }
}

impl Context {
    pub fn new() -> (r: Self)
        ensures
            r@ == Map::<u64, ContextItem>::empty(),
    {
        Self { items: HashMap::new() }
    }

    /// Inserts `item`, replacing any item of the same kind.
    pub fn add(&mut self, item: ContextItem)
        ensures
            final(self)@ == old(self)@.insert(context_code(item.spec_kind()), item),
    {
        let code = context_kind_code(item.kind());
        self.items.insert(code, item);
    }

    /// The item of kind `kind`, or absent.
    pub fn get(&self, kind: ContextKind) -> (r: Option<&ContextItem>)
        ensures
            match r {
                Some(item) => self@.contains_key(context_code(kind)) && *item == self@[context_code(
                    kind,
                )],
                None => !self@.contains_key(context_code(kind)),
            },
    {
        self.items.get(&context_kind_code(kind))
    }
}

} // verus!
