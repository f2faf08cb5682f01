//! The parent component of an entity hierarchy.

use vstd::prelude::*;

use crate::plugin::BuildAction;
use crate::plugin::Plugin;

verus! {

/// A lightweight identifier of one entity: its slot index and the
/// generation that tells a reused slot from its former occupant.
#[derive(Debug, Clone, Copy, PartialEq, Eq, Hash, Structural)]
pub struct Entity {
    pub index: u32,
    pub generation: u32,
}

/// Holds the parent entity of the entity this component sits on. Present
/// only on entities that really have a parent; the parent's child list is
/// expected to name this entity in return.
#[derive(Debug, Clone, Copy, PartialEq, Eq, Structural)]
pub struct Parent(pub Entity);

impl Parent {
    /// Returns the parent entity.
    pub fn get(&self) -> (e: Entity)
        ensures
            e == self.0,
    {
        self.0
    }

    /// Returns the parent entity as a slice of length one: handy for code
    /// that walks edges in either direction through one shape.
    pub fn as_slice(&self) -> (r: &[Entity])
        ensures
            r@.len() == 1,
            r@[0] == self.0,
    {
        slice_from_entity_ref(&self.0)
    }
}

/// Relies on std::slice::from_ref: the one-element slice over the referent.
#[verifier::external_body]
fn slice_from_entity_ref<'a>(e: &'a Entity) -> (r: &'a [Entity])
    ensures
        r@.len() == 1,
        r@[0] == *e,
{
    std::slice::from_ref(e)
}

/// Registers entity-hierarchy support on an app. The hierarchy's component
/// storage lives with the host's entity store, so registration is all the
/// setup there is.
#[derive(Debug, Clone, Copy, PartialEq, Eq, Structural)]
pub struct HierarchyPlugin;

impl Plugin for HierarchyPlugin {
    open spec fn spec_key() -> u64 {
        6
    }

    open spec fn spec_name() -> Seq<char> {
        "HierarchyPlugin"@
    }

    open spec fn spec_is_unique() -> bool {
        true
    }

    open spec fn spec_build_action(&self) -> BuildAction {
        BuildAction::Nothing
    }

    fn key() -> (k: u64) {
        6
    }

    fn name(&self) -> (n: String) {
        "HierarchyPlugin".to_string()
    }

    fn is_unique(&self) -> (u: bool) {
        true
    }

    fn build_action(&self) -> (a: BuildAction) {
        BuildAction::Nothing
    }
}

} // verus!
