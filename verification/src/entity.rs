//! References to the entities of the scene.

use bevy::ecs::entity::Entity;
use vstd::prelude::*;

verus! {

/// The bits of bevy's `Entity::PLACEHOLDER`: index `u32::MAX` in the low half,
/// generation 1 in the high half.
pub const PLACEHOLDER_BITS: u64 = 0x0000_0001_FFFF_FFFF;

/// A reference to an entity: the bits of its id, as `Entity::to_bits` gives them.
///
/// The scene owns its entities. A reference may outlive the entity it names,
/// so every use looks the entity up and does nothing where it is gone.
#[derive(Clone, Copy, Debug, PartialEq, Eq, Structural, PartialOrd, Ord, Hash)]
pub struct EntityId {
    pub bits: u64,
}

/// `Entity::PLACEHOLDER.to_bits()`: the bits of the id that bevy reserves for
/// "no entity". They are those of index `u32::MAX` with generation 1.
#[verifier::external_body]
fn placeholder_bits() -> (bits: u64)
    ensures
        bits == PLACEHOLDER_BITS,
{
    Entity::PLACEHOLDER.to_bits()
}

impl EntityId {
    /// The reference that names no entity.
    pub open spec fn spec_placeholder() -> EntityId {
        EntityId { bits: PLACEHOLDER_BITS }
    }

    /// Whether this reference names no entity.
    pub open spec fn spec_is_placeholder(self) -> bool {
        self == EntityId::spec_placeholder()
    }

    /// The reference that names no entity.
    #[verifier::when_used_as_spec(spec_placeholder)]
    pub fn placeholder() -> (entity: EntityId)
        ensures
            entity == EntityId::spec_placeholder(),
    {
        EntityId { bits: placeholder_bits() }
    }

    /// The reference with the given bits.
    pub fn from_bits(bits: u64) -> (entity: EntityId)
        ensures
            entity.bits == bits,
    {
        EntityId { bits }
    }

    /// The bits of this reference.
    pub fn to_bits(self) -> (bits: u64)
        ensures
            bits == self.bits,
    {
        self.bits
    }

    /// Whether this reference names no entity.
    #[verifier::when_used_as_spec(spec_is_placeholder)]
    pub fn is_placeholder(self) -> (absent: bool)
        ensures
            absent == self.spec_is_placeholder(),
    {
        self.bits == placeholder_bits()
    }
}

} // verus!
