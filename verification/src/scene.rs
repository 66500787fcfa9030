//! The store of what the controller reads and writes of each entity:
//! its stack of visual states, its material slot, and whether it is selected.

use crate::assets::materials::{popped, pushed, top_of, ColorStack, ColorState, UIMaterials};
use crate::entity::EntityId;
use crate::selection::Selection;
use bevy::asset::UntypedHandle;
use std::collections::HashMap;
use vstd::prelude::*;

verus! {

broadcast use vstd::std_specs::hash::group_hash_axioms;

/// What makes an entity pickable: a stack of visual states, and the slot that
/// holds the material it is drawn with.
pub struct Pickable {
    pub stack: ColorStack,
    pub material: UntypedHandle,
}

/// A pickable entity as a value: the states of its stack, oldest first, and
/// the material in its slot.
pub struct PickableView {
    pub stack: Seq<ColorState>,
    pub material: UntypedHandle,
}

impl View for Pickable {
    type V = PickableView;

    open spec fn view(&self) -> PickableView {
        PickableView { stack: self.stack@, material: self.material }
    }
}

impl PickableView {
    /// The entity with the material of its top state in its slot. Without a
    /// top state the slot keeps what it holds.
    pub open spec fn resolved(self, materials: UIMaterials) -> PickableView {
        match top_of(self.stack) {
            Some(top) => PickableView { material: materials.material(top), ..self },
            None => self,
        }
    }

    /// The entity with `stack` for its stack. Where that changes the stack,
    /// the material is resolved anew; where not, nothing is written.
    pub open spec fn restacked(
        self,
        stack: Seq<ColorState>,
        materials: UIMaterials,
    ) -> PickableView {
        if stack == self.stack {
            self
        } else {
            PickableView { stack, ..self }.resolved(materials)
        }
    }

    /// The entity after `state` was pushed on its stack.
    pub open spec fn push(self, state: ColorState, materials: UIMaterials) -> PickableView {
        self.restacked(pushed(self.stack, state), materials)
    }

    /// The entity after its stack was popped.
    pub open spec fn pop(self, materials: UIMaterials) -> PickableView {
        self.restacked(popped(self.stack), materials)
    }
}

impl Pickable {
    /// Writes the material of the top state into the slot. Without a top
    /// state the slot keeps what it holds.
    pub fn resolve(&mut self, materials: &UIMaterials)
        ensures
            final(self)@ == old(self)@.resolved(*materials),
    {
        match self.stack.top() {
            Some(top) => {
                self.material = materials.material(top);
            },
            None => {},
        }
    }
}

/// A scene as a value: the pickable entities by their references, and the set
/// of the selected ones. A selected entity need not be pickable.
#[verifier::ext_equal]
pub struct SceneView {
    pub pickables: Map<EntityId, PickableView>,
    pub selected: Set<EntityId>,
}

impl SceneView {
    /// The scene without entities.
    pub open spec fn empty() -> SceneView {
        SceneView { pickables: Map::empty(), selected: Set::empty() }
    }

    /// The states of an entity's stack, if the entity is pickable.
    pub open spec fn stack(self, entity: EntityId) -> Option<Seq<ColorState>> {
        if self.pickables.contains_key(entity) {
            Some(self.pickables[entity].stack)
        } else {
            None
        }
    }

    /// The material in an entity's slot, if the entity is pickable.
    pub open spec fn material(self, entity: EntityId) -> Option<UntypedHandle> {
        if self.pickables.contains_key(entity) {
            Some(self.pickables[entity].material)
        } else {
            None
        }
    }
}

/// The entities that the controller works on.
pub struct Scene {
    pickables: HashMap<u64, Pickable>,
    selection: Selection,
}

impl View for Scene {
    type V = SceneView;

    closed spec fn view(&self) -> SceneView {
        SceneView {
            pickables: Map::new(
                |entity: EntityId| self.pickables@.contains_key(entity.bits),
                |entity: EntityId| self.pickables@[entity.bits]@,
            ),
            selected: self.selection@,
        }
    }
}

impl Scene {
    /// A scene without entities.
    pub fn new() -> (scene: Scene)
        ensures
            scene@ == SceneView::empty(),
    {
        Scene { pickables: HashMap::new(), selection: Selection::new() }
    }

    /// Makes `entity` pickable with the given stack and slot, in place of what
    /// it had, which is returned.
    pub fn insert(&mut self, entity: EntityId, pickable: Pickable) -> (previous: Option<Pickable>)
        ensures
            final(self)@.pickables == old(self)@.pickables.insert(entity, pickable@),
            final(self)@.selected == old(self)@.selected,
            match previous {
                Some(p) => old(self)@.pickables.contains_key(entity) && p@ == old(
                    self,
                )@.pickables[entity],
                None => !old(self)@.pickables.contains_key(entity),
            },
    {
        self.pickables.insert(entity.bits, pickable)
    }

    /// Takes the stack and slot of `entity` out of the scene, if it has them.
    /// Whether the entity is selected stays as it is.
    pub fn remove(&mut self, entity: EntityId) -> (removed: Option<Pickable>)
        ensures
            final(self)@.pickables == old(self)@.pickables.remove(entity),
            final(self)@.selected == old(self)@.selected,
            match removed {
                Some(p) => old(self)@.pickables.contains_key(entity) && p@ == old(
                    self,
                )@.pickables[entity],
                None => !old(self)@.pickables.contains_key(entity),
            },
    {
        self.pickables.remove(&entity.bits)
    }

    /// The stack and slot of `entity`, if it is pickable.
    pub fn get(&self, entity: EntityId) -> (found: Option<&Pickable>)
        ensures
            match found {
                Some(p) => self@.pickables.contains_key(entity) && p@ == self@.pickables[entity],
                None => !self@.pickables.contains_key(entity),
            },
    {
        self.pickables.get(&entity.bits)
    }

    /// Whether `entity` is selected.
    pub fn is_selected(&self, entity: EntityId) -> (selected: bool)
        ensures
            selected == self@.selected.contains(entity),
    {
        self.selection.contains(entity)
    }

    /// Marks `entity` as selected.
    pub fn select(&mut self, entity: EntityId)
        ensures
            final(self)@.pickables == old(self)@.pickables,
            final(self)@.selected == old(self)@.selected.insert(entity),
    {
        self.selection.insert(entity);
    }

    /// Takes the selection mark off `entity`.
    pub fn deselect(&mut self, entity: EntityId)
        ensures
            final(self)@.pickables == old(self)@.pickables,
            final(self)@.selected == old(self)@.selected.remove(entity),
    {
        self.selection.remove(entity);
    }

    /// The selected entities, each once, in no particular order.
    pub fn selected(&self) -> (entities: Vec<EntityId>)
        ensures
            entities@.no_duplicates(),
            entities@.to_set() == self@.selected,
    {
        self.selection.entities()
    }
}

} // verus!
