//! The set of selected entities.

use crate::entity::EntityId;
use vstd::prelude::*;

verus! {

/// The entities that are selected: a set, kept as a list that names each of
/// them once.
pub struct Selection {
    entities: Vec<EntityId>,
}

impl View for Selection {
    type V = Set<EntityId>;

    closed spec fn view(&self) -> Set<EntityId> {
        self.entities@.to_set()
    }
}

impl Selection {
    #[verifier::type_invariant]
    spec fn each_once(self) -> bool {
        self.entities@.no_duplicates()
    }

    /// The empty selection.
    pub fn new() -> (selection: Selection)
        ensures
            selection@ == Set::<EntityId>::empty(),
    {
        Selection { entities: Vec::new() }
    }

    /// Whether `entity` is selected.
    pub fn contains(&self, entity: EntityId) -> (selected: bool)
        ensures
            selected == self@.contains(entity),
    {
        let mut i: usize = 0;
        while i < self.entities.len()
            invariant
                i <= self.entities.len(),
                forall|j: int| 0 <= j < i ==> self.entities@[j] != entity,
            decreases self.entities.len() - i,
        {
            if self.entities[i] == entity {
                return true;
            }
            i += 1;
        }
        false
    }

    /// The selected entities, each once, in no particular order.
    pub fn entities(&self) -> (entities: Vec<EntityId>)
        ensures
            entities@.no_duplicates(),
            entities@.to_set() == self@,
    {
        proof {
            use_type_invariant(self);
        }
        let mut entities: Vec<EntityId> = Vec::new();
        let mut i: usize = 0;
        while i < self.entities.len()
            invariant
                i <= self.entities.len(),
                entities@ == self.entities@.take(i as int),
            decreases self.entities.len() - i,
        {
            entities.push(self.entities[i]);
            i += 1;
        }
        assert(entities@ == self.entities@);
        entities
    }

    /// Adds `entity` to the selection.
    pub fn insert(&mut self, entity: EntityId)
        ensures
            final(self)@ == old(self)@.insert(entity),
    {
        if !self.contains(entity) {
            let mut entities = self.entities();
            proof {
                entities@.lemma_push_to_set_commute(entity);
                assert(!entities@.to_set().contains(entity));
                assert(!entities@.contains(entity));
            }
            entities.push(entity);
            self.entities = entities;
        } else {
            assert(self@.insert(entity) == self@);
        }
    }

    /// Takes `entity` out of the selection.
    pub fn remove(&mut self, entity: EntityId)
        ensures
            final(self)@ == old(self)@.remove(entity),
    {
        proof {
            use_type_invariant(&*self);
        }
        let mut entities: Vec<EntityId> = Vec::new();
        let mut i: usize = 0;
        while i < self.entities.len()
            invariant
                i <= self.entities.len(),
                self.entities@.no_duplicates(),
                entities@.no_duplicates(),
                forall|k: int|
                    0 <= k < entities@.len() ==> entities@[k] != entity && exists|j: int|
                        0 <= j < i && self.entities@[j] == #[trigger] entities@[k],
                forall|j: int|
                    0 <= j < i && #[trigger] self.entities@[j] != entity ==> entities@.contains(
                        self.entities@[j],
                    ),
            decreases self.entities.len() - i,
        {
            let e = self.entities[i];
            if e != entity {
                let ghost before = entities@;
                entities.push(e);
                proof {
                    assert forall|j: int|
                        0 <= j <= i && #[trigger] self.entities@[j]
                            != entity implies entities@.contains(self.entities@[j]) by {
                        if j < i {
                            let k = choose|k: int|
                                0 <= k < before.len() && before[k] == self.entities@[j];
                            assert(entities@[k] == self.entities@[j]);
                        } else {
                            assert(entities@[before.len() as int] == self.entities@[j]);
                        }
                    }
                }
            }
            i += 1;
        }
        proof {
            let remaining = entities@;
            let all = self.entities@;
            assert forall|x: EntityId|
                remaining.to_set().contains(x) <==> all.to_set().remove(entity).contains(
                    x,
                ) by {
                if remaining.contains(x) {
                    let k = choose|k: int| 0 <= k < remaining.len() && remaining[k] == x;
                    assert(remaining[k] != entity);
                }
                if all.contains(x) && x != entity {
                    let j = choose|j: int| 0 <= j < all.len() && all[j] == x;
                    assert(remaining.contains(all[j]));
                }
            }
            assert(remaining.to_set() =~= all.to_set().remove(entity));
        }
        self.entities = entities;
    }
}

} // verus!
