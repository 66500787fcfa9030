//! The picking state and the controller that drives hover and selection.
//!
//! A frame runs four steps in this order: the hover test, then, while the
//! primary button is held, the press test and the selection, and last the
//! hover reconciliation. Every step that changes a stack writes the material
//! of its new top at once.

use crate::assets::materials::{top_of, ColorState, UIMaterials};
use crate::entity::EntityId;
use crate::scene::{Scene, SceneView};
use bevy::input::keyboard::KeyCode;
use bevy::input::ButtonInput;
use bevy::math::{Ray3d, Vec3};
use std::hash::Hash;
use vstd::prelude::*;

verus! {

/// bevy's `Ray3d`: a ray in world space. The library stores it for the hit
/// tests and never looks inside.
#[verifier::external_type_specification]
#[verifier::external_body]
pub struct ExRay3d(Ray3d);

/// bevy's `Vec3`: a point in world space, stored and never looked into.
#[verifier::external_type_specification]
#[verifier::external_body]
pub struct ExVec3(Vec3);

/// bevy's `KeyCode`: the name of a key.
#[verifier::external_type_specification]
#[verifier::external_body]
pub struct ExKeyCode(KeyCode);

/// bevy's `ButtonInput<T>`: the buttons of one device that are held down.
#[verifier::external_type_specification]
#[verifier::external_body]
#[verifier::reject_recursive_types(T)]
pub struct ExButtonInput<T: Copy + Eq + Hash + Send + Sync + 'static>(ButtonInput<T>);

/// The keys that turn a click into a chain selection.
#[derive(Clone, Copy, Debug, PartialEq, Eq, Structural)]
pub enum ModifierKey {
    ShiftLeft,
    ShiftRight,
    ControlLeft,
    ControlRight,
}

/// The modifier keys that a keyboard state holds as pressed.
pub uninterp spec fn held_modifiers(keyboard: ButtonInput<KeyCode>) -> Set<ModifierKey>;

/// `ButtonInput::pressed` with the key code of the same name as `key`:
/// whether that key is among the pressed keys of `keyboard`.
#[verifier::external_body]
fn key_pressed(keyboard: &ButtonInput<KeyCode>, key: ModifierKey) -> (held: bool)
    ensures
        held == held_modifiers(*keyboard).contains(key),
{
    keyboard.pressed(
        match key {
            ModifierKey::ShiftLeft => KeyCode::ShiftLeft,
            ModifierKey::ShiftRight => KeyCode::ShiftRight,
            ModifierKey::ControlLeft => KeyCode::ControlLeft,
            ModifierKey::ControlRight => KeyCode::ControlRight,
        },
    )
}

/// A click chain-selects when a shift or control key is held, left or right.
pub open spec fn chain_held(held: Set<ModifierKey>) -> bool {
    ||| held.contains(ModifierKey::ShiftLeft)
    ||| held.contains(ModifierKey::ShiftRight)
    ||| held.contains(ModifierKey::ControlLeft)
    ||| held.contains(ModifierKey::ControlRight)
}

/// Whether a click with this keyboard state adds to the selection instead of
/// replacing it.
pub fn is_chain_select(keyboard: &ButtonInput<KeyCode>) -> (chain: bool)
    ensures
        chain == chain_held(held_modifiers(*keyboard)),
{
    key_pressed(keyboard, ModifierKey::ShiftLeft) || key_pressed(keyboard, ModifierKey::ShiftRight)
        || key_pressed(keyboard, ModifierKey::ControlLeft) || key_pressed(
        keyboard,
        ModifierKey::ControlRight,
    )
}

/// Where the pointer meets the ground plane.
pub struct Cursor {
    pub position: Vec3,
}

/// The picking state of the process, updated once per frame.
pub struct Picking {
    /// The world ray under the pointer.
    pub ray: Ray3d,
    /// The entity under the pointer, or the placeholder.
    pub hovered: EntityId,
    /// The entity that was under the pointer one frame earlier.
    pub prev_hovered: EntityId,
    /// The entity under the pointer at the last press, or the placeholder.
    pub pressed: EntityId,
}

/// The nearest entity of a hit test whose hits come nearest first, or the
/// placeholder where the ray met nothing.
pub open spec fn first_hit(hits: Seq<EntityId>) -> EntityId {
    if hits.len() > 0 {
        hits[0]
    } else {
        EntityId::placeholder()
    }
}

impl Picking {
    /// The state at startup: a first ray, and no entity in any slot.
    pub fn new(ray: Ray3d) -> (picking: Picking)
        ensures
            picking.ray == ray,
            picking.hovered.is_placeholder(),
            picking.prev_hovered.is_placeholder(),
            picking.pressed.is_placeholder(),
    {
        Picking {
            ray,
            hovered: EntityId::placeholder(),
            prev_hovered: EntityId::placeholder(),
            pressed: EntityId::placeholder(),
        }
    }

    /// The state after a hover test with the given hits.
    pub open spec fn hover_tested(self, hits: Seq<EntityId>) -> Picking {
        Picking { prev_hovered: self.hovered, hovered: first_hit(hits), ..self }
    }

    /// The state after a press test with the given hits.
    pub open spec fn press_tested(self, hits: Seq<EntityId>) -> Picking {
        Picking { pressed: first_hit(hits), ..self }
    }
}

impl SceneView {
    /// The scene after a press test with the given hits: the nearest hit is
    /// marked selected.
    pub open spec fn press_tested(self, hits: Seq<EntityId>) -> SceneView {
        if hits.len() > 0 {
            SceneView { selected: self.selected.insert(hits[0]), ..self }
        } else {
            self
        }
    }

    /// The scene after the material of `entity` was resolved.
    pub open spec fn update_material(self, entity: EntityId, materials: UIMaterials) -> SceneView {
        if self.pickables.contains_key(entity) {
            SceneView {
                pickables: self.pickables.insert(
                    entity,
                    self.pickables[entity].resolved(materials),
                ),
                ..self
            }
        } else {
            self
        }
    }

    /// The scene after `state` was pushed on the stack of `entity`.
    pub open spec fn push_color(
        self,
        entity: EntityId,
        state: ColorState,
        materials: UIMaterials,
    ) -> SceneView {
        if self.pickables.contains_key(entity) {
            SceneView {
                pickables: self.pickables.insert(
                    entity,
                    self.pickables[entity].push(state, materials),
                ),
                ..self
            }
        } else {
            self
        }
    }

    /// The scene after the stack of `entity` was popped.
    pub open spec fn pop_color(self, entity: EntityId, materials: UIMaterials) -> SceneView {
        if self.pickables.contains_key(entity) {
            SceneView {
                pickables: self.pickables.insert(entity, self.pickables[entity].pop(materials)),
                ..self
            }
        } else {
            self
        }
    }

    /// The scene after each entity of `entities` lost its selection mark and
    /// had its stack popped.
    pub open spec fn deselect_all(
        self,
        entities: Set<EntityId>,
        materials: UIMaterials,
    ) -> SceneView {
        SceneView {
            pickables: Map::new(
                |entity: EntityId| self.pickables.contains_key(entity),
                |entity: EntityId|
                    if entities.contains(entity) {
                        self.pickables[entity].pop(materials)
                    } else {
                        self.pickables[entity]
                    },
            ),
            selected: self.selected.difference(entities),
        }
    }

    /// The scene after `entity` was selected under the pointer: it is marked,
    /// and `Selected` goes on its stack below `Hover`. The top is popped first,
    /// so that a `Hover` already there makes room.
    pub open spec fn select(self, entity: EntityId, materials: UIMaterials) -> SceneView {
        SceneView { selected: self.selected.insert(entity), ..self }.pop_color(
            entity,
            materials,
        ).push_color(entity, ColorState::Selected, materials).push_color(
            entity,
            ColorState::Hover,
            materials,
        )
    }

    /// The scene after a click while `hovered` is under the pointer. Unless
    /// the click chain-selects, every selected entity other than `hovered` is
    /// deselected first. Then `hovered` is selected, if it is an entity.
    pub open spec fn select_mesh(
        self,
        hovered: EntityId,
        chain: bool,
        materials: UIMaterials,
    ) -> SceneView {
        let cleared = if chain {
            self
        } else {
            self.deselect_all(self.selected.remove(hovered), materials)
        };
        if hovered.is_placeholder() {
            cleared
        } else {
            cleared.select(hovered, materials)
        }
    }

    /// The scene after the hover moved from `prev_hovered` to `hovered`: the
    /// first is popped and `Hover` is pushed on the second, each only if it is
    /// an entity. A hover that did not move changes nothing.
    pub open spec fn handle_hover(
        self,
        prev_hovered: EntityId,
        hovered: EntityId,
        materials: UIMaterials,
    ) -> SceneView {
        if prev_hovered == hovered {
            self
        } else {
            let left = if prev_hovered.is_placeholder() {
                self
            } else {
                self.pop_color(prev_hovered, materials)
            };
            if hovered.is_placeholder() {
                left
            } else {
                left.push_color(hovered, ColorState::Hover, materials)
            }
        }
    }
}

/// The picking state and the scene after one frame.
pub open spec fn frame(
    picking: Picking,
    scene: SceneView,
    materials: UIMaterials,
    chain: bool,
    primary_held: bool,
    hover_hits: Seq<EntityId>,
    pressed_hits: Seq<EntityId>,
) -> (Picking, SceneView) {
    let hovered = picking.hover_tested(hover_hits);
    if primary_held {
        (
            hovered.press_tested(pressed_hits),
            scene.press_tested(pressed_hits).select_mesh(
                hovered.hovered,
                chain,
                materials,
            ).handle_hover(hovered.prev_hovered, hovered.hovered, materials),
        )
    } else {
        (hovered, scene.handle_hover(hovered.prev_hovered, hovered.hovered, materials))
    }
}

/// Takes a new pointer ray and the point where it meets the ground plane.
/// A frame that lacks either changes nothing: the pointer is outside the
/// window, the camera cannot unproject it, or the ray misses the plane.
pub fn update_cursor(
    cursor: &mut Cursor,
    picking: &mut Picking,
    ray: Option<Ray3d>,
    ground: Option<Vec3>,
)
    ensures
        match (ray, ground) {
            (Some(r), Some(p)) => {
                &&& *final(picking) == Picking { ray: r, ..*old(picking) }
                &&& final(cursor).position == p
            },
            _ => *final(picking) == *old(picking) && *final(cursor) == *old(cursor),
        },
{
    match (ray, ground) {
        (Some(r), Some(p)) => {
            picking.ray = r;
            cursor.position = p;
        },
        _ => {},
    }
}

/// The hover test: the nearest hit becomes the hovered entity, and what was
/// hovered before is kept as the previous one. `hits` holds the entities that
/// the ray meets, nearest first.
pub fn pick_mesh(picking: &mut Picking, hits: &[EntityId])
    ensures
        *final(picking) == old(picking).hover_tested(hits@),
{
    picking.prev_hovered = picking.hovered;
    if hits.len() > 0 {
        picking.hovered = hits[0];
    } else {
        picking.hovered = EntityId::placeholder();
    }
}

/// The press test, run while the primary button is held: the nearest hit
/// becomes the pressed entity and is marked selected. Without a hit the
/// pressed slot is cleared and the selection stays.
pub fn pick_pressed_mesh(picking: &mut Picking, scene: &mut Scene, hits: &[EntityId])
    ensures
        *final(picking) == old(picking).press_tested(hits@),
        final(scene)@ == old(scene)@.press_tested(hits@),
{
    if hits.len() > 0 {
        picking.pressed = hits[0];
        scene.select(picking.pressed);
    } else {
        picking.pressed = EntityId::placeholder();
    }
}

/// Writes into the slot of `entity` the material of the state on top of its
/// stack. Nothing happens for an entity that is not pickable (any more).
pub fn update_material(entity: EntityId, ui_materials: &UIMaterials, scene: &mut Scene)
    ensures
        final(scene)@ == old(scene)@.update_material(entity, *ui_materials),
        !old(scene)@.pickables.contains_key(entity) ==> final(scene)@ == old(scene)@,
{
    match scene.remove(entity) {
        Some(pickable) => {
            let mut pickable = pickable;
            pickable.resolve(ui_materials);
            scene.insert(entity, pickable);
        },
        None => {},
    }
}

/// Pushes `state` on the stack of `entity` and, where that changed the stack,
/// writes the material of `state` into its slot. Nothing happens for an
/// entity that is not pickable (any more).
pub fn push_color(
    entity: EntityId,
    state: ColorState,
    ui_materials: &UIMaterials,
    scene: &mut Scene,
)
    ensures
        final(scene)@ == old(scene)@.push_color(entity, state, *ui_materials),
        !old(scene)@.pickables.contains_key(entity) ==> final(scene)@ == old(scene)@,
{
    match scene.remove(entity) {
        Some(pickable) => {
            let mut pickable = pickable;
            if pickable.stack.push(state) {
                pickable.resolve(ui_materials);
            }
            scene.insert(entity, pickable);
        },
        None => {},
    }
}

/// Pops the stack of `entity` and, where that changed the stack, writes the
/// material of the new top into its slot. A floor state on top stays, and
/// nothing happens for an entity that is not pickable (any more).
pub fn pop_color(entity: EntityId, ui_materials: &UIMaterials, scene: &mut Scene)
    ensures
        final(scene)@ == old(scene)@.pop_color(entity, *ui_materials),
        !old(scene)@.pickables.contains_key(entity) ==> final(scene)@ == old(scene)@,
        old(scene)@.stack(entity) matches Some(stack) && top_of(stack) matches Some(top)
            && top.is_floor() ==> final(scene)@ == old(scene)@,
{
    match scene.remove(entity) {
        Some(pickable) => {
            let mut pickable = pickable;
            if pickable.stack.pop() {
                pickable.resolve(ui_materials);
            }
            scene.insert(entity, pickable);
        },
        None => {},
    }
}

/// The selection step of a click, given whether it chain-selects.
///
/// Unless it does, every selected entity other than the hovered one loses its
/// mark and has its stack popped. Then the hovered entity, if there is one, is
/// marked selected and gets `Selected` on its stack below `Hover`.
pub fn select_hovered(
    picking: &Picking,
    is_chain_select: bool,
    scene: &mut Scene,
    ui_materials: &UIMaterials,
)
    ensures
        final(scene)@ == old(scene)@.select_mesh(picking.hovered, is_chain_select, *ui_materials),
{
    let entity = picking.hovered;
    if !is_chain_select {
        let selected = scene.selected();
        let mut i: usize = 0;
        while i < selected.len()
            invariant
                i <= selected.len(),
                selected@.no_duplicates(),
                selected@.to_set() == old(scene)@.selected,
                scene@ == old(scene)@.deselect_all(
                    selected@.take(i as int).to_set().remove(entity),
                    *ui_materials,
                ),
            decreases selected.len() - i,
        {
            let other = selected[i];
            proof {
                let done = selected@.take(i as int);
                assert(selected@.take(i + 1) == done.push(other));
                done.lemma_push_to_set_commute(other);
                assert(!done.contains(other));
                assert(selected@.to_set().contains(other));
            }
            if other != entity {
                scene.deselect(other);
                pop_color(other, ui_materials, scene);
            }
            i += 1;
        }
        assert(selected@.take(i as int) == selected@);
    }
    if entity.is_placeholder() {
        return ;
    }
    scene.select(entity);
    pop_color(entity, ui_materials, scene);
    push_color(entity, ColorState::Selected, ui_materials, scene);
    push_color(entity, ColorState::Hover, ui_materials, scene);
}

/// The selection step of a click: `select_hovered`, chain-selecting where the
/// keyboard holds a shift or control key.
pub fn select_mesh(
    picking: &Picking,
    keyboard: &ButtonInput<KeyCode>,
    scene: &mut Scene,
    ui_materials: &UIMaterials,
)
    ensures
        final(scene)@ == old(scene)@.select_mesh(
            picking.hovered,
            chain_held(held_modifiers(*keyboard)),
            *ui_materials,
        ),
{
    let is_chain_select = is_chain_select(keyboard);
    select_hovered(picking, is_chain_select, scene, ui_materials);
}

/// The hover reconciliation: where the hovered entity changed, the previous
/// one is popped and `Hover` is pushed on the new one, each only if it is an
/// entity. Where it did not change, no stack and no slot is touched.
pub fn handle_hover(picking: &Picking, ui_materials: &UIMaterials, scene: &mut Scene)
    ensures
        final(scene)@ == old(scene)@.handle_hover(
            picking.prev_hovered,
            picking.hovered,
            *ui_materials,
        ),
        picking.prev_hovered == picking.hovered ==> final(scene)@ == old(scene)@,
{
    if picking.prev_hovered == picking.hovered {
        return ;
    }
    if !picking.prev_hovered.is_placeholder() {
        pop_color(picking.prev_hovered, ui_materials, scene);
    }
    if !picking.hovered.is_placeholder() {
        push_color(picking.hovered, ColorState::Hover, ui_materials, scene);
    }
}

/// One frame of the controller, after the ray was refreshed: the hover test,
/// then, while the primary button is held, the press test and the selection,
/// and last the hover reconciliation.
///
/// `hover_hits` and `pressed_hits` hold what the two hit tests met, nearest
/// first, and `is_chain_select` what `is_chain_select` says of the keyboard.
/// Neither that nor `pressed_hits` is read while the button is up.
pub fn run_frame(
    picking: &mut Picking,
    scene: &mut Scene,
    ui_materials: &UIMaterials,
    is_chain_select: bool,
    primary_held: bool,
    hover_hits: &[EntityId],
    pressed_hits: &[EntityId],
)
    ensures
        (*final(picking), final(scene)@) == frame(
            *old(picking),
            old(scene)@,
            *ui_materials,
            is_chain_select,
            primary_held,
            hover_hits@,
            pressed_hits@,
        ),
{
    pick_mesh(picking, hover_hits);
    if primary_held {
        pick_pressed_mesh(picking, scene, pressed_hits);
        select_hovered(picking, is_chain_select, scene, ui_materials);
    }
    handle_hover(picking, ui_materials, scene);
}

} // verus!
