//! What the controller guarantees of hover and selection, proved from the
//! model of its steps.

use crate::assets::materials::{has_floor, popped, pushed, top_of, ColorState, UIMaterials};
use crate::cursor::{first_hit, frame, Picking};
use crate::entity::EntityId;
use crate::scene::{PickableView, SceneView};
use vstd::prelude::*;

verus! {

/// Hovering is idempotent: a frame with the primary button up whose hover
/// test meets the entity that is hovered already changes no stack, no slot
/// and no selection mark.
pub proof fn lemma_hover_unmoved_changes_nothing(
    picking: Picking,
    scene: SceneView,
    materials: UIMaterials,
    chain: bool,
    hover_hits: Seq<EntityId>,
    pressed_hits: Seq<EntityId>,
)
    requires
        first_hit(hover_hits) == picking.hovered,
    ensures
        frame(picking, scene, materials, chain, false, hover_hits, pressed_hits).1 == scene,
{
}

/// Hover handoff: with the primary button up, a frame that hovers `a` and a
/// next frame that hovers `b` leave the stack of `a` as it was before the
/// first, its slot with the material of its old top, and `Hover` once on top
/// of the stack of `b`, whose slot holds the hover material.
///
/// At the start neither entity is hovered, so neither shows `Hover`. The slot
/// of `a` is written only if its stack has a top to show.
pub proof fn lemma_hover_handoff(
    picking: Picking,
    scene: SceneView,
    materials: UIMaterials,
    a: EntityId,
    b: EntityId,
    first_hits: Seq<EntityId>,
    next_hits: Seq<EntityId>,
)
    requires
        a != b,
        !a.is_placeholder(),
        !b.is_placeholder(),
        first_hit(first_hits) == a,
        first_hit(next_hits) == b,
        picking.hovered != a,
        picking.hovered != b,
        scene.pickables.contains_key(a),
        scene.pickables.contains_key(b),
        top_of(scene.pickables[a].stack) != Some(ColorState::Hover),
        top_of(scene.pickables[b].stack) != Some(ColorState::Hover),
    ensures
        ({
            let (picking1, scene1) = frame(
                picking,
                scene,
                materials,
                false,
                false,
                first_hits,
                Seq::empty(),
            );
            let (picking2, scene2) = frame(
                picking1,
                scene1,
                materials,
                false,
                false,
                next_hits,
                Seq::empty(),
            );
            &&& scene1.stack(a) == Some(scene.pickables[a].stack.push(ColorState::Hover))
            &&& scene1.material(a) == Some(materials.hover)
            &&& scene2.stack(a) == scene.stack(a)
            &&& top_of(scene.pickables[a].stack) matches Some(top) ==> scene2.material(a)
                == Some(materials.material(top))
            &&& scene2.stack(b) == Some(scene.pickables[b].stack.push(ColorState::Hover))
            &&& scene2.material(b) == Some(materials.hover)
            &&& picking2.hovered == b
            &&& picking2.prev_hovered == a
        }),
{
    let stack_a = scene.pickables[a].stack;
    assert(stack_a.push(ColorState::Hover).drop_last() == stack_a);
}

/// Selection precedence: selecting a pickable entity under the pointer leaves
/// its stack ending in `Selected` below `Hover` and its slot with the hover
/// material, whatever its stack held. When the pointer then leaves for `next`,
/// `Hover` alone comes off: the stack ends in `Selected` and the slot holds
/// the selected material. A stack that stood on a floor state still does.
pub proof fn lemma_selection_lies_below_hover(
    scene: SceneView,
    materials: UIMaterials,
    entity: EntityId,
    chain: bool,
    next: EntityId,
)
    requires
        !entity.is_placeholder(),
        next != entity,
        scene.pickables.contains_key(entity),
    ensures
        ({
            let selected = scene.select_mesh(entity, chain, materials);
            let left = selected.handle_hover(entity, next, materials);
            let stack = selected.pickables[entity].stack;
            &&& selected.selected.contains(entity)
            &&& selected.pickables.contains_key(entity)
            &&& stack.len() >= 2
            &&& stack[stack.len() - 2] == ColorState::Selected
            &&& stack.last() == ColorState::Hover
            &&& selected.material(entity) == Some(materials.hover)
            &&& left.stack(entity) == Some(stack.drop_last())
            &&& left.material(entity) == Some(materials.selected)
            &&& left.selected.contains(entity)
            &&& has_floor(scene.pickables[entity].stack) ==> stack.len() >= 3 && stack[0]
                == scene.pickables[entity].stack[0]
        }),
{
    let marked = if chain {
        scene
    } else {
        scene.deselect_all(scene.selected.remove(entity), materials)
    };
    let marked = SceneView { selected: marked.selected.insert(entity), ..marked };
    assert(marked.pickables[entity] == scene.pickables[entity]);
    let s0 = scene.pickables[entity].stack;
    let s1 = popped(s0);
    let s2 = pushed(s1, ColorState::Selected);
    assert(s2.len() >= 1 && s2.last() == ColorState::Selected);
    assert(has_floor(s0) ==> has_floor(s1) && s2.len() >= 2 && s2[0] == s0[0]);
    let s3 = pushed(s2, ColorState::Hover);
    assert(s3 == s2.push(ColorState::Hover));
    assert(s3.drop_last() == s2);
}

/// Selection precedence over two frames: a frame with the primary button
/// held whose hover test meets a pickable entity leaves that entity selected,
/// its stack ending in `Selected` below `Hover` and its slot with the hover
/// material, whatever the press test met and whether or not the click
/// chain-selects. A next frame with the button up whose hover test meets
/// something else takes `Hover` off: the stack ends in `Selected`, the slot
/// holds the selected material, and the entity is still selected.
pub proof fn lemma_click_then_leave(
    picking: Picking,
    scene: SceneView,
    materials: UIMaterials,
    entity: EntityId,
    chain: bool,
    click_hits: Seq<EntityId>,
    pressed_hits: Seq<EntityId>,
    leave_hits: Seq<EntityId>,
)
    requires
        !entity.is_placeholder(),
        first_hit(click_hits) == entity,
        first_hit(leave_hits) != entity,
        scene.pickables.contains_key(entity),
    ensures
        ({
            let (picking1, scene1) = frame(
                picking,
                scene,
                materials,
                chain,
                true,
                click_hits,
                pressed_hits,
            );
            let (picking2, scene2) = frame(
                picking1,
                scene1,
                materials,
                chain,
                false,
                leave_hits,
                pressed_hits,
            );
            let stack = scene1.pickables[entity].stack;
            &&& scene1.selected.contains(entity)
            &&& scene1.pickables.contains_key(entity)
            &&& stack.len() >= 2
            &&& stack[stack.len() - 2] == ColorState::Selected
            &&& stack.last() == ColorState::Hover
            &&& scene1.material(entity) == Some(materials.hover)
            &&& scene2.stack(entity) == Some(stack.drop_last())
            &&& scene2.material(entity) == Some(materials.selected)
            &&& scene2.selected.contains(entity)
        }),
{
    let pressed = scene.press_tested(pressed_hits);
    assert(pressed.pickables == scene.pickables);
    lemma_selection_lies_below_hover(pressed, materials, entity, chain, first_hit(leave_hits));
    let selected = pressed.select_mesh(entity, chain, materials);
    let hovered = selected.handle_hover(picking.hovered, entity, materials);
    assert(hovered.pickables[entity] == selected.pickables[entity]);
    assert(hovered.selected == selected.selected);
}

/// Chain-select: a click that chain-selects `b` leaves every entity that was
/// selected before selected, and touches neither its stack nor its slot.
pub proof fn lemma_chain_select_keeps_others(
    scene: SceneView,
    materials: UIMaterials,
    a: EntityId,
    b: EntityId,
)
    requires
        a != b,
        !b.is_placeholder(),
        scene.selected.contains(a),
    ensures
        ({
            let after = scene.select_mesh(b, true, materials);
            &&& after.selected == scene.selected.insert(b)
            &&& after.selected.contains(a)
            &&& after.selected.contains(b)
            &&& after.stack(a) == scene.stack(a)
            &&& after.material(a) == scene.material(a)
        }),
{
}

/// Plain select: a click that does not chain-select leaves `b` as the only
/// selected entity, and pops the stack of every other entity that was
/// selected: one that showed `Selected` on top loses it, and its slot gets
/// the material of the state below.
pub proof fn lemma_plain_select_replaces_others(
    scene: SceneView,
    materials: UIMaterials,
    a: EntityId,
    b: EntityId,
)
    requires
        a != b,
        !b.is_placeholder(),
        scene.selected.contains(a),
    ensures
        ({
            let after = scene.select_mesh(b, false, materials);
            &&& after.selected == set![b]
            &&& after.pickables.contains_key(a) == scene.pickables.contains_key(a)
            &&& scene.pickables.contains_key(a) ==> after.pickables[a] == scene.pickables[a].pop(
                materials,
            )
            &&& scene.pickables.contains_key(a) && scene.pickables[a].stack.len() >= 2
                && scene.pickables[a].stack.last() == ColorState::Selected ==> {
                let stack = scene.pickables[a].stack;
                &&& after.pickables[a].stack == stack.drop_last()
                &&& after.pickables[a].material == materials.material(stack[stack.len() - 2])
            }
        }),
{
    let after = scene.select_mesh(b, false, materials);
    assert(after.selected =~= set![b]);
}

/// The stacks that the controller makes: a floor state, then `Selected` or
/// not, then `Hover` or not.
pub open spec fn settled(stack: Seq<ColorState>) -> bool {
    &&& 1 <= stack.len() <= 3
    &&& stack[0].is_floor()
    &&& stack.len() == 2 ==> stack[1] == ColorState::Hover || stack[1] == ColorState::Selected
    &&& stack.len() == 3 ==> stack[1] == ColorState::Selected && stack[2] == ColorState::Hover
}

/// A pickable entity fits its role: its stack is settled, its slot holds the
/// material of the top of its stack, it shows `Hover` on top exactly if it is
/// hovered, and `Selected` above its floor exactly if it is selected.
#[verifier::opaque]
pub open spec fn fits(
    pickable: PickableView,
    hovered: bool,
    selected: bool,
    materials: UIMaterials,
) -> bool {
    &&& settled(pickable.stack)
    &&& pickable.material == materials.material(pickable.stack.last())
    &&& (pickable.stack.last() == ColorState::Hover) == hovered
    &&& (pickable.stack.len() >= 2 && pickable.stack[1] == ColorState::Selected) == selected
}

/// What holds between two frames: the placeholder is no pickable entity, and
/// every pickable entity fits its role, hovered if it is the hovered entity of
/// the picking state and selected if it is marked so.
pub open spec fn consistent(picking: Picking, scene: SceneView, materials: UIMaterials) -> bool {
    &&& !scene.pickables.contains_key(EntityId::placeholder())
    &&& forall|entity: EntityId| #[trigger]
        scene.pickables.contains_key(entity) ==> fits(
            scene.pickables[entity],
            entity == picking.hovered,
            scene.selected.contains(entity),
            materials,
        )
}

/// A scene without pickable entities is consistent with any picking state.
pub proof fn lemma_empty_scene_is_consistent(
    picking: Picking,
    scene: SceneView,
    materials: UIMaterials,
)
    requires
        scene.pickables == Map::<EntityId, PickableView>::empty(),
    ensures
        consistent(picking, scene, materials),
{
}

/// A new entity leaves the scene consistent if it comes with its floor state
/// alone and the material of that state, and is neither hovered nor selected.
pub proof fn lemma_new_entity_is_consistent(
    picking: Picking,
    scene: SceneView,
    materials: UIMaterials,
    entity: EntityId,
    floor: ColorState,
)
    requires
        consistent(picking, scene, materials),
        floor.is_floor(),
        !entity.is_placeholder(),
        entity != picking.hovered,
        !scene.selected.contains(entity),
    ensures
        consistent(
            picking,
            SceneView {
                pickables: scene.pickables.insert(
                    entity,
                    PickableView { stack: seq![floor], material: materials.material(floor) },
                ),
                ..scene
            },
            materials,
        ),
{
    reveal(fits);
}

/// How the steps of the controller move an entity that fits its role: a pop
/// takes `Hover` off a hovered entity and `Selected` off one that is selected
/// and not hovered, and leaves any other as it is; `Hover` goes on an entity
/// that is not hovered; and selecting makes an entity hovered and selected.
pub proof fn lemma_steps_of_a_fitting_entity(
    pickable: PickableView,
    hovered: bool,
    selected: bool,
    materials: UIMaterials,
)
    requires
        fits(pickable, hovered, selected, materials),
    ensures
        hovered ==> fits(pickable.pop(materials), false, selected, materials),
        !hovered && selected ==> fits(pickable.pop(materials), false, false, materials),
        !hovered && !selected ==> pickable.pop(materials) == pickable,
        hovered ==> pickable.push(ColorState::Hover, materials) == pickable,
        !hovered ==> fits(pickable.push(ColorState::Hover, materials), true, selected, materials),
        fits(
            pickable.pop(materials).push(ColorState::Selected, materials).push(
                ColorState::Hover,
                materials,
            ),
            true,
            true,
            materials,
        ),
{
    reveal(fits);
    let stack = pickable.stack;
    let bare = popped(stack);
    let marked = pushed(bare, ColorState::Selected);
    let shown = pushed(marked, ColorState::Hover);
    assert(settled(bare));
    assert(settled(marked) && marked.last() == ColorState::Selected);
    assert(shown == marked.push(ColorState::Hover));
}

/// The scene of a frame after its selection step, which runs only while the
/// primary button is held.
pub open spec fn after_selection(
    scene: SceneView,
    materials: UIMaterials,
    chain: bool,
    primary_held: bool,
    hovered: EntityId,
    pressed_hits: Seq<EntityId>,
) -> SceneView {
    if primary_held {
        scene.press_tested(pressed_hits).select_mesh(hovered, chain, materials)
    } else {
        scene
    }
}

/// What the selection step of a frame does to one entity of a consistent
/// state. The newly hovered entity, if the button is held, ends hovered and
/// selected. Any other entity either stays as it is, mark and all, or was
/// selected and has lost its mark and been popped.
pub open spec fn moved_by_selection(
    scene: SceneView,
    selected: SceneView,
    materials: UIMaterials,
    primary_held: bool,
    hovered: EntityId,
    entity: EntityId,
) -> bool {
    &&& selected.pickables.contains_key(entity) == scene.pickables.contains_key(entity)
    &&& scene.pickables.contains_key(entity) ==> {
        let before = scene.pickables[entity];
        let after = selected.pickables[entity];
        let was_marked = scene.selected.contains(entity);
        let marked = selected.selected.contains(entity);
        if primary_held && entity == hovered {
            fits(after, true, true, materials) && marked
        } else {
            ||| after == before && marked == was_marked
            ||| after == before.pop(materials) && was_marked && !marked
        }
    }
}

/// The selection step of a frame moves every entity of a consistent state as
/// `moved_by_selection` says. The entity hovered before still shows `Hover`
/// after it, which the reconciliation takes off.
pub proof fn lemma_selection_step_of_a_frame(
    picking: Picking,
    scene: SceneView,
    materials: UIMaterials,
    chain: bool,
    primary_held: bool,
    hovered: EntityId,
    pressed_hits: Seq<EntityId>,
)
    requires
        consistent(picking, scene, materials),
        primary_held ==> first_hit(pressed_hits) == hovered,
    ensures
        forall|entity: EntityId| #[trigger]
            moved_by_selection(
                scene,
                after_selection(scene, materials, chain, primary_held, hovered, pressed_hits),
                materials,
                primary_held,
                hovered,
                entity,
            ),
{
    let selected = after_selection(scene, materials, chain, primary_held, hovered, pressed_hits);
    assert forall|entity: EntityId| #[trigger]
        moved_by_selection(scene, selected, materials, primary_held, hovered, entity) by {
        if scene.pickables.contains_key(entity) {
            lemma_steps_of_a_fitting_entity(
                scene.pickables[entity],
                entity == picking.hovered,
                scene.selected.contains(entity),
                materials,
            );
        }
    }
}

/// No frame gets an entity stuck: a frame whose two hit tests meet the same
/// nearest entity takes a consistent state to a consistent state, and makes no
/// entity pickable or unpickable.
pub proof fn lemma_frame_keeps_consistency(
    picking: Picking,
    scene: SceneView,
    materials: UIMaterials,
    chain: bool,
    primary_held: bool,
    hover_hits: Seq<EntityId>,
    pressed_hits: Seq<EntityId>,
)
    requires
        consistent(picking, scene, materials),
        primary_held ==> first_hit(pressed_hits) == first_hit(hover_hits),
    ensures
        ({
            let (next_picking, next_scene) = frame(
                picking,
                scene,
                materials,
                chain,
                primary_held,
                hover_hits,
                pressed_hits,
            );
            &&& consistent(next_picking, next_scene, materials)
            &&& next_scene.pickables.dom() == scene.pickables.dom()
        }),
{
    let prev = picking.hovered;
    let hovered = first_hit(hover_hits);
    let selected = after_selection(scene, materials, chain, primary_held, hovered, pressed_hits);
    let next = selected.handle_hover(prev, hovered, materials);
    assert(frame(picking, scene, materials, chain, primary_held, hover_hits, pressed_hits).1
        == next);
    lemma_selection_step_of_a_frame(
        picking,
        scene,
        materials,
        chain,
        primary_held,
        hovered,
        pressed_hits,
    );

    assert forall|entity: EntityId| #[trigger]
        next.pickables.contains_key(entity) implies fits(
        next.pickables[entity],
        entity == hovered,
        next.selected.contains(entity),
        materials,
    ) by {
        assert(moved_by_selection(scene, selected, materials, primary_held, hovered, entity));
        let before = scene.pickables[entity];
        let was_marked = scene.selected.contains(entity);
        lemma_steps_of_a_fitting_entity(before, entity == prev, was_marked, materials);
        if entity == prev {
            lemma_steps_of_a_fitting_entity(before.pop(materials), false, was_marked, materials);
        } else if was_marked {
            lemma_steps_of_a_fitting_entity(before.pop(materials), false, false, materials);
        }
        if primary_held && entity == hovered {
            lemma_steps_of_a_fitting_entity(selected.pickables[entity], true, true, materials);
        }
    }
    assert forall|entity: EntityId|
        next.pickables.contains_key(entity) == scene.pickables.contains_key(entity) by {
        assert(moved_by_selection(scene, selected, materials, primary_held, hovered, entity));
    }
    assert(next.pickables.dom() =~= scene.pickables.dom());
}

} // verus!
