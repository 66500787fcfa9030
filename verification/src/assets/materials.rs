//! Visual states, the per-entity stack of them, and the material of each state.

use bevy::asset::UntypedHandle;
use vstd::prelude::*;

verus! {

/// bevy's `UntypedHandle`: a reference to an asset, here to a material.
/// The library carries such handles and never looks inside one.
#[verifier::external_type_specification]
#[verifier::external_body]
pub struct ExUntypedHandle(UntypedHandle);

/// `UntypedHandle::clone`: the clone is the handle it was made from.
#[verifier::external_body]
pub(crate) fn clone_handle(handle: &UntypedHandle) -> (copy: UntypedHandle)
    ensures
        copy == *handle,
{
    handle.clone()
}

/// A look that an entity can take, in ascending rank.
///
/// The two lowest are floor states: an entity gets one when it is made and
/// keeps it for good. The two highest come and go with the pointer.
#[derive(Clone, Copy, Debug, PartialEq, Eq, Structural, PartialOrd, Ord, Hash)]
pub enum ColorState {
    /// The base look, that of a dot that is idle and not selected: a floor
    /// state, and the default.
    Dot,
    /// The base look of a connecting line: a floor state.
    Line,
    /// The pointer is over the entity.
    Hover,
    /// The entity belongs to the selection.
    Selected,
}

impl ColorState {
    /// The rank of a state: 0 for `Dot` up to 3 for `Selected`.
    pub open spec fn spec_rank(self) -> u8 {
        match self {
            ColorState::Dot => 0,
            ColorState::Line => 1,
            ColorState::Hover => 2,
            ColorState::Selected => 3,
        }
    }

    /// Whether this is a floor state, that is, of rank below `Hover`.
    pub open spec fn spec_is_floor(self) -> bool {
        self == ColorState::Dot || self == ColorState::Line
    }

    /// The rank of a state: 0 for `Dot` up to 3 for `Selected`.
    #[verifier::when_used_as_spec(spec_rank)]
    pub fn rank(self) -> (rank: u8)
        ensures
            rank == self.spec_rank(),
    {
        match self {
            ColorState::Dot => 0,
            ColorState::Line => 1,
            ColorState::Hover => 2,
            ColorState::Selected => 3,
        }
    }

    /// Whether this is a floor state, which `pop` never removes.
    #[verifier::when_used_as_spec(spec_is_floor)]
    pub fn is_floor(self) -> (floor: bool)
        ensures
            floor == self.spec_is_floor(),
            floor == (self.spec_rank() < ColorState::Hover.spec_rank()),
    {
        match self {
            ColorState::Dot | ColorState::Line => true,
            ColorState::Hover | ColorState::Selected => false,
        }
    }
}

impl Default for ColorState {
    fn default() -> (state: ColorState)
        ensures
            state == ColorState::Dot,
    {
        ColorState::Dot
    }
}

/// The top of a stack, if it has one.
pub open spec fn top_of(states: Seq<ColorState>) -> Option<ColorState> {
    if states.len() > 0 {
        Some(states.last())
    } else {
        None
    }
}

/// The stack after `state` was pushed: unchanged where `state` is already on
/// top, and with `state` appended otherwise. An empty stack has no top, so
/// any state is appended to it.
pub open spec fn pushed(states: Seq<ColorState>, state: ColorState) -> Seq<ColorState> {
    if top_of(states) == Some(state) {
        states
    } else {
        states.push(state)
    }
}

/// The stack after a pop: without its top, unless the top is a floor state or
/// the stack is empty.
pub open spec fn popped(states: Seq<ColorState>) -> Seq<ColorState> {
    if states.len() == 0 || states.last().spec_is_floor() {
        states
    } else {
        states.drop_last()
    }
}

/// The stack after each state of `pushes` was pushed in turn.
pub open spec fn pushed_all(states: Seq<ColorState>, pushes: Seq<ColorState>) -> Seq<ColorState>
    decreases pushes.len(),
{
    if pushes.len() == 0 {
        states
    } else {
        pushed(pushed_all(states, pushes.drop_last()), pushes.last())
    }
}

/// The stack stands on a floor state.
pub open spec fn has_floor(states: Seq<ColorState>) -> bool {
    states.len() > 0 && states[0].spec_is_floor()
}

/// No state lies directly on a state equal to it.
pub open spec fn no_adjacent_duplicates(states: Seq<ColorState>) -> bool {
    forall|i: int| 0 <= i < states.len() - 1 ==> states[i] != #[trigger] states[i + 1]
}

/// The active visual states of one entity, oldest first. The last is the look
/// that the entity shows.
#[derive(Debug, PartialEq, Eq, PartialOrd, Ord)]
pub struct ColorStack {
    pub states: Vec<ColorState>,
}

impl View for ColorStack {
    type V = Seq<ColorState>;

    open spec fn view(&self) -> Seq<ColorState> {
        self.states@
    }
}

impl Clone for ColorStack {
    fn clone(&self) -> (copy: ColorStack)
        ensures
            copy@ == self@,
    {
        let mut states: Vec<ColorState> = Vec::new();
        let mut i: usize = 0;
        while i < self.states.len()
            invariant
                i <= self.states.len(),
                states@ == self.states@.take(i as int),
            decreases self.states.len() - i,
        {
            states.push(self.states[i]);
            i += 1;
        }
        ColorStack { states }
    }
}

impl Default for ColorStack {
    fn default() -> (stack: ColorStack)
        ensures
            stack@ == Seq::<ColorState>::empty(),
    {
        ColorStack { states: Vec::new() }
    }
}

impl ColorStack {
    /// The stack of a new entity: its floor state and nothing else.
    pub fn new(floor: ColorState) -> (stack: ColorStack)
        ensures
            stack@ == seq![floor],
    {
        let mut states: Vec<ColorState> = Vec::new();
        states.push(floor);
        ColorStack { states }
    }

    /// The state that the entity shows, or `None` for an empty stack.
    pub fn top(&self) -> (top: Option<ColorState>)
        ensures
            top == top_of(self@),
    {
        let len: usize = self.states.len();
        if len == 0 {
            None
        } else {
            Some(self.states[len - 1])
        }
    }

    /// Puts `state` on top unless it is there already. States further down are
    /// left as they are, also where one of them equals `state`. An empty stack
    /// has no top, so it takes any state. Returns whether the stack changed.
    pub fn push(&mut self, state: ColorState) -> (changed: bool)
        ensures
            final(self)@ == pushed(old(self)@, state),
            changed == (final(self)@ != old(self)@),
            has_floor(old(self)@) ==> has_floor(final(self)@),
            no_adjacent_duplicates(old(self)@) ==> no_adjacent_duplicates(final(self)@),
    {
        let on_top = match self.top() {
            Some(top) => top == state,
            None => false,
        };
        if on_top {
            false
        } else {
            self.states.push(state);
            true
        }
    }

    /// Removes the top unless it is a floor state. Returns whether the stack
    /// changed.
    pub fn pop(&mut self) -> (changed: bool)
        ensures
            final(self)@ == popped(old(self)@),
            changed == (final(self)@ != old(self)@),
            top_of(old(self)@) matches Some(top) && top.spec_is_floor() ==> final(self)@ == old(
                self,
            )@,
            has_floor(old(self)@) ==> has_floor(final(self)@),
            no_adjacent_duplicates(old(self)@) ==> no_adjacent_duplicates(final(self)@),
    {
        match self.top() {
            None => false,
            Some(top) => {
                if top.is_floor() {
                    false
                } else {
                    self.states.pop();
                    true
                }
            },
        }
    }
}

/// Pushes never put a state directly on a state equal to it: a stack without
/// such a pair has none after any sequence of pushes.
pub proof fn lemma_pushes_keep_neighbours_distinct(
    states: Seq<ColorState>,
    pushes: Seq<ColorState>,
)
    requires
        no_adjacent_duplicates(states),
    ensures
        no_adjacent_duplicates(pushed_all(states, pushes)),
    decreases pushes.len(),
{
    if pushes.len() > 0 {
        lemma_pushes_keep_neighbours_distinct(states, pushes.drop_last());
    }
}

/// Pushes and pops never take the floor away: a stack that stands on a floor
/// state still does after either.
pub proof fn lemma_floor_stays(states: Seq<ColorState>, state: ColorState)
    requires
        has_floor(states),
    ensures
        has_floor(pushed(states, state)),
        has_floor(popped(states)),
        pushed(states, state)[0] == states[0],
        popped(states)[0] == states[0],
{
}

/// The four materials that show the four visual states.
pub struct UIMaterials {
    pub dot: UntypedHandle,
    pub line: UntypedHandle,
    pub hover: UntypedHandle,
    pub selected: UntypedHandle,
}

impl UIMaterials {
    /// The material that shows `state`.
    pub open spec fn spec_material(&self, state: ColorState) -> UntypedHandle {
        match state {
            ColorState::Dot => self.dot,
            ColorState::Line => self.line,
            ColorState::Hover => self.hover,
            ColorState::Selected => self.selected,
        }
    }

    /// The material that shows `state`.
    #[verifier::when_used_as_spec(spec_material)]
    pub fn material(&self, state: ColorState) -> (handle: UntypedHandle)
        ensures
            handle == self.spec_material(state),
    {
        match state {
            ColorState::Dot => clone_handle(&self.dot),
            ColorState::Line => clone_handle(&self.line),
            ColorState::Hover => clone_handle(&self.hover),
            ColorState::Selected => clone_handle(&self.selected),
        }
    }
}

} // verus!
