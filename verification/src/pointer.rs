//! Pointer-side vocabulary: the buttons of the pointer device, the actions the
//! control loop asks the pointer device to perform, and the record of which
//! pointer buttons are currently held down.

use vstd::prelude::*;

verus! {

/// A button of the pointer device.
#[derive(Clone, Copy, Debug, PartialEq, Eq, Structural)]
pub enum MouseButton {
    Left,
    Right,
    Middle,
}

/// One side effect that the control loop asks its host to carry out, in order.
#[derive(Clone, Copy, Debug, PartialEq, Eq, Structural)]
pub enum PointerAction {
    /// Press a pointer button and keep it held.
    ButtonDown(MouseButton),
    /// Let go of a pointer button.
    ButtonUp(MouseButton),
    /// Move the cursor by a whole number of pixels on each axis.
    MoveRelative { dx: i32, dy: i32 },
    /// Turn the wheel by a whole number of notches.
    ScrollVertical(i32),
    /// Wait for the given number of milliseconds before the next action.
    Pause(u64),
}

/// Which pointer buttons the control loop has pressed and not yet released.
#[derive(Clone, Copy, Debug, PartialEq, Eq, Structural)]
pub struct ButtonDownState {
    pub left: bool,
    pub right: bool,
    pub middle: bool,
}

impl ButtonDownState {
    /// Whether `button` is recorded as held down.
    pub open spec fn holds(self, button: MouseButton) -> bool {
        match button {
            MouseButton::Left => self.left,
            MouseButton::Right => self.right,
            MouseButton::Middle => self.middle,
        }
    }

    /// The record with every button up.
    pub open spec fn all_up() -> Self {
        ButtonDownState { left: false, right: false, middle: false }
    }

    /// A record with no button held.
    pub fn new() -> (state: Self)
        ensures
            state == Self::all_up(),
    {
        ButtonDownState { left: false, right: false, middle: false }
    }

    /// Whether `button` is recorded as held down.
    pub fn is_down(&self, button: MouseButton) -> (down: bool)
        ensures
            down == self.holds(button),
    {
        match button {
            MouseButton::Left => self.left,
            MouseButton::Right => self.right,
            MouseButton::Middle => self.middle,
        }
    }

    /// The record with the entry of `button` set to `down` and the others kept.
    pub open spec fn with(self, button: MouseButton, down: bool) -> Self {
        match button {
            MouseButton::Left => ButtonDownState { left: down, ..self },
            MouseButton::Right => ButtonDownState { right: down, ..self },
            MouseButton::Middle => ButtonDownState { middle: down, ..self },
        }
    }

    /// Records `button` as held down or as up.
    pub fn set(&mut self, button: MouseButton, down: bool)
        ensures
            *final(self) == old(self).with(button, down),
    {
        match button {
            MouseButton::Left => {
                self.left = down;
            },
            MouseButton::Right => {
                self.right = down;
            },
            MouseButton::Middle => {
                self.middle = down;
            },
        }
    }

    /// The release of `button` if it is held, and nothing if it is not.
    pub open spec fn release_of(self, button: MouseButton) -> Seq<PointerAction> {
        if self.holds(button) {
            seq![PointerAction::ButtonUp(button)]
        } else {
            Seq::empty()
        }
    }

    /// The actions that let go of every held button: left, then right, then
    /// middle, each only if it is held.
    pub open spec fn release_actions(self) -> Seq<PointerAction> {
        self.release_of(MouseButton::Left) + self.release_of(MouseButton::Right)
            + self.release_of(MouseButton::Middle)
    }

    /// Lets go of every held button: returns one release for each button that
    /// was held, and leaves every button up.
    pub fn release_all(&mut self) -> (actions: Vec<PointerAction>)
        ensures
            actions@ == old(self).release_actions(),
            *final(self) == Self::all_up(),
    {
        let mut actions: Vec<PointerAction> = Vec::new();
        if self.left {
            actions.push(PointerAction::ButtonUp(MouseButton::Left));
        }
        if self.right {
            actions.push(PointerAction::ButtonUp(MouseButton::Right));
        }
        if self.middle {
            actions.push(PointerAction::ButtonUp(MouseButton::Middle));
        }
        self.left = false;
        self.right = false;
        self.middle = false;
        actions
    }
}

/// Letting go of every held button releases exactly the held buttons: each held
/// button is released once, no button that is up is released, and nothing but
/// releases is issued.
pub proof fn lemma_release_is_exact(state: ButtonDownState, button: MouseButton)
    ensures
        state.release_actions().contains(PointerAction::ButtonUp(button)) <==> state.holds(
            button,
        ),
        state.release_actions().no_duplicates(),
        forall|i: int|
            0 <= i < state.release_actions().len() ==> state.release_actions()[i]
                is ButtonUp,
{
    let actions = state.release_actions();
    let wanted = PointerAction::ButtonUp(button);
    let left = state.release_of(MouseButton::Left);
    let right = state.release_of(MouseButton::Right);
    let middle = state.release_of(MouseButton::Middle);
    assert(actions == left + right + middle);
    if state.holds(button) {
        match button {
            MouseButton::Left => {
                assert(actions[0] == wanted);
            },
            MouseButton::Right => {
                assert(actions[left.len() as int] == wanted);
            },
            MouseButton::Middle => {
                assert(actions[(left.len() + right.len()) as int] == wanted);
            },
        }
    }
}

} // verus!
