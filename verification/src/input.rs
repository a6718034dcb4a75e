//! Logical input actions and the pressed/released snapshot built from raw
//! key-down / key-up events.

use vstd::prelude::*;

verus! {

/// The fixed vocabulary of logical actions.  The caller maps physical key
/// identities onto these; unmapped keys never reach the core.
#[derive(Clone, Copy, PartialEq, Eq, Structural, Debug)]
pub enum Action {
    MoveLeft,
    MoveRight,
    MoveUp,
    MoveDown,
    PauseToggle,
    Quit,
}

/// The latest pressed/released snapshot per logical action.  Last write
/// wins; an action never observed counts as released.
#[derive(Clone, Copy, PartialEq, Eq, Structural, Debug)]
pub struct InputState {
    pub left: bool,
    pub right: bool,
    pub up: bool,
    pub down: bool,
    pub pause: bool,
    pub quit: bool,
}

impl InputState {
    /// Whether an action is currently held, as a spec-level view.
    pub open spec fn spec_is_pressed(self, action: Action) -> bool {
        match action {
            Action::MoveLeft => self.left,
            Action::MoveRight => self.right,
            Action::MoveUp => self.up,
            Action::MoveDown => self.down,
            Action::PauseToggle => self.pause,
            Action::Quit => self.quit,
        }
    }

    /// The snapshot after recording one event for one action.
    pub open spec fn spec_set(self, action: Action, pressed: bool) -> InputState {
        match action {
            Action::MoveLeft => InputState { left: pressed, ..self },
            Action::MoveRight => InputState { right: pressed, ..self },
            Action::MoveUp => InputState { up: pressed, ..self },
            Action::MoveDown => InputState { down: pressed, ..self },
            Action::PauseToggle => InputState { pause: pressed, ..self },
            Action::Quit => InputState { quit: pressed, ..self },
        }
    }

    /// The empty snapshot: nothing has been observed, so nothing is pressed.
    pub fn new() -> (r: InputState)
        ensures
            r == (InputState {
                left: false,
                right: false,
                up: false,
                down: false,
                pause: false,
                quit: false,
            }),
            forall|a: Action| !r.spec_is_pressed(a),
    {
        InputState { left: false, right: false, up: false, down: false, pause: false, quit: false }
    }

    /// Records the latest state for one logical action.
    pub fn set(&mut self, action: Action, pressed: bool)
        ensures
            *final(self) == old(self).spec_set(action, pressed),
    {
        match action {
            Action::MoveLeft => self.left = pressed,
            Action::MoveRight => self.right = pressed,
            Action::MoveUp => self.up = pressed,
            Action::MoveDown => self.down = pressed,
            Action::PauseToggle => self.pause = pressed,
            Action::Quit => self.quit = pressed,
        }
    }

    /// Reads the latest state for one logical action.
    pub fn is_pressed(&self, action: Action) -> (r: bool)
        ensures
            r == self.spec_is_pressed(action),
    {
        match action {
            Action::MoveLeft => self.left,
            Action::MoveRight => self.right,
            Action::MoveUp => self.up,
            Action::MoveDown => self.down,
            Action::PauseToggle => self.pause,
            Action::Quit => self.quit,
        }
    }
}

} // verus!
