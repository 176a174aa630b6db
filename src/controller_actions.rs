//! Discrete actions of the character and the per-frame signals they raise.
use vstd::prelude::*;

verus! {

/// The discrete actions a character can take besides walking around.
#[derive(Clone, Copy, Debug, PartialEq, Eq, Structural, Hash)]
pub enum CharacterActions {
    Jump,
    Sprint,
    Crouch,
}

/// What one action did during the current frame.
#[derive(Clone, Copy, Debug, PartialEq, Eq, Structural)]
pub struct ActionSignal {
    /// The action is held down.
    pub pressed: bool,
    /// The action went from released to held during this frame.
    pub just_pressed: bool,
    /// The action went from held to released during this frame.
    pub just_released: bool,
}

impl ActionSignal {
    /// An action that is neither held nor changed this frame.
    pub fn idle() -> (r: ActionSignal)
        ensures
            !r.pressed && !r.just_pressed && !r.just_released,
    {
        ActionSignal { pressed: false, just_pressed: false, just_released: false }
    }
}

/// The signals of every action for one frame, as resolved from the input devices.
#[derive(Clone, Copy, Debug, PartialEq, Eq, Structural)]
pub struct ActionSignals {
    pub jump: ActionSignal,
    pub sprint: ActionSignal,
    pub crouch: ActionSignal,
}

impl ActionSignals {
    pub open spec fn signal(self, action: CharacterActions) -> ActionSignal {
        match action {
            CharacterActions::Jump => self.jump,
            CharacterActions::Sprint => self.sprint,
            CharacterActions::Crouch => self.crouch,
        }
    }

    /// No action held, none changed.
    pub fn none() -> (r: ActionSignals)
        ensures
            forall|a: CharacterActions|
                !(#[trigger] r.signal(a)).pressed && !r.signal(a).just_pressed
                    && !r.signal(a).just_released,
    {
        ActionSignals {
            jump: ActionSignal::idle(),
            sprint: ActionSignal::idle(),
            crouch: ActionSignal::idle(),
        }
    }

    fn get(&self, action: CharacterActions) -> (r: ActionSignal)
        ensures
            r == self.signal(action),
    {
        match action {
            CharacterActions::Jump => self.jump,
            CharacterActions::Sprint => self.sprint,
            CharacterActions::Crouch => self.crouch,
        }
    }

    /// Whether the action is held down.
    pub fn pressed(&self, action: CharacterActions) -> (r: bool)
        ensures
            r == self.signal(action).pressed,
    {
        self.get(action).pressed
    }

    /// Whether the action became active this frame.
    pub fn just_pressed(&self, action: CharacterActions) -> (r: bool)
        ensures
            r == self.signal(action).just_pressed,
    {
        self.get(action).just_pressed
    }

    /// Whether the action became inactive this frame.
    pub fn just_released(&self, action: CharacterActions) -> (r: bool)
        ensures
            r == self.signal(action).just_released,
    {
        self.get(action).just_released
    }
}

} // verus!
