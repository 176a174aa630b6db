//! The locomotion state machine and the speed each state asks for.
use vstd::prelude::*;

use crate::controller_actions::{ActionSignals, CharacterActions};
use crate::controller_settings::{ControllerSpeed, ControllerSpeedSettings};
use crate::vector::Displacement;

verus! {

/// The locomotion states. Exactly one is active at any time.
#[derive(Clone, Copy, Debug, PartialEq, Eq, Structural, Hash)]
pub enum ControllerState {
    Run,
    Idle,
    Walk,
    Slide,
    Crouch,
    Jump,
    Fall,
}

impl Default for ControllerState {
    /// A character starts out walking.
    fn default() -> (r: ControllerState)
        ensures
            r == ControllerState::Walk,
    {
        ControllerState::Walk
    }
}

/// What the kinematic resolver reported after executing the last requested move.
#[derive(Clone, Copy, Debug, PartialEq, Eq, Structural)]
pub struct ResolverFeedback {
    /// The character rests on a supporting surface.
    pub grounded: bool,
    /// The translation actually achieved, which may be clipped or zero.
    pub effective_translation: Displacement,
}

impl ResolverFeedback {
    /// The last move displaced the character.
    pub open spec fn moved(self) -> bool {
        !self.effective_translation.is_zero()
    }

    /// The last move took the character downwards.
    pub open spec fn descending(self) -> bool {
        self.effective_translation.y < 0
    }
}

/// Where a landing or a stand-up leads: `Idle` when the last move went nowhere,
/// else `Run` with sprint held, else `Walk`.
pub open spec fn settle(moved: bool, sprint_held: bool) -> ControllerState {
    if !moved {
        ControllerState::Idle
    } else if sprint_held {
        ControllerState::Run
    } else {
        ControllerState::Walk
    }
}

/// The transition table, grounded case, for the states other than `Jump` and
/// `Fall`; the first rule that matches wins.
pub open spec fn grounded_transition(
    state: ControllerState,
    a: ActionSignals,
    moved: bool,
) -> Option<ControllerState> {
    match state {
        ControllerState::Run => {
            if a.sprint.just_released {
                Some(ControllerState::Walk)
            } else if a.crouch.just_pressed {
                Some(ControllerState::Slide)
            } else if a.jump.just_pressed {
                Some(ControllerState::Jump)
            } else if !moved {
                Some(ControllerState::Idle)
            } else {
                None
            }
        },
        ControllerState::Walk => {
            if a.sprint.pressed {
                Some(ControllerState::Run)
            } else if a.crouch.just_pressed {
                Some(ControllerState::Crouch)
            } else if a.jump.just_pressed {
                Some(ControllerState::Jump)
            } else if !moved {
                Some(ControllerState::Idle)
            } else {
                None
            }
        },
        ControllerState::Idle => {
            if a.jump.just_pressed {
                Some(ControllerState::Jump)
            } else if a.crouch.just_pressed {
                Some(ControllerState::Crouch)
            } else if moved {
                Some(ControllerState::Walk)
            } else {
                None
            }
        },
        ControllerState::Crouch => {
            if a.crouch.just_released {
                Some(settle(moved, a.sprint.pressed))
            } else {
                None
            }
        },
        ControllerState::Slide => {
            if a.jump.just_pressed {
                Some(ControllerState::Jump)
            } else if a.crouch.just_released {
                Some(ControllerState::Run)
            } else {
                None
            }
        },
        _ => None,
    }
}

/// The next state, or `None` for no change.
///
/// `Jump` leaves for `Fall` once the last move went downwards; `Fall` settles
/// once grounded. Any other state falls as soon as the character is airborne,
/// whatever the table says; on the ground it follows the table.
pub open spec fn spec_next_state(
    state: ControllerState,
    a: ActionSignals,
    feedback: ResolverFeedback,
) -> Option<ControllerState> {
    match state {
        ControllerState::Jump => {
            if feedback.descending() {
                Some(ControllerState::Fall)
            } else {
                None
            }
        },
        ControllerState::Fall => {
            if feedback.grounded {
                Some(settle(feedback.moved(), a.sprint.pressed))
            } else {
                None
            }
        },
        _ => {
            if !feedback.grounded {
                Some(ControllerState::Fall)
            } else {
                grounded_transition(state, a, feedback.moved())
            }
        },
    }
}

fn settle_exec(moved: bool, sprint_held: bool) -> (r: ControllerState)
    ensures
        r == settle(moved, sprint_held),
{
    if !moved {
        ControllerState::Idle
    } else if sprint_held {
        ControllerState::Run
    } else {
        ControllerState::Walk
    }
}

/// Evaluates the transition table for one frame: the state after `state` given
/// this frame's action signals and the resolver's feedback on the previous move,
/// or `None` when the state does not change.
pub fn next_state(state: ControllerState, a: &ActionSignals, feedback: &ResolverFeedback) -> (r:
    Option<ControllerState>)
    ensures
        r == spec_next_state(state, *a, *feedback),
{
    let moved = !feedback.effective_translation.is_stationary();
    let jump = a.just_pressed(CharacterActions::Jump);
    let crouch = a.just_pressed(CharacterActions::Crouch);
    let sprint_held = a.pressed(CharacterActions::Sprint);
    match state {
        ControllerState::Jump => {
            if feedback.effective_translation.y < 0 {
                Some(ControllerState::Fall)
            } else {
                None
            }
        },
        ControllerState::Fall => {
            if feedback.grounded {
                Some(settle_exec(moved, sprint_held))
            } else {
                None
            }
        },
        _ if !feedback.grounded => Some(ControllerState::Fall),
        ControllerState::Run => {
            if a.just_released(CharacterActions::Sprint) {
                Some(ControllerState::Walk)
            } else if crouch {
                Some(ControllerState::Slide)
            } else if jump {
                Some(ControllerState::Jump)
            } else if !moved {
                Some(ControllerState::Idle)
            } else {
                None
            }
        },
        ControllerState::Walk => {
            if sprint_held {
                Some(ControllerState::Run)
            } else if crouch {
                Some(ControllerState::Crouch)
            } else if jump {
                Some(ControllerState::Jump)
            } else if !moved {
                Some(ControllerState::Idle)
            } else {
                None
            }
        },
        ControllerState::Idle => {
            if jump {
                Some(ControllerState::Jump)
            } else if crouch {
                Some(ControllerState::Crouch)
            } else if moved {
                Some(ControllerState::Walk)
            } else {
                None
            }
        },
        ControllerState::Crouch => {
            if a.just_released(CharacterActions::Crouch) {
                Some(settle_exec(moved, sprint_held))
            } else {
                None
            }
        },
        ControllerState::Slide => {
            if jump {
                Some(ControllerState::Jump)
            } else if a.just_released(CharacterActions::Crouch) {
                Some(ControllerState::Run)
            } else {
                None
            }
        },
    }
}

/// The speed a state asks for, or `None` for the states that keep the last one.
pub open spec fn spec_speed_for(state: ControllerState, profile: ControllerSpeedSettings) -> Option<
    ControllerSpeed,
> {
    match state {
        ControllerState::Run => Some(profile.run),
        ControllerState::Walk => Some(profile.base),
        ControllerState::Slide => Some(profile.slide),
        ControllerState::Crouch => Some(profile.crouch),
        _ => None,
    }
}

/// The current speed after resolving `state`: its profile speed, or `current`
/// unchanged for `Idle`, `Jump` and `Fall`.
pub open spec fn spec_resolve_speed(
    state: ControllerState,
    profile: ControllerSpeedSettings,
    current: ControllerSpeed,
) -> ControllerSpeed {
    match spec_speed_for(state, profile) {
        Some(s) => s,
        None => current,
    }
}

/// The speed a state asks for, or `None` for the states that keep the last one.
pub fn speed_for(state: ControllerState, profile: &ControllerSpeedSettings) -> (r: Option<
    ControllerSpeed,
>)
    ensures
        r == spec_speed_for(state, *profile),
{
    match state {
        ControllerState::Run => Some(profile.run),
        ControllerState::Walk => Some(profile.base),
        ControllerState::Slide => Some(profile.slide),
        ControllerState::Crouch => Some(profile.crouch),
        _ => None,
    }
}

/// An airborne character that is neither jumping nor already falling starts
/// to fall, whatever its action signals and its last displacement.
pub proof fn lemma_airborne_falls(
    state: ControllerState,
    a: ActionSignals,
    feedback: ResolverFeedback,
)
    requires
        state != ControllerState::Jump,
        state != ControllerState::Fall,
        !feedback.grounded,
    ensures
        spec_next_state(state, a, feedback) == Some(ControllerState::Fall),
{
}

} // verus!
