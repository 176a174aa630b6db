use boxy::{
    next_state, ActionSignal, ActionSignals, CameraState, CharacterActions, ControllerState,
    Cycle, Displacement, ResolverFeedback,
};

fn signal(pressed: bool, just_pressed: bool, just_released: bool) -> ActionSignal {
    ActionSignal { pressed, just_pressed, just_released }
}

fn held() -> ActionSignal {
    signal(true, false, false)
}

fn pressed_now() -> ActionSignal {
    signal(true, true, false)
}

fn released_now() -> ActionSignal {
    signal(false, false, true)
}

fn signals(jump: ActionSignal, sprint: ActionSignal, crouch: ActionSignal) -> ActionSignals {
    ActionSignals { jump, sprint, crouch }
}

fn ground(moved: bool) -> ResolverFeedback {
    let t = if moved { Displacement::new(5, 0, -3) } else { Displacement::zero() };
    ResolverFeedback { grounded: true, effective_translation: t }
}

fn air(y: i128) -> ResolverFeedback {
    ResolverFeedback { grounded: false, effective_translation: Displacement::new(0, y, 0) }
}

const ALL: [ControllerState; 7] = [
    ControllerState::Run,
    ControllerState::Idle,
    ControllerState::Walk,
    ControllerState::Slide,
    ControllerState::Crouch,
    ControllerState::Jump,
    ControllerState::Fall,
];

#[test]
fn airborne_forces_fall_from_every_grounded_state() {
    let inputs = [
        ActionSignals::none(),
        signals(pressed_now(), held(), pressed_now()),
        signals(ActionSignal::idle(), released_now(), released_now()),
    ];
    for state in ALL {
        if state == ControllerState::Jump || state == ControllerState::Fall {
            continue;
        }
        for a in inputs.iter() {
            for y in [-4, 0, 7] {
                assert_eq!(next_state(state, a, &air(y)), Some(ControllerState::Fall));
            }
        }
    }
}

#[test]
fn jump_is_not_reclassified_while_rising() {
    let a = signals(pressed_now(), ActionSignal::idle(), ActionSignal::idle());
    assert_eq!(next_state(ControllerState::Jump, &a, &air(10)), None);
    assert_eq!(next_state(ControllerState::Jump, &a, &air(0)), None);
    assert_eq!(next_state(ControllerState::Jump, &a, &air(-1)), Some(ControllerState::Fall));
}

#[test]
fn fall_settles_on_landing() {
    let none = ActionSignals::none();
    let sprint = signals(ActionSignal::idle(), held(), ActionSignal::idle());
    assert_eq!(next_state(ControllerState::Fall, &none, &air(-5)), None);
    assert_eq!(next_state(ControllerState::Fall, &none, &ground(false)), Some(ControllerState::Idle));
    assert_eq!(next_state(ControllerState::Fall, &none, &ground(true)), Some(ControllerState::Walk));
    assert_eq!(next_state(ControllerState::Fall, &sprint, &ground(true)), Some(ControllerState::Run));
    assert_eq!(next_state(ControllerState::Fall, &sprint, &ground(false)), Some(ControllerState::Idle));
}

#[test]
fn run_transitions() {
    let r = ControllerState::Run;
    let still = ActionSignals::none();
    assert_eq!(next_state(r, &signals(ActionSignal::idle(), held(), ActionSignal::idle()), &ground(true)), None);
    assert_eq!(
        next_state(r, &signals(ActionSignal::idle(), released_now(), ActionSignal::idle()), &ground(true)),
        Some(ControllerState::Walk)
    );
    assert_eq!(
        next_state(r, &signals(ActionSignal::idle(), held(), pressed_now()), &ground(true)),
        Some(ControllerState::Slide)
    );
    assert_eq!(
        next_state(r, &signals(pressed_now(), held(), ActionSignal::idle()), &ground(true)),
        Some(ControllerState::Jump)
    );
    assert_eq!(next_state(r, &still, &ground(false)), Some(ControllerState::Idle));
}

#[test]
fn first_matching_rule_wins() {
    // Releasing sprint outranks a zero displacement.
    let a = signals(pressed_now(), released_now(), pressed_now());
    assert_eq!(next_state(ControllerState::Run, &a, &ground(false)), Some(ControllerState::Walk));
    // Crouch outranks jump while running.
    let b = signals(pressed_now(), held(), pressed_now());
    assert_eq!(next_state(ControllerState::Run, &b, &ground(true)), Some(ControllerState::Slide));
    // Jump outranks crouch while idle.
    assert_eq!(next_state(ControllerState::Idle, &b, &ground(true)), Some(ControllerState::Jump));
}

#[test]
fn walk_transitions() {
    let w = ControllerState::Walk;
    assert_eq!(next_state(w, &ActionSignals::none(), &ground(true)), None);
    assert_eq!(
        next_state(w, &signals(ActionSignal::idle(), held(), ActionSignal::idle()), &ground(true)),
        Some(ControllerState::Run)
    );
    assert_eq!(
        next_state(w, &signals(ActionSignal::idle(), ActionSignal::idle(), pressed_now()), &ground(true)),
        Some(ControllerState::Crouch)
    );
    assert_eq!(
        next_state(w, &signals(pressed_now(), ActionSignal::idle(), ActionSignal::idle()), &ground(true)),
        Some(ControllerState::Jump)
    );
    assert_eq!(next_state(w, &ActionSignals::none(), &ground(false)), Some(ControllerState::Idle));
}

#[test]
fn idle_transitions() {
    let i = ControllerState::Idle;
    assert_eq!(next_state(i, &ActionSignals::none(), &ground(false)), None);
    assert_eq!(next_state(i, &ActionSignals::none(), &ground(true)), Some(ControllerState::Walk));
    assert_eq!(
        next_state(i, &signals(ActionSignal::idle(), ActionSignal::idle(), pressed_now()), &ground(false)),
        Some(ControllerState::Crouch)
    );
    assert_eq!(
        next_state(i, &signals(pressed_now(), ActionSignal::idle(), ActionSignal::idle()), &ground(false)),
        Some(ControllerState::Jump)
    );
}

#[test]
fn crouch_transitions() {
    let c = ControllerState::Crouch;
    let hold = signals(ActionSignal::idle(), held(), held());
    assert_eq!(next_state(c, &hold, &ground(true)), None);
    let up = signals(ActionSignal::idle(), ActionSignal::idle(), released_now());
    assert_eq!(next_state(c, &up, &ground(false)), Some(ControllerState::Idle));
    assert_eq!(next_state(c, &up, &ground(true)), Some(ControllerState::Walk));
}

#[test]
fn crouch_to_run_directly() {
    let a = signals(ActionSignal::idle(), held(), released_now());
    assert_eq!(next_state(ControllerState::Crouch, &a, &ground(true)), Some(ControllerState::Run));
    // Without displacement the same release only stands up.
    assert_eq!(next_state(ControllerState::Crouch, &a, &ground(false)), Some(ControllerState::Idle));
}

#[test]
fn slide_transitions() {
    let s = ControllerState::Slide;
    assert_eq!(next_state(s, &signals(ActionSignal::idle(), held(), held()), &ground(true)), None);
    assert_eq!(
        next_state(s, &signals(ActionSignal::idle(), held(), released_now()), &ground(true)),
        Some(ControllerState::Run)
    );
    assert_eq!(
        next_state(s, &signals(pressed_now(), held(), released_now()), &ground(true)),
        Some(ControllerState::Jump)
    );
}

#[test]
fn default_state_is_walk() {
    assert_eq!(ControllerState::default(), ControllerState::Walk);
}

#[test]
fn action_signal_queries() {
    let a = signals(pressed_now(), held(), released_now());
    assert!(a.pressed(CharacterActions::Jump));
    assert!(a.just_pressed(CharacterActions::Jump));
    assert!(a.pressed(CharacterActions::Sprint));
    assert!(!a.just_pressed(CharacterActions::Sprint));
    assert!(!a.pressed(CharacterActions::Crouch));
    assert!(a.just_released(CharacterActions::Crouch));
}

#[test]
fn camera_modes_cycle() {
    let mut s = CameraState::default();
    assert_eq!(s, CameraState::FreeFloat);
    let expected = [
        CameraState::Locked,
        CameraState::FirstPerson,
        CameraState::ThirdPerson,
        CameraState::Editor,
        CameraState::FreeFloat,
    ];
    for e in expected {
        s = s.next();
        assert_eq!(s, e);
    }
}
