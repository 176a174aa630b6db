//! The controlled character and the per-frame pipeline that moves it.
use vstd::prelude::*;

use crate::controller_actions::ActionSignals;
use crate::controller_movement::{movement_force, MovementInput};
use crate::controller_settings::{ControllerForces, ControllerSpeed, ControllerSpeedSettings};
use crate::controller_state::{
    next_state, spec_next_state, spec_resolve_speed, speed_for, ControllerState, ResolverFeedback,
};
use crate::vector::{Displacement, Vector};

verus! {

/// Standard gravity, in centimetres per second squared. The fall velocity grows
/// by gravity times mass times frame time: for each kilogram and each
/// microsecond, `GRAVITY / 100` micrometres per second.
pub const GRAVITY: u64 = 981;

/// Velocity gravity adds in one airborne frame of `dt` microseconds, in
/// micrometres per second: gravity times mass times `dt`, rounded down.
pub open spec fn spec_gravity_step(mass: int, dt: int) -> int {
    GRAVITY * mass * dt / 100
}

/// Velocity gravity adds in one airborne frame of `dt` microseconds.
pub fn gravity_step(mass: u16, dt: u32) -> (r: u64)
    ensures
        r == spec_gravity_step(mass as int, dt as int),
{
    let m = mass as u64;
    let t = dt as u64;
    assert(m * t <= 65535 * 4294967295) by (nonlinear_arith)
        requires
            m <= 65535,
            t <= 4294967295,
    ;
    assert(GRAVITY * (m * t) == GRAVITY * m * t) by (nonlinear_arith);
    GRAVITY * (m * t) / 100
}

/// What an observer can know of a controlled character.
pub struct ControllerView {
    /// The named speeds.
    pub speed: ControllerSpeedSettings,
    /// The forces of the current frame.
    pub forces: ControllerForces,
    /// Upward velocity given on entering `Jump`, in micrometres per second.
    pub jump_force: u32,
    /// Whether the resolver reported the character on the ground after the last move.
    pub grounded: bool,
    /// Height of the character, in millimetres.
    pub height: u32,
    /// Mass, in kilograms.
    pub mass: u16,
    /// The active locomotion state.
    pub state: ControllerState,
    /// The speed the movement force is scaled to.
    pub current_speed: ControllerSpeed,
    /// The active state was entered during the current frame.
    pub entered: bool,
    /// The translation the resolver achieved on the last move; `None` until the
    /// resolver has reported once.
    pub last_translation: Option<Displacement>,
}

impl ControllerView {
    /// The resolver's feedback on the last move, once there is one.
    pub open spec fn feedback(self) -> Option<ResolverFeedback> {
        match self.last_translation {
            Some(t) => Some(ResolverFeedback { grounded: self.grounded, effective_translation: t }),
            None => None,
        }
    }

    /// The state machine's step: no transition before the first feedback.
    pub open spec fn after_state(self, a: ActionSignals) -> ControllerView {
        match self.feedback() {
            Some(fb) => match spec_next_state(self.state, a, fb) {
                Some(n) => ControllerView { state: n, entered: true, ..self },
                None => ControllerView { entered: false, ..self },
            },
            None => ControllerView { entered: false, ..self },
        }
    }

    /// The speed resolver's step.
    pub open spec fn after_speed(self) -> ControllerView {
        ControllerView {
            current_speed: spec_resolve_speed(self.state, self.speed, self.current_speed),
            ..self
        }
    }

    /// Gravity after one frame: zero on the ground, else the previous fall
    /// velocity plus one step of gravity.
    pub open spec fn next_gravity(self, dt: u32) -> Vector {
        if self.grounded {
            Vector::spec_zero()
        } else {
            Vector {
                y: (self.forces.gravity.y - spec_gravity_step(self.mass as int, dt as int)) as i64,
                ..self.forces.gravity
            }
        }
    }

    /// One step of gravity fits in the fall velocity's range.
    pub open spec fn gravity_fits(self, dt: u32) -> bool {
        self.forces.gravity.y - spec_gravity_step(self.mass as int, dt as int) >= i64::MIN
    }

    /// The gravity step of the force accumulator.
    pub open spec fn after_gravity(self, dt: u32) -> ControllerView {
        ControllerView {
            forces: ControllerForces { gravity: self.next_gravity(dt), ..self.forces },
            ..self
        }
    }

    /// The movement force for the held directions at the current speed.
    pub open spec fn next_movement(self, input: MovementInput) -> Vector {
        let c = input.component(self.current_speed.0 as int);
        Vector { x: (input.dir_x() * c) as i64, y: 0, z: (input.dir_z() * c) as i64 }
    }

    /// The movement step of the force accumulator.
    pub open spec fn after_movement(self, input: MovementInput) -> ControllerView {
        ControllerView {
            forces: ControllerForces { movement: self.next_movement(input), ..self.forces },
            ..self
        }
    }

    /// The impulse of the active state: a slide pushes with the movement force,
    /// a jump pushes upwards on the frame it is entered, nothing else pushes.
    pub open spec fn action_force(self) -> Vector {
        match self.state {
            ControllerState::Slide => self.forces.movement,
            ControllerState::Jump => if self.entered {
                Vector { x: 0, y: self.jump_force as i64, z: 0 }
            } else {
                Vector::spec_zero()
            },
            _ => Vector::spec_zero(),
        }
    }

    /// The action step of the force accumulator.
    pub open spec fn after_actions(self) -> ControllerView {
        ControllerView {
            forces: ControllerForces { actions: self.action_force(), ..self.forces },
            ..self
        }
    }

    /// One whole frame: transition, speed, then gravity, movement and action
    /// forces, in that order. Before the resolver has reported once, only the
    /// speed is resolved (for the state the character is in), and no state is
    /// entered.
    pub open spec fn frame(self, a: ActionSignals, input: MovementInput, dt: u32) -> ControllerView {
        if self.last_translation is None {
            ControllerView { entered: false, ..self }.after_speed()
        } else {
            self.after_state(a).after_speed().after_gravity(dt).after_movement(input).after_actions()
        }
    }

    /// The current speed is zero (the speed of a character that has not
    /// resolved one yet) or one of the profile's four named speeds.
    pub open spec fn speed_in_profile(self) -> bool {
        ||| self.current_speed.0 == 0
        ||| self.current_speed == self.speed.base
        ||| self.current_speed == self.speed.run
        ||| self.current_speed == self.speed.crouch
        ||| self.current_speed == self.speed.slide
    }

    /// The frame can run without the fall velocity leaving its range.
    pub open spec fn frame_fits(self, dt: u32) -> bool {
        self.last_translation is Some && !self.grounded ==> self.gravity_fits(dt)
    }

    /// The view once the resolver has reported on the last move.
    pub open spec fn after_feedback(self, feedback: ResolverFeedback) -> ControllerView {
        ControllerView {
            grounded: feedback.grounded,
            last_translation: Some(feedback.effective_translation),
            ..self
        }
    }
}

/// The single controlled character: its configuration, its state, the forces
/// acting on it and the resolver's feedback on its last move.
pub struct MovementController {
    speed: ControllerSpeedSettings,
    forces: ControllerForces,
    jump_force: u32,
    grounded: bool,
    height: u32,
    mass: u16,
    state: ControllerState,
    current_speed: ControllerSpeed,
    entered: bool,
    last_translation: Option<Displacement>,
}

impl View for MovementController {
    type V = ControllerView;

    closed spec fn view(&self) -> ControllerView {
        ControllerView {
            speed: self.speed,
            forces: self.forces,
            jump_force: self.jump_force,
            grounded: self.grounded,
            height: self.height,
            mass: self.mass,
            state: self.state,
            current_speed: self.current_speed,
            entered: self.entered,
            last_translation: self.last_translation,
        }
    }
}

impl MovementController {
    /// A character at rest, in the initial `Walk` state at speed zero, with no
    /// force acting on it, not yet reported on by the resolver.
    pub fn new(speed: ControllerSpeedSettings, jump_force: u32, height: u32, mass: u16) -> (r:
        MovementController)
        ensures
            r@.speed == speed,
            r@.jump_force == jump_force,
            r@.height == height,
            r@.mass == mass,
            r@.state == ControllerState::Walk,
            r@.current_speed.0 == 0,
            r@.speed_in_profile(),
            r@.forces.gravity.is_zero(),
            r@.forces.movement.is_zero(),
            r@.forces.actions.is_zero(),
            !r@.grounded,
            !r@.entered,
            r@.last_translation is None,
    {
        MovementController {
            speed,
            forces: ControllerForces::new(),
            jump_force,
            grounded: false,
            height,
            mass,
            state: ControllerState::default(),
            current_speed: ControllerSpeed::new(0),
            entered: false,
            last_translation: None,
        }
    }

    pub fn grounded(&self) -> (r: bool)
        ensures
            r == self@.grounded,
    {
        self.grounded
    }

    pub fn set_grounded(&mut self, grounded: bool)
        ensures
            final(self)@ == (ControllerView { grounded, ..old(self)@ }),
    {
        self.grounded = grounded;
    }

    pub fn jump_force(&self) -> (r: u32)
        ensures
            r == self@.jump_force,
    {
        self.jump_force
    }

    pub fn height(&self) -> (r: u32)
        ensures
            r == self@.height,
    {
        self.height
    }

    pub fn mass(&self) -> (r: u16)
        ensures
            r == self@.mass,
    {
        self.mass
    }

    pub fn speed(&self) -> (r: &ControllerSpeedSettings)
        ensures
            *r == self@.speed,
    {
        &self.speed
    }

    pub fn set_speed(&mut self, speed: ControllerSpeedSettings)
        ensures
            final(self)@ == (ControllerView { speed, ..old(self)@ }),
    {
        self.speed = speed;
    }

    pub fn set_jump_force(&mut self, jump_force: u32)
        ensures
            final(self)@ == (ControllerView { jump_force, ..old(self)@ }),
    {
        self.jump_force = jump_force;
    }

    pub fn set_height(&mut self, height: u32)
        ensures
            final(self)@ == (ControllerView { height, ..old(self)@ }),
    {
        self.height = height;
    }

    pub fn set_mass(&mut self, mass: u16)
        ensures
            final(self)@ == (ControllerView { mass, ..old(self)@ }),
    {
        self.mass = mass;
    }

    pub fn forces(&self) -> (r: &ControllerForces)
        ensures
            *r == self@.forces,
    {
        &self.forces
    }

    pub fn set_forces(&mut self, forces: ControllerForces)
        ensures
            final(self)@ == (ControllerView { forces, ..old(self)@ }),
    {
        self.forces = forces;
    }

    /// The active locomotion state.
    pub fn state(&self) -> (r: ControllerState)
        ensures
            r == self@.state,
    {
        self.state
    }

    /// The speed the movement force is currently scaled to.
    pub fn current_speed(&self) -> (r: ControllerSpeed)
        ensures
            r == self@.current_speed,
    {
        self.current_speed
    }

    /// Whether the active state was entered during the current frame.
    pub fn entered(&self) -> (r: bool)
        ensures
            r == self@.entered,
    {
        self.entered
    }

    /// The resolver's feedback on the last move, once it has reported.
    pub fn feedback(&self) -> (r: Option<ResolverFeedback>)
        ensures
            r == self@.feedback(),
    {
        match self.last_translation {
            Some(t) => Some(ResolverFeedback { grounded: self.grounded, effective_translation: t }),
            None => None,
        }
    }

    /// Whether a frame of `dt` microseconds keeps the fall velocity in range,
    /// which `update` requires.
    pub fn can_update(&self, dt: u32) -> (r: bool)
        ensures
            r == self@.frame_fits(dt),
    {
        if self.last_translation.is_none() || self.grounded {
            true
        } else {
            let step = gravity_step(self.mass, dt);
            self.forces.gravity.y as i128 - step as i128 >= i64::MIN as i128
        }
    }

    /// Runs one frame and returns the displacement to request from the
    /// resolver, in the character's local frame (it still has to be rotated by
    /// the character's facing).
    ///
    /// The state machine commits its transition first, reading the feedback of
    /// the previous move; the speed is then resolved for the new state, then
    /// gravity, movement and action forces are recomputed. The request is their
    /// sum times the frame time. Before the resolver has reported once, the
    /// character stays put: no transition, no force update, a zero request;
    /// only the speed of the active state is resolved, so that a character
    /// which stops on its first reported frame keeps a speed to start off with.
    pub fn update(&mut self, actions: &ActionSignals, input: &MovementInput, dt: u32) -> (r:
        Displacement)
        requires
            old(self)@.frame_fits(dt),
        ensures
            final(self)@ == old(self)@.frame(*actions, *input, dt),
            old(self)@.last_translation is None ==> r.is_zero(),
            old(self)@.last_translation is Some ==> {
                &&& r.x == final(self)@.forces.resultant_x() * dt
                &&& r.y == final(self)@.forces.resultant_y() * dt
                &&& r.z == final(self)@.forces.resultant_z() * dt
            },
            dt == 0 ==> r.is_zero(),
    {
        if self.last_translation.is_none() {
            self.entered = false;
            update_player_speed(self);
            return Displacement::zero();
        }
        update_player_state(self, actions);
        update_player_speed(self);
        update_gravity_force(self, dt);
        update_movement_force(self, input);
        update_action_force(self);
        let r = update_player_pos(self, dt);
        proof {
            if dt == 0 {
                lemma_no_time_no_displacement(self@.forces, dt);
            }
        }
        r
    }

    /// Stores the resolver's feedback on the move just executed, for the next frame.
    pub fn record_feedback(&mut self, feedback: ResolverFeedback)
        ensures
            final(self)@ == old(self)@.after_feedback(feedback),
    {
        self.grounded = feedback.grounded;
        self.last_translation = Some(feedback.effective_translation);
    }
}

impl Default for MovementController {
    /// The standard character: default speeds, a jump of 30 m/s, 2 m tall, 30 kg.
    fn default() -> (r: MovementController)
        ensures
            r@.speed.base.0 == 10_000_000,
            r@.speed.run.0 == 20_000_000,
            r@.speed.crouch.0 == 5_000_000,
            r@.speed.slide.0 == 25_000_000,
            r@.jump_force == 30_000_000,
            r@.height == 2000,
            r@.mass == 30,
            r@.state == ControllerState::Walk,
            r@.current_speed.0 == 0,
            r@.forces.gravity.is_zero(),
            r@.forces.movement.is_zero(),
            r@.forces.actions.is_zero(),
            !r@.grounded,
            !r@.entered,
            r@.last_translation is None,
    {
        MovementController::new(ControllerSpeedSettings::default(), 30_000_000, 2000, 30)
    }
}

/// Commits the state machine's transition for this frame, from the action
/// signals and the resolver's feedback on the previous move. Before the first
/// feedback no transition is made.
pub fn update_player_state(controller: &mut MovementController, actions: &ActionSignals)
    ensures
        final(controller)@ == old(controller)@.after_state(*actions),
{
    match controller.feedback() {
        Some(fb) => match next_state(controller.state, actions, &fb) {
            Some(n) => {
                controller.state = n;
                controller.entered = true;
            },
            None => {
                controller.entered = false;
            },
        },
        None => {
            controller.entered = false;
        },
    }
}

/// Sets the current speed to the one the active state asks for; `Idle`,
/// `Jump` and `Fall` keep the last one.
pub fn update_player_speed(controller: &mut MovementController)
    ensures
        final(controller)@ == old(controller)@.after_speed(),
{
    if let Some(s) = speed_for(controller.state, &controller.speed) {
        controller.current_speed = s;
    }
}

/// Integrates gravity: the fall velocity resets to zero on the ground and
/// grows by one step of gravity in the air.
pub fn update_gravity_force(controller: &mut MovementController, dt: u32)
    requires
        !old(controller)@.grounded ==> old(controller)@.gravity_fits(dt),
    ensures
        final(controller)@ == old(controller)@.after_gravity(dt),
{
    if controller.grounded {
        controller.forces.set_gravity(Vector::zero());
    } else {
        let step = gravity_step(controller.mass, dt);
        let g = controller.forces.gravity();
        let y = (g.y as i128 - step as i128) as i64;
        controller.forces.set_gravity(Vector::new(g.x, y, g.z));
    }
}

/// Recomputes the movement force from the held directions at the current speed.
pub fn update_movement_force(controller: &mut MovementController, input: &MovementInput)
    ensures
        final(controller)@ == old(controller)@.after_movement(*input),
{
    let m = movement_force(input, controller.current_speed.get());
    controller.forces.set_movement(m);
}

/// Recomputes the action force of the active state. Must run after the
/// movement force, which a slide pushes with.
pub fn update_action_force(controller: &mut MovementController)
    ensures
        final(controller)@ == old(controller)@.after_actions(),
{
    let f = match controller.state {
        ControllerState::Slide => controller.forces.movement(),
        ControllerState::Jump => if controller.entered {
            Vector::up(controller.jump_force)
        } else {
            Vector::zero()
        },
        _ => Vector::zero(),
    };
    controller.forces.set_actions(f);
}

/// The displacement to request for a frame of `dt` microseconds: the sum of
/// the three forces times the frame time, in the character's local frame.
/// Before the resolver has reported once, no force is applied and the request
/// is zero.
pub fn update_player_pos(controller: &MovementController, dt: u32) -> (r: Displacement)
    ensures
        controller@.last_translation is None ==> r.is_zero(),
        controller@.last_translation is Some ==> {
            &&& r.x == controller@.forces.resultant_x() * dt
            &&& r.y == controller@.forces.resultant_y() * dt
            &&& r.z == controller@.forces.resultant_z() * dt
        },
{
    if controller.last_translation.is_none() {
        return Displacement::zero();
    }
    let f = &controller.forces;
    let x = f.gravity.x as i128 + f.movement.x as i128 + f.actions.x as i128;
    let y = f.gravity.y as i128 + f.movement.y as i128 + f.actions.y as i128;
    let z = f.gravity.z as i128 + f.movement.z as i128 + f.actions.z as i128;
    let t = dt as i128;
    assert(-4 * 0x8000_0000_0000_0000 * 0x1_0000_0000 <= x * t <= 4 * 0x8000_0000_0000_0000
        * 0x1_0000_0000)
        by (nonlinear_arith)
        requires
            -4 * 0x8000_0000_0000_0000 <= x <= 4 * 0x8000_0000_0000_0000,
            0 <= t <= 0xffff_ffff,
    ;
    assert(-4 * 0x8000_0000_0000_0000 * 0x1_0000_0000 <= y * t <= 4 * 0x8000_0000_0000_0000
        * 0x1_0000_0000)
        by (nonlinear_arith)
        requires
            -4 * 0x8000_0000_0000_0000 <= y <= 4 * 0x8000_0000_0000_0000,
            0 <= t <= 0xffff_ffff,
    ;
    assert(-4 * 0x8000_0000_0000_0000 * 0x1_0000_0000 <= z * t <= 4 * 0x8000_0000_0000_0000
        * 0x1_0000_0000)
        by (nonlinear_arith)
        requires
            -4 * 0x8000_0000_0000_0000 <= z <= 4 * 0x8000_0000_0000_0000,
            0 <= t <= 0xffff_ffff,
    ;
    Displacement::new(x * t, y * t, z * t)
}

/// One gravity step, as `update_gravity_force` takes it: on the ground the
/// fall velocity becomes exactly zero; in the air the previous fall velocity is
/// carried forward and one step of gravity (`981 * mass * dt / 100`) is added
/// downwards, so its magnitude never shrinks, and grows when mass and frame
/// time are positive.
pub proof fn lemma_gravity_step(v: ControllerView, dt: u32)
    requires
        !v.grounded ==> v.gravity_fits(dt),
    ensures
        v.grounded ==> v.after_gravity(dt).forces.gravity.is_zero(),
        !v.grounded ==> {
            &&& v.after_gravity(dt).forces.gravity.x == v.forces.gravity.x
            &&& v.after_gravity(dt).forces.gravity.y == v.forces.gravity.y - spec_gravity_step(
                v.mass as int,
                dt as int,
            )
            &&& v.after_gravity(dt).forces.gravity.z == v.forces.gravity.z
        },
        !v.grounded && v.forces.gravity.y <= 0 ==> v.after_gravity(dt).forces.gravity.norm_sq()
            >= v.forces.gravity.norm_sq(),
        !v.grounded && v.forces.gravity.y <= 0 && v.mass > 0 && dt > 0
            ==> v.after_gravity(dt).forces.gravity.norm_sq() > v.forces.gravity.norm_sq(),
{
    let g = v.forces.gravity;
    let h = v.after_gravity(dt).forces.gravity;
    if !v.grounded && g.y <= 0 {
        assert(0 <= spec_gravity_step(v.mass as int, dt as int)) by (nonlinear_arith)
            requires
                0 <= v.mass,
                0 <= dt,
        ;
        assert(h.y * h.y >= g.y * g.y) by (nonlinear_arith)
            requires
                h.y <= g.y <= 0,
        ;
        if v.mass > 0 && dt > 0 {
            assert(0 < spec_gravity_step(v.mass as int, dt as int)) by (nonlinear_arith)
                requires
                    1 <= v.mass,
                    1 <= dt,
            ;
            assert(h.y * h.y > g.y * g.y) by (nonlinear_arith)
                requires
                    h.y < g.y <= 0,
            ;
        }
    }
}

/// Gravity over one whole frame follows the resolver's last report: the fall
/// velocity is exactly zero after a frame that starts on the ground, and after
/// an airborne frame it is the previous one plus one step of gravity, so its
/// magnitude never shrinks across consecutive airborne frames, and grows when
/// mass and frame time are positive.
pub proof fn lemma_gravity_accumulates(v: ControllerView, a: ActionSignals, input: MovementInput, dt: u32)
    requires
        v.last_translation is Some,
        v.frame_fits(dt),
    ensures
        v.grounded ==> v.frame(a, input, dt).forces.gravity.is_zero(),
        !v.grounded ==> {
            &&& v.frame(a, input, dt).forces.gravity.x == v.forces.gravity.x
            &&& v.frame(a, input, dt).forces.gravity.y == v.forces.gravity.y - spec_gravity_step(
                v.mass as int,
                dt as int,
            )
            &&& v.frame(a, input, dt).forces.gravity.z == v.forces.gravity.z
        },
        !v.grounded && v.forces.gravity.y <= 0 ==> v.frame(a, input, dt).forces.gravity.norm_sq()
            >= v.forces.gravity.norm_sq(),
        !v.grounded && v.forces.gravity.y <= 0 && v.mass > 0 && dt > 0 ==> v.frame(
            a,
            input,
            dt,
        ).forces.gravity.norm_sq() > v.forces.gravity.norm_sq(),
{
    let u = v.after_state(a).after_speed();
    assert(u.forces == v.forces && u.grounded == v.grounded && u.mass == v.mass);
    lemma_gravity_step(u, dt);
}

/// The upward jump impulse is applied on the frame `Jump` is entered, and on
/// no later frame spent in `Jump`.
pub proof fn lemma_jump_impulse_once(v: ControllerView, a: ActionSignals, input: MovementInput, dt: u32)
    requires
        v.last_translation is Some,
    ensures
        v.state != ControllerState::Jump && v.frame(a, input, dt).state == ControllerState::Jump
            ==> v.frame(a, input, dt).forces.actions == (Vector {
            x: 0,
            y: v.jump_force as i64,
            z: 0,
        }),
        v.state == ControllerState::Jump && v.frame(a, input, dt).state == ControllerState::Jump
            ==> v.frame(a, input, dt).forces.actions.is_zero(),
{
}

/// On every frame spent in `Slide`, and so on the frame it is entered, the
/// action force is the movement force of that frame, component for component.
pub proof fn lemma_slide_pushes_with_movement(
    v: ControllerView,
    a: ActionSignals,
    input: MovementInput,
    dt: u32,
)
    requires
        v.last_translation is Some,
    ensures
        v.frame(a, input, dt).state == ControllerState::Slide ==> v.frame(a, input, dt).forces.actions
            == v.frame(a, input, dt).forces.movement,
{
}

/// A character's current speed starts as one of its profile's speeds and stays
/// one across every frame and every report of the resolver.
pub proof fn lemma_speed_stays_in_profile(
    v: ControllerView,
    a: ActionSignals,
    input: MovementInput,
    dt: u32,
    feedback: ResolverFeedback,
)
    requires
        v.speed_in_profile(),
    ensures
        v.frame(a, input, dt).speed_in_profile(),
        v.after_feedback(feedback).speed_in_profile(),
{
}

/// A frame of zero duration asks for no displacement, whatever the forces.
pub proof fn lemma_no_time_no_displacement(forces: ControllerForces, dt: u32)
    requires
        dt == 0,
    ensures
        forces.resultant_x() * dt == 0,
        forces.resultant_y() * dt == 0,
        forces.resultant_z() * dt == 0,
{
}

} // verus!
