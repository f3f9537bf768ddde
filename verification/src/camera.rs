//! The navigation state of the camera.

use crate::input::{held_after, KeyEvent};
use crate::motion::{lemma_motion_plan_by_intent, motion_plan, Movement, Step};
use vstd::prelude::*;

verus! {

/// Which movement keys are down right now.
///
/// Its view is the set of intents held.
#[derive(Clone, Copy, Debug, PartialEq, Eq)]
pub struct CameraState {
    moving_up: bool,
    moving_left: bool,
    moving_down: bool,
    moving_right: bool,
    moving_forward: bool,
    moving_backward: bool,
}

impl View for CameraState {
    type V = Set<Movement>;

    closed spec fn view(&self) -> Set<Movement> {
        Set::new(
            |m: Movement|
                match m {
                    Movement::Up => self.moving_up,
                    Movement::Left => self.moving_left,
                    Movement::Down => self.moving_down,
                    Movement::Right => self.moving_right,
                    Movement::Forward => self.moving_forward,
                    Movement::Backward => self.moving_backward,
                },
        )
    }
}

impl CameraState {
    /// A camera at rest: no intent is held.
    pub fn new() -> (state: CameraState)
        ensures
            state@ == Set::<Movement>::empty(),
    {
        let state = CameraState {
            moving_up: false,
            moving_left: false,
            moving_down: false,
            moving_right: false,
            moving_forward: false,
            moving_backward: false,
        };
        proof {
            assert(state@ =~= Set::<Movement>::empty());
        }
        state
    }

    /// Whether `movement` is held.
    pub fn is_moving(&self, movement: Movement) -> (held: bool)
        ensures
            held == self@.contains(movement),
    {
        match movement {
            Movement::Up => self.moving_up,
            Movement::Left => self.moving_left,
            Movement::Down => self.moving_down,
            Movement::Right => self.moving_right,
            Movement::Forward => self.moving_forward,
            Movement::Backward => self.moving_backward,
        }
    }

    /// Records a key event: a bound key sets or clears its intent, any other
    /// key is ignored.
    pub fn process_input(&mut self, event: &KeyEvent)
        ensures
            final(self)@ == held_after(old(self)@, *event),
            event.key.spec_movement() is None ==> final(self)@ == old(self)@,
    {
        match event.key.movement() {
            Some(Movement::Up) => self.moving_up = event.pressed,
            Some(Movement::Left) => self.moving_left = event.pressed,
            Some(Movement::Down) => self.moving_down = event.pressed,
            Some(Movement::Right) => self.moving_right = event.pressed,
            Some(Movement::Forward) => self.moving_forward = event.pressed,
            Some(Movement::Backward) => self.moving_backward = event.pressed,
            None => (),
        }
        proof {
            assert(self@ =~= held_after(old(self)@, *event));
        }
    }

    /// One tick of navigation: the steps to apply to the eye position, in
    /// the order in which to apply them. The state itself does not change,
    /// so every tick applies whatever is held at that moment, and a camera
    /// that holds nothing stays where it is.
    pub fn update(&self) -> (plan: Vec<Step>)
        ensures
            plan@ == motion_plan(self@),
            self@ == Set::<Movement>::empty() ==> plan@ == Seq::<Step>::empty(),
    {
        let mut plan: Vec<Step> = Vec::new();
        if self.moving_up {
            plan.push(Movement::Up.step());
        }
        if self.moving_left {
            plan.push(Movement::Left.step());
        }
        if self.moving_down {
            plan.push(Movement::Down.step());
        }
        if self.moving_right {
            plan.push(Movement::Right.step());
        }
        if self.moving_forward {
            plan.push(Movement::Forward.step());
        }
        if self.moving_backward {
            plan.push(Movement::Backward.step());
        }
        proof {
            lemma_motion_plan_by_intent(self@);
            assert(plan@ =~= motion_plan(self@));
        }
        plan
    }
}

} // verus!
