//! Movement intents and the steps they stand for.

use vstd::prelude::*;

verus! {

/// A direction in which the viewpoint can be asked to travel.
///
/// Intents are independent of one another: any subset of the six may be
/// held at the same time, opposite pairs included.
#[derive(Clone, Copy, Debug, PartialEq, Eq, Hash, Structural)]
pub enum Movement {
    Up,
    Left,
    Down,
    Right,
    Forward,
    Backward,
}

/// An axis of the camera's orthonormal basis.
#[derive(Clone, Copy, Debug, PartialEq, Eq, Hash, Structural)]
pub enum Axis {
    /// The camera's right-hand side.
    Right,
    /// The camera's true up, perpendicular to both other axes.
    Up,
    /// The facing direction.
    Forward,
}

/// One step of fixed length along an axis of the basis, or against it.
#[derive(Clone, Copy, Debug, PartialEq, Eq, Hash, Structural)]
pub struct Step {
    pub axis: Axis,
    /// `true` to travel along the axis, `false` to travel against it.
    pub positive: bool,
}

impl Movement {
    /// The step that one tick takes for this intent.
    pub open spec fn spec_step(self) -> Step {
        match self {
            Movement::Up => Step { axis: Axis::Up, positive: true },
            Movement::Left => Step { axis: Axis::Right, positive: false },
            Movement::Down => Step { axis: Axis::Up, positive: false },
            Movement::Right => Step { axis: Axis::Right, positive: true },
            Movement::Forward => Step { axis: Axis::Forward, positive: true },
            Movement::Backward => Step { axis: Axis::Forward, positive: false },
        }
    }

    /// The step that one tick takes for this intent.
    #[verifier::when_used_as_spec(spec_step)]
    pub fn step(self) -> (step: Step)
        ensures
            step == self.spec_step(),
    {
        match self {
            Movement::Up => Step { axis: Axis::Up, positive: true },
            Movement::Left => Step { axis: Axis::Right, positive: false },
            Movement::Down => Step { axis: Axis::Up, positive: false },
            Movement::Right => Step { axis: Axis::Right, positive: true },
            Movement::Forward => Step { axis: Axis::Forward, positive: true },
            Movement::Backward => Step { axis: Axis::Forward, positive: false },
        }
    }
}

/// The order in which a tick visits the intents.
pub open spec fn tick_order() -> Seq<Movement> {
    seq![
        Movement::Up,
        Movement::Left,
        Movement::Down,
        Movement::Right,
        Movement::Forward,
        Movement::Backward,
    ]
}

/// The steps that one tick applies to the eye position while the intents in
/// `held` are held: one step for each held intent, in tick order.
pub open spec fn motion_plan(held: Set<Movement>) -> Seq<Step> {
    tick_order().filter(|m: Movement| held.contains(m)).map_values(|m: Movement| m.spec_step())
}

/// What a single intent contributes to the plan: its step if it is held,
/// nothing otherwise.
pub open spec fn held_step(held: Set<Movement>, m: Movement) -> Seq<Step> {
    if held.contains(m) {
        seq![m.spec_step()]
    } else {
        Seq::empty()
    }
}

/// The plan is the concatenation of what each intent contributes, in tick
/// order.
pub proof fn lemma_motion_plan_by_intent(held: Set<Movement>)
    ensures
        motion_plan(held) == held_step(held, Movement::Up) + held_step(held, Movement::Left)
            + held_step(held, Movement::Down) + held_step(held, Movement::Right) + held_step(
            held,
            Movement::Forward,
        ) + held_step(held, Movement::Backward),
{
    let pred = |m: Movement| held.contains(m);
    let step = |m: Movement| m.spec_step();
    let s0 = Seq::<Movement>::empty();
    let s1 = s0.push(Movement::Up);
    let s2 = s1.push(Movement::Left);
    let s3 = s2.push(Movement::Down);
    let s4 = s3.push(Movement::Right);
    let s5 = s4.push(Movement::Forward);
    let s6 = s5.push(Movement::Backward);
    assert(s6 =~= tick_order());
    assert(s0.filter(pred) =~= Seq::<Movement>::empty()) by {
        reveal(Seq::filter);
    }
    s0.lemma_filter_push(Movement::Up, pred);
    s1.lemma_filter_push(Movement::Left, pred);
    s2.lemma_filter_push(Movement::Down, pred);
    s3.lemma_filter_push(Movement::Right, pred);
    s4.lemma_filter_push(Movement::Forward, pred);
    s5.lemma_filter_push(Movement::Backward, pred);
    s0.filter(pred).lemma_push_map_commute(step, Movement::Up);
    s1.filter(pred).lemma_push_map_commute(step, Movement::Left);
    s2.filter(pred).lemma_push_map_commute(step, Movement::Down);
    s3.filter(pred).lemma_push_map_commute(step, Movement::Right);
    s4.filter(pred).lemma_push_map_commute(step, Movement::Forward);
    s5.filter(pred).lemma_push_map_commute(step, Movement::Backward);
    let p1 = held_step(held, Movement::Up);
    let p2 = p1 + held_step(held, Movement::Left);
    let p3 = p2 + held_step(held, Movement::Down);
    let p4 = p3 + held_step(held, Movement::Right);
    let p5 = p4 + held_step(held, Movement::Forward);
    let p6 = p5 + held_step(held, Movement::Backward);
    assert(s0.filter(pred).map_values(step) =~= Seq::<Step>::empty());
    assert(s1.filter(pred).map_values(step) =~= p1);
    assert(s2.filter(pred).map_values(step) =~= p2);
    assert(s3.filter(pred).map_values(step) =~= p3);
    assert(s4.filter(pred).map_values(step) =~= p4);
    assert(s5.filter(pred).map_values(step) =~= p5);
    assert(s6.filter(pred).map_values(step) =~= p6);
}

} // verus!
