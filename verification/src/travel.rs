//! An exact model of what ticks do to the eye position.
//!
//! The host applies a plan in its own arithmetic. The laws below describe
//! the plan itself: they hold when each step adds or subtracts a fixed
//! vector without rounding, which this module models with integer vectors
//! in units as fine as one likes.

use crate::motion::{held_step, lemma_motion_plan_by_intent, motion_plan, Axis, Movement, Step};
use vstd::prelude::*;

verus! {

/// A displacement, or a position taken as a displacement from the origin.
pub struct Offset {
    pub x: int,
    pub y: int,
    pub z: int,
}

impl Offset {
    pub open spec fn zero() -> Offset {
        Offset { x: 0, y: 0, z: 0 }
    }

    pub open spec fn plus(self, other: Offset) -> Offset {
        Offset { x: self.x + other.x, y: self.y + other.y, z: self.z + other.z }
    }

    pub open spec fn reversed(self) -> Offset {
        Offset { x: -self.x, y: -self.y, z: -self.z }
    }
}

/// How far one step carries the eye along each axis of the camera's basis.
pub struct Basis {
    pub right: Offset,
    pub up: Offset,
    pub forward: Offset,
}

impl Basis {
    pub open spec fn along(self, axis: Axis) -> Offset {
        match axis {
            Axis::Right => self.right,
            Axis::Up => self.up,
            Axis::Forward => self.forward,
        }
    }

    /// What a single step adds to the position.
    pub open spec fn step_offset(self, step: Step) -> Offset {
        if step.positive {
            self.along(step.axis)
        } else {
            self.along(step.axis).reversed()
        }
    }

    /// What a plan adds to the position: the sum of its steps.
    pub open spec fn plan_offset(self, plan: Seq<Step>) -> Offset
        decreases plan.len(),
    {
        if plan.len() == 0 {
            Offset::zero()
        } else {
            self.plan_offset(plan.drop_last()).plus(self.step_offset(plan.last()))
        }
    }

    /// What one tick adds to the position while `held` is held.
    pub open spec fn tick_offset(self, held: Set<Movement>) -> Offset {
        self.plan_offset(motion_plan(held))
    }

    /// What a single intent adds in one tick: its step if it is held,
    /// nothing otherwise.
    pub open spec fn intent_offset(self, held: Set<Movement>, m: Movement) -> Offset {
        if held.contains(m) {
            self.step_offset(m.spec_step())
        } else {
            Offset::zero()
        }
    }
}

/// The position after one tick for each basis in `bases`, in turn, with the
/// same intents held throughout.
pub open spec fn position_after(position: Offset, held: Set<Movement>, bases: Seq<Basis>) -> Offset
    decreases bases.len(),
{
    if bases.len() == 0 {
        position
    } else {
        position_after(position, held, bases.drop_last()).plus(bases.last().tick_offset(held))
    }
}

/// Applying two plans one after the other adds the sum of what each adds.
pub proof fn lemma_plan_offset_concat(basis: Basis, first: Seq<Step>, second: Seq<Step>)
    ensures
        basis.plan_offset(first + second) == basis.plan_offset(first).plus(
            basis.plan_offset(second),
        ),
    decreases second.len(),
{
    if second.len() == 0 {
        assert(first + second =~= first);
    } else {
        assert((first + second).drop_last() =~= first + second.drop_last());
        assert((first + second).last() == second.last());
        lemma_plan_offset_concat(basis, first, second.drop_last());
    }
}

/// A tick adds, for each intent, what that intent alone would add.
pub proof fn lemma_tick_offset_by_intent(basis: Basis, held: Set<Movement>)
    ensures
        basis.tick_offset(held) == basis.intent_offset(held, Movement::Up).plus(
            basis.intent_offset(held, Movement::Left),
        ).plus(basis.intent_offset(held, Movement::Down)).plus(
            basis.intent_offset(held, Movement::Right),
        ).plus(basis.intent_offset(held, Movement::Forward)).plus(
            basis.intent_offset(held, Movement::Backward),
        ),
{
    let p1 = held_step(held, Movement::Up);
    let p2 = p1 + held_step(held, Movement::Left);
    let p3 = p2 + held_step(held, Movement::Down);
    let p4 = p3 + held_step(held, Movement::Right);
    let p5 = p4 + held_step(held, Movement::Forward);
    lemma_motion_plan_by_intent(held);
    lemma_held_step_offset(basis, held, Movement::Up);
    lemma_held_step_offset(basis, held, Movement::Left);
    lemma_held_step_offset(basis, held, Movement::Down);
    lemma_held_step_offset(basis, held, Movement::Right);
    lemma_held_step_offset(basis, held, Movement::Forward);
    lemma_held_step_offset(basis, held, Movement::Backward);
    lemma_plan_offset_concat(basis, p1, held_step(held, Movement::Left));
    lemma_plan_offset_concat(basis, p2, held_step(held, Movement::Down));
    lemma_plan_offset_concat(basis, p3, held_step(held, Movement::Right));
    lemma_plan_offset_concat(basis, p4, held_step(held, Movement::Forward));
    lemma_plan_offset_concat(basis, p5, held_step(held, Movement::Backward));
}

proof fn lemma_held_step_offset(basis: Basis, held: Set<Movement>, m: Movement)
    ensures
        basis.plan_offset(held_step(held, m)) == basis.intent_offset(held, m),
{
    if held.contains(m) {
        let plan = seq![m.spec_step()];
        assert(plan.drop_last() =~= Seq::<Step>::empty());
        assert(basis.plan_offset(plan.drop_last()) == Offset::zero());
        assert(plan.last() == m.spec_step());
    }
}

/// Within disjoint sets an intent is held in at most one, so what it adds
/// under their union is the sum of what it adds under each.
proof fn lemma_intent_offset_union(basis: Basis, a: Set<Movement>, b: Set<Movement>, m: Movement)
    requires
        a.disjoint(b),
    ensures
        basis.intent_offset(a.union(b), m) == basis.intent_offset(a, m).plus(
            basis.intent_offset(b, m),
        ),
{
    assert(!(a.contains(m) && b.contains(m)));
}

/// Two sums of six offsets add up term by term.
proof fn lemma_sums_add_termwise(x: Seq<Offset>, y: Seq<Offset>)
    requires
        x.len() == 6,
        y.len() == 6,
    ensures
        x[0].plus(x[1]).plus(x[2]).plus(x[3]).plus(x[4]).plus(x[5]).plus(
            y[0].plus(y[1]).plus(y[2]).plus(y[3]).plus(y[4]).plus(y[5]),
        ) == x[0].plus(y[0]).plus(x[1].plus(y[1])).plus(x[2].plus(y[2])).plus(
            x[3].plus(y[3]),
        ).plus(x[4].plus(y[4])).plus(x[5].plus(y[5])),
{
}

/// Intents compose by addition: holding two disjoint sets of intents
/// together moves the eye, in one tick, by the sum of what a tick with each
/// set alone would add.
pub proof fn lemma_disjoint_intents_add(basis: Basis, a: Set<Movement>, b: Set<Movement>)
    requires
        a.disjoint(b),
    ensures
        basis.tick_offset(a.union(b)) == basis.tick_offset(a).plus(basis.tick_offset(b)),
{
    let order = crate::motion::tick_order();
    let x = Seq::new(6, |i: int| basis.intent_offset(a, order[i]));
    let y = Seq::new(6, |i: int| basis.intent_offset(b, order[i]));
    lemma_tick_offset_by_intent(basis, a);
    lemma_tick_offset_by_intent(basis, b);
    lemma_tick_offset_by_intent(basis, a.union(b));
    lemma_intent_offset_union(basis, a, b, Movement::Up);
    lemma_intent_offset_union(basis, a, b, Movement::Left);
    lemma_intent_offset_union(basis, a, b, Movement::Down);
    lemma_intent_offset_union(basis, a, b, Movement::Right);
    lemma_intent_offset_union(basis, a, b, Movement::Forward);
    lemma_intent_offset_union(basis, a, b, Movement::Backward);
    lemma_sums_add_termwise(x, y);
}

/// A tick with a single intent held adds exactly that intent's step.
pub proof fn lemma_single_intent(basis: Basis, m: Movement)
    ensures
        basis.tick_offset(set![m]) == basis.step_offset(m.spec_step()),
{
    lemma_tick_offset_by_intent(basis, set![m]);
}

/// Two different intents held together move the eye, in one tick, by the
/// vector sum of what a tick with each of them alone would add: nothing is
/// clamped or renormalised.
pub proof fn lemma_two_intents_add(basis: Basis, m: Movement, n: Movement)
    requires
        m != n,
    ensures
        basis.tick_offset(set![m, n]) == basis.tick_offset(set![m]).plus(
            basis.tick_offset(set![n]),
        ),
        basis.tick_offset(set![m, n]) == basis.step_offset(m.spec_step()).plus(
            basis.step_offset(n.spec_step()),
        ),
{
    lemma_single_intent(basis, m);
    lemma_single_intent(basis, n);
    assert(set![m].disjoint(set![n]));
    assert(set![m].union(set![n]) =~= set![m, n]);
    lemma_disjoint_intents_add(basis, set![m], set![n]);
}

/// With nothing held a tick plans no step.
pub proof fn lemma_idle_plan_is_empty()
    ensures
        motion_plan(Set::<Movement>::empty()) == Seq::<Step>::empty(),
{
    lemma_motion_plan_by_intent(Set::<Movement>::empty());
}

/// With nothing held, any number of ticks leaves the position where it was,
/// whatever the basis at each tick.
pub proof fn lemma_idle_ticks_keep_position(position: Offset, bases: Seq<Basis>)
    ensures
        position_after(position, Set::<Movement>::empty(), bases) == position,
    decreases bases.len(),
{
    if bases.len() > 0 {
        lemma_idle_ticks_keep_position(position, bases.drop_last());
        lemma_idle_plan_is_empty();
    }
}

} // verus!
