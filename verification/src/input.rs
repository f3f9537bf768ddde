//! Keyboard events and what they do to the set of held intents.

use crate::motion::Movement;
use vstd::prelude::*;

verus! {

/// A key as the navigation sees it: the seven keys that are bound to an
/// intent, and `Other` for every key that is not.
#[derive(Clone, Copy, Debug, PartialEq, Eq, Hash, Structural)]
pub enum Key {
    Space,
    LShift,
    RShift,
    A,
    D,
    W,
    S,
    /// Any key without a binding.
    Other,
}

/// A key went down or came up.
#[derive(Clone, Copy, Debug, PartialEq, Eq, Hash, Structural)]
pub struct KeyEvent {
    pub key: Key,
    /// `true` when the key went down, `false` when it was released.
    pub pressed: bool,
}

impl Key {
    /// The intent that this key is bound to, if any. Both shift keys are
    /// bound to `Down`.
    pub open spec fn spec_movement(self) -> Option<Movement> {
        match self {
            Key::Space => Some(Movement::Up),
            Key::LShift | Key::RShift => Some(Movement::Down),
            Key::A => Some(Movement::Left),
            Key::D => Some(Movement::Right),
            Key::W => Some(Movement::Forward),
            Key::S => Some(Movement::Backward),
            Key::Other => None,
        }
    }

    /// The intent that this key is bound to, if any.
    #[verifier::when_used_as_spec(spec_movement)]
    pub fn movement(self) -> (bound: Option<Movement>)
        ensures
            bound == self.spec_movement(),
    {
        match self {
            Key::Space => Some(Movement::Up),
            Key::LShift | Key::RShift => Some(Movement::Down),
            Key::A => Some(Movement::Left),
            Key::D => Some(Movement::Right),
            Key::W => Some(Movement::Forward),
            Key::S => Some(Movement::Backward),
            Key::Other => None,
        }
    }
}

/// The intents held after `event`, given those held before it.
///
/// Pressing a bound key adds its intent, releasing it removes the intent,
/// and a key without a binding changes nothing.
pub open spec fn held_after(held: Set<Movement>, event: KeyEvent) -> Set<Movement> {
    match event.key.spec_movement() {
        Some(m) => if event.pressed {
            held.insert(m)
        } else {
            held.remove(m)
        },
        None => held,
    }
}

/// A key event touches no intent other than the one its key is bound to.
pub proof fn lemma_key_event_is_local(held: Set<Movement>, event: KeyEvent, other: Movement)
    requires
        event.key.spec_movement() != Some(other),
    ensures
        held_after(held, event).contains(other) == held.contains(other),
{
}

/// After a bound key is pressed its intent is held, whatever was held
/// before; after it is released the intent is no longer held.
pub proof fn lemma_bound_key_sets_its_intent(held: Set<Movement>, event: KeyEvent)
    requires
        event.key.spec_movement() is Some,
    ensures
        held_after(held, event).contains(event.key.spec_movement().unwrap()) == event.pressed,
{
}

/// Releasing a key right after pressing it leaves its intent not held and
/// every other intent as it was before the press.
pub proof fn lemma_release_undoes_press(held: Set<Movement>, key: Key)
    requires
        key.spec_movement() is Some,
    ensures
        held_after(
            held_after(held, (KeyEvent { key, pressed: true })),
            (KeyEvent { key, pressed: false }),
        ) == held.remove(key.spec_movement().unwrap()),
{
    let m = key.spec_movement().unwrap();
    assert(held.insert(m).remove(m) =~= held.remove(m));
}

/// A key without a binding leaves the held intents unchanged, pressed or
/// released.
pub proof fn lemma_unbound_key_is_ignored(held: Set<Movement>, event: KeyEvent)
    requires
        event.key.spec_movement() is None,
    ensures
        held_after(held, event) == held,
{
}

} // verus!
