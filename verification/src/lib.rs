//! The discrete core of a free-flying camera: which movement keys are held,
//! how key events change that, and what one tick of navigation does with it.
//!
//! The host owns the window, the event loop and all numeric work on
//! positions and matrices. This crate decides *what* moves: it maps key
//! events to movement intents, keeps the set of intents currently held, and
//! turns that set into the ordered list of signed basis steps that a tick
//! applies to the eye position.

pub mod camera;
pub mod input;
pub mod motion;
pub mod travel;
