//! A small Turing-machine execution engine.
//!
//! The engine simulates single-tape Turing machines: a [`universe::Universe`]
//! owns an unbounded two-sided [`universe::tape::Tape`], a signed head
//! position, and a [`universe::machine::Machine`] that consults a compiled
//! [`universe::function::TransitionFunction`]. Each call to
//! `Universe::tick` reads the symbol under the head, decides one step,
//! writes back to the tape and moves the head.

pub mod display;
pub mod presets;
pub mod text;
pub mod universe;
