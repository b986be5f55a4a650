//! The actors, as state machines.
//!
//! An actor owns one piece of hardware and talks to the others by messages
//! only. What an actor decides is written here, as a function from its state
//! and an event to its next state and what it sends; performing the sends,
//! the waits and the reads is left to whoever runs the actor.
use vstd::prelude::*;

pub mod producer;
pub mod linky;
pub mod rpict;
pub mod button;
pub mod datalogger;
pub mod display;
pub mod hmi;
