//! Decoding, coordination and wire formats of a household energy monitor.
//!
//! Two serial sources are decoded here: a utility meter that sends framed
//! key/value groups, and a power module that sends one line of readings per
//! sample. Around the decoders stand the state machines of the actors that
//! publish, log and present the readings, and the text formats in which the
//! readings leave the system.
use vstd::prelude::*;

pub mod clock;
pub mod actor;
pub mod display;
pub mod driver;
pub mod service;
pub mod settings;
pub mod text;
