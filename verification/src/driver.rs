//! The decoders of the two serial sources, and their errors.
use vstd::prelude::*;

pub mod error;
pub mod gpio;

pub mod linky;
pub mod rpict;
pub mod serial;
pub mod ssd1305;
