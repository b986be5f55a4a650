//! What the display shows.
use vstd::prelude::*;

pub mod pages;
pub mod icons;
