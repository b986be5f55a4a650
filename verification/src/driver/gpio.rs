//! The levels of a digital pin.
use vstd::prelude::*;

verus! {

/// The level of a digital pin.
#[derive(Clone, Copy, Debug, PartialEq, Eq)]
pub enum Level {
    Low,
    High,
}

} // verus!
