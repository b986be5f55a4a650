//! The errors of the drivers.
use vstd::prelude::*;
use vstd::string::*;

verus! {

/// A frame, or one of its fields, could not be read.
#[derive(Debug, PartialEq, Eq)]
pub struct ParseError;

impl ParseError {
    /// What the error says to a person.
    pub fn message(&self) -> (text: String)
        ensures
            text@ == "failed to parse frame"@,
    {
        String::from_str("failed to parse frame")
    }
}

/// A device did not take what was sent to it, or could not be reached.
#[derive(Debug, PartialEq, Eq)]
pub struct CommError;

impl CommError {
    /// What the error says to a person.
    pub fn message(&self) -> (text: String)
        ensures
            text@ == "communication with device failed"@,
    {
        String::from_str("communication with device failed")
    }
}

} // verus!
