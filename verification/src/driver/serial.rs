//! How the serial lines of the two sources are set.
use vstd::prelude::*;

verus! {

/// The parity bit of a serial line.
#[derive(Clone, Copy, Debug, PartialEq, Eq)]
pub enum Parity {
    /// No parity bit.
    Off,
    /// A bit that makes the number of ones even.
    Even,
}

/// The settings of a serial line.
#[derive(Clone, Copy, Debug, PartialEq, Eq)]
pub struct SerialLine {
    pub baud_rate: u32,
    pub parity: Parity,
    pub data_bits: u8,
    pub stop_bits: u8,
}

/// The line of the meter: 1200 baud, even parity, seven data bits, one stop
/// bit.
pub fn linky_line() -> (line: SerialLine)
    ensures
        line == (SerialLine { baud_rate: 1200, parity: Parity::Even, data_bits: 7, stop_bits: 1 }),
{
    SerialLine { baud_rate: 1200, parity: Parity::Even, data_bits: 7, stop_bits: 1 }
}

/// The line of the power module: 38400 baud, no parity, eight data bits, one
/// stop bit.
pub fn rpict_line() -> (line: SerialLine)
    ensures
        line == (SerialLine { baud_rate: 38400, parity: Parity::Off, data_bits: 8, stop_bits: 1 }),
{
    SerialLine { baud_rate: 38400, parity: Parity::Off, data_bits: 8, stop_bits: 1 }
}

} // verus!
