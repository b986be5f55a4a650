//! The icons of the landing page: squares of eight by eight points, one byte
//! per row, the leftmost point in the highest bit.
//!
//! Each icon has two forms. The form for a part that is down is drawn in
//! light on dark; the form for a part that is up is the same picture in dark
//! on light.
use vstd::prelude::*;

verus! {

/// The width and the height of an icon, in points.
pub const ICON_SIZE: u32 = 8;

/// The power module, down.
pub const RPICT_OFF: [u8; 8] = [
    0b0000_0000,
    0b0001_1000,
    0b0011_1100,
    0b0011_1100,
    0b0111_1110,
    0b0010_0100,
    0b0010_0100,
    0b0000_0000,
];

/// The power module, up.
pub const RPICT_ON: [u8; 8] = [
    0b1111_1111,
    0b1110_0111,
    0b1100_0011,
    0b1100_0011,
    0b1000_0001,
    0b1101_1011,
    0b1101_1011,
    0b1111_1111,
];

/// The meter, down.
pub const LINKY_OFF: [u8; 8] = [
    0b0000_0000,
    0b0000_1100,
    0b0001_1000,
    0b0011_0000,
    0b0000_1100,
    0b0001_1000,
    0b0011_0000,
    0b0000_0000,
];

/// The meter, up.
pub const LINKY_ON: [u8; 8] = [
    0b1111_1111,
    0b1111_0011,
    0b1110_0111,
    0b1100_1111,
    0b1111_0011,
    0b1110_0111,
    0b1100_1111,
    0b1111_1111,
];

/// The network, down.
pub const WIFI_OFF: [u8; 8] = [
    0b0000_0000,
    0b0011_1100,
    0b0100_0010,
    0b0001_1000,
    0b0010_0100,
    0b0000_0000,
    0b0001_1000,
    0b0000_0000,
];

/// The network, up.
pub const WIFI_ON: [u8; 8] = [
    0b1111_1111,
    0b1100_0011,
    0b1011_1101,
    0b1110_0111,
    0b1101_1011,
    0b1111_1111,
    0b1110_0111,
    0b1111_1111,
];

/// The parts of the system that the landing page shows.
#[derive(Clone, Copy, Debug, PartialEq, Eq)]
pub enum Part {
    Rpict,
    Linky,
    Wifi,
}

/// The rows of the icon of `part`, which is up (`on`) or down.
pub open spec fn icon_rows(part: Part, on: bool) -> Seq<u8> {
    match part {
        Part::Rpict => if on {
            RPICT_ON@
        } else {
            RPICT_OFF@
        },
        Part::Linky => if on {
            LINKY_ON@
        } else {
            LINKY_OFF@
        },
        Part::Wifi => if on {
            WIFI_ON@
        } else {
            WIFI_OFF@
        },
    }
}

/// The icon of `part`, which is up (`on`) or down.
pub fn icon(part: Part, on: bool) -> (rows: [u8; 8])
    ensures
        rows@ == icon_rows(part, on),
{
    match part {
        Part::Rpict => if on {
            RPICT_ON
        } else {
            RPICT_OFF
        },
        Part::Linky => if on {
            LINKY_ON
        } else {
            LINKY_OFF
        },
        Part::Wifi => if on {
            WIFI_ON
        } else {
            WIFI_OFF
        },
    }
}

/// The two forms of an icon are the negative of each other: a point is lit in
/// one exactly where it is dark in the other.
pub proof fn lemma_forms_are_negatives(part: Part, row: int)
    requires
        0 <= row < 8,
    ensures
        icon_rows(part, true).len() == 8,
        icon_rows(part, false).len() == 8,
        icon_rows(part, true)[row] == !icon_rows(part, false)[row],
{
    assert(0b1111_1111u8 == !0b0000_0000u8) by (bit_vector);
    assert(0b1110_0111u8 == !0b0001_1000u8) by (bit_vector);
    assert(0b1100_0011u8 == !0b0011_1100u8) by (bit_vector);
    assert(0b1000_0001u8 == !0b0111_1110u8) by (bit_vector);
    assert(0b1101_1011u8 == !0b0010_0100u8) by (bit_vector);
    assert(0b1111_0011u8 == !0b0000_1100u8) by (bit_vector);
    assert(0b1100_1111u8 == !0b0011_0000u8) by (bit_vector);
    assert(0b1011_1101u8 == !0b0100_0010u8) by (bit_vector);
}

} // verus!
