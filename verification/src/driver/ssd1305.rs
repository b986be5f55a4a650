//! The picture and the commands of the display, a monochrome panel of 128 by
//! 32 points behind an SSD1305 controller.
//!
//! The picture is kept in a buffer of one bit per point. The panel is divided
//! into four pages of eight rows; a byte of the buffer holds the eight points
//! of one column of one page, the topmost in the lowest bit. What is sent to
//! the controller, and in what order, is made here; sending it is left to
//! the owner of the bus.
use vstd::prelude::*;

use crate::driver::gpio::Level;

verus! {

/// The pin that tells the controller commands from data.
pub const GPIO_DC: u8 = 24;

/// The pin that resets the controller.
pub const GPIO_RST: u8 = 25;

/// The clock of the bus, in hertz.
pub const SPI_CLOCK_HZ: u32 = 8_000_000;

/// How long each level of the reset is held, in milliseconds.
pub const RESET_HOLD_MS: u64 = 10;

/// The width of the panel, in points.
pub const DISPLAY_WIDTH: usize = 128;

/// The height of the panel, in points.
pub const DISPLAY_HEIGHT: usize = 32;

/// The number of pages of the panel.
pub const DISPLAY_PAGES: usize = 4;

/// The size of the buffer, in bytes.
pub const BUFFER_SIZE: usize = 512;

/// The command that switches the panel off; with its lowest bit set it
/// switches the panel on.
pub const SET_DISP: u8 = 0xAE;

/// The command that is followed by the contrast.
pub const SET_CONTRAST: u8 = 0x81;

/// The command that selects the first page; the others follow it.
pub const SET_PAGE: u8 = 0xB0;

/// The command that sets the low half of the column to start at.
pub const SET_LOW_COLUMN: u8 = 0x04;

/// The command that sets the high half of the column to start at.
pub const SET_HIGH_COLUMN: u8 = 0x10;

/// A point to draw.
#[derive(Clone, Copy, Debug, PartialEq, Eq)]
pub struct Pixel {
    /// The column, counted from the left.
    pub x: i32,
    /// The row, counted from the top.
    pub y: i32,
    /// Whether the point is lit.
    pub on: bool,
}

/// Whether the point at column `x` and row `y` is on the panel.
pub open spec fn on_panel(x: int, y: int) -> bool {
    0 <= x < DISPLAY_WIDTH && 0 <= y < DISPLAY_HEIGHT
}

/// The place in the buffer of the byte that holds the point.
pub open spec fn byte_of(x: int, y: int) -> int {
    x + (y / 8) * DISPLAY_WIDTH
}

/// The bit of that byte that holds the point.
pub open spec fn mask_of(y: int) -> u8 {
    1u8 << ((y % 8) as u8)
}

/// Whether the point at column `x` and row `y` is lit in `buffer`.
pub open spec fn is_lit(buffer: Seq<u8>, x: int, y: int) -> bool {
    buffer[byte_of(x, y)] & mask_of(y) != 0
}

/// `buffer` after the point `p` was drawn: a point off the panel changes
/// nothing.
pub open spec fn drawn(buffer: Seq<u8>, p: Pixel) -> Seq<u8> {
    if on_panel(p.x as int, p.y as int) {
        let at = byte_of(p.x as int, p.y as int);
        if p.on {
            buffer.update(at, buffer[at] | mask_of(p.y as int))
        } else {
            buffer.update(at, buffer[at] & !mask_of(p.y as int))
        }
    } else {
        buffer
    }
}

/// `buffer` after the points of `pixels` were drawn, in order.
pub open spec fn drawn_all(buffer: Seq<u8>, pixels: Seq<Pixel>) -> Seq<u8>
    decreases pixels.len(),
{
    if pixels.len() == 0 {
        buffer
    } else {
        drawn(drawn_all(buffer, pixels.drop_last()), pixels.last())
    }
}

/// Setting a bit of a byte sets that bit and no other; clearing it clears
/// that bit and no other.
proof fn lemma_bit(b: u8, k: u8, j: u8)
    requires
        k < 8,
        j < 8,
    ensures
        ((b | (1u8 << k)) & (1u8 << j) != 0) == (j == k || (b & (1u8 << j) != 0)),
        ((b & !(1u8 << k)) & (1u8 << j) != 0) == (j != k && (b & (1u8 << j) != 0)),
{
    assert(((b | (1u8 << k)) & (1u8 << j) != 0) == (j == k || (b & (1u8 << j) != 0)))
        by (bit_vector)
        requires
            k < 8,
            j < 8,
    ;
    assert(((b & !(1u8 << k)) & (1u8 << j) != 0) == (j != k && (b & (1u8 << j) != 0)))
        by (bit_vector)
        requires
            k < 8,
            j < 8,
    ;
}

/// Drawing a point on the panel makes it lit or dark as asked, and leaves
/// every other point of the panel as it was.
pub proof fn lemma_drawn_point(buffer: Seq<u8>, p: Pixel, x: int, y: int)
    requires
        buffer.len() == BUFFER_SIZE,
        on_panel(p.x as int, p.y as int),
        on_panel(x, y),
    ensures
        drawn(buffer, p).len() == BUFFER_SIZE,
        is_lit(drawn(buffer, p), x, y) == if x == p.x && y == p.y {
            p.on
        } else {
            is_lit(buffer, x, y)
        },
{
    let at = byte_of(p.x as int, p.y as int);
    let k = ((p.y as int) % 8) as u8;
    let j = (y % 8) as u8;
    lemma_bit(buffer[at], k, j);
    if byte_of(x, y) == at {
        assert(x == p.x);
        assert(y / 8 == (p.y as int) / 8);
        if j == k {
            assert(y == p.y);
        }
    }
}

/// The picture of the display.
pub struct Ssd1305 {
    buffer: [u8; 512],
}

impl View for Ssd1305 {
    type V = Seq<u8>;

    /// The bytes of the buffer.
    closed spec fn view(&self) -> Seq<u8> {
        self.buffer@
    }
}

/// What is sent to show one page of the panel: three commands, which select
/// the page and the column to start at, and then the bytes of the page.
#[derive(Debug, PartialEq, Eq)]
pub struct PageTransfer {
    pub commands: Vec<u8>,
    pub data: Vec<u8>,
}

/// The commands that come before the bytes of the page `page`.
pub open spec fn page_commands(page: int) -> Seq<u8> {
    seq![(SET_PAGE + page) as u8, SET_LOW_COLUMN, SET_HIGH_COLUMN]
}

/// The bytes of the page `page` of `buffer`.
pub open spec fn page_data(buffer: Seq<u8>, page: int) -> Seq<u8> {
    buffer.subrange(page * DISPLAY_WIDTH, (page + 1) * DISPLAY_WIDTH)
}

/// The commands that set the controller up, in order.
pub open spec fn setup_commands() -> Seq<u8> {
    seq![
        0xAEu8, 0x04, 0x10, 0x40, 0x81, 0x00, 0xA1, 0xA6, 0xA8, 0x1F, 0xC8, 0xD3, 0x00, 0xD5, 0xF0,
        0xD8, 0x05, 0xD9, 0xC2, 0xDA, 0x12, 0xDB, 0x08,
    ]
}

impl Ssd1305 {
    /// A dark picture.
    pub fn new() -> (display: Ssd1305)
        ensures
            display@.len() == BUFFER_SIZE,
            forall|i: int| 0 <= i < BUFFER_SIZE ==> display@[i] == 0,
    {
        Ssd1305 { buffer: [0u8;512] }
    }

    /// The width and the height of the panel, in points.
    pub fn size(&self) -> (size: (u32, u32))
        ensures
            size.0 == DISPLAY_WIDTH,
            size.1 == DISPLAY_HEIGHT,
    {
        (128, 32)
    }

    /// The levels that the reset pin takes to reset the controller, each
    /// held for [`RESET_HOLD_MS`] before the next.
    pub fn reset(&self) -> (levels: Vec<Level>)
        ensures
            levels@ == seq![Level::High, Level::Low, Level::High],
    {
        let mut levels: Vec<Level> = Vec::new();
        levels.push(Level::High);
        levels.push(Level::Low);
        levels.push(Level::High);
        levels
    }

    /// The commands that set the controller up after a reset: the panel is
    /// switched off, then addressing, contrast, orientation and timing are
    /// set.
    pub fn begin(&self) -> (commands: Vec<u8>)
        ensures
            commands@ == setup_commands(),
    {
        let mut c: Vec<u8> = Vec::new();
        c.push(self.display_off());
        c.push(SET_LOW_COLUMN);
        c.push(SET_HIGH_COLUMN);
        c.push(0x40);
        let contrast = self.display_contrast(0x00);
        c.push(contrast.0);
        c.push(contrast.1);
        c.push(0xA1);
        c.push(0xA6);
        c.push(0xA8);
        c.push(0x1F);
        c.push(0xC8);
        c.push(0xD3);
        c.push(0x00);
        c.push(0xD5);
        c.push(0xF0);
        c.push(0xD8);
        c.push(0x05);
        c.push(0xD9);
        c.push(0xC2);
        c.push(0xDA);
        c.push(0x12);
        c.push(0xDB);
        c.push(0x08);
        assert(c@ =~= setup_commands());
        c
    }

    /// The command that switches the panel on.
    pub fn display_on(&self) -> (command: u8)
        ensures
            command == 0xAF,
    {
        let command = SET_DISP | 0x01;
        assert(0xAEu8 | 0x01u8 == 0xAFu8) by (bit_vector);
        command
    }

    /// The command that switches the panel off.
    pub fn display_off(&self) -> (command: u8)
        ensures
            command == 0xAE,
    {
        SET_DISP
    }

    /// The two commands that set the contrast to `value`.
    pub fn display_contrast(&self, value: u8) -> (commands: (u8, u8))
        ensures
            commands == (SET_CONTRAST, value),
    {
        (SET_CONTRAST, value)
    }

    /// Makes the picture dark.
    pub fn clear(&mut self)
        ensures
            final(self)@.len() == BUFFER_SIZE,
            forall|i: int| 0 <= i < BUFFER_SIZE ==> final(self)@[i] == 0,
    {
        let mut i: usize = 0;
        while i < BUFFER_SIZE
            invariant
                i <= BUFFER_SIZE,
                self@.len() == BUFFER_SIZE,
                forall|k: int| 0 <= k < i ==> self@[k] == 0,
            decreases BUFFER_SIZE - i,
        {
            self.buffer[i] = 0;
            i += 1;
        }
    }

    /// What is sent to show the picture: the four pages, from the top.
    pub fn flush(&self) -> (transfers: Vec<PageTransfer>)
        ensures
            transfers.len() == DISPLAY_PAGES,
            forall|page: int|
                0 <= page < DISPLAY_PAGES ==> (#[trigger] transfers[page]).commands@
                    == page_commands(page) && transfers[page].data@ == page_data(self@, page),
    {
        let mut transfers: Vec<PageTransfer> = Vec::new();
        let mut page: usize = 0;
        while page < DISPLAY_PAGES
            invariant
                page <= DISPLAY_PAGES,
                transfers.len() == page,
                self@.len() == BUFFER_SIZE,
                forall|p: int|
                    0 <= p < page ==> (#[trigger] transfers[p]).commands@ == page_commands(p)
                        && transfers[p].data@ == page_data(self@, p),
            decreases DISPLAY_PAGES - page,
        {
            let mut commands: Vec<u8> = Vec::new();
            commands.push(SET_PAGE + page as u8);
            commands.push(SET_LOW_COLUMN);
            commands.push(SET_HIGH_COLUMN);
            assert(commands@ =~= page_commands(page as int));
            let start: usize = page * DISPLAY_WIDTH;
            let mut data: Vec<u8> = Vec::new();
            let mut i: usize = 0;
            while i < DISPLAY_WIDTH
                invariant
                    i <= DISPLAY_WIDTH,
                    page < DISPLAY_PAGES,
                    start == page * DISPLAY_WIDTH,
                    self@.len() == BUFFER_SIZE,
                    data@ == self@.subrange(start as int, start + i),
                decreases DISPLAY_WIDTH - i,
            {
                data.push(self.buffer[start + i]);
                assert(data@ =~= self@.subrange(start as int, start + i + 1));
                i += 1;
            }
            transfers.push(PageTransfer { commands, data });
            page += 1;
        }
        transfers
    }

    /// Draws one point. A point off the panel is left out.
    pub fn draw(&mut self, p: Pixel)
        ensures
            final(self)@ == drawn(old(self)@, p),
            final(self)@.len() == BUFFER_SIZE,
    {
        if p.x < 0 || p.y < 0 || p.x >= DISPLAY_WIDTH as i32 || p.y >= DISPLAY_HEIGHT as i32 {
            return ;
        }
        let x = p.x as usize;
        let y = p.y as usize;
        let index: usize = x + (y / 8) * DISPLAY_WIDTH;
        let mask: u8 = 1u8 << ((y % 8) as u8);
        let byte = self.buffer[index];
        if p.on {
            self.buffer[index] = byte | mask;
        } else {
            self.buffer[index] = byte & !mask;
        }
        assert(self@ =~= drawn(old(self)@, p));
    }

    /// Draws the points of `pixels`, in order.
    pub fn draw_iter(&mut self, pixels: &Vec<Pixel>)
        ensures
            final(self)@ == drawn_all(old(self)@, pixels@),
            final(self)@.len() == BUFFER_SIZE,
    {
        let mut i: usize = 0;
        while i < pixels.len()
            invariant
                i <= pixels.len(),
                self@ == drawn_all(old(self)@, pixels@.take(i as int)),
                self@.len() == BUFFER_SIZE,
            decreases pixels.len() - i,
        {
            proof {
                assert(pixels@.take(i + 1).drop_last() == pixels@.take(i as int));
                assert(pixels@.take(i + 1).last() == pixels@[i as int]);
            }
            self.draw(pixels[i]);
            i += 1;
        }
        assert(pixels@.take(pixels.len() as int) == pixels@);
    }

    /// Whether the point at column `x` and row `y` is on the panel and lit.
    pub fn is_lit(&self, x: i32, y: i32) -> (lit: bool)
        ensures
            lit == (on_panel(x as int, y as int) && is_lit(self@, x as int, y as int)),
    {
        if x < 0 || y < 0 || x >= DISPLAY_WIDTH as i32 || y >= DISPLAY_HEIGHT as i32 {
            return false;
        }
        let index: usize = x as usize + (y as usize / 8) * DISPLAY_WIDTH;
        let mask: u8 = 1u8 << ((y as usize % 8) as u8);
        self.buffer[index] & mask != 0
    }
}

} // verus!
