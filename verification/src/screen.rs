//! Sampling the PET screen from video RAM and the character ROM.
//!
//! The visible screen is 25 rows of 40 character cells, each cell 8 by 8
//! pixels. A cell's code comes from the 2 KiB video window starting at
//! the CRT controller's screen-start offset, wrapping within the window;
//! the low seven bits index the character ROM (eight bytes per glyph,
//! most significant bit leftmost) and bit 7 inverts the glyph.

use vstd::prelude::*;

verus! {

/// Pixel width of the rendered frame.
pub const SCREEN_WIDTH: usize = 320;

/// Pixel height of the rendered frame.
pub const SCREEN_HEIGHT: usize = 200;

/// Whether the frame pixel at index `p` (row-major, 320 pixels per line)
/// is lit. A glyph row beyond the end of the character ROM is dark.
pub open spec fn pixel_at(ram: Seq<u8>, rom: Seq<u8>, screen_start: u16, p: int) -> bool {
    let py = p / 320;
    let px = p % 320;
    let row = py / 8;
    let y = py % 8;
    let col = px / 8;
    let x = px % 8;
    let code = ram[0x8000 + ((screen_start as int + (row * 40 + col)) % 0x800)];
    let g = (code & 0x7F) * 8 + y;
    &&& g < rom.len()
    &&& {
        let b = if code & 0x80 != 0 {
            !rom[g]
        } else {
            rom[g]
        };
        b & (0x80u8 >> (x as u8)) != 0
    }
}

/// Renders one monochrome frame: 200 lines of 320 pixels, row-major,
/// `true` for a lit pixel.
pub fn render_screen(ram: &Vec<u8>, char_rom: &Vec<u8>, screen_start: u16) -> (frame: Vec<bool>)
    requires
        ram@.len() == 0x8800,
    ensures
        frame@.len() == 64000,
        forall|p: int|
            0 <= p < 64000 ==> frame@[p] == pixel_at(ram@, char_rom@, screen_start, p),
{
    let mut frame: Vec<bool> = Vec::new();
    let mut p: usize = 0;
    while p < 64000
        invariant
            ram@.len() == 0x8800,
            frame@.len() == p,
            p <= 64000,
            forall|q: int| 0 <= q < p ==> frame@[q] == pixel_at(ram@, char_rom@, screen_start, q),
        decreases 64000 - p,
    {
        let py: usize = p / 320;
        let px: usize = p % 320;
        let row: usize = py / 8;
        let y: usize = py % 8;
        let col: usize = px / 8;
        let x: usize = px % 8;
        let offset: usize = (screen_start as usize + (row * 40 + col)) % 0x800;
        let code: u8 = ram[0x8000 + offset];
        proof {
            assert(code & 0x7F <= 0x7F) by (bit_vector);
        }
        let g: usize = (code & 0x7F) as usize * 8 + y;
        let lit: bool = if g < char_rom.len() {
            let b: u8 = if code & 0x80 != 0 {
                !char_rom[g]
            } else {
                char_rom[g]
            };
            (b & (0x80u8 >> (x as u8))) != 0
        } else {
            false
        };
        frame.push(lit);
        p = p + 1;
    }
    frame
}

} // verus!
