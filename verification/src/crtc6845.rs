//! A minimal 6845 CRT controller: an address latch, 18 data registers,
//! and the derived screen-start and cursor projections the renderer uses.
//!
//! Offset 0 latches a 5-bit register index; offset 1 reads or writes the
//! latched register. The latch can name registers 18 to 31, which do not
//! exist: writes there are dropped and reads return 0, so no access can
//! fault.

use vstd::prelude::*;

verus! {

/// 6845 state.
pub struct Crtc6845 {
    /// The 18 data registers.
    pub registers: Vec<u8>,
    /// The latched 5-bit register index.
    pub selected_register: usize,
    pub screen_start_address: u16,
    pub cursor_address: u16,
    pub cursor_start_reg: u8,
    pub cursor_end_reg: u8,
}

/// The controller's state as a plain mathematical value.
pub struct CrtcState {
    pub regs: Seq<u8>,
    pub selected: usize,
    pub screen_start: u16,
    pub cursor: u16,
    pub cursor_start: u8,
    pub cursor_end: u8,
}

impl View for Crtc6845 {
    type V = CrtcState;

    open spec fn view(&self) -> CrtcState {
        CrtcState {
            regs: self.registers@,
            selected: self.selected_register,
            screen_start: self.screen_start_address,
            cursor: self.cursor_address,
            cursor_start: self.cursor_start_reg,
            cursor_end: self.cursor_end_reg,
        }
    }
}

/// A 16-bit projection from a register pair: high byte from `regs[hi]`,
/// low byte from `regs[lo]`.
pub open spec fn reg_pair(regs: Seq<u8>, hi: int, lo: int) -> u16 {
    ((regs[hi] as u16) << 8) | (regs[lo] as u16)
}

/// Effect of a write: offset 0 latches the 5-bit register index; offset 1
/// stores into the latched register (if it exists) and refreshes the
/// projection derived from it; other offsets do nothing.
pub open spec fn crtc_write_spec(c: CrtcState, register_select: usize, data: u8) -> CrtcState {
    if register_select == 0 {
        CrtcState { selected: (data & 0x1F) as usize, ..c }
    } else if register_select == 1 {
        if c.selected < 18 {
            let regs = c.regs.update(c.selected as int, data);
            let c1 = CrtcState { regs, ..c };
            if c.selected == 12 || c.selected == 13 {
                CrtcState { screen_start: reg_pair(regs, 12, 13), ..c1 }
            } else if c.selected == 14 || c.selected == 15 {
                CrtcState { cursor: reg_pair(regs, 14, 15), ..c1 }
            } else if c.selected == 10 {
                CrtcState { cursor_start: data, ..c1 }
            } else if c.selected == 11 {
                CrtcState { cursor_end: data, ..c1 }
            } else {
                c1
            }
        } else {
            c
        }
    } else {
        c
    }
}

/// The byte a read returns: the address offset reads 0, the data offset
/// reads the latched register (0 for the nonexistent ones).
pub open spec fn crtc_read_spec(c: CrtcState, register_select: usize) -> u8 {
    if register_select == 1 {
        if c.selected < 18 {
            c.regs[c.selected as int]
        } else {
            0
        }
    } else {
        0
    }
}

/// The sixteen PET 4032 power-on register values: 40 columns, 25 rows,
/// screen and cursor at offset 0. Registers 16 and 17 are not written.
pub open spec fn pet4032_regs() -> Seq<u8> {
    seq![
        0x31u8,
        0x27u8,
        0x29u8,
        0x0Au8,
        0x1Fu8,
        0x00u8,
        0x18u8,
        0x1Eu8,
        0x00u8,
        0x07u8,
        0x00u8,
        0x00u8,
        0x00u8,
        0x00u8,
        0x00u8,
        0x00u8,
    ]
}

impl Crtc6845 {
    /// Well-formedness: all 18 registers are present.
    pub open spec fn wf(&self) -> bool {
        self.registers@.len() == 18
    }

    /// A controller with every register zero and register 0 latched.
    pub fn new() -> (r: Crtc6845)
        ensures
            r.wf(),
            r@.regs == Seq::new(18, |i: int| 0u8),
            r@.selected == 0,
            r@.screen_start == 0,
            r@.cursor == 0,
            r@.cursor_start == 0,
            r@.cursor_end == 0,
    {
        let registers: Vec<u8> = vec![0u8; 18];
        proof {
            assert(registers@ =~= Seq::new(18, |i: int| 0u8));
        }
        Crtc6845 {
            registers,
            selected_register: 0,
            screen_start_address: 0,
            cursor_address: 0,
            cursor_start_reg: 0,
            cursor_end_reg: 0,
        }
    }

    /// Writes the address latch (offset 0) or the latched data register
    /// (offset 1), refreshing the derived screen-start, cursor-address
    /// and cursor-raster projections.
    pub fn write_register(&mut self, register_select: usize, data: u8)
        requires
            old(self).wf(),
        ensures
            final(self).wf(),
            final(self)@ == crtc_write_spec(old(self)@, register_select, data),
    {
        if register_select == 0 {
            self.selected_register = (data & 0x1F) as usize;
        } else if register_select == 1 {
            if self.selected_register < 18 {
                self.registers[self.selected_register] = data;
                if self.selected_register == 12 || self.selected_register == 13 {
                    self.screen_start_address = ((self.registers[12] as u16) << 8) | (
                    self.registers[13] as u16);
                } else if self.selected_register == 14 || self.selected_register == 15 {
                    self.cursor_address = ((self.registers[14] as u16) << 8) | (self.registers[15]
                        as u16);
                } else if self.selected_register == 10 {
                    self.cursor_start_reg = data;
                } else if self.selected_register == 11 {
                    self.cursor_end_reg = data;
                }
            }
        }
    }

    /// Reads the data offset's latched register; the address offset and
    /// nonexistent registers read 0.
    pub fn read_register(&self, register_select: usize) -> (r: u8)
        requires
            self.wf(),
        ensures
            r == crtc_read_spec(self@, register_select),
    {
        if register_select == 1 {
            if self.selected_register < 18 {
                self.registers[self.selected_register]
            } else {
                0
            }
        } else {
            0
        }
    }

    /// The screen base in CPU address space: `$8000` plus the projection
    /// of registers 12 and 13 (wrapping within the address space).
    pub fn screen_start_address(&self) -> (r: u16)
        ensures
            r == 0x8000u16.wrapping_add(self@.screen_start),
    {
        0x8000u16.wrapping_add(self.screen_start_address)
    }

    /// Loads the PET 4032 power-on values into the register file and
    /// refreshes the derived projections.
    pub fn init_pet4032_screen(&mut self)
        requires
            old(self).wf(),
        ensures
            final(self).wf(),
            final(self)@ == (CrtcState {
                regs: pet4032_regs() + old(self)@.regs.subrange(16, 18),
                screen_start: 0,
                cursor: 0,
                cursor_start: 0,
                cursor_end: 0,
                ..old(self)@
            }),
    {
        self.registers[0] = 0x31;
        self.registers[1] = 0x27;
        self.registers[2] = 0x29;
        self.registers[3] = 0x0A;
        self.registers[4] = 0x1F;
        self.registers[5] = 0x00;
        self.registers[6] = 0x18;
        self.registers[7] = 0x1E;
        self.registers[8] = 0x00;
        self.registers[9] = 0x07;
        self.registers[10] = 0x00;
        self.registers[11] = 0x00;
        self.registers[12] = 0x00;
        self.registers[13] = 0x00;
        self.registers[14] = 0x00;
        self.registers[15] = 0x00;
        self.screen_start_address = ((self.registers[12] as u16) << 8) | (self.registers[13]
            as u16);
        self.cursor_address = ((self.registers[14] as u16) << 8) | (self.registers[15] as u16);
        self.cursor_start_reg = self.registers[10];
        self.cursor_end_reg = self.registers[11];
        proof {
            assert(self.registers@ =~= pet4032_regs() + old(self).registers@.subrange(16, 18));
            assert(((0u8 as u16) << 8) == 0) by (bit_vector);
            assert(0u16 | 0u16 == 0) by (bit_vector);
        }
    }
}

} // verus!
