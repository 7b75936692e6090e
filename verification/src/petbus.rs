//! The PET 4032 system bus: address decoding over RAM, ROM images and
//! the three peripheral chips, plus interrupt aggregation.
//!
//! Reads and writes below `$8800` go to RAM (the window from `$8000` is
//! the video RAM). The BASIC, editor and kernal ROMs answer reads in
//! their windows and silently drop writes. Three small windows at
//! `$E810`, `$E840` and `$E880` reach the PIA, VIA and CRTC registers.
//! Undecoded addresses read `$FF` and drop writes. Ticking the bus
//! advances the VIA and PIA by one cycle and recomputes the aggregate
//! interrupt line.

use vstd::prelude::*;

use crate::bus::Bus;
use crate::crtc6845::{crtc_read_spec, crtc_write_spec, Crtc6845};
use crate::pia6821::{
    pia_init, pia_irq_spec, pia_read_next, pia_read_val, pia_tick_spec, pia_write_spec, Pia6821,
};
use crate::rom::RomData;
use crate::via6522::{
    via_init, via_read_next, via_read_val, via_tick_spec, via_write_spec, Via6522,
};

verus! {

/// The PET system bus.
pub struct PetBus {
    /// 32 KiB of main RAM followed by the 2 KiB video RAM at `$8000`.
    pub ram: Vec<u8>,
    pub roms: RomData,
    pub via: Via6522,
    pub pia: Pia6821,
    pub crtc: Crtc6845,
    /// The aggregate interrupt line, recomputed on every tick.
    pub irq_asserted: bool,
    /// Cycles ticked so far; diagnostics only, wraps around.
    pub total_cycles: u64,
}

/// The byte of the plain-memory image at address `a`: RAM, then the ROM
/// windows; everything else (the peripheral windows included) reads as
/// `$FF` when treated as plain memory.
pub open spec fn pet_mem_at(b: &PetBus, a: int) -> u8 {
    if 0 <= a < 0x8800 {
        b.ram@[a]
    } else if 0xB000 <= a < 0xC000 {
        b.roms.basic_b000@[a - 0xB000]
    } else if 0xC000 <= a < 0xD000 {
        b.roms.basic_c000@[a - 0xC000]
    } else if 0xD000 <= a < 0xE000 {
        b.roms.basic_d000@[a - 0xD000]
    } else if 0xE000 <= a < 0xE800 {
        b.roms.editor_e000@[a - 0xE000]
    } else if 0xF000 <= a < 0x10000 {
        b.roms.kernal_f000@[a - 0xF000]
    } else {
        0xFF
    }
}

/// Whether address `a` falls in one of the three peripheral windows.
pub open spec fn pet_peripheral(a: u16) -> bool {
    (0xE810 <= a && a <= 0xE813) || (0xE840 <= a && a <= 0xE84F) || (0xE880 <= a && a <= 0xE881)
}

impl PetBus {
    /// A bus over the given ROM images: RAM cleared, peripherals in
    /// their power-on state, the CRT controller loaded with the PET 4032
    /// defaults.
    pub fn new(roms: RomData) -> (r: PetBus)
        requires
            roms.wf(),
        ensures
            r.inv(),
            r.ram@ == Seq::new(0x8800, |i: int| 0u8),
            r.roms == roms,
            r.via == via_init(),
            r.pia@ == pia_init(),
            r.crtc@.screen_start == 0,
            !r.irq_asserted,
            r.total_cycles == 0,
    {
        let mut crtc = Crtc6845::new();
        crtc.init_pet4032_screen();
        let ram: Vec<u8> = vec![0u8; 0x8800];
        proof {
            assert(ram@ =~= Seq::new(0x8800, |i: int| 0u8));
        }
        PetBus { ram, roms, via: Via6522::new(), pia: Pia6821::new(), crtc, irq_asserted: false, total_cycles: 0 }
    }

    /// Advances the VIA and the PIA by one cycle, counts it, and folds
    /// the two interrupt outputs into the aggregate line.
    pub fn tick(&mut self)
        requires
            old(self).inv(),
        ensures
            final(self).inv(),
            final(self).ram == old(self).ram,
            final(self).roms == old(self).roms,
            final(self).crtc == old(self).crtc,
            final(self).via == via_tick_spec(old(self).via, 1),
            final(self).pia@ == pia_tick_spec(old(self).pia@, 1),
            final(self).total_cycles == old(self).total_cycles.wrapping_add(1),
            final(self).irq_asserted == (via_tick_spec(old(self).via, 1).irq_out || pia_irq_spec(
                pia_tick_spec(old(self).pia@, 1),
            )),
    {
        self.total_cycles = self.total_cycles.wrapping_add(1);
        self.via.tick(1);
        self.pia.tick(1);

        let via_irq = self.via.irq_out;
        let pia_irq = self.pia.irq_out();
        self.irq_asserted = via_irq || pia_irq;
    }

    /// Decodes one read. RAM and ROM reads return the image byte and
    /// change nothing — in particular every read leaves RAM as it was.
    /// A read in a peripheral window reaches that chip's register, with
    /// that chip's side effects and no other.
    pub fn read_bus(&mut self, addr: u16) -> (r: u8)
        requires
            old(self).inv(),
        ensures
            final(self).inv(),
            final(self).ram == old(self).ram,
            final(self).roms == old(self).roms,
            final(self).crtc == old(self).crtc,
            final(self).irq_asserted == old(self).irq_asserted,
            final(self).total_cycles == old(self).total_cycles,
            !pet_peripheral(addr) ==> *final(self) == *old(self) && r == pet_mem_at(
                old(self),
                addr as int,
            ),
            (0xE810 <= addr && addr <= 0xE813) ==> r == pia_read_val(
                old(self).pia@,
                (addr & 0x03) as u8,
            ) && final(self).pia@ == pia_read_next(old(self).pia@, (addr & 0x03) as u8) && final(self).via == old(self).via,
            (0xE840 <= addr && addr <= 0xE84F) ==> r == via_read_val(
                old(self).via,
                (addr & 0x0F) as u8,
            ) && final(self).via == via_read_next(old(self).via, (addr & 0x0F) as u8) && final(self).pia == old(self).pia,
            (0xE880 <= addr && addr <= 0xE881) ==> r == crtc_read_spec(
                old(self).crtc@,
                (addr & 0x01) as usize,
            ) && final(self).via == old(self).via && final(self).pia == old(self).pia,
    {
        if addr <= 0x87FF {
            self.ram[addr as usize]
        } else if 0xB000 <= addr && addr <= 0xBFFF {
            proof {
                assert((addr & 0x0FFF) == addr - 0xB000) by (bit_vector)
                    requires
                        0xB000 <= addr && addr <= 0xBFFF,
                ;
            }
            self.roms.basic_b000[(addr & 0x0FFF) as usize]
        } else if 0xC000 <= addr && addr <= 0xCFFF {
            proof {
                assert((addr & 0x0FFF) == addr - 0xC000) by (bit_vector)
                    requires
                        0xC000 <= addr && addr <= 0xCFFF,
                ;
            }
            self.roms.basic_c000[(addr & 0x0FFF) as usize]
        } else if 0xD000 <= addr && addr <= 0xDFFF {
            proof {
                assert((addr & 0x0FFF) == addr - 0xD000) by (bit_vector)
                    requires
                        0xD000 <= addr && addr <= 0xDFFF,
                ;
            }
            self.roms.basic_d000[(addr & 0x0FFF) as usize]
        } else if 0xE000 <= addr && addr <= 0xE7FF {
            proof {
                assert((addr & 0x07FF) == addr - 0xE000) by (bit_vector)
                    requires
                        0xE000 <= addr && addr <= 0xE7FF,
                ;
            }
            self.roms.editor_e000[(addr & 0x07FF) as usize]
        } else if 0xE810 <= addr && addr <= 0xE813 {
            let reg = (addr & 0x03) as u8;
            self.pia.read_register(reg)
        } else if 0xE840 <= addr && addr <= 0xE84F {
            let reg = (addr & 0x0F) as u8;
            self.via.read_register(reg)
        } else if 0xE880 <= addr && addr <= 0xE881 {
            let reg = (addr & 0x01) as usize;
            self.crtc.read_register(reg)
        } else if 0xF000 <= addr {
            self.roms.kernal_f000[(addr - 0xF000) as usize]
        } else {
            0xFF
        }
    }

    /// Decodes one write. RAM takes the byte; a peripheral window passes
    /// it to that chip's register; ROM windows and undecoded addresses
    /// drop it.
    pub fn write_bus(&mut self, addr: u16, val: u8)
        requires
            old(self).inv(),
        ensures
            final(self).inv(),
            final(self).roms == old(self).roms,
            final(self).irq_asserted == old(self).irq_asserted,
            final(self).total_cycles == old(self).total_cycles,
            addr < 0x8800 ==> final(self).ram@ == old(self).ram@.update(addr as int, val)
                && final(self).via == old(self).via && final(self).pia == old(self).pia && final(self).crtc == old(self).crtc,
            (0xE810 <= addr && addr <= 0xE813) ==> final(self).pia@ == pia_write_spec(
                old(self).pia@,
                (addr & 0x03) as u8,
                val,
            ) && final(self).ram == old(self).ram && final(self).via == old(self).via && final(self).crtc == old(self).crtc,
            (0xE840 <= addr && addr <= 0xE84F) ==> final(self).via == via_write_spec(
                old(self).via,
                (addr & 0x0F) as u8,
                val,
            ) && final(self).ram == old(self).ram && final(self).pia == old(self).pia && final(self).crtc == old(self).crtc,
            (0xE880 <= addr && addr <= 0xE881) ==> final(self).crtc@ == crtc_write_spec(
                old(self).crtc@,
                (addr & 0x01) as usize,
                val,
            ) && final(self).ram == old(self).ram && final(self).via == old(self).via && final(self).pia == old(self).pia,
            (addr >= 0x8800 && !pet_peripheral(addr)) ==> *final(self) == *old(self),
    {
        if addr <= 0x87FF {
            self.ram[addr as usize] = val;
        } else if 0xE810 <= addr && addr <= 0xE813 {
            let reg = (addr & 0x03) as u8;
            self.pia.write_register(reg, val);
        } else if 0xE840 <= addr && addr <= 0xE84F {
            let reg = (addr & 0x0F) as u8;
            self.via.write_register(reg, val);
        } else if 0xE880 <= addr && addr <= 0xE881 {
            let reg = (addr & 0x01) as usize;
            self.crtc.write_register(reg, val);
        }
    }
}

impl Bus for PetBus {
    open spec fn mem(&self) -> Seq<u8> {
        Seq::new(0x10000, |i: int| pet_mem_at(self, i))
    }

    open spec fn read_plain(&self, addr: u16) -> bool {
        !pet_peripheral(addr)
    }

    open spec fn write_plain(&self, addr: u16) -> bool {
        addr < 0x8800
    }

    open spec fn inv(&self) -> bool {
        self.ram@.len() == 0x8800 && self.roms.wf() && self.pia.wf() && self.crtc.wf()
            && self.pia.cycle_count < 16666 && self.pia.auto_type_timer < self.pia.auto_type_delay
    }

    proof fn lemma_inv(&self) {
    }

    fn read(&mut self, addr: u16) -> (r: u8) {
        let r = self.read_bus(addr);
        proof {
            assert(self.mem() =~= old(self).mem());
        }
        r
    }

    fn write(&mut self, addr: u16, val: u8) {
        self.write_bus(addr, val);
        proof {
            if old(self).write_plain(addr) {
                assert(self.mem() =~= old(self).mem().update(addr as int, val));
            } else {
                assert(self.mem() =~= old(self).mem());
            }
        }
    }

    fn tick(&mut self) {
    }
}


/// Round trip through RAM: every address below `$8800` is plain for both
/// writes and reads, so a byte written through the bus is exactly what
/// the next read of that address returns.
pub proof fn lemma_ram_write_read(b: PetBus, a: u16, v: u8)
    requires
        b.inv(),
        a < 0x8800,
    ensures
        b.write_plain(a),
        b.read_plain(a),
        b.mem().update(a as int, v)[a as int] == v,
{
}

} // verus!
