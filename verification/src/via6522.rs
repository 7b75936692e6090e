//! The 6522 versatile interface adapter: two 8-bit ports, two interval
//! timers, a shift register, and an interrupt controller.
//!
//! Sixteen numbered registers expose the state. Timer 1 counts down and
//! raises interrupt flag bit 6; in continuous mode (ACR bit 6) it reloads
//! from its latch, in one-shot mode it stops and underflows. The interrupt
//! flag register reads bit 7 as "any enabled flag active", and the enable
//! register has set-or-clear semantics on writes.

use vstd::prelude::*;

verus! {

/// 6522 state: ports, timers, shift and control registers, interrupt
/// flags and the derived IRQ output.
pub struct Via6522 {
    pub ora: u8,
    pub ira: u8,
    pub ddra: u8,
    pub orb: u8,
    pub irb: u8,
    pub ddrb: u8,
    pub t1_counter: u16,
    pub t1_latch: u16,
    pub t1_running: bool,
    pub t2_counter: u16,
    pub t2_latch_low: u8,
    pub sr: u8,
    pub acr: u8,
    pub pcr: u8,
    pub ifr: u8,
    pub ier: u8,
    pub irq_out: bool,
}

/// The power-on state: ports idle with input lines high, timers at
/// `$FFFF` and stopped, no flags raised.
pub open spec fn via_init() -> Via6522 {
    Via6522 {
        ora: 0,
        ira: 0xFF,
        ddra: 0,
        orb: 0,
        irb: 0xFF,
        ddrb: 0,
        t1_counter: 0xFFFF,
        t1_latch: 0,
        t1_running: false,
        t2_counter: 0xFFFF,
        t2_latch_low: 0,
        sr: 0,
        acr: 0,
        pcr: 0,
        ifr: 0,
        ier: 0,
        irq_out: false,
    }
}

/// Recomputes the derived interrupt state: with any enabled flag active,
/// IFR bit 7 and the IRQ output go high; otherwise both drop.
pub open spec fn via_irq_update(v: Via6522) -> Via6522 {
    if v.ifr & v.ier & 0x7F != 0 {
        Via6522 { ifr: v.ifr | 0x80, irq_out: true, ..v }
    } else {
        Via6522 { ifr: v.ifr & 0x7F, irq_out: false, ..v }
    }
}

/// Effect of a register write.
pub open spec fn via_write_spec(v: Via6522, reg: u8, val: u8) -> Via6522 {
    if reg == 0x00 {
        Via6522 { orb: val, ..v }
    } else if reg == 0x01 {
        Via6522 { ora: val, ..v }
    } else if reg == 0x02 {
        Via6522 { ddrb: val, ..v }
    } else if reg == 0x03 {
        Via6522 { ddra: val, ..v }
    } else if reg == 0x04 {
        Via6522 { t1_latch: (v.t1_latch & 0xFF00) | (val as u16), ..v }
    } else if reg == 0x05 {
        let latch = (v.t1_latch & 0x00FF) | ((val as u16) << 8);
        via_irq_update(
            Via6522 {
                t1_latch: latch,
                t1_counter: latch,
                t1_running: true,
                ifr: v.ifr & !0x40,
                ..v
            },
        )
    } else if reg == 0x06 {
        Via6522 { t1_latch: (v.t1_latch & 0xFF00) | (val as u16), ..v }
    } else if reg == 0x07 {
        via_irq_update(
            Via6522 {
                t1_latch: (v.t1_latch & 0x00FF) | ((val as u16) << 8),
                ifr: v.ifr & !0x40,
                ..v
            },
        )
    } else if reg == 0x08 {
        Via6522 { t2_latch_low: val, ..v }
    } else if reg == 0x09 {
        via_irq_update(
            Via6522 {
                t2_counter: ((val as u16) << 8) | (v.t2_latch_low as u16),
                ifr: v.ifr & !0x20,
                ..v
            },
        )
    } else if reg == 0x0A {
        Via6522 { sr: val, ..v }
    } else if reg == 0x0B {
        Via6522 { acr: val, ..v }
    } else if reg == 0x0C {
        Via6522 { pcr: val, ..v }
    } else if reg == 0x0D {
        via_irq_update(Via6522 { ifr: v.ifr & !val, ..v })
    } else if reg == 0x0E {
        let ier = if val & 0x80 != 0 {
            v.ier | (val & 0x7F)
        } else {
            v.ier & !(val & 0x7F)
        };
        via_irq_update(Via6522 { ier, ..v })
    } else if reg == 0x0F {
        Via6522 { ora: val, ..v }
    } else {
        v
    }
}

/// The byte a register read returns.
pub open spec fn via_read_val(v: Via6522, reg: u8) -> u8 {
    if reg == 0x00 {
        (v.irb & !v.ddrb) | (v.orb & v.ddrb)
    } else if reg == 0x01 {
        (v.ira & !v.ddra) | (v.ora & v.ddra)
    } else if reg == 0x02 {
        v.ddrb
    } else if reg == 0x03 {
        v.ddra
    } else if reg == 0x04 {
        (v.t1_counter & 0xFF) as u8
    } else if reg == 0x05 {
        (v.t1_counter >> 8) as u8
    } else if reg == 0x06 {
        (v.t1_latch & 0xFF) as u8
    } else if reg == 0x07 {
        (v.t1_latch >> 8) as u8
    } else if reg == 0x08 {
        (v.t2_counter & 0xFF) as u8
    } else if reg == 0x09 {
        (v.t2_counter >> 8) as u8
    } else if reg == 0x0A {
        v.sr
    } else if reg == 0x0B {
        v.acr
    } else if reg == 0x0C {
        v.pcr
    } else if reg == 0x0D {
        if v.ifr & v.ier & 0x7F != 0 {
            v.ifr | 0x80
        } else {
            v.ifr & 0x7F
        }
    } else if reg == 0x0E {
        v.ier | 0x80
    } else if reg == 0x0F {
        (v.ira & !v.ddra) | (v.ora & v.ddra)
    } else {
        0xFF
    }
}

/// A register read's side effect: reading a timer's counter low byte
/// acknowledges its interrupt flag (bit 6 for timer 1 at register 4,
/// bit 5 for timer 2 at register 8).
pub open spec fn via_read_next(v: Via6522, reg: u8) -> Via6522 {
    if reg == 0x04 {
        via_irq_update(Via6522 { ifr: v.ifr & !0x40, ..v })
    } else if reg == 0x08 {
        via_irq_update(Via6522 { ifr: v.ifr & !0x20, ..v })
    } else {
        v
    }
}

/// Effect of advancing timer 1 by `cycles` cycles (taken modulo 2^16).
/// When the counter runs out, flag bit 6 rises; continuous mode reloads
/// the counter from the latch, one-shot mode stops and lets the counter
/// underflow.
pub open spec fn via_tick_spec(v: Via6522, cycles: u32) -> Via6522 {
    let c = cycles as u16;
    if v.t1_running {
        if v.t1_counter <= c {
            if v.acr & 0x40 != 0 {
                via_irq_update(
                    Via6522 { ifr: v.ifr | 0x40, t1_counter: v.t1_latch, ..v },
                )
            } else {
                via_irq_update(
                    Via6522 {
                        ifr: v.ifr | 0x40,
                        t1_running: false,
                        t1_counter: v.t1_counter.wrapping_sub(c),
                        ..v
                    },
                )
            }
        } else {
            Via6522 { t1_counter: (v.t1_counter - c) as u16, ..v }
        }
    } else {
        v
    }
}

impl Via6522 {
    /// The adapter in its power-on state.
    pub fn new() -> (r: Via6522)
        ensures
            r == via_init(),
    {
        Via6522 {
            ora: 0,
            ira: 0xFF,
            ddra: 0,
            orb: 0,
            irb: 0xFF,
            ddrb: 0,
            t1_counter: 0xFFFF,
            t1_latch: 0,
            t1_running: false,
            t2_counter: 0xFFFF,
            t2_latch_low: 0,
            sr: 0,
            acr: 0,
            pcr: 0,
            ifr: 0,
            ier: 0,
            irq_out: false,
        }
    }

    /// Writes one numbered register. Writing the timer 1 counter high
    /// byte (register 5) copies the latch into the counter and starts the
    /// timer; writes to 5, 7 and 9 acknowledge their timer's flag; a
    /// 1 bit written to the flag register (13) clears that flag; the
    /// enable register (14) sets or clears the bits selected by the low
    /// seven bits, as bit 7 directs.
    pub fn write_register(&mut self, reg: u8, val: u8)
        ensures
            *final(self) == via_write_spec(*old(self), reg, val),
    {
        match reg {
            0x00 => self.orb = val,
            0x01 => self.ora = val,
            0x02 => self.ddrb = val,
            0x03 => self.ddra = val,
            0x04 => self.t1_latch = (self.t1_latch & 0xFF00) | (val as u16),
            0x05 => {
                self.t1_latch = (self.t1_latch & 0x00FF) | ((val as u16) << 8);
                self.t1_counter = self.t1_latch;
                self.t1_running = true;
                self.ifr = self.ifr & !0x40;
                self.update_irq();
            },
            0x06 => self.t1_latch = (self.t1_latch & 0xFF00) | (val as u16),
            0x07 => {
                self.t1_latch = (self.t1_latch & 0x00FF) | ((val as u16) << 8);
                self.ifr = self.ifr & !0x40;
                self.update_irq();
            },
            0x08 => self.t2_latch_low = val,
            0x09 => {
                self.t2_counter = ((val as u16) << 8) | (self.t2_latch_low as u16);
                self.ifr = self.ifr & !0x20;
                self.update_irq();
            },
            0x0A => self.sr = val,
            0x0B => self.acr = val,
            0x0C => self.pcr = val,
            0x0D => {
                self.ifr = self.ifr & !val;
                self.update_irq();
            },
            0x0E => {
                if val & 0x80 != 0 {
                    self.ier = self.ier | (val & 0x7F);
                } else {
                    self.ier = self.ier & !(val & 0x7F);
                }
                self.update_irq();
            },
            0x0F => self.ora = val,
            _ => {},
        }
    }

    /// Reads one numbered register; reading a counter low byte (4 or 8)
    /// acknowledges the matching timer flag.
    pub fn read_register(&mut self, reg: u8) -> (r: u8)
        ensures
            r == via_read_val(*old(self), reg),
            *final(self) == via_read_next(*old(self), reg),
    {
        match reg {
            0x00 => (self.irb & !self.ddrb) | (self.orb & self.ddrb),
            0x01 => (self.ira & !self.ddra) | (self.ora & self.ddra),
            0x02 => self.ddrb,
            0x03 => self.ddra,
            0x04 => {
                let low = (self.t1_counter & 0xFF) as u8;
                self.ifr = self.ifr & !0x40;
                self.update_irq();
                low
            },
            0x05 => (self.t1_counter >> 8) as u8,
            0x06 => (self.t1_latch & 0xFF) as u8,
            0x07 => (self.t1_latch >> 8) as u8,
            0x08 => {
                let low = (self.t2_counter & 0xFF) as u8;
                self.ifr = self.ifr & !0x20;
                self.update_irq();
                low
            },
            0x09 => (self.t2_counter >> 8) as u8,
            0x0A => self.sr,
            0x0B => self.acr,
            0x0C => self.pcr,
            0x0D => {
                if self.ifr & self.ier & 0x7F != 0 {
                    self.ifr | 0x80
                } else {
                    self.ifr & 0x7F
                }
            },
            0x0E => self.ier | 0x80,
            0x0F => (self.ira & !self.ddra) | (self.ora & self.ddra),
            _ => 0xFF,
        }
    }

    /// Advances timer 1 by the given number of cycles.
    pub fn tick(&mut self, cycles: u32)
        ensures
            *final(self) == via_tick_spec(*old(self), cycles),
    {
        let c = cycles as u16;
        if self.t1_running {
            if self.t1_counter <= c {
                self.ifr = self.ifr | 0x40;
                if self.acr & 0x40 != 0 {
                    self.t1_counter = self.t1_latch;
                } else {
                    self.t1_running = false;
                    self.t1_counter = self.t1_counter.wrapping_sub(c);
                }
                self.update_irq();
            } else {
                self.t1_counter = self.t1_counter - c;
            }
        }
    }

    /// Folds the flag and enable registers into IFR bit 7 and the IRQ
    /// output line.
    fn update_irq(&mut self)
        ensures
            *final(self) == via_irq_update(*old(self)),
    {
        let active = self.ifr & self.ier & 0x7F;
        if active != 0 {
            self.ifr = self.ifr | 0x80;
            self.irq_out = true;
        } else {
            self.ifr = self.ifr & 0x7F;
            self.irq_out = false;
        }
    }
}

} // verus!
