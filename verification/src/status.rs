//! The 6502 processor status register.
//!
//! The register packs seven named flags into one byte, laid out as
//! `N V 1 B D I Z C` from bit 7 down to bit 0. Bit 5 has no storage of its
//! own: whenever the register is read as a byte it is 1.

use vstd::prelude::*;

verus! {

/// The seven named flags of the status register.
#[derive(Clone, Copy, PartialEq, Eq, Structural, Debug)]
pub enum Flag {
    Carry,
    Zero,
    InterruptDisable,
    Decimal,
    Break,
    Overflow,
    Negative,
}

/// Processor status register, one field per defined flag.
///
/// The byte encoding is given by [`status_byte`]; bit 5 is always read as 1.
#[derive(Clone, Copy, PartialEq, Eq, Structural, Debug)]
pub struct StatusRegister {
    pub carry: bool,
    pub zero: bool,
    pub interrupt_disable: bool,
    pub decimal: bool,
    pub break_flag: bool,
    pub overflow: bool,
    pub negative: bool,
}

/// Whether the given flag is set in `s`.
pub open spec fn flag_set(s: StatusRegister, flag: Flag) -> bool {
    match flag {
        Flag::Carry => s.carry,
        Flag::Zero => s.zero,
        Flag::InterruptDisable => s.interrupt_disable,
        Flag::Decimal => s.decimal,
        Flag::Break => s.break_flag,
        Flag::Overflow => s.overflow,
        Flag::Negative => s.negative,
    }
}

/// `s` with the given flag replaced by `value`.
pub open spec fn with_flag(s: StatusRegister, flag: Flag, value: bool) -> StatusRegister {
    match flag {
        Flag::Carry => StatusRegister { carry: value, ..s },
        Flag::Zero => StatusRegister { zero: value, ..s },
        Flag::InterruptDisable => StatusRegister { interrupt_disable: value, ..s },
        Flag::Decimal => StatusRegister { decimal: value, ..s },
        Flag::Break => StatusRegister { break_flag: value, ..s },
        Flag::Overflow => StatusRegister { overflow: value, ..s },
        Flag::Negative => StatusRegister { negative: value, ..s },
    }
}

/// The register just after power-on or reset: interrupts disabled, every
/// other flag clear.
pub open spec fn status_init() -> StatusRegister {
    StatusRegister {
        carry: false,
        zero: false,
        interrupt_disable: true,
        decimal: false,
        break_flag: false,
        overflow: false,
        negative: false,
    }
}

/// Packs seven flag bits into a byte with bit 5 forced to 1.
pub open spec fn pack_status(
    c: bool,
    z: bool,
    i: bool,
    d: bool,
    b: bool,
    v: bool,
    n: bool,
) -> u8 {
    (if c { 0x01u8 } else { 0u8 }) | (if z { 0x02u8 } else { 0u8 })
        | (if i { 0x04u8 } else { 0u8 }) | (if d { 0x08u8 } else { 0u8 })
        | (if b { 0x10u8 } else { 0u8 }) | 0x20u8 | (if v { 0x40u8 } else { 0u8 })
        | (if n { 0x80u8 } else { 0u8 })
}

/// The byte encoding of `s`: flag bits in the `N V 1 B D I Z C` layout,
/// bit 5 always 1.
pub open spec fn status_byte(s: StatusRegister) -> u8 {
    pack_status(s.carry, s.zero, s.interrupt_disable, s.decimal, s.break_flag, s.overflow, s.negative)
}

/// Decodes a byte into the seven defined flags (bit 5 is discarded).
pub open spec fn status_from_byte(b: u8) -> StatusRegister {
    StatusRegister {
        carry: b & 0x01 != 0,
        zero: b & 0x02 != 0,
        interrupt_disable: b & 0x04 != 0,
        decimal: b & 0x08 != 0,
        break_flag: b & 0x10 != 0,
        overflow: b & 0x40 != 0,
        negative: b & 0x80 != 0,
    }
}

impl StatusRegister {
    /// A fresh register: interrupt disable set, everything else clear.
    pub fn new() -> (r: StatusRegister)
        ensures
            r == status_init(),
    {
        StatusRegister {
            carry: false,
            zero: false,
            interrupt_disable: true,
            decimal: false,
            break_flag: false,
            overflow: false,
            negative: false,
        }
    }

    /// Reads one flag.
    pub fn get(&self, flag: Flag) -> (r: bool)
        ensures
            r == flag_set(*self, flag),
    {
        match flag {
            Flag::Carry => self.carry,
            Flag::Zero => self.zero,
            Flag::InterruptDisable => self.interrupt_disable,
            Flag::Decimal => self.decimal,
            Flag::Break => self.break_flag,
            Flag::Overflow => self.overflow,
            Flag::Negative => self.negative,
        }
    }

    /// Writes one flag.
    pub fn set(&mut self, flag: Flag, value: bool)
        ensures
            *final(self) == with_flag(*old(self), flag, value),
    {
        match flag {
            Flag::Carry => self.carry = value,
            Flag::Zero => self.zero = value,
            Flag::InterruptDisable => self.interrupt_disable = value,
            Flag::Decimal => self.decimal = value,
            Flag::Break => self.break_flag = value,
            Flag::Overflow => self.overflow = value,
            Flag::Negative => self.negative = value,
        }
    }

    /// Encodes the register as a byte; bit 5 of the result is always set.
    pub fn to_byte(&self) -> (r: u8)
        ensures
            r == status_byte(*self),
            r & 0x20 == 0x20,
    {
        let r: u8 = (if self.carry { 0x01u8 } else { 0u8 })
            | (if self.zero { 0x02u8 } else { 0u8 })
            | (if self.interrupt_disable { 0x04u8 } else { 0u8 })
            | (if self.decimal { 0x08u8 } else { 0u8 })
            | (if self.break_flag { 0x10u8 } else { 0u8 })
            | 0x20u8
            | (if self.overflow { 0x40u8 } else { 0u8 })
            | (if self.negative { 0x80u8 } else { 0u8 });
        proof {
            lemma_pack_bit5(
                self.carry,
                self.zero,
                self.interrupt_disable,
                self.decimal,
                self.break_flag,
                self.overflow,
                self.negative,
            );
        }
        r
    }

    /// Decodes a byte, setting the seven defined flags from it.
    pub fn from_byte(b: u8) -> (r: StatusRegister)
        ensures
            r == status_from_byte(b),
    {
        StatusRegister {
            carry: b & 0x01 != 0,
            zero: b & 0x02 != 0,
            interrupt_disable: b & 0x04 != 0,
            decimal: b & 0x08 != 0,
            break_flag: b & 0x10 != 0,
            overflow: b & 0x40 != 0,
            negative: b & 0x80 != 0,
        }
    }
}

/// Bit 5 of a packed status byte is always set.
proof fn lemma_pack_bit5(c: bool, z: bool, i: bool, d: bool, b: bool, v: bool, n: bool)
    ensures
        pack_status(c, z, i, d, b, v, n) & 0x20 == 0x20,
{
    assert(((if c { 0x01u8 } else { 0u8 }) | (if z { 0x02u8 } else { 0u8 })
        | (if i { 0x04u8 } else { 0u8 }) | (if d { 0x08u8 } else { 0u8 })
        | (if b { 0x10u8 } else { 0u8 }) | 0x20u8 | (if v { 0x40u8 } else { 0u8 })
        | (if n { 0x80u8 } else { 0u8 })) & 0x20 == 0x20) by (bit_vector);
}

/// Encoding a decoded byte gives the byte back with bit 5 forced on: for
/// every byte `b`, `status_byte(status_from_byte(b)) == b | 0x20`.
pub proof fn lemma_status_byte_roundtrip(b: u8)
    ensures
        status_byte(status_from_byte(b)) == (b | 0x20),
{
    assert(((if b & 0x01 != 0 { 0x01u8 } else { 0u8 }) | (if b & 0x02 != 0 { 0x02u8 } else { 0u8 })
        | (if b & 0x04 != 0 { 0x04u8 } else { 0u8 }) | (if b & 0x08 != 0 { 0x08u8 } else { 0u8 })
        | (if b & 0x10 != 0 { 0x10u8 } else { 0u8 }) | 0x20u8
        | (if b & 0x40 != 0 { 0x40u8 } else { 0u8 }) | (if b & 0x80 != 0 { 0x80u8 } else { 0u8 }))
        == (b | 0x20)) by (bit_vector);
}

} // verus!
