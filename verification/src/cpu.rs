//! The MOS 6502 processor core.
//!
//! The CPU owns a bus (any implementation of [`Bus`]) and advances one
//! cycle at a time: `step` either drains a pending cycle from the previous
//! instruction, dispatches a pending interrupt, or fetches, decodes and
//! executes one instruction, charging its full cycle cost up front.
//!
//! Specifications describe the processor through [`RegFile`], a plain value
//! holding the six programmer-visible registers, together with the bus's
//! plain-memory image. Wherever an access may hit a peripheral register
//! instead of plain memory, the contracts say exactly what still holds.

use vstd::prelude::*;

use crate::bus::{next_addr, stack_addr, word_at, Bus, SimpleBus};
use crate::bus::lemma_stack_addr;
use crate::opcodes::{get_opcode, opcode_spec, AddressingMode, Mnemonic, Opcode};
use crate::status::{status_byte, status_from_byte, status_init, with_flag, Flag, StatusRegister};

verus! {

/// The programmer-visible registers, as one value for specifications.
pub struct RegFile {
    pub pc: u16,
    pub sp: u8,
    pub a: u8,
    pub x: u8,
    pub y: u8,
    pub st: StatusRegister,
}

/// Effect of pushing one byte: the byte lands at `$0100 | sp` and the
/// stack pointer moves down by one, modulo 256.
pub open spec fn push_byte_spec(r: RegFile, mem: Seq<u8>, v: u8) -> (RegFile, Seq<u8>) {
    (
        RegFile { sp: r.sp.wrapping_sub(1), ..r },
        mem.update(stack_addr(r.sp) as int, v),
    )
}

/// Effect of pulling one byte: the stack pointer moves up by one, modulo
/// 256, and the byte at the new `$0100 | sp` comes back.
pub open spec fn pull_byte_spec(r: RegFile, mem: Seq<u8>) -> (RegFile, u8) {
    let sp1 = r.sp.wrapping_add(1);
    (RegFile { sp: sp1, ..r }, mem[stack_addr(sp1) as int])
}

/// Effect of pushing a word: high byte first, then low byte.
pub open spec fn push_word_spec(r: RegFile, mem: Seq<u8>, v: u16) -> (RegFile, Seq<u8>) {
    let (r1, m1) = push_byte_spec(r, mem, (v >> 8) as u8);
    push_byte_spec(r1, m1, v as u8)
}

/// Effect of pulling a word: low byte first, then high byte.
pub open spec fn pull_word_spec(r: RegFile, mem: Seq<u8>) -> (RegFile, u16) {
    let (r1, lo) = pull_byte_spec(r, mem);
    let (r2, hi) = pull_byte_spec(r1, mem);
    (r2, ((hi as u16) << 8) | (lo as u16))
}

/// Effect of dispatching an interrupt through `vector`: push the program
/// counter, push the status with the Break bit cleared, set the interrupt
/// disable flag, and load the program counter from the vector.
pub open spec fn interrupt_spec(r: RegFile, mem: Seq<u8>, vector: u16) -> (RegFile, Seq<u8>) {
    let (r1, m1) = push_word_spec(r, mem, r.pc);
    let (r2, m2) = push_byte_spec(r1, m1, status_byte(r1.st) & !0x10);
    (
        RegFile {
            pc: word_at(m2, vector),
            st: with_flag(r2.st, Flag::InterruptDisable, true),
            ..r2
        },
        m2,
    )
}

/// The status merge performed by PLP and RTI: the pulled byte supplies
/// every flag except Break, which keeps its current value (and bit 5,
/// which has no storage at all).
pub open spec fn plp_merge(st: StatusRegister, b: u8) -> StatusRegister {
    StatusRegister { break_flag: st.break_flag, ..status_from_byte(b) }
}

/// Effect of RTI: pull the status (with the PLP merge), then pull the
/// program counter.
pub open spec fn rti_spec(r: RegFile, mem: Seq<u8>) -> RegFile {
    let (r1, b) = pull_byte_spec(r, mem);
    let r1m = RegFile { st: plp_merge(r1.st, b), ..r1 };
    let (r2, pc) = pull_word_spec(r1m, mem);
    RegFile { pc, ..r2 }
}

/// Splitting a word into bytes and joining them again is the identity.
proof fn lemma_word_split_join(v: u16)
    ensures
        ((((v >> 8) as u8) as u16) << 8) | ((v as u8) as u16) == v,
{
    assert(((((v >> 8) as u8) as u16) << 8) | ((v as u8) as u16) == v) by (bit_vector);
}

/// Pushing a word and pulling it back returns the pushed value and leaves
/// the stack pointer where it started, for every 16-bit value and every
/// starting stack pointer (the stack wraps within page 1).
pub proof fn lemma_push_pull_word(r: RegFile, mem: Seq<u8>, v: u16)
    requires
        mem.len() == 0x10000,
    ensures
        ({
            let (r1, m1) = push_word_spec(r, mem, v);
            let (r2, got) = pull_word_spec(r1, m1);
            got == v && r2.sp == r.sp && r2.pc == r1.pc && r2.a == r1.a
        }),
{
    lemma_stack_addr(r.sp);
    lemma_stack_addr(r.sp.wrapping_sub(1));
    lemma_stack_addr(r.sp.wrapping_sub(1).wrapping_add(1));
    lemma_word_split_join(v);
}

/// An IRQ or NMI dispatch followed by RTI is transparent to the
/// interrupted program: with the three stacked bytes untouched in between,
/// the registers A, X and Y, the stack pointer, the program counter and
/// the whole status register come back unchanged.
pub proof fn lemma_interrupt_transparent(r: RegFile, mem: Seq<u8>, vector: u16)
    requires
        mem.len() == 0x10000,
    ensures
        ({
            let (r1, m1) = interrupt_spec(r, mem, vector);
            let r2 = rti_spec(r1, m1);
            r2.a == r.a && r2.x == r.x && r2.y == r.y && r2.sp == r.sp && r2.pc == r.pc && r2.st
                == r.st
        }),
{
    lemma_stack_addr(r.sp);
    lemma_stack_addr(r.sp.wrapping_sub(1));
    lemma_stack_addr(r.sp.wrapping_sub(2));
    lemma_stack_addr(r.sp.wrapping_sub(1).wrapping_add(1));
    lemma_stack_addr(r.sp.wrapping_sub(2).wrapping_add(1));
    lemma_word_split_join(r.pc);
    lemma_status_pushed_restore(r.st);
}

/// Decoding a pushed status byte whose Break bit was cleared restores
/// every flag but Break.
proof fn lemma_status_pushed_restore(st: StatusRegister)
    ensures
        status_from_byte(status_byte(st) & !0x10) == (StatusRegister { break_flag: false, ..st }),
{
    let cb: u8 = if st.carry { 0x01 } else { 0 };
    let zb: u8 = if st.zero { 0x02 } else { 0 };
    let ib: u8 = if st.interrupt_disable { 0x04 } else { 0 };
    let db: u8 = if st.decimal { 0x08 } else { 0 };
    let bb: u8 = if st.break_flag { 0x10 } else { 0 };
    let vb: u8 = if st.overflow { 0x40 } else { 0 };
    let nb: u8 = if st.negative { 0x80 } else { 0 };
    assert(status_byte(st) == cb | zb | ib | db | bb | 0x20u8 | vb | nb);
    assert((((cb | zb | ib | db | bb | 0x20u8 | vb | nb) & !0x10u8) & 0x01) == cb && (((cb | zb
        | ib | db | bb | 0x20u8 | vb | nb) & !0x10u8) & 0x02) == zb && (((cb | zb | ib | db | bb
        | 0x20u8 | vb | nb) & !0x10u8) & 0x04) == ib && (((cb | zb | ib | db | bb | 0x20u8 | vb
        | nb) & !0x10u8) & 0x08) == db && (((cb | zb | ib | db | bb | 0x20u8 | vb | nb)
        & !0x10u8) & 0x10) == 0 && (((cb | zb | ib | db | bb | 0x20u8 | vb | nb) & !0x10u8)
        & 0x40) == vb && (((cb | zb | ib | db | bb | 0x20u8 | vb | nb) & !0x10u8) & 0x80)
        == nb) by (bit_vector)
        requires
            cb == 0 || cb == 0x01,
            zb == 0 || zb == 0x02,
            ib == 0 || ib == 0x04,
            db == 0 || db == 0x08,
            bb == 0 || bb == 0x10,
            vb == 0 || vb == 0x40,
            nb == 0 || nb == 0x80,
    ;
}

/// The 6502 processor with its bus.
pub struct Cpu<B: Bus> {
    pub pc: u16,
    pub sp: u8,
    pub a: u8,
    pub x: u8,
    pub y: u8,
    pub status: StatusRegister,
    pub cycles: u8,
    pub halted: bool,
    pub nmi_pending: bool,
    pub irq_pending: bool,
    pub nmi_edge_detected: bool,
    pub bus: B,
}

/// The interrupt latches and the halt flag agree between two CPU states.
pub open spec fn ctrl_unchanged<B: Bus>(a: &Cpu<B>, b: &Cpu<B>) -> bool {
    a.halted == b.halted && a.nmi_pending == b.nmi_pending && a.irq_pending == b.irq_pending
        && a.nmi_edge_detected == b.nmi_edge_detected
}

/// The plain-memory regions of the bus agree between two CPU states.
pub open spec fn plain_unchanged<B: Bus>(a: &Cpu<B>, b: &Cpu<B>) -> bool {
    (forall|ad: u16| a.bus.read_plain(ad) == b.bus.read_plain(ad)) && (forall|ad: u16|
        a.bus.write_plain(ad) == b.bus.write_plain(ad))
}

impl<B: Bus> Cpu<B> {
    /// Well-formedness: the bus is well formed.
    pub open spec fn wf(&self) -> bool {
        self.bus.inv()
    }

    /// The programmer-visible registers.
    pub open spec fn regs(&self) -> RegFile {
        RegFile { pc: self.pc, sp: self.sp, a: self.a, x: self.x, y: self.y, st: self.status }
    }

    /// The bus's plain-memory image.
    pub open spec fn mem(&self) -> Seq<u8> {
        self.bus.mem()
    }

    /// A processor attached to `bus`, not yet reset: registers cleared,
    /// stack pointer at `$FD`, no cycles pending, no interrupt latched.
    pub fn new(bus: B) -> (r: Cpu<B>)
        requires
            bus.inv(),
        ensures
            r.wf(),
            r.pc == 0 && r.sp == 0xFD && r.a == 0 && r.x == 0 && r.y == 0,
            r.status == status_init(),
            r.cycles == 0 && !r.halted,
            !r.nmi_pending && !r.irq_pending && !r.nmi_edge_detected,
            r.bus == bus,
    {
        Cpu {
            pc: 0,
            sp: 0xFD,
            a: 0,
            x: 0,
            y: 0,
            status: StatusRegister::new(),
            cycles: 0,
            halted: false,
            nmi_pending: false,
            irq_pending: false,
            nmi_edge_detected: false,
            bus,
        }
    }

    /// Clears the registers, reads the reset vector from `$FFFC`/`$FFFD`
    /// and jumps there, charging the 7-cycle reset sequence.
    pub fn reset(&mut self)
        requires
            old(self).wf(),
        ensures
            final(self).wf(),
            final(self).a == 0 && final(self).x == 0 && final(self).y == 0,
            final(self).sp == 0xFD,
            final(self).status == status_init(),
            final(self).pc == word_at(old(self).bus.mem(), 0xFFFC),
            final(self).cycles == 7,
            !final(self).halted,
            !final(self).nmi_pending && !final(self).irq_pending,
            !final(self).nmi_edge_detected,
            final(self).bus == old(self).bus,
    {
        proof {
            self.bus.lemma_inv();
        }
        self.a = 0;
        self.x = 0;
        self.y = 0;
        self.sp = 0xFD;
        self.status = StatusRegister::new();
        self.pc = self.read_word_bus(0xFFFC);
        self.cycles = 7;
        self.halted = false;
        self.nmi_pending = false;
        self.irq_pending = false;
        self.nmi_edge_detected = false;
    }

    /// Latches an NMI request. The line is edge triggered: while a request
    /// is still asserted (`nmi_edge_detected`), further requests are
    /// dropped.
    pub fn request_nmi(&mut self)
        ensures
            !old(self).nmi_edge_detected ==> *final(self) == (Cpu {
                nmi_pending: true,
                nmi_edge_detected: true,
                ..*old(self)
            }),
            old(self).nmi_edge_detected ==> *final(self) == *old(self),
    {
        if !self.nmi_edge_detected {
            self.nmi_pending = true;
            self.nmi_edge_detected = true;
        }
    }

    /// Releases the NMI line, re-arming the edge detector.
    pub fn release_nmi(&mut self)
        ensures
            *final(self) == (Cpu { nmi_edge_detected: false, ..*old(self) }),
    {
        self.nmi_edge_detected = false;
    }

    /// Asserts the IRQ line. Level triggered: it stays asserted until
    /// released.
    pub fn request_irq(&mut self)
        ensures
            *final(self) == (Cpu { irq_pending: true, ..*old(self) }),
    {
        self.irq_pending = true;
    }

    /// Releases the IRQ line.
    pub fn release_irq(&mut self)
        ensures
            *final(self) == (Cpu { irq_pending: false, ..*old(self) }),
    {
        self.irq_pending = false;
    }

    /// Stops the processor; every later `step` does nothing.
    pub fn halt(&mut self)
        ensures
            *final(self) == (Cpu { halted: true, ..*old(self) }),
    {
        self.halted = true;
    }

    /// Reads one byte through the bus.
    pub fn read_byte(&mut self, address: u16) -> (r: u8)
        requires
            old(self).wf(),
        ensures
            final(self).wf(),
            final(self).regs() == old(self).regs(),
            final(self).cycles == old(self).cycles,
            ctrl_unchanged(old(self), final(self)),
            plain_unchanged(old(self), final(self)),
            final(self).mem() == old(self).mem(),
            old(self).bus.read_plain(address) ==> final(self).bus == old(self).bus
                && r == old(self).mem()[address as int],
    {
        self.bus.read(address)
    }

    /// Writes one byte through the bus.
    pub fn write_byte(&mut self, address: u16, value: u8)
        requires
            old(self).wf(),
        ensures
            final(self).wf(),
            final(self).regs() == old(self).regs(),
            final(self).cycles == old(self).cycles,
            ctrl_unchanged(old(self), final(self)),
            plain_unchanged(old(self), final(self)),
            final(self).mem() == if old(self).bus.write_plain(address) {
                old(self).mem().update(address as int, value)
            } else {
                old(self).mem()
            },
    {
        self.bus.write(address, value)
    }

    /// Reads a little-endian word through the bus.
    pub fn read_word(&mut self, address: u16) -> (r: u16)
        requires
            old(self).wf(),
        ensures
            final(self).wf(),
            final(self).regs() == old(self).regs(),
            final(self).cycles == old(self).cycles,
            ctrl_unchanged(old(self), final(self)),
            plain_unchanged(old(self), final(self)),
            final(self).mem() == old(self).mem(),
            old(self).bus.read_plain(address) && old(self).bus.read_plain(next_addr(address))
                ==> final(self).bus == old(self).bus && r == word_at(old(self).mem(), address),
    {
        self.read_word_bus(address)
    }

    /// Reads a little-endian word directly from the bus.
    fn read_word_bus(&mut self, address: u16) -> (r: u16)
        requires
            old(self).wf(),
        ensures
            final(self).wf(),
            final(self).regs() == old(self).regs(),
            final(self).cycles == old(self).cycles,
            ctrl_unchanged(old(self), final(self)),
            plain_unchanged(old(self), final(self)),
            final(self).mem() == old(self).mem(),
            old(self).bus.read_plain(address) && old(self).bus.read_plain(next_addr(address))
                ==> final(self).bus == old(self).bus && r == word_at(old(self).mem(), address),
    {
        self.bus.read_word(address)
    }

    /// Fetches the byte at the program counter and advances it.
    fn fetch_byte(&mut self) -> (r: u8)
        requires
            old(self).wf(),
        ensures
            final(self).wf(),
            final(self).pc == old(self).pc.wrapping_add(1),
            final(self).regs() == (RegFile { pc: final(self).pc, ..old(self).regs() }),
            final(self).cycles == old(self).cycles,
            ctrl_unchanged(old(self), final(self)),
            plain_unchanged(old(self), final(self)),
            final(self).mem() == old(self).mem(),
            old(self).bus.read_plain(old(self).pc) ==> final(self).bus == old(self).bus && r
                == old(self).mem()[old(self).pc as int],
    {
        let value = self.bus.read(self.pc);
        self.pc = self.pc.wrapping_add(1);
        value
    }

    /// Fetches a little-endian word at the program counter, advancing it
    /// by two.
    fn fetch_word(&mut self) -> (r: u16)
        requires
            old(self).wf(),
        ensures
            final(self).wf(),
            final(self).pc == old(self).pc.wrapping_add(2),
            final(self).regs() == (RegFile { pc: final(self).pc, ..old(self).regs() }),
            final(self).cycles == old(self).cycles,
            ctrl_unchanged(old(self), final(self)),
            plain_unchanged(old(self), final(self)),
            final(self).mem() == old(self).mem(),
            old(self).bus.read_plain(old(self).pc) && old(self).bus.read_plain(
                next_addr(old(self).pc),
            ) ==> final(self).bus == old(self).bus && r == word_at(
                old(self).mem(),
                old(self).pc,
            ),
    {
        let low = self.fetch_byte() as u16;
        let high = self.fetch_byte() as u16;
        (high << 8) | low
    }

    /// Pushes one byte onto the stack in page 1.
    pub fn push_byte(&mut self, value: u8)
        requires
            old(self).wf(),
        ensures
            final(self).wf(),
            final(self).regs() == push_byte_spec(old(self).regs(), old(self).mem(), value).0,
            final(self).mem() == push_byte_spec(old(self).regs(), old(self).mem(), value).1,
            final(self).sp == old(self).sp.wrapping_sub(1),
            final(self).cycles == old(self).cycles,
            ctrl_unchanged(old(self), final(self)),
            plain_unchanged(old(self), final(self)),
    {
        proof {
            self.bus.lemma_inv();
            lemma_stack_addr(self.sp);
        }
        self.bus.write(0x0100 | (self.sp as u16), value);
        self.sp = self.sp.wrapping_sub(1);
    }

    /// Pulls one byte from the stack in page 1.
    pub fn pull_byte(&mut self) -> (r: u8)
        requires
            old(self).wf(),
        ensures
            final(self).wf(),
            final(self).regs() == pull_byte_spec(old(self).regs(), old(self).mem()).0,
            r == pull_byte_spec(old(self).regs(), old(self).mem()).1,
            final(self).sp == old(self).sp.wrapping_add(1),
            final(self).bus == old(self).bus,
            final(self).cycles == old(self).cycles,
            ctrl_unchanged(old(self), final(self)),
    {
        proof {
            self.bus.lemma_inv();
            lemma_stack_addr(self.sp.wrapping_add(1));
        }
        self.sp = self.sp.wrapping_add(1);
        self.bus.read(0x0100 | (self.sp as u16))
    }

    /// Pushes a word: high byte first, then low byte.
    pub fn push_word(&mut self, value: u16)
        requires
            old(self).wf(),
        ensures
            final(self).wf(),
            final(self).regs() == push_word_spec(old(self).regs(), old(self).mem(), value).0,
            final(self).mem() == push_word_spec(old(self).regs(), old(self).mem(), value).1,
            final(self).sp == old(self).sp.wrapping_sub(2),
            final(self).cycles == old(self).cycles,
            ctrl_unchanged(old(self), final(self)),
            plain_unchanged(old(self), final(self)),
    {
        self.push_byte((value >> 8) as u8);
        self.push_byte(value as u8);
    }

    /// Pulls a word: low byte first, then high byte.
    pub fn pull_word(&mut self) -> (r: u16)
        requires
            old(self).wf(),
        ensures
            final(self).wf(),
            final(self).regs() == pull_word_spec(old(self).regs(), old(self).mem()).0,
            r == pull_word_spec(old(self).regs(), old(self).mem()).1,
            final(self).sp == old(self).sp.wrapping_add(2),
            final(self).bus == old(self).bus,
            final(self).cycles == old(self).cycles,
            ctrl_unchanged(old(self), final(self)),
    {
        let low = self.pull_byte() as u16;
        let high = self.pull_byte() as u16;
        (high << 8) | low
    }

    /// Dispatches the pending NMI through the vector at `$FFFA`, charging
    /// 7 cycles and clearing the pending latch.
    fn handle_nmi(&mut self)
        requires
            old(self).wf(),
        ensures
            final(self).wf(),
            final(self).regs() == interrupt_spec(old(self).regs(), old(self).mem(), 0xFFFA).0,
            final(self).mem() == interrupt_spec(old(self).regs(), old(self).mem(), 0xFFFA).1,
            final(self).cycles == 7,
            !final(self).nmi_pending,
            final(self).halted == old(self).halted,
            final(self).irq_pending == old(self).irq_pending,
            final(self).nmi_edge_detected == old(self).nmi_edge_detected,
            plain_unchanged(old(self), final(self)),
    {
        proof {
            self.bus.lemma_inv();
        }
        self.push_word(self.pc);
        let packed = self.status.to_byte() & !0x10;
        self.push_byte(packed);
        self.status.set(Flag::InterruptDisable, true);
        self.pc = self.read_word_bus(0xFFFA);
        self.cycles = 7;
        self.nmi_pending = false;
    }

    /// Dispatches the pending IRQ through the vector at `$FFFE`, charging
    /// 7 cycles. The line is level triggered, so the pending latch stays.
    fn handle_irq(&mut self)
        requires
            old(self).wf(),
        ensures
            final(self).wf(),
            final(self).regs() == interrupt_spec(old(self).regs(), old(self).mem(), 0xFFFE).0,
            final(self).mem() == interrupt_spec(old(self).regs(), old(self).mem(), 0xFFFE).1,
            final(self).cycles == 7,
            ctrl_unchanged(old(self), final(self)),
            plain_unchanged(old(self), final(self)),
    {
        proof {
            self.bus.lemma_inv();
        }
        self.push_word(self.pc);
        let packed = self.status.to_byte() & !0x10;
        self.push_byte(packed);
        self.status.set(Flag::InterruptDisable, true);
        self.pc = self.read_word_bus(0xFFFE);
        self.cycles = 7;
    }
}


// ===== Addressing-mode resolution =====

/// Outcome of resolving an addressing mode: the effective address, whether
/// a page boundary was crossed, and the program counter after the operand.
pub struct Resolved {
    pub addr: u16,
    pub crossed: bool,
    pub pc: u16,
}

/// Number of operand bytes each addressing mode consumes.
pub open spec fn operand_len(mode: AddressingMode) -> u16 {
    match mode {
        AddressingMode::Implied => 0,
        AddressingMode::Accumulator => 0,
        AddressingMode::Immediate => 1,
        AddressingMode::ZeroPage => 1,
        AddressingMode::ZeroPageX => 1,
        AddressingMode::ZeroPageY => 1,
        AddressingMode::Absolute => 2,
        AddressingMode::AbsoluteX => 2,
        AddressingMode::AbsoluteY => 2,
        AddressingMode::Indirect => 2,
        AddressingMode::IndirectX => 1,
        AddressingMode::IndirectY => 1,
        AddressingMode::Relative => 1,
    }
}

/// Whether two addresses lie in different 256-byte pages.
pub open spec fn pages_differ(a: u16, b: u16) -> bool {
    a & 0xFF00 != b & 0xFF00
}

/// The address the high target byte of an indirect JMP is read from,
/// reproducing the NMOS wrap bug: a pointer ending in `$FF` takes its high
/// byte from the start of its own page, not from the next page.
pub open spec fn indirect_high_addr(ptr: u16) -> u16 {
    if ptr & 0x00FF == 0x00FF {
        ptr & 0xFF00
    } else {
        ptr.wrapping_add(1)
    }
}

/// Resolution of an addressing mode, given the registers (with the program
/// counter at the first operand byte) and the memory image. Only
/// absolute,X, absolute,Y and indirect,Y can report a crossed page.
pub open spec fn resolve_spec(mode: AddressingMode, r: RegFile, mem: Seq<u8>) -> Resolved {
    match mode {
        AddressingMode::Implied => Resolved { addr: 0, crossed: false, pc: r.pc },
        AddressingMode::Accumulator => Resolved { addr: 0, crossed: false, pc: r.pc },
        AddressingMode::Immediate => Resolved { addr: r.pc, crossed: false, pc: next_addr(r.pc) },
        AddressingMode::ZeroPage => Resolved {
            addr: mem[r.pc as int] as u16,
            crossed: false,
            pc: next_addr(r.pc),
        },
        AddressingMode::ZeroPageX => Resolved {
            addr: mem[r.pc as int].wrapping_add(r.x) as u16,
            crossed: false,
            pc: next_addr(r.pc),
        },
        AddressingMode::ZeroPageY => Resolved {
            addr: mem[r.pc as int].wrapping_add(r.y) as u16,
            crossed: false,
            pc: next_addr(r.pc),
        },
        AddressingMode::Absolute => Resolved {
            addr: word_at(mem, r.pc),
            crossed: false,
            pc: r.pc.wrapping_add(2),
        },
        AddressingMode::AbsoluteX => {
            let base = word_at(mem, r.pc);
            let addr = base.wrapping_add(r.x as u16);
            Resolved { addr, crossed: pages_differ(base, addr), pc: r.pc.wrapping_add(2) }
        },
        AddressingMode::AbsoluteY => {
            let base = word_at(mem, r.pc);
            let addr = base.wrapping_add(r.y as u16);
            Resolved { addr, crossed: pages_differ(base, addr), pc: r.pc.wrapping_add(2) }
        },
        AddressingMode::Indirect => {
            let ptr = word_at(mem, r.pc);
            let lo = mem[ptr as int];
            let hi = mem[indirect_high_addr(ptr) as int];
            Resolved {
                addr: ((hi as u16) << 8) | (lo as u16),
                crossed: false,
                pc: r.pc.wrapping_add(2),
            }
        },
        AddressingMode::IndirectX => {
            let p = mem[r.pc as int].wrapping_add(r.x);
            let lo = mem[p as int];
            let hi = mem[p.wrapping_add(1) as int];
            Resolved {
                addr: ((hi as u16) << 8) | (lo as u16),
                crossed: false,
                pc: next_addr(r.pc),
            }
        },
        AddressingMode::IndirectY => {
            let p = mem[r.pc as int];
            let lo = mem[p as int];
            let hi = mem[p.wrapping_add(1) as int];
            let base = ((hi as u16) << 8) | (lo as u16);
            let addr = base.wrapping_add(r.y as u16);
            Resolved { addr, crossed: pages_differ(base, addr), pc: next_addr(r.pc) }
        },
        AddressingMode::Relative => Resolved {
            addr: mem[r.pc as int] as u16,
            crossed: false,
            pc: next_addr(r.pc),
        },
    }
}

/// The program-fetch addresses an addressing mode reads are plain memory.
/// The zero-page reads of the indexed-indirect modes need no condition: a
/// well-formed bus always keeps the zero page plain.
pub open spec fn operand_plain<B: Bus>(bus: &B, mode: AddressingMode, pc: u16) -> bool {
    match mode {
        AddressingMode::Implied => true,
        AddressingMode::Accumulator => true,
        AddressingMode::Absolute => bus.read_plain(pc) && bus.read_plain(next_addr(pc)),
        AddressingMode::AbsoluteX => bus.read_plain(pc) && bus.read_plain(next_addr(pc)),
        AddressingMode::AbsoluteY => bus.read_plain(pc) && bus.read_plain(next_addr(pc)),
        AddressingMode::Indirect => bus.read_plain(pc) && bus.read_plain(next_addr(pc)) && {
            let ptr = word_at(bus.mem(), pc);
            bus.read_plain(ptr) && bus.read_plain(indirect_high_addr(ptr))
        },
        _ => bus.read_plain(pc),
    }
}

// ===== Operation semantics =====

/// Zero and negative updated from a result byte; the other flags keep
/// their values.
pub open spec fn nz_flags(st: StatusRegister, v: u8) -> StatusRegister {
    StatusRegister { zero: v == 0, negative: v & 0x80 != 0, ..st }
}

/// ADC: `A + M + C`. Carry out of bit 7, overflow when the operands agree
/// in sign but the sum does not, N and Z from the result. Decimal mode is
/// ignored.
pub open spec fn adc_spec(st: StatusRegister, a: u8, m: u8) -> (StatusRegister, u8) {
    let sum = ((a as u16) + (m as u16) + (if st.carry { 1u16 } else { 0u16 })) as u16;
    let result = (sum & 0xFF) as u8;
    let st1 = StatusRegister {
        carry: sum > 0xFF,
        overflow: ((a ^ result) & (m ^ result) & 0x80) != 0,
        ..st
    };
    (nz_flags(st1, result), result)
}

/// SBC is ADC with the operand inverted.
pub open spec fn sbc_spec(st: StatusRegister, a: u8, m: u8) -> (StatusRegister, u8) {
    adc_spec(st, a, m ^ 0xFF)
}

/// CMP/CPX/CPY: carry when the register is at least the operand, zero on
/// equality, negative from bit 7 of the wrapped difference.
pub open spec fn compare_spec(st: StatusRegister, reg: u8, m: u8) -> StatusRegister {
    StatusRegister {
        carry: reg >= m,
        zero: reg == m,
        negative: reg.wrapping_sub(m) & 0x80 != 0,
        ..st
    }
}

/// BIT: zero from `A & M`, negative from bit 7 of the operand, overflow
/// from bit 6.
pub open spec fn bit_spec(st: StatusRegister, a: u8, m: u8) -> StatusRegister {
    StatusRegister { zero: a & m == 0, negative: m & 0x80 != 0, overflow: m & 0x40 != 0, ..st }
}

/// ASL: carry from bit 7, then shift left.
pub open spec fn asl_spec(st: StatusRegister, v: u8) -> (StatusRegister, u8) {
    let r = (v << 1) as u8;
    (nz_flags(StatusRegister { carry: v & 0x80 != 0, ..st }, r), r)
}

/// LSR: carry from bit 0, then shift right.
pub open spec fn lsr_spec(st: StatusRegister, v: u8) -> (StatusRegister, u8) {
    let r = (v >> 1) as u8;
    (nz_flags(StatusRegister { carry: v & 0x01 != 0, ..st }, r), r)
}

/// ROL: rotate left through carry.
pub open spec fn rol_spec(st: StatusRegister, v: u8) -> (StatusRegister, u8) {
    let r = ((v << 1) | (if st.carry { 1u8 } else { 0u8 })) as u8;
    (nz_flags(StatusRegister { carry: v & 0x80 != 0, ..st }, r), r)
}

/// ROR: rotate right through carry.
pub open spec fn ror_spec(st: StatusRegister, v: u8) -> (StatusRegister, u8) {
    let r = ((v >> 1) | (if st.carry { 0x80u8 } else { 0u8 })) as u8;
    (nz_flags(StatusRegister { carry: v & 0x01 != 0, ..st }, r), r)
}

/// Sign extension of a relative branch offset to 16 bits.
pub open spec fn sign_extend(offset: u8) -> u16 {
    if offset < 0x80 {
        offset as u16
    } else {
        0xFF00u16 | (offset as u16)
    }
}

/// Branch target: the program counter after the operand plus the
/// sign-extended offset.
pub open spec fn branch_target(pc: u16, offset: u8) -> u16 {
    pc.wrapping_add(sign_extend(offset))
}

/// Effect of BRK: push the address of the byte after the padding byte,
/// push the status with Break set, set interrupt disable, and load the
/// program counter from the IRQ vector at `$FFFE`.
pub open spec fn brk_spec(r: RegFile, mem: Seq<u8>) -> (RegFile, Seq<u8>) {
    let (r1, m1) = push_word_spec(r, mem, r.pc.wrapping_add(1));
    let (r2, m2) = push_byte_spec(r1, m1, status_byte(r1.st) | 0x10);
    (
        RegFile {
            pc: word_at(m2, 0xFFFE),
            st: with_flag(r2.st, Flag::InterruptDisable, true),
            ..r2
        },
        m2,
    )
}

/// The effective-address accesses of one operation hit plain memory:
/// loads and bit tests read there, stores write there, and the in-memory
/// shifts, rotates, increments and decrements do both. Operations that
/// touch only registers, the stack or the vectors need no condition.
pub open spec fn op_access_plain<B: Bus>(bus: &B, op: Opcode, address: u16) -> bool {
    match op.mnemonic {
        Mnemonic::Lda => bus.read_plain(address),
        Mnemonic::Ldx => bus.read_plain(address),
        Mnemonic::Ldy => bus.read_plain(address),
        Mnemonic::Adc => bus.read_plain(address),
        Mnemonic::Sbc => bus.read_plain(address),
        Mnemonic::Cmp => bus.read_plain(address),
        Mnemonic::Cpx => bus.read_plain(address),
        Mnemonic::Cpy => bus.read_plain(address),
        Mnemonic::And => bus.read_plain(address),
        Mnemonic::Ora => bus.read_plain(address),
        Mnemonic::Eor => bus.read_plain(address),
        Mnemonic::Bit => bus.read_plain(address),
        Mnemonic::Sta => bus.write_plain(address),
        Mnemonic::Stx => bus.write_plain(address),
        Mnemonic::Sty => bus.write_plain(address),
        Mnemonic::Asl => op.mode == AddressingMode::Accumulator || (bus.read_plain(address)
            && bus.write_plain(address)),
        Mnemonic::Lsr => op.mode == AddressingMode::Accumulator || (bus.read_plain(address)
            && bus.write_plain(address)),
        Mnemonic::Rol => op.mode == AddressingMode::Accumulator || (bus.read_plain(address)
            && bus.write_plain(address)),
        Mnemonic::Ror => op.mode == AddressingMode::Accumulator || (bus.read_plain(address)
            && bus.write_plain(address)),
        Mnemonic::Inc => bus.read_plain(address) && bus.write_plain(address),
        Mnemonic::Dec => bus.read_plain(address) && bus.write_plain(address),
        _ => true,
    }
}

/// The register and memory effect of one operation, given its resolved
/// effective address and the registers with the program counter already
/// past the operand. Opaque: callers relate applications of it by their
/// arguments; only the operation dispatch itself looks inside.
#[verifier::opaque]
pub open spec fn op_effect(op: Opcode, address: u16, r: RegFile, mem: Seq<u8>) -> (
    RegFile,
    Seq<u8>,
) {
    match op.mnemonic {
        Mnemonic::Lda => {
            let v = mem[address as int];
            (RegFile { a: v, st: nz_flags(r.st, v), ..r }, mem)
        },
        Mnemonic::Ldx => {
            let v = mem[address as int];
            (RegFile { x: v, st: nz_flags(r.st, v), ..r }, mem)
        },
        Mnemonic::Ldy => {
            let v = mem[address as int];
            (RegFile { y: v, st: nz_flags(r.st, v), ..r }, mem)
        },
        Mnemonic::Sta => (r, mem.update(address as int, r.a)),
        Mnemonic::Stx => (r, mem.update(address as int, r.x)),
        Mnemonic::Sty => (r, mem.update(address as int, r.y)),
        Mnemonic::Tax => (RegFile { x: r.a, st: nz_flags(r.st, r.a), ..r }, mem),
        Mnemonic::Tay => (RegFile { y: r.a, st: nz_flags(r.st, r.a), ..r }, mem),
        Mnemonic::Txa => (RegFile { a: r.x, st: nz_flags(r.st, r.x), ..r }, mem),
        Mnemonic::Tya => (RegFile { a: r.y, st: nz_flags(r.st, r.y), ..r }, mem),
        Mnemonic::Tsx => (RegFile { x: r.sp, st: nz_flags(r.st, r.sp), ..r }, mem),
        Mnemonic::Txs => (RegFile { sp: r.x, ..r }, mem),
        Mnemonic::Pha => push_byte_spec(r, mem, r.a),
        Mnemonic::Pla => {
            let (r1, v) = pull_byte_spec(r, mem);
            (RegFile { a: v, st: nz_flags(r1.st, v), ..r1 }, mem)
        },
        Mnemonic::Php => push_byte_spec(r, mem, status_byte(r.st) | 0x10),
        Mnemonic::Plp => {
            let (r1, b) = pull_byte_spec(r, mem);
            (RegFile { st: plp_merge(r1.st, b), ..r1 }, mem)
        },
        Mnemonic::Adc => {
            let v = mem[address as int];
            let sa = adc_spec(r.st, r.a, v);
            (RegFile { a: sa.1, st: sa.0, ..r }, mem)
        },
        Mnemonic::Sbc => {
            let v = mem[address as int];
            let sa = sbc_spec(r.st, r.a, v);
            (RegFile { a: sa.1, st: sa.0, ..r }, mem)
        },
        Mnemonic::Cmp => (
            RegFile { st: compare_spec(r.st, r.a, mem[address as int]), ..r },
            mem,
        ),
        Mnemonic::Cpx => (
            RegFile { st: compare_spec(r.st, r.x, mem[address as int]), ..r },
            mem,
        ),
        Mnemonic::Cpy => (
            RegFile { st: compare_spec(r.st, r.y, mem[address as int]), ..r },
            mem,
        ),
        Mnemonic::And => {
            let v = (r.a & mem[address as int]) as u8;
            (RegFile { a: v, st: nz_flags(r.st, v), ..r }, mem)
        },
        Mnemonic::Ora => {
            let v = (r.a | mem[address as int]) as u8;
            (RegFile { a: v, st: nz_flags(r.st, v), ..r }, mem)
        },
        Mnemonic::Eor => {
            let v = (r.a ^ mem[address as int]) as u8;
            (RegFile { a: v, st: nz_flags(r.st, v), ..r }, mem)
        },
        Mnemonic::Bit => (RegFile { st: bit_spec(r.st, r.a, mem[address as int]), ..r }, mem),
        Mnemonic::Asl => {
            if op.mode == AddressingMode::Accumulator {
                let sa = asl_spec(r.st, r.a);
                (RegFile { a: sa.1, st: sa.0, ..r }, mem)
            } else {
                let sa = asl_spec(r.st, mem[address as int]);
                (RegFile { st: sa.0, ..r }, mem.update(address as int, sa.1))
            }
        },
        Mnemonic::Lsr => {
            if op.mode == AddressingMode::Accumulator {
                let sa = lsr_spec(r.st, r.a);
                (RegFile { a: sa.1, st: sa.0, ..r }, mem)
            } else {
                let sa = lsr_spec(r.st, mem[address as int]);
                (RegFile { st: sa.0, ..r }, mem.update(address as int, sa.1))
            }
        },
        Mnemonic::Rol => {
            if op.mode == AddressingMode::Accumulator {
                let sa = rol_spec(r.st, r.a);
                (RegFile { a: sa.1, st: sa.0, ..r }, mem)
            } else {
                let sa = rol_spec(r.st, mem[address as int]);
                (RegFile { st: sa.0, ..r }, mem.update(address as int, sa.1))
            }
        },
        Mnemonic::Ror => {
            if op.mode == AddressingMode::Accumulator {
                let sa = ror_spec(r.st, r.a);
                (RegFile { a: sa.1, st: sa.0, ..r }, mem)
            } else {
                let sa = ror_spec(r.st, mem[address as int]);
                (RegFile { st: sa.0, ..r }, mem.update(address as int, sa.1))
            }
        },
        Mnemonic::Inc => {
            let v = mem[address as int].wrapping_add(1);
            (RegFile { st: nz_flags(r.st, v), ..r }, mem.update(address as int, v))
        },
        Mnemonic::Dec => {
            let v = mem[address as int].wrapping_sub(1);
            (RegFile { st: nz_flags(r.st, v), ..r }, mem.update(address as int, v))
        },
        Mnemonic::Inx => {
            let v = r.x.wrapping_add(1);
            (RegFile { x: v, st: nz_flags(r.st, v), ..r }, mem)
        },
        Mnemonic::Dex => {
            let v = r.x.wrapping_sub(1);
            (RegFile { x: v, st: nz_flags(r.st, v), ..r }, mem)
        },
        Mnemonic::Iny => {
            let v = r.y.wrapping_add(1);
            (RegFile { y: v, st: nz_flags(r.st, v), ..r }, mem)
        },
        Mnemonic::Dey => {
            let v = r.y.wrapping_sub(1);
            (RegFile { y: v, st: nz_flags(r.st, v), ..r }, mem)
        },
        Mnemonic::Jmp => (RegFile { pc: address, ..r }, mem),
        Mnemonic::Jsr => {
            let (r1, m1) = push_word_spec(r, mem, r.pc.wrapping_sub(1));
            (RegFile { pc: address, ..r1 }, m1)
        },
        Mnemonic::Rts => {
            let (r1, pc) = pull_word_spec(r, mem);
            (RegFile { pc: pc.wrapping_add(1), ..r1 }, mem)
        },
        Mnemonic::Brk => brk_spec(r, mem),
        Mnemonic::Rti => (rti_spec(r, mem), mem),
        Mnemonic::Bcc => (branch_effect(op.mnemonic, address, r), mem),
        Mnemonic::Bcs => (branch_effect(op.mnemonic, address, r), mem),
        Mnemonic::Beq => (branch_effect(op.mnemonic, address, r), mem),
        Mnemonic::Bne => (branch_effect(op.mnemonic, address, r), mem),
        Mnemonic::Bmi => (branch_effect(op.mnemonic, address, r), mem),
        Mnemonic::Bpl => (branch_effect(op.mnemonic, address, r), mem),
        Mnemonic::Bvc => (branch_effect(op.mnemonic, address, r), mem),
        Mnemonic::Bvs => (branch_effect(op.mnemonic, address, r), mem),
        Mnemonic::Clc => (RegFile { st: StatusRegister { carry: false, ..r.st }, ..r }, mem),
        Mnemonic::Sec => (RegFile { st: StatusRegister { carry: true, ..r.st }, ..r }, mem),
        Mnemonic::Cli => (
            RegFile { st: StatusRegister { interrupt_disable: false, ..r.st }, ..r },
            mem,
        ),
        Mnemonic::Sei => (
            RegFile { st: StatusRegister { interrupt_disable: true, ..r.st }, ..r },
            mem,
        ),
        Mnemonic::Cld => (RegFile { st: StatusRegister { decimal: false, ..r.st }, ..r }, mem),
        Mnemonic::Sed => (RegFile { st: StatusRegister { decimal: true, ..r.st }, ..r }, mem),
        Mnemonic::Clv => (RegFile { st: StatusRegister { overflow: false, ..r.st }, ..r }, mem),
        Mnemonic::Nop => (r, mem),
    }
}

/// A taken branch redirects the program counter by the sign-extended
/// offset in the resolved address's low byte.
pub open spec fn branch_effect(m: Mnemonic, address: u16, r: RegFile) -> RegFile {
    if branch_cond(m, r.st) {
        RegFile { pc: branch_target(r.pc, address as u8), ..r }
    } else {
        r
    }
}

/// Everything one instruction does short of cycle accounting: resolve
/// the operand (`r.pc` sits at its first byte), then apply the
/// operation.
pub open spec fn instr_spec(op: Opcode, r: RegFile, mem: Seq<u8>) -> (RegFile, Seq<u8>) {
    let res = resolve_spec(op.mode, r, mem);
    op_effect(op, res.addr, RegFile { pc: res.pc, ..r }, mem)
}

/// Every access of the instruction — operand fetches and effective
/// address alike — hits plain memory.
pub open spec fn instr_plain<B: Bus>(bus: &B, op: Opcode, r: RegFile, mem: Seq<u8>) -> bool {
    operand_plain(bus, op.mode, r.pc) && op_access_plain(
        bus,
        op,
        resolve_spec(op.mode, r, mem).addr,
    )
}

/// The operations that read or write their operand in memory without
/// modifying it in place.
pub open spec fn is_data_op(m: Mnemonic) -> bool {
    m == Mnemonic::Lda || m == Mnemonic::Ldx || m == Mnemonic::Ldy || m == Mnemonic::Sta || m
        == Mnemonic::Stx || m == Mnemonic::Sty || m == Mnemonic::Adc || m == Mnemonic::Sbc || m
        == Mnemonic::Cmp || m == Mnemonic::Cpx || m == Mnemonic::Cpy || m == Mnemonic::And || m
        == Mnemonic::Ora || m == Mnemonic::Eor || m == Mnemonic::Bit
}

/// The shift, rotate, increment, decrement and register-transfer
/// operations.
pub open spec fn is_modify_op(m: Mnemonic) -> bool {
    m == Mnemonic::Asl || m == Mnemonic::Lsr || m == Mnemonic::Rol || m == Mnemonic::Ror || m
        == Mnemonic::Inc || m == Mnemonic::Dec || m == Mnemonic::Inx || m == Mnemonic::Dex || m
        == Mnemonic::Iny || m == Mnemonic::Dey || m == Mnemonic::Tax || m == Mnemonic::Tay || m
        == Mnemonic::Txa || m == Mnemonic::Tya || m == Mnemonic::Tsx || m == Mnemonic::Txs
}

impl<B: Bus> Cpu<B> {
    /// Resolves one addressing mode, consuming the operand bytes at the
    /// program counter. Returns the effective address and whether a page
    /// boundary was crossed. With the operand fetches in plain memory the
    /// result is exactly [`resolve_spec`]; the program counter advances by
    /// the operand length no matter what.
    fn get_operand_address(&mut self, mode: AddressingMode) -> (r: (u16, bool))
        requires
            old(self).wf(),
        ensures
            final(self).wf(),
            final(self).pc == old(self).pc.wrapping_add(operand_len(mode)),
            final(self).regs() == (RegFile { pc: final(self).pc, ..old(self).regs() }),
            final(self).cycles == old(self).cycles,
            ctrl_unchanged(old(self), final(self)),
            plain_unchanged(old(self), final(self)),
            final(self).mem() == old(self).mem(),
            operand_plain(&old(self).bus, mode, old(self).pc) ==> final(self).bus == old(
                self,
            ).bus && r.0 == resolve_spec(mode, old(self).regs(), old(self).mem()).addr && r.1
                == resolve_spec(mode, old(self).regs(), old(self).mem()).crossed,
    {
        proof {
            self.bus.lemma_inv();
        }
        match mode {
            AddressingMode::Implied | AddressingMode::Accumulator => (0, false),
            AddressingMode::Immediate => {
                let addr = self.pc;
                self.pc = self.pc.wrapping_add(1);
                (addr, false)
            },
            AddressingMode::ZeroPage => {
                let addr = self.fetch_byte() as u16;
                (addr, false)
            },
            AddressingMode::ZeroPageX => {
                let base = self.fetch_byte();
                let addr = base.wrapping_add(self.x) as u16;
                (addr, false)
            },
            AddressingMode::ZeroPageY => {
                let base = self.fetch_byte();
                let addr = base.wrapping_add(self.y) as u16;
                (addr, false)
            },
            AddressingMode::Absolute => {
                let addr = self.fetch_word();
                (addr, false)
            },
            AddressingMode::AbsoluteX => {
                let base = self.fetch_word();
                let addr = base.wrapping_add(self.x as u16);
                let page_crossed = (base & 0xFF00) != (addr & 0xFF00);
                (addr, page_crossed)
            },
            AddressingMode::AbsoluteY => {
                let base = self.fetch_word();
                let addr = base.wrapping_add(self.y as u16);
                let page_crossed = (base & 0xFF00) != (addr & 0xFF00);
                (addr, page_crossed)
            },
            AddressingMode::IndirectX => {
                let base = self.fetch_byte();
                let ptr = base.wrapping_add(self.x);
                let low = self.bus.read(ptr as u16) as u16;
                let high = self.bus.read(ptr.wrapping_add(1) as u16) as u16;
                ((high << 8) | low, false)
            },
            AddressingMode::IndirectY => {
                let ptr = self.fetch_byte();
                let low = self.bus.read(ptr as u16) as u16;
                let high = self.bus.read(ptr.wrapping_add(1) as u16) as u16;
                let base = (high << 8) | low;
                let addr = base.wrapping_add(self.y as u16);
                let page_crossed = (base & 0xFF00) != (addr & 0xFF00);
                (addr, page_crossed)
            },
            AddressingMode::Indirect => {
                let ptr = self.fetch_word();
                let low = self.bus.read(ptr) as u16;
                let high = if (ptr & 0x00FF) == 0x00FF {
                    self.bus.read(ptr & 0xFF00) as u16
                } else {
                    self.bus.read(ptr.wrapping_add(1)) as u16
                };
                ((high << 8) | low, false)
            },
            AddressingMode::Relative => {
                let offset = self.fetch_byte();
                (offset as u16, false)
            },
        }
    }

    /// Loads the accumulator, updating N and Z.
    fn lda(&mut self, value: u8)
        ensures
            *final(self) == (Cpu {
                a: value,
                status: nz_flags(old(self).status, value),
                ..*old(self)
            }),
    {
        self.a = value;
        self.status.zero = value == 0;
        self.status.negative = value & 0x80 != 0;
    }

    /// Loads X, updating N and Z.
    fn ldx(&mut self, value: u8)
        ensures
            *final(self) == (Cpu {
                x: value,
                status: nz_flags(old(self).status, value),
                ..*old(self)
            }),
    {
        self.x = value;
        self.status.zero = value == 0;
        self.status.negative = value & 0x80 != 0;
    }

    /// Loads Y, updating N and Z.
    fn ldy(&mut self, value: u8)
        ensures
            *final(self) == (Cpu {
                y: value,
                status: nz_flags(old(self).status, value),
                ..*old(self)
            }),
    {
        self.y = value;
        self.status.zero = value == 0;
        self.status.negative = value & 0x80 != 0;
    }

    /// Add with carry.
    fn adc(&mut self, value: u8)
        ensures
            *final(self) == (Cpu {
                a: adc_spec(old(self).status, old(self).a, value).1,
                status: adc_spec(old(self).status, old(self).a, value).0,
                ..*old(self)
            }),
    {
        let carry: u16 = if self.status.carry {
            1
        } else {
            0
        };
        let sum: u16 = self.a as u16 + value as u16 + carry;
        let result: u8 = (sum & 0xFF) as u8;
        self.status.carry = sum > 0xFF;
        self.status.overflow = ((self.a ^ result) & (value ^ result) & 0x80) != 0;
        self.a = result;
        self.status.zero = result == 0;
        self.status.negative = result & 0x80 != 0;
    }

    /// Subtract with borrow: ADC of the inverted operand.
    fn sbc(&mut self, value: u8)
        ensures
            *final(self) == (Cpu {
                a: sbc_spec(old(self).status, old(self).a, value).1,
                status: sbc_spec(old(self).status, old(self).a, value).0,
                ..*old(self)
            }),
    {
        self.adc(value ^ 0xFF);
    }

    /// Compares a register against an operand, setting C, Z and N.
    fn compare(&mut self, reg: u8, value: u8)
        ensures
            *final(self) == (Cpu {
                status: compare_spec(old(self).status, reg, value),
                ..*old(self)
            }),
    {
        let diff = reg.wrapping_sub(value);
        self.status.carry = reg >= value;
        self.status.zero = reg == value;
        self.status.negative = diff & 0x80 != 0;
    }

    /// Bitwise AND into the accumulator.
    fn and_a(&mut self, value: u8)
        ensures
            *final(self) == (Cpu {
                a: (old(self).a & value) as u8,
                status: nz_flags(old(self).status, (old(self).a & value) as u8),
                ..*old(self)
            }),
    {
        let r = self.a & value;
        self.a = r;
        self.status.zero = r == 0;
        self.status.negative = r & 0x80 != 0;
    }

    /// Bitwise OR into the accumulator.
    fn ora(&mut self, value: u8)
        ensures
            *final(self) == (Cpu {
                a: (old(self).a | value) as u8,
                status: nz_flags(old(self).status, (old(self).a | value) as u8),
                ..*old(self)
            }),
    {
        let r = self.a | value;
        self.a = r;
        self.status.zero = r == 0;
        self.status.negative = r & 0x80 != 0;
    }

    /// Bitwise exclusive OR into the accumulator.
    fn eor(&mut self, value: u8)
        ensures
            *final(self) == (Cpu {
                a: (old(self).a ^ value) as u8,
                status: nz_flags(old(self).status, (old(self).a ^ value) as u8),
                ..*old(self)
            }),
    {
        let r = self.a ^ value;
        self.a = r;
        self.status.zero = r == 0;
        self.status.negative = r & 0x80 != 0;
    }

    /// BIT test against the accumulator.
    fn bit(&mut self, value: u8)
        ensures
            *final(self) == (Cpu {
                status: bit_spec(old(self).status, old(self).a, value),
                ..*old(self)
            }),
    {
        self.status.zero = self.a & value == 0;
        self.status.negative = value & 0x80 != 0;
        self.status.overflow = value & 0x40 != 0;
    }

    /// Shift left, returning the result and setting C, N and Z.
    fn asl_val(&mut self, value: u8) -> (r: u8)
        ensures
            r == asl_spec(old(self).status, value).1,
            *final(self) == (Cpu { status: asl_spec(old(self).status, value).0, ..*old(self) }),
    {
        let r = value << 1;
        self.status.carry = value & 0x80 != 0;
        self.status.zero = r == 0;
        self.status.negative = r & 0x80 != 0;
        r
    }

    /// Shift right, returning the result and setting C, N and Z.
    fn lsr_val(&mut self, value: u8) -> (r: u8)
        ensures
            r == lsr_spec(old(self).status, value).1,
            *final(self) == (Cpu { status: lsr_spec(old(self).status, value).0, ..*old(self) }),
    {
        let r = value >> 1;
        self.status.carry = value & 0x01 != 0;
        self.status.zero = r == 0;
        self.status.negative = r & 0x80 != 0;
        r
    }

    /// Rotate left through carry, returning the result.
    fn rol_val(&mut self, value: u8) -> (r: u8)
        ensures
            r == rol_spec(old(self).status, value).1,
            *final(self) == (Cpu { status: rol_spec(old(self).status, value).0, ..*old(self) }),
    {
        let carry_in: u8 = if self.status.carry {
            1
        } else {
            0
        };
        let r = (value << 1) | carry_in;
        self.status.carry = value & 0x80 != 0;
        self.status.zero = r == 0;
        self.status.negative = r & 0x80 != 0;
        r
    }

    /// Rotate right through carry, returning the result.
    fn ror_val(&mut self, value: u8) -> (r: u8)
        ensures
            r == ror_spec(old(self).status, value).1,
            *final(self) == (Cpu { status: ror_spec(old(self).status, value).0, ..*old(self) }),
    {
        let carry_in: u8 = if self.status.carry {
            0x80
        } else {
            0
        };
        let r = (value >> 1) | carry_in;
        self.status.carry = value & 0x01 != 0;
        self.status.zero = r == 0;
        self.status.negative = r & 0x80 != 0;
        r
    }

    /// Increment a value, setting N and Z.
    fn inc_val(&mut self, value: u8) -> (r: u8)
        ensures
            r == value.wrapping_add(1),
            *final(self) == (Cpu {
                status: nz_flags(old(self).status, value.wrapping_add(1)),
                ..*old(self)
            }),
    {
        let r = value.wrapping_add(1);
        self.status.zero = r == 0;
        self.status.negative = r & 0x80 != 0;
        r
    }

    /// Decrement a value, setting N and Z.
    fn dec_val(&mut self, value: u8) -> (r: u8)
        ensures
            r == value.wrapping_sub(1),
            *final(self) == (Cpu {
                status: nz_flags(old(self).status, value.wrapping_sub(1)),
                ..*old(self)
            }),
    {
        let r = value.wrapping_sub(1);
        self.status.zero = r == 0;
        self.status.negative = r & 0x80 != 0;
        r
    }

    /// Common branch tail: when the condition holds, redirect the program
    /// counter by the sign-extended offset. A taken branch reports one
    /// extra cycle, or two if the target lies in another page.
    fn branch(&mut self, cond: bool, offset: u8) -> (extra: u8)
        ensures
            extra <= 2,
            !cond ==> *final(self) == *old(self) && extra == 0,
            cond ==> *final(self) == (Cpu {
                pc: branch_target(old(self).pc, offset),
                ..*old(self)
            }),
            cond ==> extra == (if pages_differ(old(self).pc, branch_target(old(self).pc, offset)) {
                2u8
            } else {
                1u8
            }),
    {
        if cond {
            let old_pc = self.pc;
            let ext: u16 = if offset < 0x80 {
                offset as u16
            } else {
                0xFF00u16 | (offset as u16)
            };
            self.pc = self.pc.wrapping_add(ext);
            if (self.pc & 0xFF00) != (old_pc & 0xFF00) {
                2
            } else {
                1
            }
        } else {
            0
        }
    }

    /// JSR: push the address of the last operand byte, then jump.
    fn jsr(&mut self, address: u16)
        requires
            old(self).wf(),
        ensures
            final(self).wf(),
            final(self).regs() == (RegFile {
                pc: address,
                ..push_word_spec(
                    old(self).regs(),
                    old(self).mem(),
                    old(self).pc.wrapping_sub(1),
                ).0
            }),
            final(self).mem() == push_word_spec(
                old(self).regs(),
                old(self).mem(),
                old(self).pc.wrapping_sub(1),
            ).1,
            final(self).cycles == old(self).cycles,
            ctrl_unchanged(old(self), final(self)),
            plain_unchanged(old(self), final(self)),
    {
        let ret = self.pc.wrapping_sub(1);
        self.push_word(ret);
        self.pc = address;
    }

    /// RTS: pull the program counter and step past the JSR operand.
    fn rts(&mut self)
        requires
            old(self).wf(),
        ensures
            final(self).wf(),
            final(self).regs() == (RegFile {
                pc: pull_word_spec(old(self).regs(), old(self).mem()).1.wrapping_add(1),
                ..pull_word_spec(old(self).regs(), old(self).mem()).0
            }),
            final(self).bus == old(self).bus,
            final(self).cycles == old(self).cycles,
            ctrl_unchanged(old(self), final(self)),
    {
        let addr = self.pull_word();
        self.pc = addr.wrapping_add(1);
    }

    /// BRK: software interrupt through the vector at `$FFFE`.
    fn brk(&mut self)
        requires
            old(self).wf(),
        ensures
            final(self).wf(),
            final(self).regs() == brk_spec(old(self).regs(), old(self).mem()).0,
            final(self).mem() == brk_spec(old(self).regs(), old(self).mem()).1,
            final(self).cycles == old(self).cycles,
            ctrl_unchanged(old(self), final(self)),
            plain_unchanged(old(self), final(self)),
    {
        proof {
            self.bus.lemma_inv();
        }
        let ret = self.pc.wrapping_add(1);
        self.push_word(ret);
        let packed = self.status.to_byte() | 0x10;
        self.push_byte(packed);
        self.status.set(Flag::InterruptDisable, true);
        self.pc = self.read_word_bus(0xFFFE);
    }

    /// PLP: pull the status, keeping the current Break flag.
    fn plp(&mut self)
        requires
            old(self).wf(),
        ensures
            final(self).wf(),
            final(self).regs() == (RegFile {
                st: plp_merge(
                    old(self).status,
                    pull_byte_spec(old(self).regs(), old(self).mem()).1,
                ),
                ..pull_byte_spec(old(self).regs(), old(self).mem()).0
            }),
            final(self).bus == old(self).bus,
            final(self).cycles == old(self).cycles,
            ctrl_unchanged(old(self), final(self)),
    {
        let b = self.pull_byte();
        let restored = StatusRegister::from_byte(b);
        self.status = StatusRegister { break_flag: self.status.break_flag, ..restored };
    }

    /// RTI: pull the status (as PLP does), then pull the program counter.
    fn rti(&mut self)
        requires
            old(self).wf(),
        ensures
            final(self).wf(),
            final(self).regs() == rti_spec(old(self).regs(), old(self).mem()),
            final(self).bus == old(self).bus,
            final(self).cycles == old(self).cycles,
            ctrl_unchanged(old(self), final(self)),
    {
        self.plp();
        let addr = self.pull_word();
        self.pc = addr;
    }
}


// ===== Instruction dispatch and cycle accounting =====

/// Whether a mnemonic is a conditional branch whose condition holds in the
/// given status register.
pub open spec fn branch_cond(m: Mnemonic, st: StatusRegister) -> bool {
    match m {
        Mnemonic::Bcc => !st.carry,
        Mnemonic::Bcs => st.carry,
        Mnemonic::Bne => !st.zero,
        Mnemonic::Beq => st.zero,
        Mnemonic::Bpl => !st.negative,
        Mnemonic::Bmi => st.negative,
        Mnemonic::Bvc => !st.overflow,
        Mnemonic::Bvs => st.overflow,
        _ => false,
    }
}

/// The extra cycles one instruction charges beyond its base count: one for
/// an eligible page crossing during operand resolution, and for a taken
/// branch one more, or two when the branch target lies in another page.
pub open spec fn instr_extra_cycles(op: Opcode, r: RegFile, mem: Seq<u8>) -> u8 {
    let res = resolve_spec(op.mode, r, mem);
    let page: u8 = if op.page_boundary_cycle && res.crossed {
        1
    } else {
        0
    };
    let br: u8 = if branch_cond(op.mnemonic, r.st) {
        if pages_differ(res.pc, branch_target(res.pc, res.addr as u8)) {
            2
        } else {
            1
        }
    } else {
        0
    };
    (page + br) as u8
}

/// The pending-cycle count an instruction leaves behind: its base count
/// plus the extra cycles, minus the one cycle the dispatching step itself
/// consumes. `r.pc` sits at the first operand byte.
pub open spec fn instr_cycles(op: Opcode, r: RegFile, mem: Seq<u8>) -> u8 {
    (op.cycles + instr_extra_cycles(op, r, mem) - 1) as u8
}

/// The opcode and operand fetches of the instruction at the program
/// counter all hit plain memory.
pub open spec fn step_fetch_plain<B: Bus>(c: &Cpu<B>) -> bool {
    let op = opcode_spec(c.bus.mem()[c.pc as int]);
    c.bus.read_plain(c.pc) && operand_plain(&c.bus, op.mode, next_addr(c.pc))
}

/// The pending-cycle count the instruction at the program counter leaves
/// behind after its dispatching step.
pub open spec fn step_cycles_spec<B: Bus>(c: &Cpu<B>) -> u8 {
    let op = opcode_spec(c.bus.mem()[c.pc as int]);
    instr_cycles(op, RegFile { pc: next_addr(c.pc), ..c.regs() }, c.bus.mem())
}

/// Every access of the instruction at the program counter — its opcode
/// byte, its operand bytes and its effective address — hits plain memory.
pub open spec fn step_all_plain<B: Bus>(c: &Cpu<B>) -> bool {
    let op = opcode_spec(c.bus.mem()[c.pc as int]);
    c.bus.read_plain(c.pc) && instr_plain(
        &c.bus,
        op,
        RegFile { pc: next_addr(c.pc), ..c.regs() },
        c.bus.mem(),
    )
}

/// The registers and memory the instruction at the program counter leaves
/// behind.
pub open spec fn step_effect_spec<B: Bus>(c: &Cpu<B>) -> (RegFile, Seq<u8>) {
    let op = opcode_spec(c.bus.mem()[c.pc as int]);
    instr_spec(op, RegFile { pc: next_addr(c.pc), ..c.regs() }, c.bus.mem())
}

impl<B: Bus> Cpu<B> {
    /// Executes one decoded instruction: resolves the operand, performs
    /// the operation, stores the remaining cycle count and ticks the bus
    /// once. With all program fetches in plain memory the remaining count
    /// is exactly [`instr_cycles`].
    fn execute_opcode(&mut self, op: Opcode)
        requires
            old(self).wf(),
            2 <= op.cycles <= 7,
        ensures
            final(self).wf(),
            ctrl_unchanged(old(self), final(self)),
            plain_unchanged(old(self), final(self)),
            operand_plain(&old(self).bus, op.mode, old(self).pc) ==> final(self).cycles
                == instr_cycles(op, old(self).regs(), old(self).mem()),
            instr_plain(&old(self).bus, op, old(self).regs(), old(self).mem())
                ==> final(self).regs() == instr_spec(op, old(self).regs(), old(self).mem()).0 && final(self).mem()
                == instr_spec(op, old(self).regs(), old(self).mem()).1,
    {
        let (address, page_crossed) = self.get_operand_address(op.mode);

        let mut extra_cycles: u8 = 0;
        if op.page_boundary_cycle && page_crossed {
            extra_cycles = extra_cycles + 1;
        }

        let branch_extra = self.run_operation(op, address);
        extra_cycles = extra_cycles + branch_extra;

        self.cycles = op.cycles + extra_cycles - 1;
        self.bus.tick();
    }

    /// Performs a load, store, arithmetic, compare or bit-test operation
    /// on the resolved address.
    #[verifier::rlimit(100)]
    #[verifier::spinoff_prover]
    fn run_data_op(&mut self, op: Opcode, address: u16)
        requires
            old(self).wf(),
            is_data_op(op.mnemonic),
        ensures
            final(self).wf(),
            ctrl_unchanged(old(self), final(self)),
            plain_unchanged(old(self), final(self)),
            op_access_plain(&old(self).bus, op, address) ==> final(self).regs() == op_effect(
                op,
                address,
                old(self).regs(),
                old(self).mem(),
            ).0 && final(self).mem() == op_effect(op, address, old(self).regs(), old(self).mem()).1,
    {
        proof {
            reveal(op_effect);
        }
        match op.mnemonic {
            Mnemonic::Lda => {
                let value = self.bus.read(address);
                self.lda(value);
            },
            Mnemonic::Ldx => {
                let value = self.bus.read(address);
                self.ldx(value);
            },
            Mnemonic::Ldy => {
                let value = self.bus.read(address);
                self.ldy(value);
            },
            Mnemonic::Sta => {
                let value = self.a;
                self.bus.write(address, value);
            },
            Mnemonic::Stx => {
                let value = self.x;
                self.bus.write(address, value);
            },
            Mnemonic::Sty => {
                let value = self.y;
                self.bus.write(address, value);
            },
            Mnemonic::Adc => {
                let value = self.bus.read(address);
                self.adc(value);
            },
            Mnemonic::Sbc => {
                let value = self.bus.read(address);
                self.sbc(value);
            },
            Mnemonic::Cmp => {
                let value = self.bus.read(address);
                let reg = self.a;
                self.compare(reg, value);
            },
            Mnemonic::Cpx => {
                let value = self.bus.read(address);
                let reg = self.x;
                self.compare(reg, value);
            },
            Mnemonic::Cpy => {
                let value = self.bus.read(address);
                let reg = self.y;
                self.compare(reg, value);
            },
            Mnemonic::And => {
                let value = self.bus.read(address);
                self.and_a(value);
            },
            Mnemonic::Ora => {
                let value = self.bus.read(address);
                self.ora(value);
            },
            Mnemonic::Eor => {
                let value = self.bus.read(address);
                self.eor(value);
            },
            Mnemonic::Bit => {
                let value = self.bus.read(address);
                self.bit(value);
            },
            _ => {},
        }
    }

    /// Performs a shift, rotate, increment, decrement or register
    /// transfer on the resolved address or the registers.
    #[verifier::rlimit(100)]
    #[verifier::spinoff_prover]
    fn run_modify_op(&mut self, op: Opcode, address: u16)
        requires
            old(self).wf(),
            is_modify_op(op.mnemonic),
        ensures
            final(self).wf(),
            ctrl_unchanged(old(self), final(self)),
            plain_unchanged(old(self), final(self)),
            op_access_plain(&old(self).bus, op, address) ==> final(self).regs() == op_effect(
                op,
                address,
                old(self).regs(),
                old(self).mem(),
            ).0 && final(self).mem() == op_effect(op, address, old(self).regs(), old(self).mem()).1,
    {
        proof {
            reveal(op_effect);
        }
        match op.mnemonic {
            Mnemonic::Asl => {
                if op.mode == AddressingMode::Accumulator {
                    let value = self.a;
                    let result = self.asl_val(value);
                    self.a = result;
                } else {
                    let value = self.bus.read(address);
                    let result = self.asl_val(value);
                    self.bus.write(address, result);
                }
            },
            Mnemonic::Lsr => {
                if op.mode == AddressingMode::Accumulator {
                    let value = self.a;
                    let result = self.lsr_val(value);
                    self.a = result;
                } else {
                    let value = self.bus.read(address);
                    let result = self.lsr_val(value);
                    self.bus.write(address, result);
                }
            },
            Mnemonic::Rol => {
                if op.mode == AddressingMode::Accumulator {
                    let value = self.a;
                    let result = self.rol_val(value);
                    self.a = result;
                } else {
                    let value = self.bus.read(address);
                    let result = self.rol_val(value);
                    self.bus.write(address, result);
                }
            },
            Mnemonic::Ror => {
                if op.mode == AddressingMode::Accumulator {
                    let value = self.a;
                    let result = self.ror_val(value);
                    self.a = result;
                } else {
                    let value = self.bus.read(address);
                    let result = self.ror_val(value);
                    self.bus.write(address, result);
                }
            },
            Mnemonic::Inc => {
                let value = self.bus.read(address);
                let result = self.inc_val(value);
                self.bus.write(address, result);
            },
            Mnemonic::Dec => {
                let value = self.bus.read(address);
                let result = self.dec_val(value);
                self.bus.write(address, result);
            },
            Mnemonic::Inx => {
                let value = self.x;
                let result = self.inc_val(value);
                self.x = result;
            },
            Mnemonic::Dex => {
                let value = self.x;
                let result = self.dec_val(value);
                self.x = result;
            },
            Mnemonic::Iny => {
                let value = self.y;
                let result = self.inc_val(value);
                self.y = result;
            },
            Mnemonic::Dey => {
                let value = self.y;
                let result = self.dec_val(value);
                self.y = result;
            },
            Mnemonic::Tax => {
                let value = self.a;
                self.ldx(value);
            },
            Mnemonic::Tay => {
                let value = self.a;
                self.ldy(value);
            },
            Mnemonic::Txa => {
                let value = self.x;
                self.lda(value);
            },
            Mnemonic::Tya => {
                let value = self.y;
                self.lda(value);
            },
            Mnemonic::Tsx => {
                let value = self.sp;
                self.ldx(value);
            },
            Mnemonic::Txs => {
                self.sp = self.x;
            },
            _ => {},
        }
    }

    /// Performs the operation of one decoded instruction on the resolved
    /// address, returning the extra cycles of a taken branch.
    #[verifier::rlimit(100)]
    #[verifier::spinoff_prover]
    fn run_operation(&mut self, op: Opcode, address: u16) -> (extra: u8)
        requires
            old(self).wf(),
        ensures
            final(self).wf(),
            ctrl_unchanged(old(self), final(self)),
            plain_unchanged(old(self), final(self)),
            extra <= 2,
            extra == (if branch_cond(op.mnemonic, old(self).status) {
                if pages_differ(old(self).pc, branch_target(old(self).pc, address as u8)) {
                    2u8
                } else {
                    1u8
                }
            } else {
                0u8
            }),
            op_access_plain(&old(self).bus, op, address) ==> final(self).regs() == op_effect(
                op,
                address,
                old(self).regs(),
                old(self).mem(),
            ).0 && final(self).mem() == op_effect(op, address, old(self).regs(), old(self).mem()).1,
    {
        proof {
            reveal(op_effect);
        }
        match op.mnemonic {
            Mnemonic::Lda | Mnemonic::Ldx | Mnemonic::Ldy | Mnemonic::Sta | Mnemonic::Stx
                | Mnemonic::Sty | Mnemonic::Adc | Mnemonic::Sbc | Mnemonic::Cmp | Mnemonic::Cpx
                | Mnemonic::Cpy | Mnemonic::And | Mnemonic::Ora | Mnemonic::Eor | Mnemonic::Bit => {
                self.run_data_op(op, address);
                0
            },
            Mnemonic::Asl | Mnemonic::Lsr | Mnemonic::Rol | Mnemonic::Ror | Mnemonic::Inc
                | Mnemonic::Dec | Mnemonic::Inx | Mnemonic::Dex | Mnemonic::Iny | Mnemonic::Dey
                | Mnemonic::Tax | Mnemonic::Tay | Mnemonic::Txa | Mnemonic::Tya | Mnemonic::Tsx
                | Mnemonic::Txs => {
                self.run_modify_op(op, address);
                0
            },
            Mnemonic::Pha => {
                let value = self.a;
                self.push_byte(value);
                0
            },
            Mnemonic::Pla => {
                let value = self.pull_byte();
                self.lda(value);
                0
            },
            Mnemonic::Php => {
                let packed = self.status.to_byte() | 0x10;
                self.push_byte(packed);
                0
            },
            Mnemonic::Plp => {
                self.plp();
                0
            },
            Mnemonic::Jmp => {
                self.pc = address;
                0
            },
            Mnemonic::Jsr => {
                self.jsr(address);
                0
            },
            Mnemonic::Rts => {
                self.rts();
                0
            },
            Mnemonic::Brk => {
                self.brk();
                0
            },
            Mnemonic::Rti => {
                self.rti();
                0
            },
            Mnemonic::Bcc => {
                let cond = !self.status.carry;
                self.branch(cond, address as u8)
            },
            Mnemonic::Bcs => {
                let cond = self.status.carry;
                self.branch(cond, address as u8)
            },
            Mnemonic::Beq => {
                let cond = self.status.zero;
                self.branch(cond, address as u8)
            },
            Mnemonic::Bne => {
                let cond = !self.status.zero;
                self.branch(cond, address as u8)
            },
            Mnemonic::Bmi => {
                let cond = self.status.negative;
                self.branch(cond, address as u8)
            },
            Mnemonic::Bpl => {
                let cond = !self.status.negative;
                self.branch(cond, address as u8)
            },
            Mnemonic::Bvc => {
                let cond = !self.status.overflow;
                self.branch(cond, address as u8)
            },
            Mnemonic::Bvs => {
                let cond = self.status.overflow;
                self.branch(cond, address as u8)
            },
            Mnemonic::Clc => {
                self.status.carry = false;
                0
            },
            Mnemonic::Sec => {
                self.status.carry = true;
                0
            },
            Mnemonic::Cli => {
                self.status.interrupt_disable = false;
                0
            },
            Mnemonic::Sei => {
                self.status.interrupt_disable = true;
                0
            },
            Mnemonic::Cld => {
                self.status.decimal = false;
                0
            },
            Mnemonic::Sed => {
                self.status.decimal = true;
                0
            },
            Mnemonic::Clv => {
                self.status.overflow = false;
                0
            },
            Mnemonic::Nop => { 0 },
        }
    }

    /// Advances the processor by one cycle, in priority order: a halted
    /// processor does nothing; pending cycles from the previous instruction
    /// drain one at a time, ticking the bus; a pending NMI, then a pending
    /// and unmasked IRQ, dispatches through its vector; otherwise one whole
    /// instruction is fetched, decoded and executed, and its remaining
    /// cycle cost recorded.
    pub fn step(&mut self)
        requires
            old(self).wf(),
        ensures
            final(self).wf(),
            plain_unchanged(old(self), final(self)),
            old(self).halted ==> *final(self) == *old(self),
            (!old(self).halted && old(self).cycles > 0) ==> final(self).regs() == old(self).regs()
                && final(self).cycles == old(self).cycles - 1
                && ctrl_unchanged(old(self), final(self))
                && final(self).mem() == old(self).mem(),
            (!old(self).halted && old(self).cycles == 0 && old(self).nmi_pending)
                ==> final(self).regs() == interrupt_spec(old(self).regs(), old(self).mem(), 0xFFFA).0
                && final(self).mem() == interrupt_spec(old(self).regs(), old(self).mem(), 0xFFFA).1
                && final(self).cycles == 7
                && !final(self).nmi_pending
                && final(self).irq_pending == old(self).irq_pending
                && final(self).halted == old(self).halted
                && final(self).nmi_edge_detected == old(self).nmi_edge_detected,
            (!old(self).halted && old(self).cycles == 0 && !old(self).nmi_pending
                && old(self).irq_pending && !old(self).status.interrupt_disable)
                ==> final(self).regs() == interrupt_spec(old(self).regs(), old(self).mem(), 0xFFFE).0
                && final(self).mem() == interrupt_spec(old(self).regs(), old(self).mem(), 0xFFFE).1
                && final(self).cycles == 7
                && ctrl_unchanged(old(self), final(self)),
            (!old(self).halted && old(self).cycles == 0 && !old(self).nmi_pending
                && !(old(self).irq_pending && !old(self).status.interrupt_disable))
                ==> ctrl_unchanged(old(self), final(self))
                && (step_fetch_plain(old(self)) ==> final(self).cycles == step_cycles_spec(old(self)))
                && (step_all_plain(old(self)) ==> final(self).regs() == step_effect_spec(old(self)).0
                    && final(self).mem() == step_effect_spec(old(self)).1),
    {
        if self.halted {
            return ;
        }
        if self.cycles > 0 {
            self.cycles = self.cycles - 1;
            self.bus.tick();
            return ;
        }
        if self.nmi_pending {
            self.handle_nmi();
            return ;
        }
        if self.irq_pending && !self.status.get(Flag::InterruptDisable) {
            self.handle_irq();
            return ;
        }
        let opcode_byte = self.fetch_byte();
        let opcode = get_opcode(opcode_byte);
        self.execute_opcode(opcode);
    }

    /// Runs the processor to the next quiescent point: drains any cycles
    /// left from the previous instruction, takes one full step (an
    /// interrupt dispatch or an instruction), and drains its cycles too,
    /// so the pending-cycle counter is zero afterwards. A halted processor
    /// stays exactly as it is. On a quiesced processor with no pending
    /// interrupt whose instruction fetches and accesses all hit plain
    /// memory, the registers and the image afterwards are exactly the
    /// instruction's effect.
    pub fn execute_instruction(&mut self)
        requires
            old(self).wf(),
        ensures
            final(self).wf(),
            final(self).halted == old(self).halted,
            plain_unchanged(old(self), final(self)),
            old(self).halted ==> *final(self) == *old(self),
            !old(self).halted ==> final(self).cycles == 0,
            (!old(self).halted && old(self).cycles == 0 && !old(self).nmi_pending
                && !(old(self).irq_pending && !old(self).status.interrupt_disable)
                && step_all_plain(old(self)))
                ==> final(self).regs() == step_effect_spec(old(self)).0
                && final(self).mem() == step_effect_spec(old(self)).1,
    {
        if self.halted {
            return ;
        }
        while self.cycles > 0
            invariant
                self.wf(),
                !self.halted,
                plain_unchanged(old(self), self),
                old(self).cycles == 0 ==> *self == *old(self),
            decreases self.cycles,
        {
            self.step();
        }
        self.step();
        let ghost mid = *self;
        while self.cycles > 0
            invariant
                self.wf(),
                !self.halted,
                plain_unchanged(old(self), self),
                self.regs() == mid.regs(),
                self.mem() == mid.mem(),
            decreases self.cycles,
        {
            self.step();
        }
    }
}

// ===== Documented quirks, stated over the resolution and cycle model =====

/// The indirect JMP page-wrap bug: when the pointer's low byte is `$FF`,
/// the high byte of the target comes from the start of the pointer's own
/// page, not from the next page.
pub proof fn lemma_indirect_jmp_bug(r: RegFile, mem: Seq<u8>)
    requires
        word_at(mem, r.pc) & 0x00FF == 0x00FF,
    ensures
        ({
            let ptr = word_at(mem, r.pc);
            resolve_spec(AddressingMode::Indirect, r, mem).addr == ((mem[(ptr & 0xFF00) as int]
                as u16) << 8) | (mem[ptr as int] as u16)
        }),
{
}

/// Indirect,Y fetches its two pointer bytes from the zero page with
/// wrap-around: a pointer byte of `$FF` takes the high byte from `$00`.
pub proof fn lemma_indirect_y_wrap(r: RegFile, mem: Seq<u8>)
    requires
        mem[r.pc as int] == 0xFF,
    ensures
        resolve_spec(AddressingMode::IndirectY, r, mem).addr == (((mem[0] as u16) << 8) | (
        mem[0xFF] as u16)).wrapping_add(r.y as u16),
{
    assert(0xFFu8.wrapping_add(1) == 0);
}

/// A taken BNE costs 3 cycles when its target lies in the same page and 4
/// when it crosses into another: the dispatching step consumes one cycle
/// and [`instr_cycles`] is what remains.
pub proof fn lemma_branch_cycles(r: RegFile, mem: Seq<u8>)
    requires
        mem[r.pc as int] == 0xD0,
        !r.st.zero,
    ensures
        ({
            let op = opcode_spec(mem[r.pc as int]);
            let r1 = RegFile { pc: next_addr(r.pc), ..r };
            let res = resolve_spec(op.mode, r1, mem);
            1 + instr_cycles(op, r1, mem) == if pages_differ(
                res.pc,
                branch_target(res.pc, res.addr as u8),
            ) {
                4int
            } else {
                3int
            }
        }),
{
}

/// An eligible page crossing on absolute,X adds one cycle to a load but
/// never to a store: counting the dispatching step, LDA abs,X costs 5
/// cycles across a page boundary and 4 within one, while STA abs,X always
/// costs 5.
pub proof fn lemma_page_cross_penalty(r: RegFile, mem: Seq<u8>)
    ensures
        ({
            let res = resolve_spec(AddressingMode::AbsoluteX, r, mem);
            1 + instr_cycles(opcode_spec(0xBD), r, mem) == if res.crossed {
                5int
            } else {
                4int
            } && 1 + instr_cycles(opcode_spec(0x9D), r, mem) == 5int
        }),
{
}


/// On the flat test bus every address is plain memory, so a dispatching
/// step always meets the conditions of the exact instruction-effect and
/// cycle clauses.
pub proof fn lemma_simple_bus_all_plain(c: &Cpu<SimpleBus>)
    ensures
        step_fetch_plain(c),
        step_all_plain(c),
{
}


} // verus!
