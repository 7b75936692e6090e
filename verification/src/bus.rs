//! The memory capability the CPU is generic over, and a flat test bus.
//!
//! A bus decodes 16-bit addresses. Some addresses behave as plain memory:
//! a read returns the stored byte and changes nothing, a write stores the
//! byte and changes nothing else. Others are mapped to peripheral registers
//! whose reads and writes have side effects. The trait models the plain
//! part exactly — as a 64 KiB image together with two predicates saying
//! where reads and writes are plain — and guarantees nothing about the
//! value read from a peripheral register, which each bus pins down in its
//! own contracts.

use vstd::prelude::*;

verus! {

/// The address one past `a`, wrapping at the top of the address space.
pub open spec fn next_addr(a: u16) -> u16 {
    a.wrapping_add(1)
}

/// The little-endian word whose low byte sits at `a` and whose high byte
/// sits at the following address (wrapping at the top of the address space).
pub open spec fn word_at(mem: Seq<u8>, a: u16) -> u16 {
    ((mem[next_addr(a) as int] as u16) << 8) | (mem[a as int] as u16)
}

/// The stack lives in page 1: the byte addressed by stack pointer `sp` is
/// at `$0100 | sp`.
pub open spec fn stack_addr(sp: u8) -> u16 {
    0x0100u16 | (sp as u16)
}

/// Page-1 addresses written as `$0100 | sp` are `256 + sp`, hence within
/// `[$0100, $01FF]` and injective in `sp`.
pub proof fn lemma_stack_addr(sp: u8)
    ensures
        stack_addr(sp) == 256 + sp,
        0x0100 <= stack_addr(sp) < 0x0200,
{
    assert((0x0100u16 | (sp as u16)) == 256 + sp as u16) by (bit_vector);
}

/// What the CPU requires of a memory bus: byte reads and writes over the
/// 16-bit address space and a cycle tick, together with a model of which
/// addresses behave as plain memory.
pub trait Bus: Sized {
    /// The 64 KiB image of plain memory: the byte a read returns wherever
    /// reads are plain.
    spec fn mem(&self) -> Seq<u8>;

    /// Addresses where `read` returns `mem()[addr]` and has no side effect.
    spec fn read_plain(&self, addr: u16) -> bool;

    /// Addresses where `write` stores into `mem()[addr]` and changes
    /// nothing else of the image.
    spec fn write_plain(&self, addr: u16) -> bool;

    /// Well-formedness of the bus state.
    spec fn inv(&self) -> bool;

    /// In every well-formed bus the image covers the address space, the
    /// zero page and the stack page are plain memory, and the interrupt
    /// vectors at `$FFFA`–`$FFFF` can be read as plain memory.
    proof fn lemma_inv(&self)
        requires
            self.inv(),
        ensures
            self.mem().len() == 0x10000,
            forall|a: u16| a < 0x0200 ==> self.read_plain(a) && self.write_plain(a),
            forall|a: u16| a >= 0xFFFA ==> self.read_plain(a),
    ;

    /// Reads one byte. At a plain address this returns the image byte and
    /// leaves the bus untouched; elsewhere the value is the peripheral's
    /// business, but the image and the plain regions survive.
    fn read(&mut self, addr: u16) -> (r: u8)
        requires
            old(self).inv(),
        ensures
            final(self).inv(),
            final(self).mem() == old(self).mem(),
            forall|a: u16| final(self).read_plain(a) == old(self).read_plain(a),
            forall|a: u16| final(self).write_plain(a) == old(self).write_plain(a),
            old(self).read_plain(addr) ==> *final(self) == *old(self) && r == old(self).mem()[
                addr as int],
    ;

    /// Writes one byte. At a plain address this stores into the image;
    /// everywhere else the image is untouched (ROM writes are dropped,
    /// peripheral writes land in peripheral state).
    fn write(&mut self, addr: u16, val: u8)
        requires
            old(self).inv(),
        ensures
            final(self).inv(),
            forall|a: u16| final(self).read_plain(a) == old(self).read_plain(a),
            forall|a: u16| final(self).write_plain(a) == old(self).write_plain(a),
            final(self).mem() == if old(self).write_plain(addr) {
                old(self).mem().update(addr as int, val)
            } else {
                old(self).mem()
            },
    ;

    /// Advances the bus by one cycle. Peripheral state may move; the plain
    /// memory image does not.
    fn tick(&mut self)
        requires
            old(self).inv(),
        ensures
            final(self).inv(),
            final(self).mem() == old(self).mem(),
            forall|a: u16| final(self).read_plain(a) == old(self).read_plain(a),
            forall|a: u16| final(self).write_plain(a) == old(self).write_plain(a),
    ;

    /// Reads a little-endian word: low byte at `addr`, high byte at the
    /// following address.
    fn read_word(&mut self, addr: u16) -> (r: u16)
        requires
            old(self).inv(),
        ensures
            final(self).inv(),
            final(self).mem() == old(self).mem(),
            forall|a: u16| final(self).read_plain(a) == old(self).read_plain(a),
            forall|a: u16| final(self).write_plain(a) == old(self).write_plain(a),
            old(self).read_plain(addr) && old(self).read_plain(next_addr(addr)) ==> *final(self)
                == *old(self) && r == word_at(old(self).mem(), addr),
    {
        let low = self.read(addr);
        let high = self.read(addr.wrapping_add(1));
        ((high as u16) << 8) | (low as u16)
    }
}

/// A flat 64 KiB bus for exercising the CPU on its own: every address is
/// plain memory, and ticking does nothing.
pub struct SimpleBus {
    pub ram: Vec<u8>,
}

impl SimpleBus {
    /// A bus whose 64 KiB of memory are all zero.
    pub fn new() -> (r: SimpleBus)
        ensures
            r.inv(),
            r.mem() == Seq::new(0x10000, |i: int| 0u8),
    {
        let ram: Vec<u8> = vec![0u8; 0x10000];
        proof {
            assert(ram@ =~= Seq::new(0x10000, |i: int| 0u8));
        }
        SimpleBus { ram }
    }

    /// Copies `data` into memory starting at `addr`.
    pub fn load(&mut self, addr: u16, data: &[u8])
        requires
            old(self).inv(),
            addr as int + data@.len() <= 0x10000,
        ensures
            final(self).inv(),
            final(self).mem().len() == 0x10000,
            forall|j: int|
                0 <= j < 0x10000 ==> final(self).mem()[j] == if addr as int <= j < addr as int
                    + data@.len() {
                    data@[j - addr]
                } else {
                    old(self).mem()[j]
                },
    {
        let mut i: usize = 0;
        while i < data.len()
            invariant
                self.ram@.len() == 0x10000,
                i <= data@.len(),
                addr as int + data@.len() <= 0x10000,
                forall|j: int|
                    0 <= j < 0x10000 ==> self.ram@[j] == if addr as int <= j < addr as int
                        + i as int {
                        data@[j - addr]
                    } else {
                        old(self).ram@[j]
                    },
            decreases data@.len() - i,
        {
            self.ram[addr as usize + i] = data[i];
            i = i + 1;
        }
    }
}

impl Bus for SimpleBus {
    open spec fn mem(&self) -> Seq<u8> {
        self.ram@
    }

    open spec fn read_plain(&self, addr: u16) -> bool {
        true
    }

    open spec fn write_plain(&self, addr: u16) -> bool {
        true
    }

    open spec fn inv(&self) -> bool {
        self.ram@.len() == 0x10000
    }

    proof fn lemma_inv(&self) {
    }

    fn read(&mut self, addr: u16) -> (r: u8) {
        self.ram[addr as usize]
    }

    fn write(&mut self, addr: u16, val: u8) {
        self.ram[addr as usize] = val;
        proof {
            assert(self.ram@ =~= old(self).ram@.update(addr as int, val));
        }
    }

    fn tick(&mut self) {
    }
}

} // verus!
