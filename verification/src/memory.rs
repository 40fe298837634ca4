//! Byte-addressable memory with wraparound addressing and little-endian
//! 32-bit access.
//!
//! Every 32-bit address is first wrapped into the low [`MEMBITS`] bits by
//! [`mask`]. The backing buffer is over-allocated by a few slack bytes so
//! that a 4-byte access starting at any masked address never indexes past
//! the buffer's end: addresses wrap at `2^24`, but an in-bounds 4-byte
//! access never has to wrap a second time mid-access. (The last 3 bytes
//! before the wrap boundary therefore alias into the slack region, not
//! into addresses 0..=2; that aliasing is part of the machine's meaning.)

use vstd::prelude::*;

verus! {

/// Number of significant address bits: the address space holds `2^24` bytes.
pub const MEMBITS: u32 = 24;

/// The low [`MEMBITS`] bits of an address; [`mask`] keeps exactly these.
pub const ADDR_MASK: u32 = 0x00FF_FFFF;

/// Size of the backing buffer: `2^24` addressable bytes plus 5 slack bytes,
/// so a 4-byte access starting at any masked address stays in bounds.
pub const MEMSIZE: usize = 0x0100_0005;

/// Wraps a 32-bit address into the 24-bit address space.
pub open spec fn mask(addr: u32) -> u32 {
    addr & ADDR_MASK
}

/// 32-bit addition modulo `2^32`.
pub open spec fn wrap_add(a: u32, b: u32) -> u32 {
    vstd::wrapping::u32_specs::wrapping_add(a, b)
}

/// 32-bit subtraction modulo `2^32`.
pub open spec fn wrap_sub(a: u32, b: u32) -> u32 {
    vstd::wrapping::u32_specs::wrapping_sub(a, b)
}

/// 32-bit multiplication modulo `2^32`.
pub open spec fn wrap_mul(a: u32, b: u32) -> u32 {
    vstd::wrapping::u32_specs::wrapping_mul(a, b)
}

/// The 32-bit value formed from four bytes in little-endian order.
pub open spec fn le_word(b0: u8, b1: u8, b2: u8, b3: u8) -> u32 {
    (b0 as u32) | ((b1 as u32) << 8) | ((b2 as u32) << 16) | ((b3 as u32) << 24)
}

/// The byte stored at masked address `addr`.
pub open spec fn byte_at(mem: Seq<u8>, addr: u32) -> u8 {
    mem[mask(addr) as int]
}

/// The little-endian 32-bit word stored at masked address `addr`.
pub open spec fn word_at(mem: Seq<u8>, addr: u32) -> u32 {
    let p = mask(addr) as int;
    le_word(mem[p], mem[p + 1], mem[p + 2], mem[p + 3])
}

/// The memory contents after storing `val` little-endian at masked address `addr`.
pub open spec fn store_word(mem: Seq<u8>, addr: u32, val: u32) -> Seq<u8> {
    let p = mask(addr) as int;
    mem.update(p, (val & 0xFF) as u8).update(p + 1, ((val >> 8) & 0xFF) as u8).update(
        p + 2,
        ((val >> 16) & 0xFF) as u8,
    ).update(p + 3, ((val >> 24) & 0xFF) as u8)
}

/// A fixed-size byte buffer addressed through [`mask`]. Reads and writes are
/// total over all `u32` addresses: there is no error path for memory access.
pub struct Memory {
    mem: Vec<u8>,
}

impl View for Memory {
    type V = Seq<u8>;

    closed spec fn view(&self) -> Seq<u8> {
        self.mem@
    }
}

impl Memory {
    /// The buffer has its full size, so every masked 4-byte access is in bounds.
    pub open spec fn wf(&self) -> bool {
        self@.len() == MEMSIZE
    }

    /// A memory filled with zero bytes.
    pub fn new() -> (m: Memory)
        ensures
            m.wf(),
            forall|i: int| 0 <= i < MEMSIZE ==> m@[i] == 0u8,
    {
        let mem: Vec<u8> = vec![0u8; MEMSIZE];
        proof {
            assert forall|i: int| 0 <= i < MEMSIZE implies mem@[i] == 0u8 by {
                assert(cloned(0u8, mem@[i]));
            }
        }
        Memory { mem }
    }

    /// A memory holding `code` at addresses `0..code.len()` and zero elsewhere.
    /// The program must leave the slack bytes free, so at most `2^24` bytes load.
    pub fn load(code: &Vec<u8>) -> (m: Memory)
        requires
            code@.len() <= 0x0100_0000,
        ensures
            m.wf(),
            forall|i: int| 0 <= i < code@.len() ==> m@[i] == code@[i],
            forall|i: int| code@.len() <= i < MEMSIZE ==> m@[i] == 0u8,
    {
        let mut m = Memory::new();
        let mut i: usize = 0;
        while i < code.len()
            invariant
                i <= code@.len() <= 0x0100_0000,
                m.wf(),
                forall|j: int| 0 <= j < i ==> m@[j] == code@[j],
                forall|j: int| i <= j < MEMSIZE ==> m@[j] == 0u8,
            decreases code@.len() - i,
        {
            m.mem[i] = code[i];
            i = i + 1;
        }
        m
    }

    /// The masked address as a buffer index; always below `2^24`.
    pub fn get_ptr(idx: u32) -> (p: usize)
        ensures
            p == mask(idx) as usize,
            p < 0x0100_0000,
    {
        proof {
            assert(idx & 0x00FF_FFFF < 0x0100_0000) by (bit_vector);
        }
        (idx & ADDR_MASK) as usize
    }

    /// Reads the byte at masked address `idx`.
    pub fn read_byte(&self, idx: u32) -> (b: u8)
        requires
            self.wf(),
        ensures
            b == byte_at(self@, idx),
    {
        let p = Self::get_ptr(idx);
        self.mem[p]
    }

    /// Reads the little-endian 32-bit word at masked address `idx`.
    pub fn read_u32(&self, idx: u32) -> (v: u32)
        requires
            self.wf(),
        ensures
            v == word_at(self@, idx),
    {
        let p = Self::get_ptr(idx);
        let b0 = self.mem[p];
        let b1 = self.mem[p + 1];
        let b2 = self.mem[p + 2];
        let b3 = self.mem[p + 3];
        (b0 as u32) | ((b1 as u32) << 8) | ((b2 as u32) << 16) | ((b3 as u32) << 24)
    }

    /// Writes `val` little-endian at masked address `idx`.
    pub fn write_u32(&mut self, idx: u32, val: u32)
        requires
            old(self).wf(),
        ensures
            final(self).wf(),
            final(self)@ == store_word(old(self)@, idx, val),
    {
        let p = Self::get_ptr(idx);
        proof {
            assert(val & 0xFF < 256 && (val >> 8) & 0xFF < 256 && (val >> 16) & 0xFF < 256 && (val
                >> 24) & 0xFF < 256) by (bit_vector);
        }
        self.mem[p] = (val & 0xFF) as u8;
        self.mem[p + 1] = ((val >> 8) & 0xFF) as u8;
        self.mem[p + 2] = ((val >> 16) & 0xFF) as u8;
        self.mem[p + 3] = ((val >> 24) & 0xFF) as u8;
    }
}

/// Wraparound idempotence: adding the full size of the address space to an
/// address leaves the masked address unchanged.
pub proof fn lemma_mask_wraparound(addr: u32)
    ensures
        mask(wrap_add(addr, 0x0100_0000)) == mask(addr),
{
    let s = wrap_add(addr, 0x0100_0000);
    if addr + 0x0100_0000 <= u32::MAX {
        assert(s == addr + 0x0100_0000);
        assert(s & 0x00FF_FFFF == addr & 0x00FF_FFFF) by (bit_vector)
            requires
                s == addr + 0x0100_0000,
        ;
    } else {
        assert(s == addr + 0x0100_0000 - 0x1_0000_0000);
        assert(s & 0x00FF_FFFF == addr & 0x00FF_FFFF) by (bit_vector)
            requires
                s + 0x1_0000_0000 == addr + 0x0100_0000,
        ;
    }
}

/// Read/write round-trip: the word read back at an address is the word that
/// was just stored there.
pub proof fn lemma_word_round_trip(mem: Seq<u8>, addr: u32, val: u32)
    requires
        mem.len() == MEMSIZE,
    ensures
        word_at(store_word(mem, addr, val), addr) == val,
{
    assert(addr & 0x00FF_FFFF < 0x0100_0000) by (bit_vector);
    let p = mask(addr) as int;
    let stored = store_word(mem, addr, val);
    assert(stored[p] == (val & 0xFF) as u8);
    assert(stored[p + 1] == ((val >> 8) & 0xFF) as u8);
    assert(stored[p + 2] == ((val >> 16) & 0xFF) as u8);
    assert(stored[p + 3] == ((val >> 24) & 0xFF) as u8);
    assert(le_word(
        (val & 0xFF) as u8,
        ((val >> 8) & 0xFF) as u8,
        ((val >> 16) & 0xFF) as u8,
        ((val >> 24) & 0xFF) as u8,
    ) == val) by (bit_vector);
}

} // verus!
