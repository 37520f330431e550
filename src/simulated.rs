use crate::platform::{overwrite, Platform};
use vstd::prelude::*;

verus! {

/// A platform held in a vector: physical memory is `bytes`, starting at
/// physical address `base`, and an effective address maps to the physical
/// one `virtual_base` below it, modulo 2^32, through either mapping.
pub struct SimulatedMemory {
    base: u32,
    virtual_base: u32,
    big_endian: bool,
    bytes: Vec<u8>,
}

/// Addition modulo 2^32.
pub open spec fn add_mod32(a: u32, b: u32) -> u32 {
    ((a + b) % 0x1_0000_0000) as u32
}

/// Subtraction modulo 2^32.
pub open spec fn sub_mod32(a: u32, b: u32) -> u32 {
    if a >= b {
        (a - b) as u32
    } else {
        (a + (0x1_0000_0000 - b)) as u32
    }
}

impl SimulatedMemory {
    /// `size` zero bytes from physical address `base` on; effective address
    /// `virtual_base` maps to physical address 0.
    pub fn new(base: u32, size: u32, virtual_base: u32, big_endian: bool) -> (r: SimulatedMemory)
        ensures
            r.base() == base as int,
            r.memory() == Seq::new(size as nat, |i: int| 0u8),
            r.big_endian() == big_endian,
            forall|va: u32| #[trigger] r.translate(va) == sub_mod32(va, virtual_base),
            forall|pa: u32| #[trigger] r.effective_cached(pa) == add_mod32(pa, virtual_base),
            forall|pa: u32| #[trigger] r.effective_uncached(pa) == add_mod32(pa, virtual_base),
    {
        let mut bytes: Vec<u8> = Vec::new();
        let mut i: u32 = 0;
        while i < size
            invariant
                i <= size,
                bytes@ == Seq::new(i as nat, |j: int| 0u8),
            decreases size - i,
        {
            bytes.push(0);
            i += 1;
            assert(bytes@ =~= Seq::new(i as nat, |j: int| 0u8));
        }
        SimulatedMemory { base, virtual_base, big_endian, bytes }
    }
}

impl Platform for SimulatedMemory {
    closed spec fn base(&self) -> int {
        self.base as int
    }

    closed spec fn memory(&self) -> Seq<u8> {
        self.bytes@
    }

    closed spec fn translate(&self, virtual_address: u32) -> u32 {
        sub_mod32(virtual_address, self.virtual_base)
    }

    closed spec fn effective_cached(&self, physical_address: u32) -> u32 {
        add_mod32(physical_address, self.virtual_base)
    }

    closed spec fn effective_uncached(&self, physical_address: u32) -> u32 {
        add_mod32(physical_address, self.virtual_base)
    }

    closed spec fn big_endian(&self) -> bool {
        self.big_endian
    }

    fn is_big_endian(&self) -> (r: bool) {
        self.big_endian
    }

    fn effective_to_physical(&self, virtual_address: u32) -> (r: u32) {
        if virtual_address >= self.virtual_base {
            virtual_address - self.virtual_base
        } else {
            ((virtual_address as u64) + (0x1_0000_0000u64 - self.virtual_base as u64)) as u32
        }
    }

    fn physical_to_effective_cached(&self, physical_address: u32) -> (r: u32) {
        ((physical_address as u64 + self.virtual_base as u64) % 0x1_0000_0000) as u32
    }

    fn physical_to_effective_uncached(&self, physical_address: u32) -> (r: u32) {
        ((physical_address as u64 + self.virtual_base as u64) % 0x1_0000_0000) as u32
    }

    fn copy_data(&mut self, dst: u32, src: u32, count: u32) {
        let held = self.load(src, count);
        self.store(dst, &held);
    }

    fn load(&self, address: u32, count: u32) -> (r: Vec<u8>) {
        let start = (address - self.base) as usize;
        let n = count as usize;
        let len = self.bytes.len();
        let mut r: Vec<u8> = Vec::new();
        let mut i: usize = 0;
        while i < n
            invariant
                start + n <= len,
                len == self.bytes@.len(),
                start == address - self.base,
                n == count,
                i <= n,
                r@ == self.bytes@.subrange(start as int, start + i),
            decreases n - i,
        {
            r.push(self.bytes[start + i]);
            i += 1;
            assert(r@ =~= self.bytes@.subrange(start as int, start + i));
        }
        r
    }

    fn store(&mut self, address: u32, bytes: &Vec<u8>) {
        let start = (address - self.base) as usize;
        let n = bytes.len();
        let len = self.bytes.len();
        let mut i: usize = 0;
        while i < n
            invariant
                start + n <= len,
                len == self.bytes@.len(),
                start == address - self.base,
                n == bytes@.len(),
                i <= n,
                self.base == old(self).base,
                self.virtual_base == old(self).virtual_base,
                self.big_endian == old(self).big_endian,
                self.bytes@ == overwrite(old(self).bytes@, start as int, bytes@.subrange(0, i as int)),
            decreases n - i,
        {
            self.bytes.set(start + i, bytes[i]);
            i += 1;
            assert(self.bytes@ =~= overwrite(
                old(self).bytes@,
                start as int,
                bytes@.subrange(0, i as int),
            ));
        }
        assert(bytes@.subrange(0, n as int) =~= bytes@);
    }
}

} // verus!
