use vstd::prelude::*;

verus! {

/// `mem` with the bytes from index `start` on replaced by `bytes`.
pub open spec fn overwrite(mem: Seq<u8>, start: int, bytes: Seq<u8>) -> Seq<u8> {
    Seq::new(
        mem.len(),
        |i: int|
            if start <= i < start + bytes.len() {
                bytes[i - start]
            } else {
                mem[i]
            },
    )
}

/// What a copy of `count` bytes from index `src` to index `dst` leaves in
/// memory. Bytes outside the destination keep their value. Where the two
/// ranges are disjoint, the destination holds the source bytes; where they
/// overlap, what the destination holds is up to the machine.
pub open spec fn copied(before: Seq<u8>, after: Seq<u8>, dst: int, src: int, count: int) -> bool {
    &&& after.len() == before.len()
    &&& forall|i: int|
        0 <= i < before.len() && !(dst <= i < dst + count) ==> #[trigger] after[i] == before[i]
    &&& (src + count <= dst || dst + count <= src) ==> after == overwrite(
        before,
        dst,
        before.subrange(src, src + count),
    )
}

/// The machine underneath the handles: physical memory, the translations
/// between effective (virtual) and physical addresses, the byte order, and
/// a block copy between physical addresses.
///
/// The model is a run of bytes that starts at physical address `base()`.
/// An access outside that run is the caller's error; the operations below
/// rule it out in their preconditions rather than check it at run time.
///
/// The spec functions have bodies only so that a platform written in plain
/// Rust, which the verifier does not read, can still implement the trait:
/// the compiled trait keeps them as items. Verus never reasons from those
/// bodies about a platform in general, and a verified implementation cannot
/// meet the contracts below without giving each of them its own body.
pub trait Platform: Sized {
    /// The lowest physical address that is backed.
    open spec fn base(&self) -> int {
        0
    }

    /// The bytes of physical memory, from `base()` on.
    open spec fn memory(&self) -> Seq<u8> {
        arbitrary()
    }

    /// The physical address that an effective address maps to.
    open spec fn translate(&self, virtual_address: u32) -> u32 {
        arbitrary()
    }

    /// The effective address of a physical one through the cached mapping.
    open spec fn effective_cached(&self, physical_address: u32) -> u32 {
        arbitrary()
    }

    /// The effective address of a physical one through the uncached mapping.
    open spec fn effective_uncached(&self, physical_address: u32) -> u32 {
        arbitrary()
    }

    /// Whether values are laid out most significant byte first.
    open spec fn big_endian(&self) -> bool {
        arbitrary()
    }

    fn is_big_endian(&self) -> (r: bool)
        ensures
            r == self.big_endian(),
    ;

    /// Effective to physical translation.
    fn effective_to_physical(&self, virtual_address: u32) -> (r: u32)
        ensures
            r == self.translate(virtual_address),
    ;

    /// Physical to effective translation through the cached mapping. The
    /// result means something only where the region is mapped.
    fn physical_to_effective_cached(&self, physical_address: u32) -> (r: u32)
        ensures
            r == self.effective_cached(physical_address),
    ;

    /// Physical to effective translation through the uncached mapping. The
    /// result means something only where the region is mapped.
    fn physical_to_effective_uncached(&self, physical_address: u32) -> (r: u32)
        ensures
            r == self.effective_uncached(physical_address),
    ;

    /// Copies `count` bytes from physical address `src` to `dst`. Overlap
    /// is not detected.
    fn copy_data(&mut self, dst: u32, src: u32, count: u32)
        requires
            old(self).base() <= dst,
            dst + count <= old(self).base() + old(self).memory().len(),
            old(self).base() <= src,
            src + count <= old(self).base() + old(self).memory().len(),
        ensures
            final(self).base() == old(self).base(),
            final(self).big_endian() == old(self).big_endian(),
            forall|va: u32| #[trigger] final(self).translate(va) == old(self).translate(va),
            forall|pa: u32| #[trigger]
                final(self).effective_cached(pa) == old(self).effective_cached(pa),
            forall|pa: u32| #[trigger]
                final(self).effective_uncached(pa) == old(self).effective_uncached(pa),
            copied(
                old(self).memory(),
                final(self).memory(),
                dst - old(self).base(),
                src - old(self).base(),
                count as int,
            ),
    ;

    /// The `count` bytes at physical address `address`.
    fn load(&self, address: u32, count: u32) -> (r: Vec<u8>)
        requires
            self.base() <= address,
            address + count <= self.base() + self.memory().len(),
        ensures
            r@ == self.memory().subrange(address - self.base(), address - self.base() + count),
    ;

    /// Puts `bytes` at physical address `address`.
    fn store(&mut self, address: u32, bytes: &Vec<u8>)
        requires
            old(self).base() <= address,
            address + bytes@.len() <= old(self).base() + old(self).memory().len(),
        ensures
            final(self).base() == old(self).base(),
            final(self).big_endian() == old(self).big_endian(),
            forall|va: u32| #[trigger] final(self).translate(va) == old(self).translate(va),
            forall|pa: u32| #[trigger]
                final(self).effective_cached(pa) == old(self).effective_cached(pa),
            forall|pa: u32| #[trigger]
                final(self).effective_uncached(pa) == old(self).effective_uncached(pa),
            final(self).memory() == overwrite(old(self).memory(), address - old(self).base(), bytes@),
    ;
}

/// Everything but the contents of memory is the same on `a` and `b`.
pub open spec fn same_machine<P: Platform>(a: &P, b: &P) -> bool {
    &&& b.base() == a.base()
    &&& b.big_endian() == a.big_endian()
    &&& forall|va: u32| #[trigger] b.translate(va) == a.translate(va)
    &&& forall|pa: u32| #[trigger] b.effective_cached(pa) == a.effective_cached(pa)
    &&& forall|pa: u32| #[trigger] b.effective_uncached(pa) == a.effective_uncached(pa)
}

/// Whether `count` bytes from physical address `address` on are backed.
pub open spec fn backs<P: Platform>(p: &P, address: int, count: int) -> bool {
    p.base() <= address && address + count <= p.base() + p.memory().len()
}

/// The `count` bytes at physical address `address`.
pub open spec fn contents<P: Platform>(p: &P, address: int, count: int) -> Seq<u8> {
    p.memory().subrange(address - p.base(), address - p.base() + count)
}

} // verus!
