use crate::plain::{bytes_of, decode, encode, Plain};
use crate::platform::{backs, contents, copied, overwrite, same_machine, Platform};
use core::marker::PhantomData;
use vstd::prelude::*;

verus! {

/// Access to a value of type `T` held at a physical address.
///
/// A handle made from a reference borrows that reference for `'a`, so it
/// cannot outlive the value it points at. Handles made from a pointer or a
/// bare address are `'static`: whoever made them vouches for the address.
/// Copying a handle copies the address, never the memory behind it.
#[derive(Debug)]
pub struct Physical<'a, T> {
    address: usize,
    _phantom: PhantomData<&'a T>,
}

impl<'a, T> Clone for Physical<'a, T> {
    fn clone(&self) -> (r: Self)
        ensures
            r == *self,
    {
        Physical { address: self.address, _phantom: PhantomData }
    }
}

impl<'a, T> Copy for Physical<'a, T> {

}

impl<'a, T> Physical<'a, T> {
    /// The physical address the handle was made with.
    pub closed spec fn addr(&self) -> usize {
        self.address
    }

    /// The address as the platform sees it: platform addresses are 32-bit.
    pub open spec fn location(&self) -> int {
        (self.addr() as u32) as int
    }

    /// A handle on `source`, whose effective address is `virtual_address`.
    ///
    /// The handle borrows `source`, so the value outlives every use of it.
    /// This is the constructor to prefer wherever a reference is at hand.
    pub fn from_ref<P: Platform>(platform: &P, source: &'a T, virtual_address: usize) -> (r:
        Physical<'a, T>)
        ensures
            r.addr() == platform.translate(virtual_address as u32) as usize,
    {
        let _ = source;
        Physical { address: Self::to_physical(platform, virtual_address), _phantom: PhantomData }
    }

    pub fn get_address(&self) -> (r: usize)
        ensures
            r == self.addr(),
    {
        self.address
    }

    /// The physical address of an effective address; the platform exchanges
    /// addresses as 32-bit values.
    fn to_physical<P: Platform>(platform: &P, virtual_address: usize) -> (r: usize)
        ensures
            r == platform.translate(virtual_address as u32) as usize,
    {
        platform.effective_to_physical(virtual_address as u32) as usize
    }

    /// The effective address of the handle through the cached mapping. It
    /// is usable only where the physical region is currently mapped.
    pub fn as_virtual_cached<P: Platform>(&self, platform: &P) -> (r: usize)
        ensures
            r == platform.effective_cached(self.addr() as u32) as usize,
    {
        platform.physical_to_effective_cached(self.address as u32) as usize
    }

    /// The effective address of the handle through the uncached mapping. It
    /// is usable only where the physical region is currently mapped.
    pub fn as_virtual_uncached<P: Platform>(&self, platform: &P) -> (r: usize)
        ensures
            r == platform.effective_uncached(self.addr() as u32) as usize,
    {
        platform.physical_to_effective_uncached(self.address as u32) as usize
    }

    /// The value whose bytes lie at the handle's address, in the platform's
    /// byte order. The bytes are taken as they are; they are not checked to
    /// mean anything.
    pub fn read<P: Platform>(&self, platform: &P) -> (r: T) where T: Plain
        requires
            backs(platform, self.location(), T::size() as int),
        ensures
            bytes_of(r, platform.big_endian()) == contents(
                platform,
                self.location(),
                T::size() as int,
            ),
    {
        let bytes = platform.load(self.address as u32, T::byte_count());
        decode(&bytes, platform.is_big_endian())
    }

    /// Puts the bytes of `value`, in the platform's byte order, at the
    /// handle's address, over whatever was there.
    pub fn write<P: Platform>(&mut self, platform: &mut P, value: T) where T: Plain
        requires
            backs(old(platform), old(self).location(), T::size() as int),
        ensures
            *final(self) == *old(self),
            same_machine(old(platform), final(platform)),
            final(platform).memory() == overwrite(
                old(platform).memory(),
                old(self).location() - old(platform).base(),
                bytes_of(value, old(platform).big_endian()),
            ),
    {
        let bytes = encode(&value, platform.is_big_endian());
        platform.store(self.address as u32, &bytes);
    }

    /// Writes `value` and returns what was read just before. The two steps
    /// are not atomic with respect to other writers.
    pub fn replace<P: Platform>(&mut self, platform: &mut P, value: T) -> (r: T) where T: Plain
        requires
            backs(old(platform), old(self).location(), T::size() as int),
        ensures
            bytes_of(r, old(platform).big_endian()) == contents(
                old(platform),
                old(self).location(),
                T::size() as int,
            ),
            *final(self) == *old(self),
            same_machine(old(platform), final(platform)),
            final(platform).memory() == overwrite(
                old(platform).memory(),
                old(self).location() - old(platform).base(),
                bytes_of(value, old(platform).big_endian()),
            ),
    {
        let prev = self.read(platform);
        self.write(platform, value);
        prev
    }
}

impl<T> Physical<'static, T> {
    /// A handle on the value a pointer points at, from the pointer's
    /// address. Prefer `from_ref` wherever a reference is at hand.
    pub fn from_ptr<P: Platform>(platform: &P, pointer: usize) -> (r: Physical<'static, T>)
        ensures
            r.addr() == platform.translate(pointer as u32) as usize,
    {
        Physical { address: Self::to_physical(platform, pointer), _phantom: PhantomData }
    }

    /// A handle on a physical address, taken as it is: no translation.
    pub fn from_address(physical_address: usize) -> (r: Physical<'static, T>)
        ensures
            r.addr() == physical_address,
    {
        Physical { address: physical_address, _phantom: PhantomData }
    }
}

/// Copies `count` bytes from the memory behind `src` to the memory behind
/// `dst`. Nothing is checked against the size of `T`, and overlap is not
/// detected; the byte count is handed to the platform as a 32-bit value.
pub fn copy<T, P: Platform>(
    platform: &mut P,
    src: &Physical<'_, T>,
    dst: &mut Physical<'_, T>,
    count: usize,
)
    requires
        backs(old(platform), src.location(), (count as u32) as int),
        backs(old(platform), old(dst).location(), (count as u32) as int),
    ensures
        *final(dst) == *old(dst),
        same_machine(old(platform), final(platform)),
        copied(
            old(platform).memory(),
            final(platform).memory(),
            old(dst).location() - old(platform).base(),
            src.location() - old(platform).base(),
            (count as u32) as int,
        ),
{
    platform.copy_data(dst.address as u32, src.address as u32, count as u32);
}

} // verus!
