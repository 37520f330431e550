use crate::physical::Physical;
use crate::plain::{bytes_of, Plain};
use crate::platform::{backs, contents, copied, overwrite, Platform};
use vstd::prelude::*;

verus! {

/// Bytes put at `start` are found there afterwards.
proof fn lemma_overwrite_window(mem: Seq<u8>, start: int, bytes: Seq<u8>)
    requires
        0 <= start,
        start + bytes.len() <= mem.len(),
    ensures
        overwrite(mem, start, bytes).subrange(start, start + bytes.len()) == bytes,
{
    assert(overwrite(mem, start, bytes).subrange(start, start + bytes.len()) =~= bytes);
}

/// A handle made from a reference to `v` reads back a value with the bytes
/// of `v`, as long as the memory behind it still holds `v`.
pub proof fn lemma_from_ref_reads_back<'a, T: Plain, P: Platform>(
    platform: P,
    h: Physical<'a, T>,
    v: T,
    virtual_address: usize,
    r: T,
)
    requires
        h.addr() == platform.translate(virtual_address as u32) as usize,
        contents(&platform, h.location(), T::size() as int) == bytes_of(v, platform.big_endian()),
        bytes_of(r, platform.big_endian()) == contents(&platform, h.location(), T::size() as int),
    ensures
        bytes_of(r, platform.big_endian()) == bytes_of(v, platform.big_endian()),
{
}

/// After a value is written through a handle, the memory behind the handle
/// holds exactly the bytes of that value, so a read gives it back.
pub proof fn lemma_write_then_read<'a, T: Plain, P: Platform>(
    before: P,
    after: P,
    h: Physical<'a, T>,
    v: T,
)
    requires
        backs(&before, h.location(), T::size() as int),
        after.base() == before.base(),
        after.memory() == overwrite(
            before.memory(),
            h.location() - before.base(),
            bytes_of(v, before.big_endian()),
        ),
    ensures
        contents(&after, h.location(), T::size() as int) == bytes_of(v, before.big_endian()),
{
    T::lemma_bytes_len(v);
    assert(bytes_of(v, before.big_endian()).len() == T::size());
    lemma_overwrite_window(
        before.memory(),
        h.location() - before.base(),
        bytes_of(v, before.big_endian()),
    );
}

/// Replacing `a` by `b` hands back `a`, and the handle then reads as `b`.
pub proof fn lemma_replace_then_read<'a, T: Plain, P: Platform>(
    before: P,
    after: P,
    h: Physical<'a, T>,
    a: T,
    b: T,
    r: T,
)
    requires
        backs(&before, h.location(), T::size() as int),
        contents(&before, h.location(), T::size() as int) == bytes_of(a, before.big_endian()),
        bytes_of(r, before.big_endian()) == contents(&before, h.location(), T::size() as int),
        after.base() == before.base(),
        after.memory() == overwrite(
            before.memory(),
            h.location() - before.base(),
            bytes_of(b, before.big_endian()),
        ),
    ensures
        bytes_of(r, before.big_endian()) == bytes_of(a, before.big_endian()),
        contents(&after, h.location(), T::size() as int) == bytes_of(b, before.big_endian()),
{
    lemma_write_then_read(before, after, h, b);
}

/// A copy of `count` bytes, at most the size of `T`, between disjoint
/// ranges leaves the first `count` bytes behind `dst` equal to those behind
/// `src` before the copy. With `count` the full size, `dst` then reads as
/// `src` did.
pub proof fn lemma_copy_then_read<'a, 'b, T: Plain, P: Platform>(
    before: P,
    after: P,
    src: Physical<'a, T>,
    dst: Physical<'b, T>,
    count: u32,
)
    requires
        count <= T::size(),
        backs(&before, src.location(), count as int),
        backs(&before, dst.location(), count as int),
        src.location() + count <= dst.location() || dst.location() + count <= src.location(),
        after.base() == before.base(),
        copied(
            before.memory(),
            after.memory(),
            dst.location() - before.base(),
            src.location() - before.base(),
            count as int,
        ),
    ensures
        contents(&after, dst.location(), count as int) == contents(
            &before,
            src.location(),
            count as int,
        ),
{
    lemma_overwrite_window(
        before.memory(),
        dst.location() - before.base(),
        contents(&before, src.location(), count as int),
    );
}

/// Handles made from a pointer and from a reference to the same effective
/// address hold the same physical address.
pub proof fn lemma_ptr_and_ref_agree<'a, T, P: Platform>(
    platform: P,
    by_ref: Physical<'a, T>,
    by_ptr: Physical<'static, T>,
    virtual_address: usize,
)
    requires
        by_ref.addr() == platform.translate(virtual_address as u32) as usize,
        by_ptr.addr() == platform.translate(virtual_address as u32) as usize,
    ensures
        by_ref.addr() == by_ptr.addr(),
{
}

} // verus!
