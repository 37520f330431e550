use physical::{copy, decode, encode, Physical, Plain, Platform, SimulatedMemory};

const BASE: u32 = 0x1000_0000;

fn memory() -> SimulatedMemory {
    SimulatedMemory::new(BASE, 64, 0x8000_0000, false)
}

#[test]
fn fixed_address_write_then_read() {
    let mut mem = memory();
    let mut h = Physical::<u32>::from_address(0x1000_0000);
    h.write(&mut mem, 42);
    assert_eq!(h.read(&mem), 42);
}

#[test]
fn from_ref_reads_local_value() {
    let mut mem = memory();
    let x: i32 = 7;
    // The simulated effective address of `x` and the bytes it holds.
    let virtual_address: usize = 0x9000_0008;
    let physical_address = mem.effective_to_physical(virtual_address as u32);
    assert_eq!(physical_address, 0x1000_0008);
    mem.store(physical_address, &encode(&x, false));
    let h = Physical::from_ref(&mem, &x, virtual_address);
    assert_eq!(h.get_address(), 0x1000_0008);
    assert_eq!(h.read(&mem), 7);
    assert_eq!(x, 7);
}

#[test]
fn from_ref_round_trip_of_each_width() {
    let mut mem = memory();
    let a: u8 = 0xAB;
    let b: u16 = 0xBEEF;
    let c: u64 = 0x0123_4567_89AB_CDEF;
    let d: i32 = -123_456;
    mem.store(BASE, &encode(&a, false));
    mem.store(BASE + 2, &encode(&b, false));
    mem.store(BASE + 8, &encode(&c, false));
    mem.store(BASE + 16, &encode(&d, false));
    assert_eq!(Physical::from_ref(&mem, &a, 0x9000_0000).read(&mem), a);
    assert_eq!(Physical::from_ref(&mem, &b, 0x9000_0002).read(&mem), b);
    assert_eq!(Physical::from_ref(&mem, &c, 0x9000_0008).read(&mem), c);
    assert_eq!(Physical::from_ref(&mem, &d, 0x9000_0010).read(&mem), d);
}

#[test]
fn write_then_read_each_width() {
    let mut mem = memory();
    let mut a = Physical::<u16>::from_address(BASE as usize + 1);
    let mut b = Physical::<u64>::from_address(BASE as usize + 24);
    let mut c = Physical::<i32>::from_address(BASE as usize + 60);
    a.write(&mut mem, 0xFFFF);
    b.write(&mut mem, u64::MAX - 5);
    c.write(&mut mem, i32::MIN);
    assert_eq!(a.read(&mem), 0xFFFF);
    assert_eq!(b.read(&mem), u64::MAX - 5);
    assert_eq!(c.read(&mem), i32::MIN);
}

#[test]
fn bytes_are_laid_out_lowest_first() {
    let mut mem = memory();
    let mut h = Physical::<u32>::from_address(BASE as usize + 4);
    h.write(&mut mem, 0x1122_3344);
    assert_eq!(mem.load(BASE + 4, 4), vec![0x44, 0x33, 0x22, 0x11]);
    assert_eq!(mem.load(BASE, 4), vec![0, 0, 0, 0]);
    assert_eq!(mem.load(BASE + 8, 4), vec![0, 0, 0, 0]);
}

#[test]
fn replace_returns_previous_content() {
    let mut mem = memory();
    let mut h = Physical::<u32>::from_address(BASE as usize + 12);
    h.write(&mut mem, 5);
    assert_eq!(h.replace(&mut mem, 9), 5);
    assert_eq!(h.read(&mem), 9);
    assert_eq!(h.replace(&mut mem, 11), 9);
    assert_eq!(h.read(&mem), 11);
}

#[test]
fn copy_whole_value() {
    let mut mem = memory();
    let mut s = Physical::<u32>::from_address(BASE as usize);
    let mut d = Physical::<u32>::from_address(BASE as usize + 32);
    s.write(&mut mem, 0xDEAD_BEEF);
    d.write(&mut mem, 1);
    copy(&mut mem, &s, &mut d, 4);
    assert_eq!(d.read(&mem), 0xDEAD_BEEF);
    assert_eq!(s.read(&mem), 0xDEAD_BEEF);
}

#[test]
fn copy_part_of_value() {
    let mut mem = memory();
    let mut s = Physical::<u32>::from_address(BASE as usize);
    let mut d = Physical::<u32>::from_address(BASE as usize + 32);
    s.write(&mut mem, 0x1122_3344);
    d.write(&mut mem, 0xAABB_CCDD);
    copy(&mut mem, &s, &mut d, 2);
    assert_eq!(d.read(&mem), 0xAABB_3344);
    copy(&mut mem, &s, &mut d, 0);
    assert_eq!(d.read(&mem), 0xAABB_3344);
}

#[test]
fn overlapping_copy_takes_source_as_it_was() {
    let mut mem = memory();
    let mut s = Physical::<u32>::from_address(BASE as usize);
    let mut d = Physical::<u32>::from_address(BASE as usize + 2);
    s.write(&mut mem, 0x0403_0201);
    copy(&mut mem, &s, &mut d, 4);
    assert_eq!(mem.load(BASE, 6), vec![1, 2, 1, 2, 3, 4]);
}

#[test]
fn from_address_takes_address_verbatim() {
    for a in [0usize, 1, 0xAABB_CCDD, 0x1000_0000, u32::MAX as usize] {
        assert_eq!(Physical::<i32>::from_address(a).get_address(), a);
    }
}

#[test]
fn from_ptr_and_from_ref_agree() {
    let mem = memory();
    let x: u64 = 3;
    let by_ref = Physical::from_ref(&mem, &x, 0x9000_0010);
    let by_ptr = Physical::<u64>::from_ptr(&mem, 0x9000_0010);
    assert_eq!(by_ref.get_address(), by_ptr.get_address());
    assert_eq!(by_ptr.get_address(), 0x1000_0010);
}

#[test]
fn translation_wraps_below_virtual_base() {
    let mem = memory();
    let h = Physical::<u8>::from_ptr(&mem, 0x7FFF_FFFF);
    assert_eq!(h.get_address(), 0xFFFF_FFFF);
    assert_eq!(mem.effective_to_physical(0x8000_0000), 0);
}

#[test]
fn address_to_effective_and_back() {
    let mem = memory();
    let h = Physical::<u8>::from_address(0x1000_0020);
    assert_eq!(h.as_virtual_cached(&mem), 0x9000_0020);
    assert_eq!(h.as_virtual_uncached(&mem), 0x9000_0020);
    let back = Physical::<u8>::from_ptr(&mem, h.as_virtual_cached(&mem));
    assert_eq!(back.get_address(), 0x1000_0020);
}

#[test]
fn address_is_unchanged_by_access() {
    let mut mem = memory();
    let mut h = Physical::<u32>::from_address(BASE as usize + 40);
    let other = h;
    h.write(&mut mem, 8);
    let _ = h.read(&mem);
    let _ = h.replace(&mut mem, 10);
    let mut d = Physical::<u32>::from_address(BASE as usize + 44);
    copy(&mut mem, &h, &mut d, 4);
    assert_eq!(h.get_address(), BASE as usize + 40);
    assert_eq!(d.get_address(), BASE as usize + 44);
    assert_eq!(other.get_address(), h.get_address());
    assert_eq!(other.read(&mem), 10);
}

#[test]
fn fresh_memory_is_zero() {
    let mem = SimulatedMemory::new(0, 8, 0, false);
    assert_eq!(mem.load(0, 8), vec![0; 8]);
    assert_eq!(Physical::<u64>::from_address(0).read(&mem), 0);
}

#[test]
fn byte_encodings() {
    assert_eq!(u8::byte_count(), 1);
    assert_eq!(u16::byte_count(), 2);
    assert_eq!(u32::byte_count(), 4);
    assert_eq!(u64::byte_count(), 8);
    assert_eq!(i32::byte_count(), 4);
    assert_eq!(encode(&-1i32, false), vec![0xFF; 4]);
    assert_eq!(decode::<i32>(&vec![0xFE, 0xFF, 0xFF, 0xFF], false), -2);
    assert_eq!(encode(&0x0102u16, false), vec![2, 1]);
    assert_eq!(decode::<u64>(&vec![1, 0, 0, 0, 0, 0, 0, 0x80], false), 0x8000_0000_0000_0001);
}

#[test]
fn big_endian_machine_lays_out_most_significant_first() {
    let mut mem = SimulatedMemory::new(BASE, 16, 0x8000_0000, true);
    let mut h = Physical::<u32>::from_address(BASE as usize + 4);
    h.write(&mut mem, 7);
    assert_eq!(mem.load(BASE + 4, 4), vec![0, 0, 0, 7]);
    assert_eq!(h.read(&mem), 7);
    let mut w = Physical::<i16>::from_address(BASE as usize + 8);
    w.write(&mut mem, -2);
    assert_eq!(mem.load(BASE + 8, 2), vec![0xFF, 0xFE]);
    assert_eq!(w.read(&mem), -2);
}

#[test]
fn from_ref_on_big_endian_machine() {
    let mut mem = SimulatedMemory::new(BASE, 16, 0x8000_0000, true);
    let x: i32 = 7;
    mem.store(BASE, &vec![0, 0, 0, 7]);
    assert_eq!(Physical::from_ref(&mem, &x, 0x9000_0000).read(&mem), 7);
    assert_eq!(x, 7);
}

#[test]
fn byte_order_of_encodings() {
    assert_eq!(encode(&0x0102_0304u32, true), vec![1, 2, 3, 4]);
    assert_eq!(encode(&0x0102_0304u32, false), vec![4, 3, 2, 1]);
    assert_eq!(decode::<u16>(&vec![0x12, 0x34], true), 0x1234);
    assert_eq!(decode::<u16>(&vec![0x12, 0x34], false), 0x3412);
    assert_eq!(encode(&-2i64, true), vec![0xFF, 0xFF, 0xFF, 0xFF, 0xFF, 0xFF, 0xFF, 0xFE]);
    assert_eq!(decode::<i8>(&vec![0x80], true), -128);
    assert_eq!(encode(&-1i8, false), vec![0xFF]);
    assert_eq!(i8::byte_count(), 1);
    assert_eq!(i16::byte_count(), 2);
    assert_eq!(i64::byte_count(), 8);
}

#[test]
fn signed_widths_round_trip() {
    let mut mem = memory();
    let mut a = Physical::<i8>::from_address(BASE as usize);
    let mut b = Physical::<i16>::from_address(BASE as usize + 1);
    let mut c = Physical::<i64>::from_address(BASE as usize + 3);
    a.write(&mut mem, i8::MIN);
    b.write(&mut mem, -300);
    c.write(&mut mem, i64::MIN + 1);
    assert_eq!(a.read(&mem), i8::MIN);
    assert_eq!(b.read(&mem), -300);
    assert_eq!(c.read(&mem), i64::MIN + 1);
}

#[test]
fn reverse_translation_wraps() {
    let mem = memory();
    let h = Physical::<u8>::from_address(0x8000_0001);
    assert_eq!(h.as_virtual_cached(&mem), 1);
    assert_eq!(h.as_virtual_uncached(&mem), 1);
    assert_eq!(mem.physical_to_effective_cached(0x7FFF_FFFF), 0xFFFF_FFFF);
}
