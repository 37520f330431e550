use vstd::bytes::{
    lemma_auto_spec_u16_to_from_le_bytes, lemma_auto_spec_u32_to_from_le_bytes,
    lemma_auto_spec_u64_to_from_le_bytes, spec_u16_to_le_bytes, spec_u32_to_le_bytes,
    spec_u64_to_le_bytes, u16_from_le_bytes, u16_to_le_bytes, u32_from_le_bytes,
    u32_to_le_bytes, u64_from_le_bytes, u64_to_le_bytes,
};
use vstd::prelude::*;

verus! {

/// A value type whose every bit pattern of the right length is a value.
///
/// `le_bytes` is the little-endian image of a value; [`bytes_of`] puts it in
/// the byte order of the machine that holds it. Decoding bytes gives a value
/// with exactly those bytes, so a round trip through memory is bit-identical.
pub trait Plain: Sized {
    /// The number of bytes a value occupies.
    spec fn size() -> nat;

    /// The bytes of a value, least significant first.
    spec fn le_bytes(v: Self) -> Seq<u8>;

    proof fn lemma_bytes_len(v: Self)
        ensures
            Self::le_bytes(v).len() == Self::size(),
    ;

    fn byte_count() -> (r: u32)
        ensures
            r as nat == Self::size(),
    ;

    fn to_le(&self) -> (r: Vec<u8>)
        ensures
            r@ == Self::le_bytes(*self),
    ;

    fn from_le(bytes: &Vec<u8>) -> (r: Self)
        requires
            bytes@.len() == Self::size(),
        ensures
            Self::le_bytes(r) == bytes@,
    ;
}

/// Little-endian bytes put in the given byte order.
pub open spec fn in_order(le: Seq<u8>, big_endian: bool) -> Seq<u8> {
    if big_endian {
        Seq::new(le.len(), |i: int| le[le.len() - 1 - i])
    } else {
        le
    }
}

/// The image of `v` in the memory of a machine with the given byte order.
pub open spec fn bytes_of<T: Plain>(v: T, big_endian: bool) -> Seq<u8> {
    in_order(T::le_bytes(v), big_endian)
}

proof fn lemma_in_order_twice(s: Seq<u8>, big_endian: bool)
    ensures
        in_order(in_order(s, big_endian), big_endian) == s,
        in_order(s, big_endian).len() == s.len(),
{
    assert(in_order(in_order(s, big_endian), big_endian) =~= s);
}

/// `le` put in the given byte order.
fn arrange(le: Vec<u8>, big_endian: bool) -> (r: Vec<u8>)
    ensures
        r@ == in_order(le@, big_endian),
{
    if !big_endian {
        return le;
    }
    let n = le.len();
    let mut r: Vec<u8> = Vec::new();
    let mut i: usize = 0;
    while i < n
        invariant
            n == le@.len(),
            i <= n,
            r@ =~= Seq::new(i as nat, |j: int| le@[n - 1 - j]),
        decreases n - i,
    {
        r.push(le[n - 1 - i]);
        i += 1;
    }
    r
}

/// The bytes of `v` in the given byte order.
pub fn encode<T: Plain>(v: &T, big_endian: bool) -> (r: Vec<u8>)
    ensures
        r@ == bytes_of(*v, big_endian),
        r@.len() == T::size(),
{
    proof {
        T::lemma_bytes_len(*v);
        lemma_in_order_twice(T::le_bytes(*v), big_endian);
    }
    arrange(v.to_le(), big_endian)
}

/// The value whose bytes, in the given byte order, are `bytes`.
pub fn decode<T: Plain>(bytes: &Vec<u8>, big_endian: bool) -> (r: T)
    requires
        bytes@.len() == T::size(),
    ensures
        bytes_of(r, big_endian) == bytes@,
{
    let le = arrange(bytes.clone(), big_endian);
    proof {
        lemma_in_order_twice(bytes@, big_endian);
    }
    T::from_le(&le)
}

impl Plain for u8 {
    open spec fn size() -> nat {
        1
    }

    open spec fn le_bytes(v: u8) -> Seq<u8> {
        seq![v]
    }

    proof fn lemma_bytes_len(v: u8) {
    }

    fn byte_count() -> (r: u32) {
        1
    }

    fn to_le(&self) -> (r: Vec<u8>) {
        vec![*self]
    }

    fn from_le(bytes: &Vec<u8>) -> (r: u8) {
        let r = bytes[0];
        assert(Self::le_bytes(r) =~= bytes@);
        r
    }
}

/// A signed byte has the bits of the unsigned byte it is cast to.
impl Plain for i8 {
    open spec fn size() -> nat {
        1
    }

    open spec fn le_bytes(v: i8) -> Seq<u8> {
        seq![v as u8]
    }

    proof fn lemma_bytes_len(v: i8) {
    }

    fn byte_count() -> (r: u32) {
        1
    }

    fn to_le(&self) -> (r: Vec<u8>) {
        vec![*self as u8]
    }

    fn from_le(bytes: &Vec<u8>) -> (r: i8) {
        let b = bytes[0];
        let r = b as i8;
        assert(r as u8 == b) by (bit_vector)
            requires
                r == b as i8,
        ;
        assert(Self::le_bytes(r) =~= bytes@);
        r
    }
}

impl Plain for u16 {
    open spec fn size() -> nat {
        2
    }

    open spec fn le_bytes(v: u16) -> Seq<u8> {
        spec_u16_to_le_bytes(v)
    }

    proof fn lemma_bytes_len(v: u16) {
        lemma_auto_spec_u16_to_from_le_bytes();
    }

    fn byte_count() -> (r: u32) {
        2
    }

    fn to_le(&self) -> (r: Vec<u8>) {
        u16_to_le_bytes(*self)
    }

    fn from_le(bytes: &Vec<u8>) -> (r: u16) {
        proof {
            lemma_auto_spec_u16_to_from_le_bytes();
        }
        u16_from_le_bytes(bytes.as_slice())
    }
}

/// A signed half word has the bits of the unsigned one it is cast to.
impl Plain for i16 {
    open spec fn size() -> nat {
        2
    }

    open spec fn le_bytes(v: i16) -> Seq<u8> {
        spec_u16_to_le_bytes(v as u16)
    }

    proof fn lemma_bytes_len(v: i16) {
        lemma_auto_spec_u16_to_from_le_bytes();
    }

    fn byte_count() -> (r: u32) {
        2
    }

    fn to_le(&self) -> (r: Vec<u8>) {
        u16_to_le_bytes(*self as u16)
    }

    fn from_le(bytes: &Vec<u8>) -> (r: i16) {
        proof {
            lemma_auto_spec_u16_to_from_le_bytes();
        }
        let w = u16_from_le_bytes(bytes.as_slice());
        let r = w as i16;
        assert(r as u16 == w) by (bit_vector)
            requires
                r == w as i16,
        ;
        r
    }
}

impl Plain for u32 {
    open spec fn size() -> nat {
        4
    }

    open spec fn le_bytes(v: u32) -> Seq<u8> {
        spec_u32_to_le_bytes(v)
    }

    proof fn lemma_bytes_len(v: u32) {
        lemma_auto_spec_u32_to_from_le_bytes();
    }

    fn byte_count() -> (r: u32) {
        4
    }

    fn to_le(&self) -> (r: Vec<u8>) {
        u32_to_le_bytes(*self)
    }

    fn from_le(bytes: &Vec<u8>) -> (r: u32) {
        proof {
            lemma_auto_spec_u32_to_from_le_bytes();
        }
        u32_from_le_bytes(bytes.as_slice())
    }
}

/// A signed word has the bits of the unsigned word it is cast to.
impl Plain for i32 {
    open spec fn size() -> nat {
        4
    }

    open spec fn le_bytes(v: i32) -> Seq<u8> {
        spec_u32_to_le_bytes(v as u32)
    }

    proof fn lemma_bytes_len(v: i32) {
        lemma_auto_spec_u32_to_from_le_bytes();
    }

    fn byte_count() -> (r: u32) {
        4
    }

    fn to_le(&self) -> (r: Vec<u8>) {
        u32_to_le_bytes(*self as u32)
    }

    fn from_le(bytes: &Vec<u8>) -> (r: i32) {
        proof {
            lemma_auto_spec_u32_to_from_le_bytes();
        }
        let w = u32_from_le_bytes(bytes.as_slice());
        let r = w as i32;
        assert(r as u32 == w) by (bit_vector)
            requires
                r == w as i32,
        ;
        r
    }
}

impl Plain for u64 {
    open spec fn size() -> nat {
        8
    }

    open spec fn le_bytes(v: u64) -> Seq<u8> {
        spec_u64_to_le_bytes(v)
    }

    proof fn lemma_bytes_len(v: u64) {
        lemma_auto_spec_u64_to_from_le_bytes();
    }

    fn byte_count() -> (r: u32) {
        8
    }

    fn to_le(&self) -> (r: Vec<u8>) {
        u64_to_le_bytes(*self)
    }

    fn from_le(bytes: &Vec<u8>) -> (r: u64) {
        proof {
            lemma_auto_spec_u64_to_from_le_bytes();
        }
        u64_from_le_bytes(bytes.as_slice())
    }
}

/// A signed double word has the bits of the unsigned one it is cast to.
impl Plain for i64 {
    open spec fn size() -> nat {
        8
    }

    open spec fn le_bytes(v: i64) -> Seq<u8> {
        spec_u64_to_le_bytes(v as u64)
    }

    proof fn lemma_bytes_len(v: i64) {
        lemma_auto_spec_u64_to_from_le_bytes();
    }

    fn byte_count() -> (r: u32) {
        8
    }

    fn to_le(&self) -> (r: Vec<u8>) {
        u64_to_le_bytes(*self as u64)
    }

    fn from_le(bytes: &Vec<u8>) -> (r: i64) {
        proof {
            lemma_auto_spec_u64_to_from_le_bytes();
        }
        let w = u64_from_le_bytes(bytes.as_slice());
        let r = w as i64;
        assert(r as u64 == w) by (bit_vector)
            requires
                r == w as i64,
        ;
        r
    }
}

} // verus!
