//! Big-endian primitives and the byte cursor that decoding reads from.

use byteorder::{BigEndian, ByteOrder};
use vstd::prelude::*;
use vstd::slice::slice_subrange;

verus! {

/// The unsigned 16-bit word stored big-endian at offset `i` of `s`.
pub open spec fn u16_at(s: Seq<u8>, i: int) -> u16 {
    (s[i] as int * 0x100 + s[i + 1] as int) as u16
}

/// The signed 16-bit word stored big-endian (two's complement) at offset `i` of `s`.
pub open spec fn i16_at(s: Seq<u8>, i: int) -> i16 {
    u16_at(s, i) as i16
}

/// The unsigned 32-bit word stored big-endian at offset `i` of `s`.
pub open spec fn u32_at(s: Seq<u8>, i: int) -> u32 {
    (s[i] as int * 0x100_0000 + s[i + 1] as int * 0x1_0000 + s[i + 2] as int * 0x100
        + s[i + 3] as int) as u32
}

/// The signed 32-bit word stored big-endian (two's complement) at offset `i` of `s`.
pub open spec fn i32_at(s: Seq<u8>, i: int) -> i32 {
    u32_at(s, i) as i32
}

/// `n` zero bytes.
pub open spec fn zeros(n: nat) -> Seq<u8> {
    Seq::new(n, |i: int| 0u8)
}

/// The two big-endian bytes of `n`.
pub open spec fn u16_bytes(n: u16) -> Seq<u8> {
    seq![(n / 0x100) as u8, (n % 0x100) as u8]
}

/// The two big-endian bytes of `n` in two's complement.
pub open spec fn i16_bytes(n: i16) -> Seq<u8> {
    u16_bytes(n as u16)
}

/// The four big-endian bytes of `n`.
pub open spec fn u32_bytes(n: u32) -> Seq<u8> {
    seq![
        (n / 0x100_0000) as u8,
        (n / 0x1_0000 % 0x100) as u8,
        (n / 0x100 % 0x100) as u8,
        (n % 0x100) as u8,
    ]
}

/// The four big-endian bytes of `n` in two's complement.
pub open spec fn i32_bytes(n: i32) -> Seq<u8> {
    u32_bytes(n as u32)
}

proof fn lemma_u16_split(n: u16)
    ensures
        ((n / 0x100) as u8) as int * 0x100 + ((n % 0x100) as u8) as int == n,
{
    assert(((n / 0x100) as u8) as u16 * 0x100 + ((n % 0x100) as u8) as u16 == n) by (bit_vector);
}

proof fn lemma_u16_join(b0: u8, b1: u8)
    ensures
        ((b0 as int * 0x100 + b1 as int) as u16 / 0x100) as u8 == b0,
        ((b0 as int * 0x100 + b1 as int) as u16 % 0x100) as u8 == b1,
{
    assert(((b0 as u16 * 0x100 + b1 as u16) / 0x100) as u8 == b0) by (bit_vector);
    assert(((b0 as u16 * 0x100 + b1 as u16) % 0x100) as u8 == b1) by (bit_vector);
    assert(b0 as int * 0x100 + b1 as int == b0 as u16 * 0x100 + b1 as u16);
}

/// Reading back the bytes of a 16-bit word gives the word.
pub proof fn lemma_u16_round_trip(n: u16)
    ensures
        u16_at(u16_bytes(n), 0) == n,
{
    lemma_u16_split(n);
}

/// Writing out the 16-bit word read at `i` gives the bytes it was read from.
pub proof fn lemma_u16_bytes_at(s: Seq<u8>, i: int)
    requires
        0 <= i,
        i + 2 <= s.len(),
    ensures
        u16_bytes(u16_at(s, i)) == s.subrange(i, i + 2),
{
    lemma_u16_join(s[i], s[i + 1]);
    assert(u16_bytes(u16_at(s, i)) =~= s.subrange(i, i + 2));
}

proof fn lemma_u32_split(n: u32)
    ensures
        ((n / 0x100_0000) as u8) as int * 0x100_0000 + ((n / 0x1_0000 % 0x100) as u8) as int
            * 0x1_0000 + ((n / 0x100 % 0x100) as u8) as int * 0x100 + ((n % 0x100) as u8) as int
            == n,
{
    assert(((n / 0x100_0000) as u8) as u32 * 0x100_0000 + ((n / 0x1_0000 % 0x100) as u8) as u32
        * 0x1_0000 + ((n / 0x100 % 0x100) as u8) as u32 * 0x100 + ((n % 0x100) as u8) as u32
        == n) by (bit_vector);
}

proof fn lemma_u32_join(b0: u8, b1: u8, b2: u8, b3: u8)
    ensures
        ({
            let n = (b0 as int * 0x100_0000 + b1 as int * 0x1_0000 + b2 as int * 0x100
                + b3 as int) as u32;
            &&& (n / 0x100_0000) as u8 == b0
            &&& (n / 0x1_0000 % 0x100) as u8 == b1
            &&& (n / 0x100 % 0x100) as u8 == b2
            &&& (n % 0x100) as u8 == b3
        }),
{
    assert((b0 as u32 * 0x100_0000 + b1 as u32 * 0x1_0000 + b2 as u32 * 0x100 + b3 as u32)
        < 0x1_0000_0000) by (bit_vector);
    assert({
        let n = (b0 as u32 * 0x100_0000 + b1 as u32 * 0x1_0000 + b2 as u32 * 0x100 + b3 as u32);
        &&& (n / 0x100_0000) as u8 == b0
        &&& (n / 0x1_0000 % 0x100) as u8 == b1
        &&& (n / 0x100 % 0x100) as u8 == b2
        &&& (n % 0x100) as u8 == b3
    }) by (bit_vector);
}

/// Reading back the bytes of a 32-bit word gives the word.
pub proof fn lemma_u32_round_trip(n: u32)
    ensures
        u32_at(u32_bytes(n), 0) == n,
{
    lemma_u32_split(n);
}

/// Writing out the 32-bit word read at `i` gives the bytes it was read from.
pub proof fn lemma_u32_bytes_at(s: Seq<u8>, i: int)
    requires
        0 <= i,
        i + 4 <= s.len(),
    ensures
        u32_bytes(u32_at(s, i)) == s.subrange(i, i + 4),
{
    lemma_u32_join(s[i], s[i + 1], s[i + 2], s[i + 3]);
    assert(u32_bytes(u32_at(s, i)) =~= s.subrange(i, i + 4));
}

/// Reading back the bytes of a signed 16-bit word gives the word.
pub proof fn lemma_i16_round_trip(n: i16)
    ensures
        i16_at(i16_bytes(n), 0) == n,
{
    lemma_u16_round_trip(n as u16);
    assert(((n as u16) as i16) == n) by (bit_vector);
}

/// Writing out the signed 16-bit word read at `i` gives the bytes it was read from.
pub proof fn lemma_i16_bytes_at(s: Seq<u8>, i: int)
    requires
        0 <= i,
        i + 2 <= s.len(),
    ensures
        i16_bytes(i16_at(s, i)) == s.subrange(i, i + 2),
{
    let u = u16_at(s, i);
    assert(((u as i16) as u16) == u) by (bit_vector);
    lemma_u16_bytes_at(s, i);
}

/// Reading back the bytes of a signed 32-bit word gives the word.
pub proof fn lemma_i32_round_trip(n: i32)
    ensures
        i32_at(i32_bytes(n), 0) == n,
{
    lemma_u32_round_trip(n as u32);
    assert(((n as u32) as i32) == n) by (bit_vector);
}

/// Writing out the signed 32-bit word read at `i` gives the bytes it was read from.
pub proof fn lemma_i32_bytes_at(s: Seq<u8>, i: int)
    requires
        0 <= i,
        i + 4 <= s.len(),
    ensures
        i32_bytes(i32_at(s, i)) == s.subrange(i, i + 4),
{
    let u = u32_at(s, i);
    assert(((u as i32) as u32) == u) by (bit_vector);
    lemma_u32_bytes_at(s, i);
}

/// Relies on byteorder's `BigEndian::read_u16`: the first two bytes of `b`,
/// most significant first (it panics on fewer than two).
#[verifier::external_body]
fn read_be_u16(b: &[u8]) -> (r: u16)
    requires
        b@.len() >= 2,
    ensures
        r == u16_at(b@, 0),
{
    BigEndian::read_u16(b)
}

/// Relies on byteorder's `BigEndian::read_i16`: the first two bytes of `b`,
/// most significant first, as two's complement (it panics on fewer than two).
#[verifier::external_body]
fn read_be_i16(b: &[u8]) -> (r: i16)
    requires
        b@.len() >= 2,
    ensures
        r == i16_at(b@, 0),
{
    BigEndian::read_i16(b)
}

/// Relies on byteorder's `BigEndian::read_i32`: the first four bytes of `b`,
/// most significant first, as two's complement (it panics on fewer than four).
#[verifier::external_body]
fn read_be_i32(b: &[u8]) -> (r: i32)
    requires
        b@.len() >= 4,
    ensures
        r == i32_at(b@, 0),
{
    BigEndian::read_i32(b)
}

/// Relies on byteorder's `BigEndian::write_u16`: it stores `n` in the first two
/// bytes of the buffer, most significant first.
#[verifier::external_body]
fn be_bytes_u16(n: u16) -> (r: [u8; 2])
    ensures
        r@ == u16_bytes(n),
{
    let mut b = [0u8; 2];
    BigEndian::write_u16(&mut b, n);
    b
}

/// Relies on byteorder's `BigEndian::write_i16`: it stores `n` in the first two
/// bytes of the buffer, most significant first, as two's complement.
#[verifier::external_body]
fn be_bytes_i16(n: i16) -> (r: [u8; 2])
    ensures
        r@ == i16_bytes(n),
{
    let mut b = [0u8; 2];
    BigEndian::write_i16(&mut b, n);
    b
}

/// Relies on byteorder's `BigEndian::write_i32`: it stores `n` in the first four
/// bytes of the buffer, most significant first, as two's complement.
#[verifier::external_body]
fn be_bytes_i32(n: i32) -> (r: [u8; 4])
    ensures
        r@ == i32_bytes(n),
{
    let mut b = [0u8; 4];
    BigEndian::write_i32(&mut b, n);
    b
}

/// Why a record could not be decoded.
#[derive(Clone, Copy, Debug, PartialEq, Eq, Structural)]
pub enum DecodeError {
    /// Fewer bytes were left than the value needs.
    TruncatedInput,
}

/// A byte buffer with a read position, from which values are decoded in order.
pub struct ByteCursor {
    bytes: Vec<u8>,
    pos: usize,
}

impl ByteCursor {
    /// All bytes of the buffer, read or not.
    pub closed spec fn bytes(&self) -> Seq<u8> {
        self.bytes@
    }

    /// The offset of the next byte to read.
    pub closed spec fn pos(&self) -> int {
        self.pos as int
    }

    /// The bytes not read yet.
    pub open spec fn rest(&self) -> Seq<u8> {
        if 0 <= self.pos() <= self.bytes().len() {
            self.bytes().subrange(self.pos(), self.bytes().len() as int)
        } else {
            Seq::empty()
        }
    }

    /// `after` holds the same bytes as `self`, with the position `n` further on.
    pub open spec fn advanced(&self, after: ByteCursor, n: int) -> bool {
        after.bytes() == self.bytes() && after.pos() == self.pos() + n
    }

    /// How many bytes are left to read.
    pub open spec fn spec_remaining(&self) -> int {
        self.rest().len() as int
    }

    /// A cursor at the start of `bytes`.
    pub fn new(bytes: Vec<u8>) -> (r: ByteCursor)
        ensures
            r.bytes() == bytes@,
            r.pos() == 0,
    {
        ByteCursor { bytes, pos: 0 }
    }

    /// The offset of the next byte to read.
    pub fn position(&self) -> (r: usize)
        ensures
            r as int == self.pos(),
    {
        self.pos
    }

    /// How many bytes are left to read.
    pub fn remaining(&self) -> (r: usize)
        ensures
            r as int == self.spec_remaining(),
    {
        if self.pos <= self.bytes.len() {
            self.bytes.len() - self.pos
        } else {
            0
        }
    }

    /// The whole buffer, read or not.
    pub fn into_inner(self) -> (r: Vec<u8>)
        ensures
            r@ == self.bytes(),
    {
        self.bytes
    }

    /// Reads a big-endian `u16`; the caller has checked that two bytes are left.
    pub(crate) fn take_u16(&mut self) -> (r: u16)
        requires
            old(self).spec_remaining() >= 2,
        ensures
            r == u16_at(old(self).rest(), 0),
            final(self).bytes() == old(self).bytes(),
            final(self).pos() == old(self).pos() + 2,
    {
        // The buffer's length bounds the offsets computed below.
        let len: usize = self.bytes.len();
        assert(self.pos <= len);
        let r = read_be_u16(slice_subrange(self.bytes.as_slice(), self.pos, self.pos + 2));
        self.pos = self.pos + 2;
        r
    }

    /// Reads a big-endian `i16`; the caller has checked that two bytes are left.
    pub(crate) fn take_i16(&mut self) -> (r: i16)
        requires
            old(self).spec_remaining() >= 2,
        ensures
            r == i16_at(old(self).rest(), 0),
            final(self).bytes() == old(self).bytes(),
            final(self).pos() == old(self).pos() + 2,
    {
        // The buffer's length bounds the offsets computed below.
        let len: usize = self.bytes.len();
        assert(self.pos <= len);
        let r = read_be_i16(slice_subrange(self.bytes.as_slice(), self.pos, self.pos + 2));
        self.pos = self.pos + 2;
        r
    }

    /// Reads a big-endian `i32`; the caller has checked that four bytes are left.
    pub(crate) fn take_i32(&mut self) -> (r: i32)
        requires
            old(self).spec_remaining() >= 4,
        ensures
            r == i32_at(old(self).rest(), 0),
            final(self).bytes() == old(self).bytes(),
            final(self).pos() == old(self).pos() + 4,
    {
        // The buffer's length bounds the offsets computed below.
        let len: usize = self.bytes.len();
        assert(self.pos <= len);
        let r = read_be_i32(slice_subrange(self.bytes.as_slice(), self.pos, self.pos + 4));
        self.pos = self.pos + 4;
        r
    }

    /// Reads four raw bytes; the caller has checked that they are left.
    pub(crate) fn take_tag(&mut self) -> (r: [u8; 4])
        requires
            old(self).spec_remaining() >= 4,
        ensures
            r@ == old(self).rest().subrange(0, 4),
            final(self).bytes() == old(self).bytes(),
            final(self).pos() == old(self).pos() + 4,
    {
        // The buffer's length bounds the offsets computed below.
        let len: usize = self.bytes.len();
        assert(self.pos <= len);
        let p = self.pos;
        let r = [self.bytes[p], self.bytes[p + 1], self.bytes[p + 2], self.bytes[p + 3]];
        self.pos = p + 4;
        assert(r@ =~= old(self).rest().subrange(0, 4));
        r
    }
}

/// Appends the big-endian bytes of `n` to `out`.
pub(crate) fn put_u16(out: &mut Vec<u8>, n: u16)
    ensures
        final(out)@ == old(out)@ + u16_bytes(n),
{
    let b = be_bytes_u16(n);
    out.push(b[0]);
    out.push(b[1]);
    assert(final(out)@ =~= old(out)@ + u16_bytes(n));
}

/// Appends the big-endian two's complement bytes of `n` to `out`.
pub(crate) fn put_i16(out: &mut Vec<u8>, n: i16)
    ensures
        final(out)@ == old(out)@ + i16_bytes(n),
{
    let b = be_bytes_i16(n);
    out.push(b[0]);
    out.push(b[1]);
    assert(final(out)@ =~= old(out)@ + i16_bytes(n));
}

/// Appends the big-endian two's complement bytes of `n` to `out`.
pub(crate) fn put_i32(out: &mut Vec<u8>, n: i32)
    ensures
        final(out)@ == old(out)@ + i32_bytes(n),
{
    let b = be_bytes_i32(n);
    out.push(b[0]);
    out.push(b[1]);
    out.push(b[2]);
    out.push(b[3]);
    assert(final(out)@ =~= old(out)@ + i32_bytes(n));
}

/// Appends four raw bytes to `out`.
pub(crate) fn put_tag(out: &mut Vec<u8>, t: [u8; 4])
    ensures
        final(out)@ == old(out)@ + t@,
{
    out.push(t[0]);
    out.push(t[1]);
    out.push(t[2]);
    out.push(t[3]);
    assert(final(out)@ =~= old(out)@ + t@);
}

} // verus!
