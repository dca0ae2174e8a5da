//! Four-character codes, points and rectangles.

use vstd::prelude::*;

use crate::bytes::{
    i16_at, i16_bytes, lemma_i16_bytes_at, lemma_i16_round_trip, put_i16, ByteCursor,
    DecodeError,
};

verus! {

/// A four-byte type or creator code, compared byte for byte.
#[derive(Clone, Copy, Debug, Eq)]
pub struct OSType(pub [u8; 4]);

/// A point in window coordinates, vertical first.
#[derive(Clone, Copy, Debug, PartialEq, Eq, Structural)]
pub struct Point {
    pub v: i16,
    pub h: i16,
}

/// A rectangle given by its edges, in the order top, left, bottom, right.
#[derive(Clone, Copy, Debug, PartialEq, Eq, Structural)]
pub struct Rect {
    pub top: i16,
    pub left: i16,
    pub bottom: i16,
    pub right: i16,
}

impl OSType {
    /// The code is the first four bytes of `s`.
    pub open spec fn decoded_from(self, s: Seq<u8>) -> bool {
        self.0@ == s.subrange(0, 4)
    }

    /// The four bytes of the code.
    pub open spec fn encoding(self) -> Seq<u8> {
        self.0@
    }
}

impl PartialEq for OSType {
    fn eq(&self, other: &OSType) -> (r: bool) {
        let r = self.0[0] == other.0[0] && self.0[1] == other.0[1] && self.0[2] == other.0[2]
            && self.0[3] == other.0[3];
        proof {
            if r {
                assert(self.0@ =~= other.0@);
            }
        }
        r
    }
}

impl vstd::std_specs::cmp::PartialEqSpecImpl for OSType {
    open spec fn obeys_eq_spec() -> bool {
        true
    }

    open spec fn eq_spec(&self, other: &OSType) -> bool {
        self.0@ == other.0@
    }
}

impl Default for OSType {
    /// Four zero bytes.
    fn default() -> (r: OSType)
        ensures
            r.0@ == seq![0u8, 0u8, 0u8, 0u8],
    {
        let r = OSType([0u8; 4]);
        assert(r.0@ =~= seq![0u8, 0u8, 0u8, 0u8]);
        r
    }
}

impl Point {
    /// `v` and `h` are the big-endian words at offsets 0 and 2 of `s`.
    pub open spec fn decoded_from(self, s: Seq<u8>) -> bool {
        self.v == i16_at(s, 0) && self.h == i16_at(s, 2)
    }

    /// The four bytes of the point: `v`, then `h`.
    pub open spec fn encoding(self) -> Seq<u8> {
        i16_bytes(self.v) + i16_bytes(self.h)
    }

    /// Decodes a point from the next four bytes; fails, reading nothing, when
    /// fewer are left.
    pub fn read(r: &mut ByteCursor) -> (res: Result<Point, DecodeError>)
        ensures
            match res {
                Ok(p) => old(r).spec_remaining() >= 4 && p.decoded_from(old(r).rest())
                    && old(r).advanced(*final(r), 4),
                Err(e) => old(r).spec_remaining() < 4 && e == DecodeError::TruncatedInput
                    && *final(r) == *old(r),
            },
    {
        if r.remaining() < 4 {
            return Err(DecodeError::TruncatedInput);
        }
        let v = r.take_i16();
        let h = r.take_i16();
        Ok(Point { v, h })
    }

    /// Appends the four bytes of the point.
    pub fn write(&self, out: &mut Vec<u8>)
        ensures
            final(out)@ == old(out)@ + self.encoding(),
    {
        put_i16(out, self.v);
        put_i16(out, self.h);
        assert(final(out)@ =~= old(out)@ + self.encoding());
    }
}

impl Default for Point {
    /// The origin.
    fn default() -> (r: Point)
        ensures
            r.v == 0 && r.h == 0,
    {
        Point { v: 0, h: 0 }
    }
}

impl Rect {
    /// The edges are the big-endian words at offsets 0, 2, 4 and 6 of `s`.
    pub open spec fn decoded_from(self, s: Seq<u8>) -> bool {
        self.top == i16_at(s, 0) && self.left == i16_at(s, 2) && self.bottom == i16_at(s, 4)
            && self.right == i16_at(s, 6)
    }

    /// The eight bytes of the rectangle: top, left, bottom, right.
    pub open spec fn encoding(self) -> Seq<u8> {
        i16_bytes(self.top) + i16_bytes(self.left) + i16_bytes(self.bottom) + i16_bytes(
            self.right,
        )
    }

    /// Decodes a rectangle from the next eight bytes; fails, reading nothing,
    /// when fewer are left.
    pub fn read(r: &mut ByteCursor) -> (res: Result<Rect, DecodeError>)
        ensures
            match res {
                Ok(x) => old(r).spec_remaining() >= 8 && x.decoded_from(old(r).rest())
                    && old(r).advanced(*final(r), 8),
                Err(e) => old(r).spec_remaining() < 8 && e == DecodeError::TruncatedInput
                    && *final(r) == *old(r),
            },
    {
        if r.remaining() < 8 {
            return Err(DecodeError::TruncatedInput);
        }
        let top = r.take_i16();
        let left = r.take_i16();
        let bottom = r.take_i16();
        let right = r.take_i16();
        Ok(Rect { top, left, bottom, right })
    }

    /// Appends the eight bytes of the rectangle.
    pub fn write(&self, out: &mut Vec<u8>)
        ensures
            final(out)@ == old(out)@ + self.encoding(),
    {
        put_i16(out, self.top);
        put_i16(out, self.left);
        put_i16(out, self.bottom);
        put_i16(out, self.right);
        assert(final(out)@ =~= old(out)@ + self.encoding());
    }
}

impl Default for Rect {
    /// The empty rectangle at the origin.
    fn default() -> (r: Rect)
        ensures
            r.top == 0 && r.left == 0 && r.bottom == 0 && r.right == 0,
    {
        Rect { top: 0, left: 0, bottom: 0, right: 0 }
    }
}

/// A point decodes from its own bytes, and a point decoded from four bytes
/// encodes to them.
pub proof fn lemma_point_round_trip(p: Point, s: Seq<u8>)
    ensures
        p.decoded_from(p.encoding()),
        s.len() == 4 && p.decoded_from(s) ==> p.encoding() == s,
{
    let e = p.encoding();
    lemma_i16_round_trip(p.v);
    lemma_i16_round_trip(p.h);
    assert(i16_at(e, 0) == i16_at(i16_bytes(p.v), 0));
    assert(i16_at(e, 2) == i16_at(i16_bytes(p.h), 0));
    if s.len() == 4 && p.decoded_from(s) {
        lemma_i16_bytes_at(s, 0);
        lemma_i16_bytes_at(s, 2);
        assert(s =~= s.subrange(0, 2) + s.subrange(2, 4));
    }
}

/// A rectangle decodes from its own bytes, and a rectangle decoded from eight
/// bytes encodes to them.
pub proof fn lemma_rect_round_trip(x: Rect, s: Seq<u8>)
    ensures
        x.decoded_from(x.encoding()),
        s.len() == 8 && x.decoded_from(s) ==> x.encoding() == s,
{
    let e = x.encoding();
    lemma_i16_round_trip(x.top);
    lemma_i16_round_trip(x.left);
    lemma_i16_round_trip(x.bottom);
    lemma_i16_round_trip(x.right);
    assert(i16_at(e, 0) == i16_at(i16_bytes(x.top), 0));
    assert(i16_at(e, 2) == i16_at(i16_bytes(x.left), 0));
    assert(i16_at(e, 4) == i16_at(i16_bytes(x.bottom), 0));
    assert(i16_at(e, 6) == i16_at(i16_bytes(x.right), 0));
    if s.len() == 8 && x.decoded_from(s) {
        lemma_i16_bytes_at(s, 0);
        lemma_i16_bytes_at(s, 2);
        lemma_i16_bytes_at(s, 4);
        lemma_i16_bytes_at(s, 6);
        assert(s =~= s.subrange(0, 2) + s.subrange(2, 4) + s.subrange(4, 6) + s.subrange(6, 8));
    }
}

} // verus!
