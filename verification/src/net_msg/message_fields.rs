//! Wire encodings of the primitive fields that message bodies are built
//! from: fixed-width integers and booleans, and length-prefixed byte fields.

use vstd::prelude::*;

use crate::ConnectionId;
use crate::wire::{
    spec_lp_bytes, spec_lp_end, spec_lp_field, spec_u16_from_be_bytes, spec_u16_to_be_bytes,
    spec_u32_from_be_bytes, spec_u32_to_be_bytes, lemma_u16_be_bytes, lemma_u32_be_bytes, put_u16,
    put_u32, get_u16, get_u32, put_lp, get_lp,
};

verus! {

/// A field with a fixed wire width known from its type alone.
pub trait ConstNetSerializable: Sized {
    /// The bytes this value puts on the wire.
    spec fn spec_bytes(&self) -> Seq<u8>;

    /// The wire width shared by every value of the type.
    spec fn spec_width() -> nat;

    /// The value denoted by a full-width byte sequence.
    spec fn spec_decode(b: Seq<u8>) -> Self;

    /// Every value's encoding has the fixed width and decodes to the value.
    proof fn lemma_round_trip(&self)
        ensures
            self.spec_bytes().len() == Self::spec_width(),
            Self::spec_decode(self.spec_bytes()) == *self,
    ;

    fn content_len() -> (r: u32)
        ensures
            r == Self::spec_width(),
    ;

    fn serialize(&self, msg_buf: &mut Vec<u8>)
        ensures
            final(msg_buf)@ == old(msg_buf)@ + self.spec_bytes(),
    ;

    fn parse(buf: &[u8], pos: usize) -> (r: Self)
        requires
            pos + Self::spec_width() <= buf@.len(),
        ensures
            r == Self::spec_decode(buf@.subrange(pos as int, pos + Self::spec_width())),
    ;
}

/// A field whose wire form is a two-byte big-endian byte count followed by
/// that many payload bytes; decoding clamps the declared count to the bytes
/// actually available.
pub trait NetSerializable: Sized + View<V = Seq<u8>> {
    fn content_len(&self) -> (r: u32)
        requires
            self@.len() <= 0xffff,
        ensures
            r == 2 + self@.len(),
    ;

    fn serialize(&self, msg_buf: &mut Vec<u8>)
        requires
            self@.len() <= 0xffff,
        ensures
            final(msg_buf)@ == old(msg_buf)@ + spec_lp_bytes(self@),
    ;

    fn parse(buf: &[u8], pos: usize) -> (r: (Self, usize))
        requires
            pos + 2 <= buf@.len(),
        ensures
            r.0@ == spec_lp_field(buf@, pos as int),
            r.1 == spec_lp_end(buf@, pos as int),
            pos + 2 <= r.1 <= buf@.len(),
    ;
}

impl ConstNetSerializable for u8 {
    open spec fn spec_bytes(&self) -> Seq<u8> {
        seq![*self]
    }

    open spec fn spec_width() -> nat {
        1
    }

    open spec fn spec_decode(b: Seq<u8>) -> u8 {
        b[0]
    }

    proof fn lemma_round_trip(&self) {
    }

    fn content_len() -> u32 {
        1
    }

    fn serialize(&self, msg_buf: &mut Vec<u8>) {
        msg_buf.push(*self);
        assert(msg_buf@ =~= old(msg_buf)@ + self.spec_bytes());
    }

    fn parse(buf: &[u8], pos: usize) -> (r: u8) {
        let r = buf[pos];
        proof {
            assert(buf@.subrange(pos as int, pos + 1)[0] == r);
        }
        r
    }
}

impl ConstNetSerializable for bool {
    open spec fn spec_bytes(&self) -> Seq<u8> {
        seq![if *self { 1u8 } else { 0u8 }]
    }

    open spec fn spec_width() -> nat {
        1
    }

    open spec fn spec_decode(b: Seq<u8>) -> bool {
        b[0] != 0
    }

    proof fn lemma_round_trip(&self) {
    }

    fn content_len() -> u32 {
        1
    }

    fn serialize(&self, msg_buf: &mut Vec<u8>) {
        let data: u8 = if *self {
            1
        } else {
            0
        };
        msg_buf.push(data);
        assert(msg_buf@ =~= old(msg_buf)@ + self.spec_bytes());
    }

    fn parse(buf: &[u8], pos: usize) -> (r: bool) {
        let b = buf[pos];
        proof {
            assert(buf@.subrange(pos as int, pos + 1)[0] == b);
        }
        if b == 0 {
            false
        } else {
            true
        }
    }
}

impl ConstNetSerializable for u16 {
    open spec fn spec_bytes(&self) -> Seq<u8> {
        spec_u16_to_be_bytes(*self)
    }

    open spec fn spec_width() -> nat {
        2
    }

    open spec fn spec_decode(b: Seq<u8>) -> u16 {
        spec_u16_from_be_bytes(b)
    }

    proof fn lemma_round_trip(&self) {
        lemma_u16_be_bytes(*self);
    }

    fn content_len() -> u32 {
        2
    }

    fn serialize(&self, msg_buf: &mut Vec<u8>) {
        put_u16(msg_buf, *self);
    }

    fn parse(buf: &[u8], pos: usize) -> (r: u16) {
        get_u16(buf, pos)
    }
}

impl ConstNetSerializable for u32 {
    open spec fn spec_bytes(&self) -> Seq<u8> {
        spec_u32_to_be_bytes(*self)
    }

    open spec fn spec_width() -> nat {
        4
    }

    open spec fn spec_decode(b: Seq<u8>) -> u32 {
        spec_u32_from_be_bytes(b)
    }

    proof fn lemma_round_trip(&self) {
        lemma_u32_be_bytes(*self);
    }

    fn content_len() -> u32 {
        4
    }

    fn serialize(&self, msg_buf: &mut Vec<u8>) {
        put_u32(msg_buf, *self);
    }

    fn parse(buf: &[u8], pos: usize) -> (r: u32) {
        get_u32(buf, pos)
    }
}

impl NetSerializable for Vec<u8> {
    fn content_len(&self) -> u32 {
        2 + self.len() as u32
    }

    fn serialize(&self, msg_buf: &mut Vec<u8>) {
        put_lp(msg_buf, self.as_slice());
    }

    fn parse(buf: &[u8], pos: usize) -> (r: (Vec<u8>, usize)) {
        get_lp(buf, pos)
    }
}

impl NetSerializable for ConnectionId {
    fn content_len(&self) -> u32 {
        2 + self.0.len() as u32
    }

    fn serialize(&self, msg_buf: &mut Vec<u8>) {
        put_lp(msg_buf, self.0.as_slice());
    }

    fn parse(buf: &[u8], pos: usize) -> (r: (ConnectionId, usize)) {
        let (field, end) = get_lp(buf, pos);
        (ConnectionId(field), end)
    }
}

} // verus!
