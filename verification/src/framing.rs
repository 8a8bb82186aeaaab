//! The framing discipline, mathematically: byte-stuffing of payloads, the
//! shape of a complete frame, fixed-width field padding, and the
//! capacity-capped buffer append that decoders use.

use vstd::prelude::*;

use crate::wire::{BUFFER_CAPACITY, ESCAPE_CHAR};

verus! {

/// A payload as it travels on the wire: every literal escape byte is doubled,
/// every other byte passes through unchanged.
pub open spec fn escaped(s: Seq<u8>) -> Seq<u8>
    decreases s.len(),
{
    if s.len() == 0 {
        Seq::<u8>::empty()
    } else if s[0] == ESCAPE_CHAR {
        seq![ESCAPE_CHAR, ESCAPE_CHAR] + escaped(s.skip(1))
    } else {
        seq![s[0]] + escaped(s.skip(1))
    }
}

/// One complete frame: the stuffed payload, then the escape marker and the
/// opcode that terminate it.
pub open spec fn frame(payload: Seq<u8>, opcode: u8) -> Seq<u8> {
    escaped(payload) + seq![ESCAPE_CHAR, opcode]
}

/// A fixed-width field: the first `width` bytes of `data`, padded with `fill`
/// when `data` is shorter than the field.
pub open spec fn pad_to(data: Seq<u8>, width: nat, fill: u8) -> Seq<u8> {
    Seq::new(width, |i: int| if i < data.len() { data[i] } else { fill })
}

/// What a decoder's buffer holds after one more payload byte arrives: the
/// byte is appended unless the buffer is full, in which case it is dropped.
pub open spec fn cap_push(buf: Seq<u8>, ch: u8) -> Seq<u8> {
    if buf.len() < BUFFER_CAPACITY {
        buf.push(ch)
    } else {
        buf
    }
}

/// Byte-stuffing distributes over concatenation.
pub proof fn lemma_escaped_append(a: Seq<u8>, b: Seq<u8>)
    ensures
        escaped(a + b) == escaped(a) + escaped(b),
    decreases a.len(),
{
    if a.len() == 0 {
        assert(a + b =~= b);
        assert(escaped(a) + escaped(b) =~= escaped(b));
    } else {
        lemma_escaped_append(a.skip(1), b);
        assert((a + b).skip(1) =~= a.skip(1) + b);
        assert(escaped(a + b) =~= escaped(a) + escaped(b));
    }
}

} // verus!
