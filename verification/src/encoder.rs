//! What the two frame encoders share: the byte-stuffing step every content byte
//! passes through, the model of the bytes an encoder has yet to emit, and the
//! proof that one emitted byte pops exactly the head of that model.
//!
//! An encoder walks a value's payload by a count of *content* bytes emitted
//! so far. The stuffing step emits a non-escape byte directly and advances the count;
//! for a payload byte equal to the escape marker it first emits one marker
//! without advancing (noting the debt in `sent_escape`), then on the next
//! tick emits the second marker and advances. Past the payload the encoder
//! emits the frame terminator: a single escape marker, then the opcode, then
//! nothing forevermore.

use vstd::prelude::*;

use crate::framing::{escaped, pad_to};
use crate::ints::{le16_bytes, le32_bytes};
use crate::wire::ESCAPE_CHAR;

verus! {

/// What one byte-stuffing pass does, relating the escape debt
/// before (`se0`) and after (`se1`) to the logical byte, the count advance,
/// and the byte put on the wire.
pub open spec fn stuff_tick(se0: bool, se1: bool, byte: u8, inc: usize, out: Option<u8>) -> bool {
    if byte != ESCAPE_CHAR {
        se1 == false && inc == 1 && out == Some(byte)
    } else if !se0 {
        se1 == true && inc == 0 && out == Some(ESCAPE_CHAR)
    } else {
        se1 == false && inc == 1 && out == Some(ESCAPE_CHAR)
    }
}

/// What one encoder tick does at content position `count` of a frame with
/// payload `p` and opcode `op`: inside the payload it is a stuffing pass on the
/// byte at `count`; at the payload's end it emits the terminating escape
/// marker, then the opcode, then nothing.
pub open spec fn wire_tick(
    p: Seq<u8>,
    op: u8,
    count: int,
    se0: bool,
    se1: bool,
    inc: usize,
    out: Option<u8>,
) -> bool {
    if count < p.len() {
        stuff_tick(se0, se1, p[count], inc, out)
    } else if count == p.len() {
        se1 == se0 && inc == 1 && out == Some(ESCAPE_CHAR)
    } else if count == p.len() + 1 {
        se1 == se0 && inc == 1 && out == Some(op)
    } else {
        se1 == se0 && inc == 0 && out is None
    }
}

/// A well-formed encoder position: the count has not run past the frame, and
/// an escape debt is only ever owed on a payload byte that is itself the
/// escape marker.
pub open spec fn enc_wf_at(p: Seq<u8>, count: int, se: bool) -> bool {
    &&& 0 <= count <= p.len() + 2
    &&& se ==> count < p.len() && p[count] == ESCAPE_CHAR
}

/// The bytes an encoder at position (`count`, `se`) has still to emit: the
/// stuffed rest of the payload and the terminator, less the one marker
/// already emitted when an escape debt is owed.
pub open spec fn remaining_wire(p: Seq<u8>, op: u8, count: int, se: bool) -> Seq<u8> {
    if 0 <= count <= p.len() {
        let rest = escaped(p.skip(count)) + seq![ESCAPE_CHAR, op];
        if se {
            rest.skip(1)
        } else {
            rest
        }
    } else if count == p.len() + 1 {
        seq![op]
    } else {
        Seq::<u8>::empty()
    }
}

/// One well-formed encoder tick emits exactly the head of the remaining wire
/// bytes and leaves exactly their tail, staying well-formed; once nothing
/// remains, nothing is emitted and nothing ever remains.
pub proof fn lemma_wire_step(
    p: Seq<u8>,
    op: u8,
    count: int,
    se0: bool,
    se1: bool,
    inc: usize,
    out: Option<u8>,
)
    requires
        enc_wf_at(p, count, se0),
        wire_tick(p, op, count, se0, se1, inc, out),
    ensures
        enc_wf_at(p, count + inc, se1),
        remaining_wire(p, op, count, se0).len() > 0 ==> out == Some(
            remaining_wire(p, op, count, se0)[0],
        ) && remaining_wire(p, op, count + inc, se1) == remaining_wire(p, op, count, se0).skip(1),
        remaining_wire(p, op, count, se0).len() == 0 ==> out is None && remaining_wire(
            p,
            op,
            count + inc,
            se1,
        ) == Seq::<u8>::empty(),
{
    let term = seq![ESCAPE_CHAR, op];
    if count < p.len() {
        let s = p.skip(count);
        let e_rest = escaped(p.skip(count + 1));
        assert(s[0] == p[count]);
        assert(s.skip(1) =~= p.skip(count + 1));
        let b = p[count];
        if b != ESCAPE_CHAR {
            assert(escaped(s) == seq![b] + e_rest);
            assert((seq![b] + e_rest + term)[0] == b);
            assert((seq![b] + e_rest + term).skip(1) =~= e_rest + term);
        } else if !se0 {
            assert(escaped(s) == seq![ESCAPE_CHAR, ESCAPE_CHAR] + e_rest);
            assert((seq![ESCAPE_CHAR, ESCAPE_CHAR] + e_rest + term)[0] == ESCAPE_CHAR);
        } else {
            let full = seq![ESCAPE_CHAR, ESCAPE_CHAR] + e_rest + term;
            assert(escaped(s) == seq![ESCAPE_CHAR, ESCAPE_CHAR] + e_rest);
            assert(escaped(s) + term =~= full);
            assert(full.skip(1)[0] == ESCAPE_CHAR);
            assert(full.skip(1).skip(1) =~= e_rest + term);
        }
    } else if count == p.len() {
        assert(p.skip(count) =~= Seq::<u8>::empty());
        assert(escaped(p.skip(count)) + term =~= term);
        assert(term[0] == ESCAPE_CHAR);
        assert(term.skip(1) =~= seq![op]);
    } else if count == p.len() + 1 {
        assert(seq![op].skip(1) =~= Seq::<u8>::empty());
    }
}

/// Stuff one logical byte onto the wire: emit it directly, or
/// emit the first of a doubled escape marker without advancing, or settle
/// the owed second marker and advance.
pub(crate) fn send_byte(sent_escape: &mut bool, byte: u8) -> (r: (usize, Option<u8>))
    ensures
        stuff_tick(*old(sent_escape), *final(sent_escape), byte, r.0, r.1),
{
    if byte == ESCAPE_CHAR {
        if *sent_escape {
            *sent_escape = false;
            (1, Some(ESCAPE_CHAR))
        } else {
            *sent_escape = true;
            (0, Some(ESCAPE_CHAR))
        }
    } else {
        *sent_escape = false;
        (1, Some(byte))
    }
}

/// Emit byte `idx` of a 16-bit little-endian field through the stuffing step.
pub(crate) fn render_u16(sent_escape: &mut bool, idx: usize, value: u16) -> (r: (
    usize,
    Option<u8>,
))
    ensures
        idx < 2 ==> stuff_tick(
            *old(sent_escape),
            *final(sent_escape),
            le16_bytes(value)[idx as int],
            r.0,
            r.1,
        ),
        idx >= 2 ==> r == (0usize, None::<u8>) && *final(sent_escape) == *old(sent_escape),
{
    if idx == 0 {
        send_byte(sent_escape, (value % 0x100) as u8)
    } else if idx == 1 {
        send_byte(sent_escape, (value / 0x100) as u8)
    } else {
        (0, None)
    }
}

/// Emit byte `idx` of a 32-bit little-endian field through the stuffing step.
pub(crate) fn render_u32(sent_escape: &mut bool, idx: usize, value: u32) -> (r: (
    usize,
    Option<u8>,
))
    ensures
        idx < 4 ==> stuff_tick(
            *old(sent_escape),
            *final(sent_escape),
            le32_bytes(value)[idx as int],
            r.0,
            r.1,
        ),
        idx >= 4 ==> r == (0usize, None::<u8>) && *final(sent_escape) == *old(sent_escape),
{
    if idx == 0 {
        send_byte(sent_escape, (value % 0x100) as u8)
    } else if idx == 1 {
        send_byte(sent_escape, ((value / 0x100) % 0x100) as u8)
    } else if idx == 2 {
        send_byte(sent_escape, ((value / 0x10000) % 0x100) as u8)
    } else if idx == 3 {
        send_byte(sent_escape, (value / 0x1000000) as u8)
    } else {
        (0, None)
    }
}

/// Emit byte `idx` of a fixed-width buffer field through the stuffing step: the
/// buffer's own bytes first, then `fill` up to the field's width. A buffer
/// longer than the field is cut off at the width.
pub(crate) fn render_field(
    sent_escape: &mut bool,
    idx: usize,
    data: &Vec<u8>,
    width: usize,
    fill: u8,
) -> (r: (usize, Option<u8>))
    ensures
        idx < width ==> stuff_tick(
            *old(sent_escape),
            *final(sent_escape),
            pad_to(data@, width as nat, fill)[idx as int],
            r.0,
            r.1,
        ),
        idx >= width ==> r == (0usize, None::<u8>) && *final(sent_escape) == *old(sent_escape),
{
    if idx < data.len() && idx < width {
        send_byte(sent_escape, data[idx])
    } else if idx < width {
        // Pad short data up to the field width.
        send_byte(sent_escape, fill)
    } else {
        (0, None)
    }
}

} // verus!
