//! The codec's global guarantees, stated once over the abstract decoder
//! transitions and the wire model and proved for every input: round-tripping,
//! escape doubling, page padding, length-mismatch rejection, and buffer
//! boundedness.

use vstd::prelude::*;

use crate::command::{
    attr_value_len, baud_mode_byte, command_opcode, command_payload, command_wf, command_wire,
    BaudMode, CommandView, ATTR_KEY_SIZE, ATTR_VALUE_FIELD, ATTR_VALUE_MAX, EX_PAGE_SIZE,
    INT_PAGE_SIZE,
};
use crate::command_decoder::{command_step, parse_command};
use crate::command_encoder::lemma_command_payload_len;
use crate::decoder::Error;
use crate::framing::{escaped, lemma_escaped_append, pad_to};
use crate::ints::{le16_at, le16_bytes, le32_at, le32_bytes, lemma_le16_round_trip, lemma_le32_round_trip};
use crate::response::{
    response_opcode, response_payload, response_wf, response_wire, ResponseView, ATTR_RSP_SIZE,
};
use crate::response_decoder::{parse_response, response_step};
use crate::wire::{
    BUFFER_CAPACITY, CMD_CHANGE_BAUD, CMD_CRCEF, CMD_CRCIF, CMD_EPAGE, CMD_GATTR, CMD_RRANGE,
    CMD_WPAGE, CMD_WUSER, CMD_XEBLOCK, CMD_XEPAGE, CMD_XRRANGE, CMD_XWPAGE, ESCAPE_CHAR,
    RES_CRCIF, RES_CRCRX, RES_CRCXF, RES_GATTR,
};

verus! {

/// The command decoder's state after eating `bytes` one by one: the escape
/// flag and the buffer, with each byte's outcome discarded.
pub open spec fn command_feed(esc: bool, buf: Seq<u8>, bytes: Seq<u8>) -> (bool, Seq<u8>)
    decreases bytes.len(),
{
    if bytes.len() == 0 {
        (esc, buf)
    } else {
        let s = command_step(esc, buf, bytes[0]);
        command_feed(s.0, s.1, bytes.skip(1))
    }
}

/// Whether the command decoder, eating `bytes` one by one, reports nothing
/// but "more, please" along the way.
pub open spec fn command_feed_pending(esc: bool, buf: Seq<u8>, bytes: Seq<u8>) -> bool
    decreases bytes.len(),
{
    bytes.len() == 0 || {
        let s = command_step(esc, buf, bytes[0]);
        s.2 == Ok::<Option<CommandView>, Error>(None) && command_feed_pending(s.0, s.1, bytes.skip(1))
    }
}

/// The response decoder's state after eating `bytes` one by one.
pub open spec fn response_feed(esc: bool, buf: Seq<u8>, bytes: Seq<u8>) -> (bool, Seq<u8>)
    decreases bytes.len(),
{
    if bytes.len() == 0 {
        (esc, buf)
    } else {
        let s = response_step(esc, buf, bytes[0]);
        response_feed(s.0, s.1, bytes.skip(1))
    }
}

/// Whether the response decoder, eating `bytes` one by one, reports nothing
/// but "more, please" along the way.
pub open spec fn response_feed_pending(esc: bool, buf: Seq<u8>, bytes: Seq<u8>) -> bool
    decreases bytes.len(),
{
    bytes.len() == 0 || {
        let s = response_step(esc, buf, bytes[0]);
        s.2 == Ok::<Option<ResponseView>, Error>(None) && response_feed_pending(
            s.0,
            s.1,
            bytes.skip(1),
        )
    }
}

/// Feeding a concatenation is feeding one part after the other.
proof fn lemma_command_feed_append(esc: bool, buf: Seq<u8>, a: Seq<u8>, b: Seq<u8>)
    ensures
        command_feed(esc, buf, a + b) == command_feed(
            command_feed(esc, buf, a).0,
            command_feed(esc, buf, a).1,
            b,
        ),
        command_feed_pending(esc, buf, a) && command_feed_pending(
            command_feed(esc, buf, a).0,
            command_feed(esc, buf, a).1,
            b,
        ) ==> command_feed_pending(esc, buf, a + b),
    decreases a.len(),
{
    if a.len() == 0 {
        assert(a + b =~= b);
    } else {
        let s = command_step(esc, buf, a[0]);
        lemma_command_feed_append(s.0, s.1, a.skip(1), b);
        assert((a + b)[0] == a[0]);
        assert((a + b).skip(1) =~= a.skip(1) + b);
    }
}

/// Feeding a concatenation is feeding one part after the other.
proof fn lemma_response_feed_append(esc: bool, buf: Seq<u8>, a: Seq<u8>, b: Seq<u8>)
    ensures
        response_feed(esc, buf, a + b) == response_feed(
            response_feed(esc, buf, a).0,
            response_feed(esc, buf, a).1,
            b,
        ),
        response_feed_pending(esc, buf, a) && response_feed_pending(
            response_feed(esc, buf, a).0,
            response_feed(esc, buf, a).1,
            b,
        ) ==> response_feed_pending(esc, buf, a + b),
    decreases a.len(),
{
    if a.len() == 0 {
        assert(a + b =~= b);
    } else {
        let s = response_step(esc, buf, a[0]);
        lemma_response_feed_append(s.0, s.1, a.skip(1), b);
        assert((a + b)[0] == a[0]);
        assert((a + b).skip(1) =~= a.skip(1) + b);
    }
}

/// Feeding a stuffed payload to a loading command decoder buffers exactly the
/// payload, byte by byte, all outcomes pending.
proof fn lemma_command_feed_escaped(buf: Seq<u8>, p: Seq<u8>)
    requires
        buf.len() + p.len() <= BUFFER_CAPACITY,
    ensures
        command_feed(false, buf, escaped(p)) == (false, buf + p),
        command_feed_pending(false, buf, escaped(p)),
    decreases p.len(),
{
    if p.len() == 0 {
        assert(buf + p =~= buf);
    } else if p[0] == ESCAPE_CHAR {
        let w = escaped(p);
        let rest = escaped(p.skip(1));
        assert(w == seq![ESCAPE_CHAR, ESCAPE_CHAR] + rest);
        assert(w[0] == ESCAPE_CHAR);
        assert(w.skip(1)[0] == ESCAPE_CHAR);
        assert(w.skip(1).skip(1) =~= rest);
        assert(command_feed(false, buf, w) == command_feed(true, buf, w.skip(1)));
        assert(command_feed(true, buf, w.skip(1)) == command_feed(
            false,
            buf.push(ESCAPE_CHAR),
            rest,
        ));
        lemma_command_feed_escaped(buf.push(ESCAPE_CHAR), p.skip(1));
        assert(buf.push(ESCAPE_CHAR) + p.skip(1) =~= buf + p);
        assert(command_feed_pending(true, buf, w.skip(1)));
        assert(command_feed_pending(false, buf, w));
    } else {
        let w = escaped(p);
        let rest = escaped(p.skip(1));
        assert(w == seq![p[0]] + rest);
        assert(w[0] == p[0]);
        assert(w.skip(1) =~= rest);
        assert(command_feed(false, buf, w) == command_feed(false, buf.push(p[0]), rest));
        lemma_command_feed_escaped(buf.push(p[0]), p.skip(1));
        assert(buf.push(p[0]) + p.skip(1) =~= buf + p);
        assert(command_feed_pending(false, buf, w));
    }
}

/// Feeding a stuffed payload to a loading response decoder buffers exactly
/// the payload, byte by byte, all outcomes pending.
proof fn lemma_response_feed_escaped(buf: Seq<u8>, p: Seq<u8>)
    requires
        buf.len() + p.len() <= BUFFER_CAPACITY,
    ensures
        response_feed(false, buf, escaped(p)) == (false, buf + p),
        response_feed_pending(false, buf, escaped(p)),
    decreases p.len(),
{
    if p.len() == 0 {
        assert(buf + p =~= buf);
    } else if p[0] == ESCAPE_CHAR {
        let w = escaped(p);
        let rest = escaped(p.skip(1));
        assert(w == seq![ESCAPE_CHAR, ESCAPE_CHAR] + rest);
        assert(w[0] == ESCAPE_CHAR);
        assert(w.skip(1)[0] == ESCAPE_CHAR);
        assert(w.skip(1).skip(1) =~= rest);
        assert(response_feed(false, buf, w) == response_feed(true, buf, w.skip(1)));
        assert(response_feed(true, buf, w.skip(1)) == response_feed(
            false,
            buf.push(ESCAPE_CHAR),
            rest,
        ));
        lemma_response_feed_escaped(buf.push(ESCAPE_CHAR), p.skip(1));
        assert(buf.push(ESCAPE_CHAR) + p.skip(1) =~= buf + p);
        assert(response_feed_pending(true, buf, w.skip(1)));
        assert(response_feed_pending(false, buf, w));
    } else {
        let w = escaped(p);
        let rest = escaped(p.skip(1));
        assert(w == seq![p[0]] + rest);
        assert(w[0] == p[0]);
        assert(w.skip(1) =~= rest);
        assert(response_feed(false, buf, w) == response_feed(false, buf.push(p[0]), rest));
        lemma_response_feed_escaped(buf.push(p[0]), p.skip(1));
        assert(buf.push(p[0]) + p.skip(1) =~= buf + p);
        assert(response_feed_pending(false, buf, w));
    }
}

/// Law: inside a payload, a literal escape byte travels as two consecutive
/// escape markers: the wire image splits around it into the stuffed bytes
/// before it, the doubled marker, and the stuffed bytes after it.
pub proof fn lemma_escape_doubled_on_wire(payload: Seq<u8>, i: int)
    requires
        0 <= i < payload.len(),
        payload[i] == ESCAPE_CHAR,
    ensures
        escaped(payload) == escaped(payload.take(i)) + seq![ESCAPE_CHAR, ESCAPE_CHAR] + escaped(
            payload.skip(i + 1),
        ),
{
    assert(payload.take(i) + payload.skip(i) =~= payload);
    lemma_escaped_append(payload.take(i), payload.skip(i));
    assert(payload.skip(i)[0] == ESCAPE_CHAR);
    assert(payload.skip(i).skip(1) =~= payload.skip(i + 1));
    assert(escaped(payload.take(i)) + (seq![ESCAPE_CHAR, ESCAPE_CHAR] + escaped(
        payload.skip(i + 1),
    )) =~= escaped(payload.take(i)) + seq![ESCAPE_CHAR, ESCAPE_CHAR] + escaped(
        payload.skip(i + 1),
    ));
}

/// Law: two consecutive escape bytes arriving at a loading decoder buffer
/// exactly one literal escape byte and stay pending, on the command side and
/// on the response side alike.
pub proof fn lemma_double_escape_buffers_literal(buf: Seq<u8>)
    requires
        buf.len() < BUFFER_CAPACITY,
    ensures
        ({
            let s1 = command_step(false, buf, ESCAPE_CHAR);
            let s2 = command_step(s1.0, s1.1, ESCAPE_CHAR);
            &&& s1.2 == Ok::<Option<CommandView>, Error>(None)
            &&& s2.2 == Ok::<Option<CommandView>, Error>(None)
            &&& s2.0 == false
            &&& s2.1 == buf.push(ESCAPE_CHAR)
        }),
        ({
            let s1 = response_step(false, buf, ESCAPE_CHAR);
            let s2 = response_step(s1.0, s1.1, ESCAPE_CHAR);
            &&& s1.2 == Ok::<Option<ResponseView>, Error>(None)
            &&& s2.2 == Ok::<Option<ResponseView>, Error>(None)
            &&& s2.0 == false
            &&& s2.1 == buf.push(ESCAPE_CHAR)
        }),
{
}

/// Law: a page write's payload pads short data with `0xFF` up to the page
/// width, and reproduces full-width data byte for byte with no padding.
pub proof fn lemma_write_page_padding(address: u32, data: Seq<u8>)
    ensures
        data.len() <= INT_PAGE_SIZE ==> command_payload(CommandView::WritePage { address, data })
            == le32_bytes(address) + data + Seq::new(
            (INT_PAGE_SIZE - data.len()) as nat,
            |i: int| 0xFFu8,
        ),
        data.len() == INT_PAGE_SIZE ==> command_payload(CommandView::WritePage { address, data })
            == le32_bytes(address) + data,
{
    if data.len() <= INT_PAGE_SIZE {
        assert(pad_to(data, INT_PAGE_SIZE as nat, 0xFF) =~= data + Seq::new(
            (INT_PAGE_SIZE - data.len()) as nat,
            |i: int| 0xFFu8,
        ));
        assert(le32_bytes(address) + (data + Seq::new(
            (INT_PAGE_SIZE - data.len()) as nat,
            |i: int| 0xFFu8,
        )) =~= le32_bytes(address) + data + Seq::new(
            (INT_PAGE_SIZE - data.len()) as nat,
            |i: int| 0xFFu8,
        ));
        if data.len() == INT_PAGE_SIZE {
            assert(pad_to(data, INT_PAGE_SIZE as nat, 0xFF) =~= data);
        }
    }
}

/// The command opcodes that demand an exact payload length, and that length.
pub open spec fn command_fixed_len(op: u8) -> Option<int> {
    if op == CMD_EPAGE {
        Some(4)
    } else if op == CMD_WPAGE {
        Some(4 + INT_PAGE_SIZE as int)
    } else if op == CMD_XEBLOCK {
        Some(4)
    } else if op == CMD_XWPAGE {
        Some(4 + EX_PAGE_SIZE as int)
    } else if op == CMD_RRANGE {
        Some(6)
    } else if op == CMD_XRRANGE {
        Some(6)
    } else if op == CMD_GATTR {
        Some(1)
    } else if op == CMD_CRCIF {
        Some(8)
    } else if op == CMD_CRCEF {
        Some(8)
    } else if op == CMD_XEPAGE {
        Some(4)
    } else if op == CMD_WUSER {
        Some(8)
    } else if op == CMD_CHANGE_BAUD {
        Some(5)
    } else {
        None
    }
}

/// The response opcodes that demand an exact payload length, and that length.
pub open spec fn response_fixed_len(op: u8) -> Option<int> {
    if op == RES_CRCRX {
        Some(6)
    } else if op == RES_GATTR {
        Some(ATTR_RSP_SIZE as int)
    } else if op == RES_CRCIF {
        Some(4)
    } else if op == RES_CRCXF {
        Some(4)
    } else {
        None
    }
}

/// Law: a fixed-length command opcode arriving over a payload of the wrong
/// length is rejected with `BadArguments`, and the buffer comes out empty.
pub proof fn lemma_command_length_mismatch_rejected(buf: Seq<u8>, op: u8)
    requires
        command_fixed_len(op) matches Some(n) && buf.len() != n,
    ensures
        command_step(true, buf, op) == (
            false,
            Seq::<u8>::empty(),
            Err::<Option<CommandView>, Error>(Error::BadArguments),
        ),
{
}

/// Law: a fixed-length response opcode arriving over a payload of the wrong
/// length is rejected with `BadArguments`, and the buffer comes out empty.
pub proof fn lemma_response_length_mismatch_rejected(buf: Seq<u8>, op: u8)
    requires
        response_fixed_len(op) matches Some(n) && buf.len() != n,
    ensures
        response_step(true, buf, op) == (
            false,
            Seq::<u8>::empty(),
            Err::<Option<ResponseView>, Error>(Error::BadArguments),
        ),
{
}

/// Law: however many bytes arrive, a decoder's buffer never outgrows its
/// capacity; excess payload bytes are dropped, not stored.
pub proof fn lemma_command_buffer_bounded(esc: bool, buf: Seq<u8>, bytes: Seq<u8>)
    requires
        buf.len() <= BUFFER_CAPACITY,
    ensures
        command_feed(esc, buf, bytes).1.len() <= BUFFER_CAPACITY,
    decreases bytes.len(),
{
    if bytes.len() > 0 {
        let s = command_step(esc, buf, bytes[0]);
        lemma_command_buffer_bounded(s.0, s.1, bytes.skip(1));
    }
}

/// Law: however many bytes arrive, a response decoder's buffer never
/// outgrows its capacity; excess payload bytes are dropped, not stored.
pub proof fn lemma_response_buffer_bounded(esc: bool, buf: Seq<u8>, bytes: Seq<u8>)
    requires
        buf.len() <= BUFFER_CAPACITY,
    ensures
        response_feed(esc, buf, bytes).1.len() <= BUFFER_CAPACITY,
    decreases bytes.len(),
{
    if bytes.len() > 0 {
        let s = response_step(esc, buf, bytes[0]);
        lemma_response_buffer_bounded(s.0, s.1, bytes.skip(1));
    }
}

/// No opcode is the escape marker, so the terminator's second byte is never
/// mistaken for a doubled escape.
proof fn lemma_command_opcode_not_escape(c: CommandView)
    ensures
        command_opcode(c) != ESCAPE_CHAR,
{
}

/// No opcode is the escape marker, so the terminator's second byte is never
/// mistaken for a doubled escape.
proof fn lemma_response_opcode_not_escape(r: ResponseView)
    ensures
        response_opcode(r) != ESCAPE_CHAR,
{
}

/// A canonically sized response's payload fits a decoder's buffer.
proof fn lemma_response_payload_len(r: ResponseView)
    requires
        response_wf(r),
    ensures
        response_payload(r).len() <= BUFFER_CAPACITY,
{
}

/// Reading a command's own payload back against its own opcode yields the
/// command, for every canonically sized command.
proof fn lemma_parse_command_inverse(c: CommandView)
    requires
        command_wf(c),
    ensures
        parse_command(command_payload(c), command_opcode(c)) == Ok::<Option<CommandView>, Error>(
            Some(c),
        ),
{
    let p = command_payload(c);
    match c {
        CommandView::ErasePage { address } => {
            lemma_le32_round_trip(address);
        },
        CommandView::WritePage { address, data } => {
            lemma_le32_round_trip(address);
            assert(le32_at(p, 0) == address) by {
                assert(p[0] == le32_bytes(address)[0]);
                assert(p[1] == le32_bytes(address)[1]);
                assert(p[2] == le32_bytes(address)[2]);
                assert(p[3] == le32_bytes(address)[3]);
            }
            assert(p.subrange(4, 4 + INT_PAGE_SIZE) =~= data);
        },
        CommandView::EraseExBlock { address } => {
            lemma_le32_round_trip(address);
        },
        CommandView::WriteExPage { address, data } => {
            lemma_le32_round_trip(address);
            assert(le32_at(p, 0) == address) by {
                assert(p[0] == le32_bytes(address)[0]);
                assert(p[1] == le32_bytes(address)[1]);
                assert(p[2] == le32_bytes(address)[2]);
                assert(p[3] == le32_bytes(address)[3]);
            }
            assert(p.subrange(4, 4 + EX_PAGE_SIZE) =~= data);
        },
        CommandView::ReadRange { address, length } => {
            lemma_le32_round_trip(address);
            lemma_le16_round_trip(length);
            assert(le32_at(p, 0) == address) by {
                assert(p[0] == le32_bytes(address)[0]);
                assert(p[1] == le32_bytes(address)[1]);
                assert(p[2] == le32_bytes(address)[2]);
                assert(p[3] == le32_bytes(address)[3]);
            }
            assert(le16_at(p, 4) == length) by {
                assert(p[4] == le16_bytes(length)[0]);
                assert(p[5] == le16_bytes(length)[1]);
            }
        },
        CommandView::ExReadRange { address, length } => {
            lemma_le32_round_trip(address);
            lemma_le16_round_trip(length);
            assert(le32_at(p, 0) == address) by {
                assert(p[0] == le32_bytes(address)[0]);
                assert(p[1] == le32_bytes(address)[1]);
                assert(p[2] == le32_bytes(address)[2]);
                assert(p[3] == le32_bytes(address)[3]);
            }
            assert(le16_at(p, 4) == length) by {
                assert(p[4] == le16_bytes(length)[0]);
                assert(p[5] == le16_bytes(length)[1]);
            }
        },
        CommandView::SetAttr { index, key, value } => {
            assert(p.len() == 2 + ATTR_KEY_SIZE + ATTR_VALUE_FIELD);
            assert(p[0] == index);
            assert(p[9] == attr_value_len(value) as u8);
            assert(p.len() > 10 + p[9]);
            assert(p.subrange(1, 1 + ATTR_KEY_SIZE) =~= key);
            assert(p.subrange(10, 10 + p[9]) =~= value);
        },
        CommandView::CrcIntFlash { address, length } => {
            lemma_le32_round_trip(address);
            lemma_le32_round_trip(length);
            assert(le32_at(p, 0) == address) by {
                assert(p[0] == le32_bytes(address)[0]);
                assert(p[1] == le32_bytes(address)[1]);
                assert(p[2] == le32_bytes(address)[2]);
                assert(p[3] == le32_bytes(address)[3]);
            }
            assert(le32_at(p, 4) == length) by {
                assert(p[4] == le32_bytes(length)[0]);
                assert(p[5] == le32_bytes(length)[1]);
                assert(p[6] == le32_bytes(length)[2]);
                assert(p[7] == le32_bytes(length)[3]);
            }
        },
        CommandView::CrcExFlash { address, length } => {
            lemma_le32_round_trip(address);
            lemma_le32_round_trip(length);
            assert(le32_at(p, 0) == address) by {
                assert(p[0] == le32_bytes(address)[0]);
                assert(p[1] == le32_bytes(address)[1]);
                assert(p[2] == le32_bytes(address)[2]);
                assert(p[3] == le32_bytes(address)[3]);
            }
            assert(le32_at(p, 4) == length) by {
                assert(p[4] == le32_bytes(length)[0]);
                assert(p[5] == le32_bytes(length)[1]);
                assert(p[6] == le32_bytes(length)[2]);
                assert(p[7] == le32_bytes(length)[3]);
            }
        },
        CommandView::EraseExPage { address } => {
            lemma_le32_round_trip(address);
        },
        CommandView::WriteFlashUserPages { page1, page2 } => {
            lemma_le32_round_trip(page1);
            lemma_le32_round_trip(page2);
            assert(le32_at(p, 0) == page1) by {
                assert(p[0] == le32_bytes(page1)[0]);
                assert(p[1] == le32_bytes(page1)[1]);
                assert(p[2] == le32_bytes(page1)[2]);
                assert(p[3] == le32_bytes(page1)[3]);
            }
            assert(le32_at(p, 4) == page2) by {
                assert(p[4] == le32_bytes(page2)[0]);
                assert(p[5] == le32_bytes(page2)[1]);
                assert(p[6] == le32_bytes(page2)[2]);
                assert(p[7] == le32_bytes(page2)[3]);
            }
        },
        CommandView::ChangeBaud { mode, baud } => {
            lemma_le32_round_trip(baud);
            assert(p[0] == baud_mode_byte(mode));
            assert(le32_at(p, 1) == baud) by {
                assert(p[1] == le32_bytes(baud)[0]);
                assert(p[2] == le32_bytes(baud)[1]);
                assert(p[3] == le32_bytes(baud)[2]);
                assert(p[4] == le32_bytes(baud)[3]);
            }
        },
        _ => {},
    }
}

/// Reading a response's own payload back against its own opcode yields the
/// response, for every canonically sized response.
proof fn lemma_parse_response_inverse(r: ResponseView)
    requires
        response_wf(r),
    ensures
        parse_response(response_payload(r), response_opcode(r)) == Ok::<
            Option<ResponseView>,
            Error,
        >(Some(r)),
{
    let p = response_payload(r);
    match r {
        ResponseView::CrcRxBuffer { length, crc } => {
            lemma_le16_round_trip(length);
            lemma_le32_round_trip(crc);
            assert(le16_at(p, 0) == length) by {
                assert(p[0] == le16_bytes(length)[0]);
                assert(p[1] == le16_bytes(length)[1]);
            }
            assert(le32_at(p, 2) == crc) by {
                assert(p[2] == le32_bytes(crc)[0]);
                assert(p[3] == le32_bytes(crc)[1]);
                assert(p[4] == le32_bytes(crc)[2]);
                assert(p[5] == le32_bytes(crc)[3]);
            }
        },
        ResponseView::GetAttr { key, value } => {
            assert(p.len() == ATTR_RSP_SIZE);
            assert(p[ATTR_KEY_SIZE as int] == attr_value_len(value) as u8);
            assert(p.subrange(0, ATTR_KEY_SIZE as int) =~= key);
            assert(p.subrange(9, 9 + p[ATTR_KEY_SIZE as int]) =~= value);
        },
        ResponseView::CrcIntFlash { crc } => {
            lemma_le32_round_trip(crc);
        },
        ResponseView::CrcExFlash { crc } => {
            lemma_le32_round_trip(crc);
        },
        _ => {},
    }
}

/// Law: encoding a canonically sized command and feeding the frame's bytes,
/// in order, to a fresh command decoder is all pending until the opcode
/// byte, which yields exactly the command back and leaves the buffer empty.
pub proof fn lemma_command_round_trip(c: CommandView)
    requires
        command_wf(c),
    ensures
        command_wire(c).len() >= 2,
        ({
            let w = command_wire(c);
            let head = w.take(w.len() - 1);
            let mid = command_feed(false, Seq::<u8>::empty(), head);
            &&& command_feed_pending(false, Seq::<u8>::empty(), head)
            &&& command_step(mid.0, mid.1, w.last()) == (
                false,
                Seq::<u8>::empty(),
                Ok::<Option<CommandView>, Error>(Some(c)),
            )
        }),
{
    let p = command_payload(c);
    let op = command_opcode(c);
    let w = command_wire(c);
    let empty = Seq::<u8>::empty();
    lemma_command_payload_len(c);
    lemma_command_opcode_not_escape(c);
    lemma_parse_command_inverse(c);
    let head = w.take(w.len() - 1);
    assert(head =~= escaped(p) + seq![ESCAPE_CHAR]);
    assert(w.last() == op);
    lemma_command_feed_escaped(empty, p);
    assert(empty + p =~= p);
    lemma_command_feed_append(false, empty, escaped(p), seq![ESCAPE_CHAR]);
    assert(seq![ESCAPE_CHAR].skip(1) =~= empty);
    assert(command_feed(false, p, seq![ESCAPE_CHAR]) == command_feed(true, p, empty));
    assert(command_feed_pending(true, p, empty));
    assert(command_feed_pending(false, p, seq![ESCAPE_CHAR]));
    assert(command_feed(false, empty, head) == (true, p));
    assert(parse_command(p, op) != Ok::<Option<CommandView>, Error>(None));
}

/// Law: encoding a canonically sized response and feeding the frame's bytes,
/// in order, to a fresh response decoder is all pending until the opcode
/// byte, which yields exactly the response back and leaves the buffer empty.
pub proof fn lemma_response_round_trip(r: ResponseView)
    requires
        response_wf(r),
    ensures
        response_wire(r).len() >= 2,
        ({
            let w = response_wire(r);
            let head = w.take(w.len() - 1);
            let mid = response_feed(false, Seq::<u8>::empty(), head);
            &&& response_feed_pending(false, Seq::<u8>::empty(), head)
            &&& response_step(mid.0, mid.1, w.last()) == (
                false,
                Seq::<u8>::empty(),
                Ok::<Option<ResponseView>, Error>(Some(r)),
            )
        }),
{
    let p = response_payload(r);
    let op = response_opcode(r);
    let w = response_wire(r);
    let empty = Seq::<u8>::empty();
    lemma_response_payload_len(r);
    lemma_response_opcode_not_escape(r);
    lemma_parse_response_inverse(r);
    let head = w.take(w.len() - 1);
    assert(head =~= escaped(p) + seq![ESCAPE_CHAR]);
    assert(w.last() == op);
    lemma_response_feed_escaped(empty, p);
    assert(empty + p =~= p);
    lemma_response_feed_append(false, empty, escaped(p), seq![ESCAPE_CHAR]);
    assert(seq![ESCAPE_CHAR].skip(1) =~= empty);
    assert(response_feed(false, p, seq![ESCAPE_CHAR]) == response_feed(true, p, empty));
    assert(response_feed_pending(true, p, empty));
    assert(response_feed_pending(false, p, seq![ESCAPE_CHAR]));
    assert(response_feed(false, empty, head) == (true, p));
    assert(parse_response(p, op) != Ok::<Option<ResponseView>, Error>(None));
}

} // verus!
