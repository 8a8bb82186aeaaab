//! The response encoder: built around one [`Response`], it hands the
//! response's wire bytes out one at a time until exhausted.

use vstd::prelude::*;

use crate::command::{attr_value_len, ATTR_KEY_SIZE, ATTR_VALUE_MAX};
use crate::encoder::{
    enc_wf_at, lemma_wire_step, remaining_wire, render_field, render_u16, render_u32, send_byte,
    wire_tick,
};
use crate::framing::pad_to;
use crate::ints::{le16_bytes, le32_bytes};
use crate::response::{response_opcode, response_payload, response_wire, Response, ResponseView};
use crate::wire::{
    ESCAPE_CHAR, RES_BADADDR, RES_BADARGS, RES_CHANGE_BAUD_FAIL, RES_CRCIF, RES_CRCRX, RES_CRCXF,
    RES_GATTR, RES_INFO, RES_INTERROR, RES_OK, RES_OVERFLOW, RES_PONG, RES_RRANGE, RES_UNKNOWN,
    RES_XFEPE, RES_XFTIMEOUT, RES_XRRANGE,
};

verus! {

/// The `ResponseEncoder` takes a `Response` and gives you bytes.
pub struct ResponseEncoder {
    response: Response,
    count: usize,
    sent_escape: bool,
}

impl ResponseEncoder {
    /// The wire bytes this encoder has still to emit.
    pub closed spec fn remaining(self) -> Seq<u8> {
        remaining_wire(
            response_payload(self.response@),
            response_opcode(self.response@),
            self.count as int,
            self.sent_escape,
        )
    }

    /// The encoder's position lies within its response's frame, any escape
    /// debt is owed on an escape byte of the payload, and the frame's content
    /// byte count leaves room for the two-byte terminator in a machine word.
    pub closed spec fn wf(self) -> bool {
        &&& enc_wf_at(
            response_payload(self.response@),
            self.count as int,
            self.sent_escape,
        )
        &&& response_payload(self.response@).len() + 2 <= usize::MAX
    }

    /// Create a new `ResponseEncoder`.
    ///
    /// The encoder takes the `Response` to encode. The `next` method will then
    /// supply the encoded bytes one at a time. The one demand on the response
    /// is the machine's: its payload byte count must leave room for the
    /// two-byte frame terminator in a machine word.
    pub fn new(response: Response) -> (e: ResponseEncoder)
        requires
            response_payload(response@).len() + 2 <= usize::MAX,
        ensures
            e.wf(),
            e.remaining() == response_wire(response@),
    {
        let e = ResponseEncoder { response, count: 0, sent_escape: false };
        proof {
            let p = response_payload(e.response@);
            assert(p.skip(0) =~= p);
        }
        e
    }

    /// Supply the next encoded byte. Once all the bytes have been emitted, it
    /// returns `None` forevermore.
    pub fn next(&mut self) -> (r: Option<u8>)
        requires
            old(self).wf(),
        ensures
            final(self).wf(),
            old(self).remaining().len() > 0 ==> r == Some(old(self).remaining()[0])
                && final(self).remaining() == old(self).remaining().skip(1),
            old(self).remaining().len() == 0 ==> r is None && final(self).remaining()
                == Seq::<u8>::empty(),
    {
        let count = self.count;
        let (inc, result) = Self::render(&mut self.sent_escape, count, &self.response);
        proof {
            lemma_wire_step(
                response_payload(old(self).response@),
                response_opcode(old(self).response@),
                count as int,
                old(self).sent_escape,
                self.sent_escape,
                inc,
                result,
            );
        }
        self.count = count + inc;
        result
    }

    /// One encoder tick: route position `count` to the renderer for this
    /// response's wire layout.
    fn render(sent_escape: &mut bool, count: usize, response: &Response) -> (r: (
        usize,
        Option<u8>,
    ))
        ensures
            wire_tick(
                response_payload(response@),
                response_opcode(response@),
                count as int,
                *old(sent_escape),
                *final(sent_escape),
                r.0,
                r.1,
            ),
    {
        match response {
            Response::Overflow => Self::render_header(count, RES_OVERFLOW),
            Response::Pong => Self::render_header(count, RES_PONG),
            Response::BadAddress => Self::render_header(count, RES_BADADDR),
            Response::InternalError => Self::render_header(count, RES_INTERROR),
            Response::BadArguments => Self::render_header(count, RES_BADARGS),
            Response::Okay => Self::render_header(count, RES_OK),
            Response::Unknown => Self::render_header(count, RES_UNKNOWN),
            Response::ExFlashTimeout => Self::render_header(count, RES_XFTIMEOUT),
            Response::ExFlashPageError => Self::render_header(count, RES_XFEPE),
            Response::CrcRxBuffer { length, crc } => Self::render_crc_rx_buffer(
                sent_escape,
                count,
                *length,
                *crc,
            ),
            Response::ReadRange { data } => Self::render_read_range(sent_escape, count, data),
            Response::ExReadRange { data } => Self::render_ex_read_range(sent_escape, count, data),
            Response::GetAttr { key, value } => Self::render_get_attr(
                sent_escape,
                count,
                key,
                value,
            ),
            Response::CrcIntFlash { crc } => Self::render_crc_int_flash(sent_escape, count, *crc),
            Response::CrcExFlash { crc } => Self::render_crc_ex_flash(sent_escape, count, *crc),
            Response::Info { info } => Self::render_info(sent_escape, count, info),
            Response::ChangeBaudFail => Self::render_header(count, RES_CHANGE_BAUD_FAIL),
        }
    }

    /// Render a response with no payload: the escape marker, the opcode, then
    /// nothing.
    fn render_header(count: usize, cmd: u8) -> (r: (usize, Option<u8>))
        ensures
            count == 0 ==> r == (1usize, Some(ESCAPE_CHAR)),
            count == 1 ==> r == (1usize, Some(cmd)),
            count >= 2 ==> r == (0usize, None::<u8>),
    {
        match count {
            0 => (1, Some(ESCAPE_CHAR)),  // Escape
            1 => (1, Some(cmd)),  // Response
            _ => (0, None),
        }
    }

    /// Render an RX-buffer CRC response: a two-byte length, a four-byte CRC,
    /// then the terminator.
    fn render_crc_rx_buffer(sent_escape: &mut bool, count: usize, length: u16, crc: u32) -> (r: (
        usize,
        Option<u8>,
    ))
        ensures
            wire_tick(
                le16_bytes(length) + le32_bytes(crc),
                RES_CRCRX,
                count as int,
                *old(sent_escape),
                *final(sent_escape),
                r.0,
                r.1,
            ),
    {
        if count < 2 {
            render_u16(sent_escape, count, length)
        } else if count < 6 {
            render_u32(sent_escape, count - 2, crc)
        } else {
            Self::render_header(count - 6, RES_CRCRX)
        }
    }

    /// Render an internal-flash read response: the data as it is, then the
    /// terminator.
    fn render_read_range(sent_escape: &mut bool, count: usize, data: &Vec<u8>) -> (r: (
        usize,
        Option<u8>,
    ))
        ensures
            wire_tick(
                data@,
                RES_RRANGE,
                count as int,
                *old(sent_escape),
                *final(sent_escape),
                r.0,
                r.1,
            ),
    {
        if count < data.len() {
            send_byte(sent_escape, data[count])
        } else {
            Self::render_header(count - data.len(), RES_RRANGE)
        }
    }

    /// Render an external-flash read response: the data as it is, then the
    /// terminator.
    fn render_ex_read_range(sent_escape: &mut bool, count: usize, data: &Vec<u8>) -> (r: (
        usize,
        Option<u8>,
    ))
        ensures
            wire_tick(
                data@,
                RES_XRRANGE,
                count as int,
                *old(sent_escape),
                *final(sent_escape),
                r.0,
                r.1,
            ),
    {
        if count < data.len() {
            send_byte(sent_escape, data[count])
        } else {
            Self::render_header(count - data.len(), RES_XRRANGE)
        }
    }

    /// Render an attribute response: the key padded to eight bytes with
    /// nulls, the declared value length, the value padded to its field width
    /// with `0xFF`, then the terminator.
    fn render_get_attr(sent_escape: &mut bool, count: usize, key: &Vec<u8>, value: &Vec<u8>) -> (r:
        (usize, Option<u8>))
        ensures
            wire_tick(
                pad_to(key@, ATTR_KEY_SIZE as nat, 0x00) + seq![attr_value_len(value@) as u8]
                    + pad_to(value@, ATTR_VALUE_MAX as nat, 0xFF),
                RES_GATTR,
                count as int,
                *old(sent_escape),
                *final(sent_escape),
                r.0,
                r.1,
            ),
    {
        if count < ATTR_KEY_SIZE {
            render_field(sent_escape, count, key, ATTR_KEY_SIZE, 0x00)
        } else if count == ATTR_KEY_SIZE {
            let declared = if value.len() <= ATTR_VALUE_MAX {
                value.len()
            } else {
                ATTR_VALUE_MAX
            };
            send_byte(sent_escape, declared as u8)
        } else if count < 1 + ATTR_KEY_SIZE + ATTR_VALUE_MAX {
            render_field(sent_escape, count - (1 + ATTR_KEY_SIZE), value, ATTR_VALUE_MAX, 0xFF)
        } else {
            Self::render_header(count - (1 + ATTR_KEY_SIZE + ATTR_VALUE_MAX), RES_GATTR)
        }
    }

    /// Render an internal-flash CRC response: a four-byte CRC, then the
    /// terminator.
    fn render_crc_int_flash(sent_escape: &mut bool, count: usize, crc: u32) -> (r: (
        usize,
        Option<u8>,
    ))
        ensures
            wire_tick(
                le32_bytes(crc),
                RES_CRCIF,
                count as int,
                *old(sent_escape),
                *final(sent_escape),
                r.0,
                r.1,
            ),
    {
        if count < 4 {
            render_u32(sent_escape, count, crc)
        } else {
            Self::render_header(count - 4, RES_CRCIF)
        }
    }

    /// Render an external-flash CRC response: a four-byte CRC, then the
    /// terminator.
    fn render_crc_ex_flash(sent_escape: &mut bool, count: usize, crc: u32) -> (r: (
        usize,
        Option<u8>,
    ))
        ensures
            wire_tick(
                le32_bytes(crc),
                RES_CRCXF,
                count as int,
                *old(sent_escape),
                *final(sent_escape),
                r.0,
                r.1,
            ),
    {
        if count < 4 {
            render_u32(sent_escape, count, crc)
        } else {
            Self::render_header(count - 4, RES_CRCXF)
        }
    }

    /// Render an info response: the info bytes as they are, then the
    /// terminator.
    fn render_info(sent_escape: &mut bool, count: usize, info: &Vec<u8>) -> (r: (usize, Option<u8>))
        ensures
            wire_tick(
                info@,
                RES_INFO,
                count as int,
                *old(sent_escape),
                *final(sent_escape),
                r.0,
                r.1,
            ),
    {
        if count < info.len() {
            send_byte(sent_escape, info[count])
        } else {
            Self::render_header(count - info.len(), RES_INFO)
        }
    }
}

} // verus!
