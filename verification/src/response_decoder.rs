//! The response decoder: feeds on bytes one at a time and yields decoded
//! [`Response`]s, tracking escape state and a capacity-capped payload buffer.

use vstd::prelude::*;

use crate::command::{ATTR_KEY_SIZE, ATTR_VALUE_MAX};
use crate::decoder::{vec_range, DecoderState, Error};
use crate::framing::cap_push;
use crate::ints::{le16_at, le32_at, parse_u16, parse_u32};
use crate::response::{Response, ResponseView, ATTR_RSP_SIZE};
use crate::wire::{
    BUFFER_CAPACITY, ESCAPE_CHAR, RES_BADADDR, RES_BADARGS, RES_CHANGE_BAUD_FAIL, RES_CRCIF,
    RES_CRCRX, RES_CRCXF, RES_GATTR, RES_INFO, RES_INTERROR, RES_OK, RES_OVERFLOW, RES_PONG,
    RES_RRANGE, RES_UNKNOWN, RES_XFEPE, RES_XFTIMEOUT, RES_XRRANGE,
};

use vstd::slice::slice_subrange;

verus! {

/// What a completed response frame decodes to: the payload accumulated before
/// the terminator, read against the opcode that ended the frame.
///
/// A response with no fields ignores whatever payload was accumulated. A fixed
/// layout demands exactly its length. Read-range and info responses take the
/// whole payload as their data, whatever its length. An opcode outside the
/// vocabulary decodes to nothing: it is line noise.
pub open spec fn parse_response(buf: Seq<u8>, op: u8) -> Result<Option<ResponseView>, Error> {
    if op == RES_OVERFLOW {
        Ok(Some(ResponseView::Overflow))
    } else if op == RES_PONG {
        Ok(Some(ResponseView::Pong))
    } else if op == RES_BADADDR {
        Ok(Some(ResponseView::BadAddress))
    } else if op == RES_INTERROR {
        Ok(Some(ResponseView::InternalError))
    } else if op == RES_BADARGS {
        Ok(Some(ResponseView::BadArguments))
    } else if op == RES_OK {
        Ok(Some(ResponseView::Okay))
    } else if op == RES_UNKNOWN {
        Ok(Some(ResponseView::Unknown))
    } else if op == RES_XFTIMEOUT {
        Ok(Some(ResponseView::ExFlashTimeout))
    } else if op == RES_XFEPE {
        Ok(Some(ResponseView::ExFlashPageError))
    } else if op == RES_CRCRX {
        if buf.len() == 6 {
            Ok(Some(ResponseView::CrcRxBuffer { length: le16_at(buf, 0), crc: le32_at(buf, 2) }))
        } else {
            Err(Error::BadArguments)
        }
    } else if op == RES_RRANGE {
        Ok(Some(ResponseView::ReadRange { data: buf }))
    } else if op == RES_XRRANGE {
        Ok(Some(ResponseView::ExReadRange { data: buf }))
    } else if op == RES_GATTR {
        if buf.len() == ATTR_RSP_SIZE && buf[ATTR_KEY_SIZE as int] <= ATTR_VALUE_MAX {
            Ok(Some(ResponseView::GetAttr {
                key: buf.subrange(0, ATTR_KEY_SIZE as int),
                value: buf.subrange(9, 9 + buf[ATTR_KEY_SIZE as int]),
            }))
        } else {
            Err(Error::BadArguments)
        }
    } else if op == RES_CRCIF {
        if buf.len() == 4 {
            Ok(Some(ResponseView::CrcIntFlash { crc: le32_at(buf, 0) }))
        } else {
            Err(Error::BadArguments)
        }
    } else if op == RES_CRCXF {
        if buf.len() == 4 {
            Ok(Some(ResponseView::CrcExFlash { crc: le32_at(buf, 0) }))
        } else {
            Err(Error::BadArguments)
        }
    } else if op == RES_INFO {
        Ok(Some(ResponseView::Info { info: buf }))
    } else if op == RES_CHANGE_BAUD_FAIL {
        Ok(Some(ResponseView::ChangeBaudFail))
    } else {
        Ok(None)
    }
}

/// One step of the response decoder: from an escape flag and a buffer, what
/// one incoming byte leads to. The result is the new escape flag, the new
/// buffer, and the outcome handed to the caller. The buffer is cleared exactly
/// when a value or an error is produced.
pub open spec fn response_step(esc: bool, buf: Seq<u8>, ch: u8) -> (
    bool,
    Seq<u8>,
    Result<Option<ResponseView>, Error>,
) {
    if !esc {
        if ch == ESCAPE_CHAR {
            (true, buf, Ok(None))
        } else {
            (false, cap_push(buf, ch), Ok(None))
        }
    } else {
        if ch == ESCAPE_CHAR {
            (false, cap_push(buf, ESCAPE_CHAR), Ok(None))
        } else {
            let r = parse_response(buf, ch);
            if r == Ok::<Option<ResponseView>, Error>(None) {
                (false, buf, r)
            } else {
                (false, Seq::<u8>::empty(), r)
            }
        }
    }
}

/// A decode outcome with its response abstracted to the response's view.
pub open spec fn response_result_view(r: Result<Option<Response>, Error>) -> Result<
    Option<ResponseView>,
    Error,
> {
    match r {
        Ok(Some(v)) => Ok(Some(v@)),
        Ok(None) => Ok(None),
        Err(e) => Err(e),
    }
}

/// The `ResponseDecoder` takes bytes and gives you `Response`s.
pub struct ResponseDecoder {
    state: DecoderState,
    buffer: Vec<u8>,
}

impl ResponseDecoder {
    /// The payload bytes accumulated so far for the frame in progress.
    pub closed spec fn buffered(self) -> Seq<u8> {
        self.buffer@
    }

    /// Whether the last byte seen was a single escape marker.
    pub closed spec fn in_escape(self) -> bool {
        self.state is Escape
    }

    /// The buffer never holds more than its capacity.
    pub closed spec fn wf(self) -> bool {
        self.buffer@.len() <= BUFFER_CAPACITY
    }

    /// Create a new `ResponseDecoder`.
    ///
    /// The decoder is fed bytes with the `receive` method.
    pub fn new() -> (d: ResponseDecoder)
        ensures
            d.wf(),
            !d.in_escape(),
            d.buffered() == Seq::<u8>::empty(),
    {
        ResponseDecoder { state: DecoderState::Loading, buffer: Vec::new() }
    }

    /// Empty the payload buffer, discarding any frame in progress.
    pub fn reset(&mut self)
        ensures
            final(self).wf(),
            final(self).buffered() == Seq::<u8>::empty(),
            final(self).in_escape() == old(self).in_escape(),
    {
        self.buffer.clear();
    }

    /// Process one incoming byte.
    ///
    /// Returns `Ok(None)` while a frame is still accumulating, `Ok(Some(r))`
    /// when this byte completed the frame for response `r`, and `Err` when the
    /// frame's payload did not fit its opcode. The transition is exactly
    /// [`response_step`] on the decoder's abstract state.
    pub fn receive(&mut self, ch: u8) -> (r: Result<Option<Response>, Error>)
        requires
            old(self).wf(),
        ensures
            final(self).wf(),
            ({
                let step = response_step(old(self).in_escape(), old(self).buffered(), ch);
                &&& final(self).in_escape() == step.0
                &&& final(self).buffered() == step.1
                &&& response_result_view(r) == step.2
            }),
    {
        match self.state {
            DecoderState::Loading => self.handle_loading(ch),
            DecoderState::Escape => self.handle_escape(ch),
        }
    }

    fn load_char(&mut self, ch: u8)
        requires
            old(self).wf(),
        ensures
            final(self).wf(),
            final(self).buffered() == cap_push(old(self).buffered(), ch),
            final(self).in_escape() == old(self).in_escape(),
    {
        if self.buffer.len() < BUFFER_CAPACITY {
            self.buffer.push(ch);
        }
    }

    fn handle_loading(&mut self, ch: u8) -> (r: Result<Option<Response>, Error>)
        requires
            old(self).wf(),
            !old(self).in_escape(),
        ensures
            final(self).wf(),
            r == Ok::<Option<Response>, Error>(None),
            ch == ESCAPE_CHAR ==> final(self).in_escape() && final(self).buffered() == old(
                self,
            ).buffered(),
            ch != ESCAPE_CHAR ==> !final(self).in_escape() && final(self).buffered() == cap_push(
                old(self).buffered(),
                ch,
            ),
    {
        if ch == ESCAPE_CHAR {
            self.state = DecoderState::Escape;
        } else {
            self.load_char(ch);
        }
        Ok(None)
    }

    fn handle_escape(&mut self, ch: u8) -> (r: Result<Option<Response>, Error>)
        requires
            old(self).wf(),
        ensures
            final(self).wf(),
            !final(self).in_escape(),
            ch == ESCAPE_CHAR ==> final(self).buffered() == cap_push(
                old(self).buffered(),
                ESCAPE_CHAR,
            ) && r == Ok::<Option<Response>, Error>(None),
            ch != ESCAPE_CHAR ==> {
                let parsed = parse_response(old(self).buffered(), ch);
                &&& response_result_view(r) == parsed
                &&& final(self).buffered() == (if parsed == Ok::<Option<ResponseView>, Error>(
                    None,
                ) {
                    old(self).buffered()
                } else {
                    Seq::<u8>::empty()
                })
            },
    {
        self.state = DecoderState::Loading;
        let result: Result<Option<Response>, Error> = if ch == ESCAPE_CHAR {
            // A doubled escape buffers one literal escape byte.
            self.load_char(ch);
            Ok(None)
        } else if ch == RES_OVERFLOW {
            Ok(Some(Response::Overflow))
        } else if ch == RES_PONG {
            Ok(Some(Response::Pong))
        } else if ch == RES_BADADDR {
            Ok(Some(Response::BadAddress))
        } else if ch == RES_INTERROR {
            Ok(Some(Response::InternalError))
        } else if ch == RES_BADARGS {
            Ok(Some(Response::BadArguments))
        } else if ch == RES_OK {
            Ok(Some(Response::Okay))
        } else if ch == RES_UNKNOWN {
            Ok(Some(Response::Unknown))
        } else if ch == RES_XFTIMEOUT {
            Ok(Some(Response::ExFlashTimeout))
        } else if ch == RES_XFEPE {
            Ok(Some(Response::ExFlashPageError))
        } else if ch == RES_CRCRX {
            if self.buffer.len() == 6 {
                let length = parse_u16(slice_subrange(self.buffer.as_slice(), 0, 2));
                let crc = parse_u32(slice_subrange(self.buffer.as_slice(), 2, 6));
                Ok(Some(Response::CrcRxBuffer { length, crc }))
            } else {
                Err(Error::BadArguments)
            }
        } else if ch == RES_RRANGE {
            let data = vec_range(&self.buffer, 0, self.buffer.len());
            proof {
                assert(self.buffer@.subrange(0, self.buffer@.len() as int) =~= self.buffer@);
            }
            Ok(Some(Response::ReadRange { data }))
        } else if ch == RES_XRRANGE {
            let data = vec_range(&self.buffer, 0, self.buffer.len());
            proof {
                assert(self.buffer@.subrange(0, self.buffer@.len() as int) =~= self.buffer@);
            }
            Ok(Some(Response::ExReadRange { data }))
        } else if ch == RES_GATTR {
            if self.buffer.len() == ATTR_RSP_SIZE && self.buffer[ATTR_KEY_SIZE] <= ATTR_VALUE_MAX
                as u8 {
                let length = self.buffer[ATTR_KEY_SIZE] as usize;
                let key = vec_range(&self.buffer, 0, ATTR_KEY_SIZE);
                let value = vec_range(&self.buffer, 9, 9 + length);
                Ok(Some(Response::GetAttr { key, value }))
            } else {
                Err(Error::BadArguments)
            }
        } else if ch == RES_CRCIF {
            if self.buffer.len() == 4 {
                let crc = parse_u32(slice_subrange(self.buffer.as_slice(), 0, 4));
                Ok(Some(Response::CrcIntFlash { crc }))
            } else {
                Err(Error::BadArguments)
            }
        } else if ch == RES_CRCXF {
            if self.buffer.len() == 4 {
                let crc = parse_u32(slice_subrange(self.buffer.as_slice(), 0, 4));
                Ok(Some(Response::CrcExFlash { crc }))
            } else {
                Err(Error::BadArguments)
            }
        } else if ch == RES_INFO {
            let info = vec_range(&self.buffer, 0, self.buffer.len());
            proof {
                assert(self.buffer@.subrange(0, self.buffer@.len() as int) =~= self.buffer@);
            }
            Ok(Some(Response::Info { info }))
        } else if ch == RES_CHANGE_BAUD_FAIL {
            Ok(Some(Response::ChangeBaudFail))
        } else {
            Ok(None)
        };
        // A response or error signifies the end of the buffer.
        match &result {
            Ok(Some(_)) => self.buffer.clear(),
            Err(_) => self.buffer.clear(),
            Ok(None) => {},
        }
        result
    }
}

} // verus!
