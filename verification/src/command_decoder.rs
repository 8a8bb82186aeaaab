//! The command decoder: feeds on bytes one at a time and yields decoded
//! [`Command`]s, tracking escape state and a capacity-capped payload buffer.

use vstd::prelude::*;

use crate::command::{
    BaudMode, Command, CommandView, ATTR_KEY_SIZE, EX_PAGE_SIZE, INT_PAGE_SIZE,
};
use crate::decoder::{vec_range, DecoderState, Error};
use crate::framing::cap_push;
use crate::ints::{le16_at, le32_at, parse_u16, parse_u32};
use crate::wire::{
    BUFFER_CAPACITY, CMD_CHANGE_BAUD, CMD_CLKOUT, CMD_CRCEF, CMD_CRCIF, CMD_CRCRX, CMD_EPAGE,
    CMD_GATTR, CMD_ID, CMD_INFO, CMD_PING, CMD_RESET, CMD_RRANGE, CMD_SATTR, CMD_WPAGE, CMD_WUSER,
    CMD_XEBLOCK, CMD_XEPAGE, CMD_XFINIT, CMD_XRRANGE, CMD_XWPAGE, ESCAPE_CHAR,
};

use vstd::slice::slice_subrange;

verus! {

/// What a completed command frame decodes to: the payload accumulated before
/// the terminator, read against the opcode that ended the frame.
///
/// A command with no fields ignores whatever payload was accumulated. A fixed
/// layout demands exactly its length. `SetAttr` demands at least its ten-byte
/// prefix and strictly more than the prefix plus the declared value length.
/// An opcode outside the vocabulary decodes to nothing: it is line noise.
pub open spec fn parse_command(buf: Seq<u8>, op: u8) -> Result<Option<CommandView>, Error> {
    if op == CMD_PING {
        Ok(Some(CommandView::Ping))
    } else if op == CMD_INFO {
        Ok(Some(CommandView::Info))
    } else if op == CMD_ID {
        Ok(Some(CommandView::Id))
    } else if op == CMD_RESET {
        Ok(Some(CommandView::Reset))
    } else if op == CMD_EPAGE {
        if buf.len() == 4 {
            Ok(Some(CommandView::ErasePage { address: le32_at(buf, 0) }))
        } else {
            Err(Error::BadArguments)
        }
    } else if op == CMD_WPAGE {
        if buf.len() == 4 + INT_PAGE_SIZE {
            Ok(Some(CommandView::WritePage {
                address: le32_at(buf, 0),
                data: buf.subrange(4, 4 + INT_PAGE_SIZE),
            }))
        } else {
            Err(Error::BadArguments)
        }
    } else if op == CMD_XEBLOCK {
        if buf.len() == 4 {
            Ok(Some(CommandView::EraseExBlock { address: le32_at(buf, 0) }))
        } else {
            Err(Error::BadArguments)
        }
    } else if op == CMD_XWPAGE {
        if buf.len() == 4 + EX_PAGE_SIZE {
            Ok(Some(CommandView::WriteExPage {
                address: le32_at(buf, 0),
                data: buf.subrange(4, 4 + EX_PAGE_SIZE),
            }))
        } else {
            Err(Error::BadArguments)
        }
    } else if op == CMD_CRCRX {
        Ok(Some(CommandView::CrcRxBuffer))
    } else if op == CMD_RRANGE {
        if buf.len() == 6 {
            Ok(Some(CommandView::ReadRange { address: le32_at(buf, 0), length: le16_at(buf, 4) }))
        } else {
            Err(Error::BadArguments)
        }
    } else if op == CMD_XRRANGE {
        if buf.len() == 6 {
            Ok(Some(CommandView::ExReadRange { address: le32_at(buf, 0), length: le16_at(buf, 4) }))
        } else {
            Err(Error::BadArguments)
        }
    } else if op == CMD_SATTR {
        if buf.len() >= 10 && buf.len() > 10 + buf[9] {
            Ok(Some(CommandView::SetAttr {
                index: buf[0],
                key: buf.subrange(1, 1 + ATTR_KEY_SIZE),
                value: buf.subrange(10, 10 + buf[9]),
            }))
        } else {
            Err(Error::BadArguments)
        }
    } else if op == CMD_GATTR {
        if buf.len() == 1 {
            Ok(Some(CommandView::GetAttr { index: buf[0] }))
        } else {
            Err(Error::BadArguments)
        }
    } else if op == CMD_CRCIF {
        if buf.len() == 8 {
            Ok(Some(CommandView::CrcIntFlash { address: le32_at(buf, 0), length: le32_at(buf, 4) }))
        } else {
            Err(Error::BadArguments)
        }
    } else if op == CMD_CRCEF {
        if buf.len() == 8 {
            Ok(Some(CommandView::CrcExFlash { address: le32_at(buf, 0), length: le32_at(buf, 4) }))
        } else {
            Err(Error::BadArguments)
        }
    } else if op == CMD_XEPAGE {
        if buf.len() == 4 {
            Ok(Some(CommandView::EraseExPage { address: le32_at(buf, 0) }))
        } else {
            Err(Error::BadArguments)
        }
    } else if op == CMD_XFINIT {
        Ok(Some(CommandView::ExFlashInit))
    } else if op == CMD_CLKOUT {
        Ok(Some(CommandView::ClockOut))
    } else if op == CMD_WUSER {
        if buf.len() == 8 {
            Ok(Some(CommandView::WriteFlashUserPages {
                page1: le32_at(buf, 0),
                page2: le32_at(buf, 4),
            }))
        } else {
            Err(Error::BadArguments)
        }
    } else if op == CMD_CHANGE_BAUD {
        if buf.len() == 5 {
            if buf[0] == 0x01 {
                Ok(Some(CommandView::ChangeBaud { mode: BaudMode::SetRate, baud: le32_at(buf, 1) }))
            } else if buf[0] == 0x02 {
                Ok(Some(CommandView::ChangeBaud { mode: BaudMode::Verify, baud: le32_at(buf, 1) }))
            } else {
                Err(Error::BadArguments)
            }
        } else {
            Err(Error::BadArguments)
        }
    } else {
        Ok(None)
    }
}

/// One step of the command decoder: from an escape flag and a buffer, what one
/// incoming byte leads to. The result is the new escape flag, the new buffer,
/// and the outcome handed to the caller. The buffer is cleared exactly when a
/// value or an error is produced.
pub open spec fn command_step(esc: bool, buf: Seq<u8>, ch: u8) -> (
    bool,
    Seq<u8>,
    Result<Option<CommandView>, Error>,
) {
    if !esc {
        if ch == ESCAPE_CHAR {
            (true, buf, Ok(None))
        } else {
            (false, cap_push(buf, ch), Ok(None))
        }
    } else {
        if ch == ESCAPE_CHAR {
            (false, cap_push(buf, ESCAPE_CHAR), Ok(None))
        } else {
            let r = parse_command(buf, ch);
            if r == Ok::<Option<CommandView>, Error>(None) {
                (false, buf, r)
            } else {
                (false, Seq::<u8>::empty(), r)
            }
        }
    }
}

/// A decode outcome with its command abstracted to the command's view.
pub open spec fn command_result_view(r: Result<Option<Command>, Error>) -> Result<
    Option<CommandView>,
    Error,
> {
    match r {
        Ok(Some(c)) => Ok(Some(c@)),
        Ok(None) => Ok(None),
        Err(e) => Err(e),
    }
}

/// The `CommandDecoder` takes bytes and gives you `Command`s.
pub struct CommandDecoder {
    state: DecoderState,
    buffer: Vec<u8>,
}

impl CommandDecoder {
    /// The payload bytes accumulated so far for the frame in progress.
    pub closed spec fn buffered(self) -> Seq<u8> {
        self.buffer@
    }

    /// Whether the last byte seen was a single escape marker.
    pub closed spec fn in_escape(self) -> bool {
        self.state is Escape
    }

    /// The buffer never holds more than its capacity.
    pub closed spec fn wf(self) -> bool {
        self.buffer@.len() <= BUFFER_CAPACITY
    }

    /// Create a new `CommandDecoder`.
    ///
    /// The decoder is fed bytes with the `receive` method.
    pub fn new() -> (d: CommandDecoder)
        ensures
            d.wf(),
            !d.in_escape(),
            d.buffered() == Seq::<u8>::empty(),
    {
        CommandDecoder { state: DecoderState::Loading, buffer: Vec::new() }
    }

    /// Empty the payload buffer, discarding any frame in progress.
    pub fn reset(&mut self)
        ensures
            final(self).wf(),
            final(self).buffered() == Seq::<u8>::empty(),
            final(self).in_escape() == old(self).in_escape(),
    {
        self.buffer.clear();
    }

    /// Process one incoming byte.
    ///
    /// Returns `Ok(None)` while a frame is still accumulating, `Ok(Some(c))`
    /// when this byte completed the frame for command `c`, and `Err` when the
    /// frame's payload did not fit its opcode. The transition is exactly
    /// [`command_step`] on the decoder's abstract state.
    pub fn receive(&mut self, ch: u8) -> (r: Result<Option<Command>, Error>)
        requires
            old(self).wf(),
        ensures
            final(self).wf(),
            ({
                let step = command_step(old(self).in_escape(), old(self).buffered(), ch);
                &&& final(self).in_escape() == step.0
                &&& final(self).buffered() == step.1
                &&& command_result_view(r) == step.2
            }),
    {
        match self.state {
            DecoderState::Loading => self.handle_loading(ch),
            DecoderState::Escape => self.handle_escape(ch),
        }
    }

    fn load_char(&mut self, ch: u8)
        requires
            old(self).wf(),
        ensures
            final(self).wf(),
            final(self).buffered() == cap_push(old(self).buffered(), ch),
            final(self).in_escape() == old(self).in_escape(),
    {
        if self.buffer.len() < BUFFER_CAPACITY {
            self.buffer.push(ch);
        }
    }

    fn handle_loading(&mut self, ch: u8) -> (r: Result<Option<Command>, Error>)
        requires
            old(self).wf(),
            !old(self).in_escape(),
        ensures
            final(self).wf(),
            r == Ok::<Option<Command>, Error>(None),
            ch == ESCAPE_CHAR ==> final(self).in_escape() && final(self).buffered() == old(
                self,
            ).buffered(),
            ch != ESCAPE_CHAR ==> !final(self).in_escape() && final(self).buffered() == cap_push(
                old(self).buffered(),
                ch,
            ),
    {
        if ch == ESCAPE_CHAR {
            self.state = DecoderState::Escape;
        } else {
            self.load_char(ch);
        }
        Ok(None)
    }

    fn handle_escape(&mut self, ch: u8) -> (r: Result<Option<Command>, Error>)
        requires
            old(self).wf(),
        ensures
            final(self).wf(),
            !final(self).in_escape(),
            ch == ESCAPE_CHAR ==> final(self).buffered() == cap_push(
                old(self).buffered(),
                ESCAPE_CHAR,
            ) && r == Ok::<Option<Command>, Error>(None),
            ch != ESCAPE_CHAR ==> {
                let parsed = parse_command(old(self).buffered(), ch);
                &&& command_result_view(r) == parsed
                &&& final(self).buffered() == (if parsed == Ok::<Option<CommandView>, Error>(None) {
                    old(self).buffered()
                } else {
                    Seq::<u8>::empty()
                })
            },
    {
        self.state = DecoderState::Loading;
        let result: Result<Option<Command>, Error> = if ch == ESCAPE_CHAR {
            // A doubled escape buffers one literal escape byte.
            self.load_char(ch);
            Ok(None)
        } else if ch == CMD_PING {
            Ok(Some(Command::Ping))
        } else if ch == CMD_INFO {
            Ok(Some(Command::Info))
        } else if ch == CMD_ID {
            Ok(Some(Command::Id))
        } else if ch == CMD_RESET {
            Ok(Some(Command::Reset))
        } else if ch == CMD_EPAGE {
            if self.buffer.len() == 4 {
                let address = parse_u32(slice_subrange(self.buffer.as_slice(), 0, 4));
                Ok(Some(Command::ErasePage { address }))
            } else {
                Err(Error::BadArguments)
            }
        } else if ch == CMD_WPAGE {
            if self.buffer.len() == 4 + INT_PAGE_SIZE {
                let address = parse_u32(slice_subrange(self.buffer.as_slice(), 0, 4));
                let data = vec_range(&self.buffer, 4, 4 + INT_PAGE_SIZE);
                Ok(Some(Command::WritePage { address, data }))
            } else {
                Err(Error::BadArguments)
            }
        } else if ch == CMD_XEBLOCK {
            if self.buffer.len() == 4 {
                let address = parse_u32(slice_subrange(self.buffer.as_slice(), 0, 4));
                Ok(Some(Command::EraseExBlock { address }))
            } else {
                Err(Error::BadArguments)
            }
        } else if ch == CMD_XWPAGE {
            if self.buffer.len() == 4 + EX_PAGE_SIZE {
                let address = parse_u32(slice_subrange(self.buffer.as_slice(), 0, 4));
                let data = vec_range(&self.buffer, 4, 4 + EX_PAGE_SIZE);
                Ok(Some(Command::WriteExPage { address, data }))
            } else {
                Err(Error::BadArguments)
            }
        } else if ch == CMD_CRCRX {
            Ok(Some(Command::CrcRxBuffer))
        } else if ch == CMD_RRANGE {
            if self.buffer.len() == 6 {
                let address = parse_u32(slice_subrange(self.buffer.as_slice(), 0, 4));
                let length = parse_u16(slice_subrange(self.buffer.as_slice(), 4, 6));
                Ok(Some(Command::ReadRange { address, length }))
            } else {
                Err(Error::BadArguments)
            }
        } else if ch == CMD_XRRANGE {
            if self.buffer.len() == 6 {
                let address = parse_u32(slice_subrange(self.buffer.as_slice(), 0, 4));
                let length = parse_u16(slice_subrange(self.buffer.as_slice(), 4, 6));
                Ok(Some(Command::ExReadRange { address, length }))
            } else {
                Err(Error::BadArguments)
            }
        } else if ch == CMD_SATTR {
            if self.buffer.len() >= 10 {
                let index = self.buffer[0];
                let length = self.buffer[9] as usize;
                if self.buffer.len() > 10 + length {
                    let key = vec_range(&self.buffer, 1, 1 + ATTR_KEY_SIZE);
                    let value = vec_range(&self.buffer, 10, 10 + length);
                    Ok(Some(Command::SetAttr { index, key, value }))
                } else {
                    Err(Error::BadArguments)
                }
            } else {
                Err(Error::BadArguments)
            }
        } else if ch == CMD_GATTR {
            if self.buffer.len() == 1 {
                let index = self.buffer[0];
                Ok(Some(Command::GetAttr { index }))
            } else {
                Err(Error::BadArguments)
            }
        } else if ch == CMD_CRCIF {
            if self.buffer.len() == 8 {
                let address = parse_u32(slice_subrange(self.buffer.as_slice(), 0, 4));
                let length = parse_u32(slice_subrange(self.buffer.as_slice(), 4, 8));
                Ok(Some(Command::CrcIntFlash { address, length }))
            } else {
                Err(Error::BadArguments)
            }
        } else if ch == CMD_CRCEF {
            if self.buffer.len() == 8 {
                let address = parse_u32(slice_subrange(self.buffer.as_slice(), 0, 4));
                let length = parse_u32(slice_subrange(self.buffer.as_slice(), 4, 8));
                Ok(Some(Command::CrcExFlash { address, length }))
            } else {
                Err(Error::BadArguments)
            }
        } else if ch == CMD_XEPAGE {
            if self.buffer.len() == 4 {
                let address = parse_u32(slice_subrange(self.buffer.as_slice(), 0, 4));
                Ok(Some(Command::EraseExPage { address }))
            } else {
                Err(Error::BadArguments)
            }
        } else if ch == CMD_XFINIT {
            Ok(Some(Command::ExFlashInit))
        } else if ch == CMD_CLKOUT {
            Ok(Some(Command::ClockOut))
        } else if ch == CMD_WUSER {
            if self.buffer.len() == 8 {
                let page1 = parse_u32(slice_subrange(self.buffer.as_slice(), 0, 4));
                let page2 = parse_u32(slice_subrange(self.buffer.as_slice(), 4, 8));
                Ok(Some(Command::WriteFlashUserPages { page1, page2 }))
            } else {
                Err(Error::BadArguments)
            }
        } else if ch == CMD_CHANGE_BAUD {
            if self.buffer.len() == 5 {
                let mode = self.buffer[0];
                let baud = parse_u32(slice_subrange(self.buffer.as_slice(), 1, 5));
                if mode == 0x01 {
                    Ok(Some(Command::ChangeBaud { mode: BaudMode::SetRate, baud }))
                } else if mode == 0x02 {
                    Ok(Some(Command::ChangeBaud { mode: BaudMode::Verify, baud }))
                } else {
                    Err(Error::BadArguments)
                }
            } else {
                Err(Error::BadArguments)
            }
        } else {
            Ok(None)
        };
        // A command or error signifies the end of the buffer.
        match &result {
            Ok(Some(_)) => self.buffer.clear(),
            Err(_) => self.buffer.clear(),
            Ok(None) => {},
        }
        result
    }
}

} // verus!
