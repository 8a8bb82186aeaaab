//! The command encoder: built around one [`Command`], it hands the command's
//! wire bytes out one at a time until exhausted.

use vstd::prelude::*;

use crate::command::{
    attr_value_len, baud_mode_byte, command_opcode, command_payload, command_wire, BaudMode,
    Command, CommandView, ATTR_KEY_SIZE, ATTR_VALUE_FIELD, ATTR_VALUE_MAX, EX_PAGE_SIZE,
    INT_PAGE_SIZE,
};
use crate::encoder::{
    enc_wf_at, lemma_wire_step, remaining_wire, render_field, render_u16, render_u32, send_byte,
    wire_tick,
};
use crate::framing::pad_to;
use crate::ints::{le16_bytes, le32_bytes};
use crate::wire::{
    CMD_CHANGE_BAUD, CMD_CLKOUT, CMD_CRCEF, CMD_CRCIF, CMD_CRCRX, CMD_EPAGE, CMD_GATTR, CMD_ID,
    CMD_INFO, CMD_PING, CMD_RESET, CMD_RRANGE, CMD_SATTR, CMD_WPAGE, CMD_WUSER, CMD_XEBLOCK,
    CMD_XEPAGE, CMD_XFINIT, CMD_XRRANGE, CMD_XWPAGE, ESCAPE_CHAR,
};

verus! {

/// No command's payload outgrows a page write: a four-byte address and one
/// full page.
pub proof fn lemma_command_payload_len(c: CommandView)
    ensures
        command_payload(c).len() <= 4 + INT_PAGE_SIZE,
{
}

/// The `CommandEncoder` takes a `Command` and gives you bytes.
pub struct CommandEncoder {
    command: Command,
    count: usize,
    sent_escape: bool,
}

impl CommandEncoder {
    /// The wire bytes this encoder has still to emit.
    pub closed spec fn remaining(self) -> Seq<u8> {
        remaining_wire(
            command_payload(self.command@),
            command_opcode(self.command@),
            self.count as int,
            self.sent_escape,
        )
    }

    /// The encoder's position lies within its command's frame and any escape
    /// debt is owed on an escape byte of the payload.
    pub closed spec fn wf(self) -> bool {
        enc_wf_at(command_payload(self.command@), self.count as int, self.sent_escape)
    }

    /// Create a new `CommandEncoder`.
    ///
    /// The encoder takes the `Command` to encode. The `next` method will then
    /// supply the encoded bytes one at a time.
    pub fn new(command: Command) -> (e: CommandEncoder)
        ensures
            e.wf(),
            e.remaining() == command_wire(command@),
    {
        let e = CommandEncoder { command, count: 0, sent_escape: false };
        proof {
            let p = command_payload(e.command@);
            assert(p.skip(0) =~= p);
        }
        e
    }

    /// Supply the next encoded byte. Once all the bytes have been emitted, it
    /// returns `None` forevermore.
    pub fn next(&mut self) -> (r: Option<u8>)
        requires
            old(self).wf(),
        ensures
            final(self).wf(),
            old(self).remaining().len() > 0 ==> r == Some(old(self).remaining()[0])
                && final(self).remaining() == old(self).remaining().skip(1),
            old(self).remaining().len() == 0 ==> r is None && final(self).remaining()
                == Seq::<u8>::empty(),
    {
        let count = self.count;
        let (inc, result) = Self::render(&mut self.sent_escape, count, &self.command);
        proof {
            lemma_command_payload_len(old(self).command@);
            lemma_wire_step(
                command_payload(old(self).command@),
                command_opcode(old(self).command@),
                count as int,
                old(self).sent_escape,
                self.sent_escape,
                inc,
                result,
            );
        }
        self.count = count + inc;
        result
    }

    /// One encoder tick: route position `count` to the renderer for this
    /// command's wire layout.
    fn render(sent_escape: &mut bool, count: usize, command: &Command) -> (r: (usize, Option<u8>))
        ensures
            wire_tick(
                command_payload(command@),
                command_opcode(command@),
                count as int,
                *old(sent_escape),
                *final(sent_escape),
                r.0,
                r.1,
            ),
    {
        match command {
            Command::Ping => Self::render_basic_cmd(count, CMD_PING),
            Command::Info => Self::render_basic_cmd(count, CMD_INFO),
            Command::Id => Self::render_basic_cmd(count, CMD_ID),
            Command::Reset => Self::render_basic_cmd(count, CMD_RESET),
            Command::ErasePage { address } => Self::render_erase_cmd(
                sent_escape,
                count,
                *address,
                CMD_EPAGE,
            ),
            Command::WritePage { address, data } => Self::render_writepage_cmd(
                sent_escape,
                count,
                *address,
                data,
                INT_PAGE_SIZE,
                CMD_WPAGE,
            ),
            Command::EraseExBlock { address } => Self::render_erase_cmd(
                sent_escape,
                count,
                *address,
                CMD_XEBLOCK,
            ),
            Command::WriteExPage { address, data } => Self::render_writepage_cmd(
                sent_escape,
                count,
                *address,
                data,
                EX_PAGE_SIZE,
                CMD_XWPAGE,
            ),
            Command::CrcRxBuffer => Self::render_basic_cmd(count, CMD_CRCRX),
            Command::ReadRange { address, length } => Self::render_readrange_cmd(
                sent_escape,
                count,
                *address,
                *length,
                CMD_RRANGE,
            ),
            Command::ExReadRange { address, length } => Self::render_readrange_cmd(
                sent_escape,
                count,
                *address,
                *length,
                CMD_XRRANGE,
            ),
            Command::SetAttr { index, key, value } => Self::render_setattr_cmd(
                sent_escape,
                count,
                *index,
                key,
                value,
            ),
            Command::GetAttr { index } => Self::render_getattr_cmd(
                sent_escape,
                count,
                *index,
            ),
            Command::CrcIntFlash { address, length } => Self::render_two_u32_cmd(
                sent_escape,
                count,
                *address,
                *length,
                CMD_CRCIF,
            ),
            Command::CrcExFlash { address, length } => Self::render_two_u32_cmd(
                sent_escape,
                count,
                *address,
                *length,
                CMD_CRCEF,
            ),
            Command::EraseExPage { address } => Self::render_erase_cmd(
                sent_escape,
                count,
                *address,
                CMD_XEPAGE,
            ),
            Command::ExFlashInit => Self::render_basic_cmd(count, CMD_XFINIT),
            Command::ClockOut => Self::render_basic_cmd(count, CMD_CLKOUT),
            Command::WriteFlashUserPages { page1, page2 } => Self::render_two_u32_cmd(
                sent_escape,
                count,
                *page1,
                *page2,
                CMD_WUSER,
            ),
            Command::ChangeBaud { mode, baud } => Self::render_changebaud_cmd(
                sent_escape,
                count,
                *mode,
                *baud,
            ),
        }
    }

    /// Render a command with no payload: the escape marker, the opcode, then
    /// nothing.
    fn render_basic_cmd(count: usize, cmd: u8) -> (r: (usize, Option<u8>))
        ensures
            count == 0 ==> r == (1usize, Some(ESCAPE_CHAR)),
            count == 1 ==> r == (1usize, Some(cmd)),
            count >= 2 ==> r == (0usize, None::<u8>),
    {
        match count {
            0 => (1, Some(ESCAPE_CHAR)),  // Escape
            1 => (1, Some(cmd)),  // Command
            _ => (0, None),
        }
    }

    /// Render an erase-type command: a four-byte address, then the terminator.
    fn render_erase_cmd(sent_escape: &mut bool, count: usize, address: u32, cmd: u8) -> (r: (
        usize,
        Option<u8>,
    ))
        ensures
            wire_tick(
                le32_bytes(address),
                cmd,
                count as int,
                *old(sent_escape),
                *final(sent_escape),
                r.0,
                r.1,
            ),
    {
        if count < 4 {
            render_u32(sent_escape, count, address)
        } else {
            Self::render_basic_cmd(count - 4, cmd)
        }
    }

    /// Render a page-write command: a four-byte address, the page padded to
    /// its width, then the terminator.
    fn render_writepage_cmd(
        sent_escape: &mut bool,
        count: usize,
        address: u32,
        data: &Vec<u8>,
        width: usize,
        cmd: u8,
    ) -> (r: (usize, Option<u8>))
        requires
            width <= INT_PAGE_SIZE,
        ensures
            wire_tick(
                le32_bytes(address) + pad_to(data@, width as nat, 0xFF),
                cmd,
                count as int,
                *old(sent_escape),
                *final(sent_escape),
                r.0,
                r.1,
            ),
    {
        if count < 4 {
            render_u32(sent_escape, count, address)
        } else if count < 4 + width {
            render_field(sent_escape, count - 4, data, width, 0xFF)
        } else {
            Self::render_basic_cmd(count - (4 + width), cmd)
        }
    }

    /// Render a read-range command: a four-byte address, a two-byte length,
    /// then the terminator.
    fn render_readrange_cmd(
        sent_escape: &mut bool,
        count: usize,
        address: u32,
        length: u16,
        cmd: u8,
    ) -> (r: (usize, Option<u8>))
        ensures
            wire_tick(
                le32_bytes(address) + le16_bytes(length),
                cmd,
                count as int,
                *old(sent_escape),
                *final(sent_escape),
                r.0,
                r.1,
            ),
    {
        if count < 4 {
            render_u32(sent_escape, count, address)
        } else if count < 6 {
            render_u16(sent_escape, count - 4, length)
        } else {
            Self::render_basic_cmd(count - 6, cmd)
        }
    }

    /// Render a command of two four-byte fields, then the terminator.
    fn render_two_u32_cmd(sent_escape: &mut bool, count: usize, a: u32, b: u32, cmd: u8) -> (r: (
        usize,
        Option<u8>,
    ))
        ensures
            wire_tick(
                le32_bytes(a) + le32_bytes(b),
                cmd,
                count as int,
                *old(sent_escape),
                *final(sent_escape),
                r.0,
                r.1,
            ),
    {
        if count < 4 {
            render_u32(sent_escape, count, a)
        } else if count < 8 {
            render_u32(sent_escape, count - 4, b)
        } else {
            Self::render_basic_cmd(count - 8, cmd)
        }
    }

    /// Render a set-attribute command: the index, the key padded to eight
    /// bytes with nulls, the declared value length, the value field padded
    /// with `0xFF`, then the terminator.
    fn render_setattr_cmd(
        sent_escape: &mut bool,
        count: usize,
        index: u8,
        key: &Vec<u8>,
        value: &Vec<u8>,
    ) -> (r: (usize, Option<u8>))
        ensures
            wire_tick(
                seq![index] + pad_to(key@, ATTR_KEY_SIZE as nat, 0x00) + seq![
                    attr_value_len(value@) as u8,
                ] + pad_to(value@, ATTR_VALUE_FIELD as nat, 0xFF),
                CMD_SATTR,
                count as int,
                *old(sent_escape),
                *final(sent_escape),
                r.0,
                r.1,
            ),
    {
        if count == 0 {
            send_byte(sent_escape, index)
        } else if count < 1 + ATTR_KEY_SIZE {
            render_field(sent_escape, count - 1, key, ATTR_KEY_SIZE, 0x00)
        } else if count == 1 + ATTR_KEY_SIZE {
            let declared = if value.len() <= ATTR_VALUE_MAX {
                value.len()
            } else {
                ATTR_VALUE_MAX
            };
            send_byte(sent_escape, declared as u8)
        } else if count < 2 + ATTR_KEY_SIZE + ATTR_VALUE_FIELD {
            render_field(sent_escape, count - (2 + ATTR_KEY_SIZE), value, ATTR_VALUE_FIELD, 0xFF)
        } else {
            Self::render_basic_cmd(count - (2 + ATTR_KEY_SIZE + ATTR_VALUE_FIELD), CMD_SATTR)
        }
    }

    /// Render a get-attribute command: the index, then the terminator.
    fn render_getattr_cmd(sent_escape: &mut bool, count: usize, index: u8) -> (r: (
        usize,
        Option<u8>,
    ))
        ensures
            wire_tick(
                seq![index],
                CMD_GATTR,
                count as int,
                *old(sent_escape),
                *final(sent_escape),
                r.0,
                r.1,
            ),
    {
        if count == 0 {
            send_byte(sent_escape, index)
        } else {
            Self::render_basic_cmd(count - 1, CMD_GATTR)
        }
    }

    /// Render a change-baud command: the mode byte, the four-byte rate, then
    /// the terminator.
    fn render_changebaud_cmd(sent_escape: &mut bool, count: usize, mode: BaudMode, baud: u32) -> (r:
        (usize, Option<u8>))
        ensures
            wire_tick(
                seq![baud_mode_byte(mode)] + le32_bytes(baud),
                CMD_CHANGE_BAUD,
                count as int,
                *old(sent_escape),
                *final(sent_escape),
                r.0,
                r.1,
            ),
    {
        if count == 0 {
            let mode_byte: u8 = match mode {
                BaudMode::SetRate => 0x01,
                BaudMode::Verify => 0x02,
            };
            send_byte(sent_escape, mode_byte)
        } else if count < 5 {
            render_u32(sent_escape, count - 1, baud)
        } else {
            Self::render_basic_cmd(count - 5, CMD_CHANGE_BAUD)
        }
    }
}

} // verus!
