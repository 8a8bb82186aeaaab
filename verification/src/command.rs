//! Commands a flashing tool sends to the bootloader: the closed vocabulary,
//! its wire layout per variant, and the abstract view the contracts speak of.

use vstd::prelude::*;

use crate::framing::{frame, pad_to};
use crate::ints::{le16_bytes, le32_bytes};
use crate::wire::{
    CMD_CHANGE_BAUD, CMD_CLKOUT, CMD_CRCEF, CMD_CRCIF, CMD_CRCRX, CMD_EPAGE, CMD_GATTR, CMD_ID,
    CMD_INFO, CMD_PING, CMD_RESET, CMD_RRANGE, CMD_SATTR, CMD_WPAGE, CMD_WUSER, CMD_XEBLOCK,
    CMD_XEPAGE, CMD_XFINIT, CMD_XRRANGE, CMD_XWPAGE,
};

verus! {

/// Width of the page carried by `WritePage`.
pub const INT_PAGE_SIZE: usize = 512;

/// Width of the page carried by `WriteExPage`.
pub const EX_PAGE_SIZE: usize = 256;

/// Width of the key field carried by `SetAttr` and `GetAttr` frames.
pub const ATTR_KEY_SIZE: usize = 8;

/// Longest attribute value a `SetAttr` frame may declare.
pub const ATTR_VALUE_MAX: usize = 55;

/// On-wire width of the attribute value field: one byte more than the longest
/// declared value, so that a full frame satisfies the decoder's strict length
/// check for every allowed value length.
pub const ATTR_VALUE_FIELD: usize = 56;

/// Whether a `ChangeBaud` command sets the new rate or verifies it.
#[derive(Debug, PartialEq, Eq, Structural, Clone, Copy)]
pub enum BaudMode {
    /// Ask the bootloader to switch to the given rate.
    SetRate,
    /// Confirm, at the new rate, that the switch worked.
    Verify,
}

/// Commands supported by the protocol. A bootloader will decode these and a
/// flash tool will encode them.
#[derive(Debug, PartialEq)]
pub enum Command {
    /// Send a PING to the bootloader. It will drop its RX buffer and send
    /// back a PONG.
    Ping,
    /// Get info about the bootloader. The result is one byte of length, plus
    /// length bytes of string, followed by 192-length zeroes.
    Info,
    /// Get the Unique ID. Result is 8 bytes of unique ID.
    Id,
    /// Reset all TX and RX buffers.
    Reset,
    /// Erase a page. The payload is the address of the start of the 512 byte
    /// page. Any non-page-aligned address earns a bad-address response.
    ErasePage { address: u32 },
    /// Write a page in internal flash. The payload is the 4 byte address of
    /// the start of the page, followed by 512 bytes of page.
    WritePage { address: u32, data: Vec<u8> },
    /// Erase a block of pages in external flash. The payload is the address
    /// of the start of the block. Each block is 8 pages, so 2048 bytes.
    EraseExBlock { address: u32 },
    /// Write a page to external flash. The payload is the address of the
    /// start of the 256 byte page, followed by 256 bytes of page.
    WriteExPage { address: u32, data: Vec<u8> },
    /// Get the length and CRC of the RX buffer. The response is two bytes of
    /// little endian length, followed by 4 bytes of crc32.
    CrcRxBuffer,
    /// Read a range from internal flash. The payload is a 4 byte address
    /// followed by 2 bytes of length. The response will be length bytes long.
    ReadRange { address: u32, length: u16 },
    /// Read a range from external flash. The payload is a 4 byte address
    /// followed by 2 bytes of length. The response will be length bytes long.
    ExReadRange { address: u32, length: u16 },
    /// Write a payload attribute. The payload is a one byte index, 8 bytes of
    /// key (null padded), one byte of value length, and the value field. The
    /// value length must be less than or equal to 55. The value may contain
    /// nulls. The attribute index must be less than 16.
    SetAttr { index: u8, key: Vec<u8>, value: Vec<u8> },
    /// Get a payload attribute. The payload is a 1 byte index. The result is
    /// 8 bytes of key, 1 byte of value length, and 55 bytes of potential
    /// value, of which only the first value-length bytes are meaningful.
    GetAttr { index: u8 },
    /// Get the CRC of a range of internal flash. The payload is a four byte
    /// address and a four byte range. The result will be a four byte crc32.
    CrcIntFlash { address: u32, length: u32 },
    /// Get the CRC of a range of external flash. The payload is a four byte
    /// address and a four byte range. The result will be a four byte crc32.
    CrcExFlash { address: u32, length: u32 },
    /// Erase a page in external flash. The payload is a 4 byte address
    /// pointing to the start of the 256 byte page.
    EraseExPage { address: u32 },
    /// Initialise the external flash chip. This sets the page size to 256
    /// bytes.
    ExFlashInit,
    /// Go into an infinite loop with the 32kHz clock present on a pin; used
    /// for clock calibration.
    ClockOut,
    /// Write the flash user pages (first 4 bytes is first page, second 4
    /// bytes is second page, little endian).
    WriteFlashUserPages { page1: u32, page2: u32 },
    /// Change the baud rate of the bootloader. The first payload byte is 0x01
    /// to set a new rate or 0x02 to verify it; the next 4 bytes are the rate.
    ChangeBaud { mode: BaudMode, baud: u32 },
}

/// The mathematical face of a [`Command`]: the same variants with byte
/// buffers abstracted to sequences. Contracts and laws are stated over this
/// type.
pub enum CommandView {
    Ping,
    Info,
    Id,
    Reset,
    ErasePage { address: u32 },
    WritePage { address: u32, data: Seq<u8> },
    EraseExBlock { address: u32 },
    WriteExPage { address: u32, data: Seq<u8> },
    CrcRxBuffer,
    ReadRange { address: u32, length: u16 },
    ExReadRange { address: u32, length: u16 },
    SetAttr { index: u8, key: Seq<u8>, value: Seq<u8> },
    GetAttr { index: u8 },
    CrcIntFlash { address: u32, length: u32 },
    CrcExFlash { address: u32, length: u32 },
    EraseExPage { address: u32 },
    ExFlashInit,
    ClockOut,
    WriteFlashUserPages { page1: u32, page2: u32 },
    ChangeBaud { mode: BaudMode, baud: u32 },
}

impl View for Command {
    type V = CommandView;

    open spec fn view(&self) -> CommandView {
        match self {
            Command::Ping => CommandView::Ping,
            Command::Info => CommandView::Info,
            Command::Id => CommandView::Id,
            Command::Reset => CommandView::Reset,
            Command::ErasePage { address } => CommandView::ErasePage { address: *address },
            Command::WritePage { address, data } => CommandView::WritePage {
                address: *address,
                data: data@,
            },
            Command::EraseExBlock { address } => CommandView::EraseExBlock { address: *address },
            Command::WriteExPage { address, data } => CommandView::WriteExPage {
                address: *address,
                data: data@,
            },
            Command::CrcRxBuffer => CommandView::CrcRxBuffer,
            Command::ReadRange { address, length } => CommandView::ReadRange {
                address: *address,
                length: *length,
            },
            Command::ExReadRange { address, length } => CommandView::ExReadRange {
                address: *address,
                length: *length,
            },
            Command::SetAttr { index, key, value } => CommandView::SetAttr {
                index: *index,
                key: key@,
                value: value@,
            },
            Command::GetAttr { index } => CommandView::GetAttr { index: *index },
            Command::CrcIntFlash { address, length } => CommandView::CrcIntFlash {
                address: *address,
                length: *length,
            },
            Command::CrcExFlash { address, length } => CommandView::CrcExFlash {
                address: *address,
                length: *length,
            },
            Command::EraseExPage { address } => CommandView::EraseExPage { address: *address },
            Command::ExFlashInit => CommandView::ExFlashInit,
            Command::ClockOut => CommandView::ClockOut,
            Command::WriteFlashUserPages { page1, page2 } => CommandView::WriteFlashUserPages {
                page1: *page1,
                page2: *page2,
            },
            Command::ChangeBaud { mode, baud } => CommandView::ChangeBaud {
                mode: *mode,
                baud: *baud,
            },
        }
    }
}

/// The wire byte that selects a baud-change mode.
pub open spec fn baud_mode_byte(m: BaudMode) -> u8 {
    match m {
        BaudMode::SetRate => 0x01,
        BaudMode::Verify => 0x02,
    }
}

/// The opcode byte that terminates this command's frame.
pub open spec fn command_opcode(c: CommandView) -> u8 {
    match c {
        CommandView::Ping => CMD_PING,
        CommandView::Info => CMD_INFO,
        CommandView::Id => CMD_ID,
        CommandView::Reset => CMD_RESET,
        CommandView::ErasePage { .. } => CMD_EPAGE,
        CommandView::WritePage { .. } => CMD_WPAGE,
        CommandView::EraseExBlock { .. } => CMD_XEBLOCK,
        CommandView::WriteExPage { .. } => CMD_XWPAGE,
        CommandView::CrcRxBuffer => CMD_CRCRX,
        CommandView::ReadRange { .. } => CMD_RRANGE,
        CommandView::ExReadRange { .. } => CMD_XRRANGE,
        CommandView::SetAttr { .. } => CMD_SATTR,
        CommandView::GetAttr { .. } => CMD_GATTR,
        CommandView::CrcIntFlash { .. } => CMD_CRCIF,
        CommandView::CrcExFlash { .. } => CMD_CRCEF,
        CommandView::EraseExPage { .. } => CMD_XEPAGE,
        CommandView::ExFlashInit => CMD_XFINIT,
        CommandView::ClockOut => CMD_CLKOUT,
        CommandView::WriteFlashUserPages { .. } => CMD_WUSER,
        CommandView::ChangeBaud { .. } => CMD_CHANGE_BAUD,
    }
}

/// The declared length of an attribute value: the value's own length, capped
/// at the longest the protocol allows.
pub open spec fn attr_value_len(value: Seq<u8>) -> nat {
    if value.len() <= ATTR_VALUE_MAX { value.len() } else { ATTR_VALUE_MAX as nat }
}

/// This command's payload before byte-stuffing: its fields in wire order,
/// integers little-endian, buffers padded to their field width.
pub open spec fn command_payload(c: CommandView) -> Seq<u8> {
    match c {
        CommandView::Ping => Seq::<u8>::empty(),
        CommandView::Info => Seq::<u8>::empty(),
        CommandView::Id => Seq::<u8>::empty(),
        CommandView::Reset => Seq::<u8>::empty(),
        CommandView::ErasePage { address } => le32_bytes(address),
        CommandView::WritePage { address, data } => le32_bytes(address) + pad_to(
            data,
            INT_PAGE_SIZE as nat,
            0xFF,
        ),
        CommandView::EraseExBlock { address } => le32_bytes(address),
        CommandView::WriteExPage { address, data } => le32_bytes(address) + pad_to(
            data,
            EX_PAGE_SIZE as nat,
            0xFF,
        ),
        CommandView::CrcRxBuffer => Seq::<u8>::empty(),
        CommandView::ReadRange { address, length } => le32_bytes(address) + le16_bytes(length),
        CommandView::ExReadRange { address, length } => le32_bytes(address) + le16_bytes(length),
        CommandView::SetAttr { index, key, value } => seq![index] + pad_to(
            key,
            ATTR_KEY_SIZE as nat,
            0x00,
        ) + seq![attr_value_len(value) as u8] + pad_to(value, ATTR_VALUE_FIELD as nat, 0xFF),
        CommandView::GetAttr { index } => seq![index],
        CommandView::CrcIntFlash { address, length } => le32_bytes(address) + le32_bytes(length),
        CommandView::CrcExFlash { address, length } => le32_bytes(address) + le32_bytes(length),
        CommandView::EraseExPage { address } => le32_bytes(address),
        CommandView::ExFlashInit => Seq::<u8>::empty(),
        CommandView::ClockOut => Seq::<u8>::empty(),
        CommandView::WriteFlashUserPages { page1, page2 } => le32_bytes(page1) + le32_bytes(page2),
        CommandView::ChangeBaud { mode, baud } => seq![baud_mode_byte(mode)] + le32_bytes(baud),
    }
}

/// The complete wire image of a command: its stuffed payload, the escape
/// marker, and its opcode.
pub open spec fn command_wire(c: CommandView) -> Seq<u8> {
    frame(command_payload(c), command_opcode(c))
}

/// A command whose buffers have their canonical wire sizes: a full page in a
/// page write, an exactly eight-byte key, and a value no longer than the
/// protocol allows. Decoding such a command's own wire image reproduces it
/// exactly; a shorter page comes back padded instead.
pub open spec fn command_wf(c: CommandView) -> bool {
    match c {
        CommandView::WritePage { data, .. } => data.len() == INT_PAGE_SIZE,
        CommandView::WriteExPage { data, .. } => data.len() == EX_PAGE_SIZE,
        CommandView::SetAttr { key, value, .. } => key.len() == ATTR_KEY_SIZE && value.len()
            <= ATTR_VALUE_MAX,
        _ => true,
    }
}

} // verus!
