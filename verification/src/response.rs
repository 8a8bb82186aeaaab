//! Responses the bootloader sends back to the flashing tool: the closed
//! vocabulary, its wire layout per variant, and the abstract view the
//! contracts speak of.

use vstd::prelude::*;

use crate::command::{attr_value_len, ATTR_KEY_SIZE, ATTR_VALUE_MAX};
use crate::framing::{frame, pad_to};
use crate::ints::{le16_bytes, le32_bytes};
use crate::wire::{
    BUFFER_CAPACITY, RES_BADADDR, RES_BADARGS, RES_CHANGE_BAUD_FAIL, RES_CRCIF, RES_CRCRX,
    RES_CRCXF, RES_GATTR, RES_INFO, RES_INTERROR, RES_OK, RES_OVERFLOW, RES_PONG, RES_RRANGE,
    RES_UNKNOWN, RES_XFEPE, RES_XFTIMEOUT, RES_XRRANGE,
};

verus! {

/// On-wire width of a `GetAttr` response's payload: eight bytes of key, one
/// byte of declared value length, and the full value field.
pub const ATTR_RSP_SIZE: usize = 64;

/// Responses supported by the protocol. A bootloader will encode these and a
/// flash tool will decode them.
#[derive(Debug, PartialEq)]
pub enum Response {
    /// A frame overflowed the bootloader's receive buffer.
    Overflow,
    /// The answer to a ping.
    Pong,
    /// The address given was not valid for the operation.
    BadAddress,
    /// The bootloader failed internally.
    InternalError,
    /// A command's payload did not have the required shape.
    BadArguments,
    /// The command succeeded.
    Okay,
    /// The command's opcode was not recognised.
    Unknown,
    /// The external flash chip timed out.
    ExFlashTimeout,
    /// The external flash chip reported a page error.
    ExFlashPageError,
    /// Length and CRC of the bootloader's RX buffer.
    CrcRxBuffer { length: u16, crc: u32 },
    /// Bytes read from internal flash.
    ReadRange { data: Vec<u8> },
    /// Bytes read from external flash.
    ExReadRange { data: Vec<u8> },
    /// An attribute: its key, and its value of which only the declared length
    /// is meaningful.
    GetAttr { key: Vec<u8>, value: Vec<u8> },
    /// CRC of a range of internal flash.
    CrcIntFlash { crc: u32 },
    /// CRC of a range of external flash.
    CrcExFlash { crc: u32 },
    /// The bootloader's info string.
    Info { info: Vec<u8> },
    /// A requested baud-rate change did not take effect.
    ChangeBaudFail,
}

/// The mathematical face of a [`Response`]: the same variants with byte
/// buffers abstracted to sequences. Contracts and laws are stated over this
/// type.
pub enum ResponseView {
    Overflow,
    Pong,
    BadAddress,
    InternalError,
    BadArguments,
    Okay,
    Unknown,
    ExFlashTimeout,
    ExFlashPageError,
    CrcRxBuffer { length: u16, crc: u32 },
    ReadRange { data: Seq<u8> },
    ExReadRange { data: Seq<u8> },
    GetAttr { key: Seq<u8>, value: Seq<u8> },
    CrcIntFlash { crc: u32 },
    CrcExFlash { crc: u32 },
    Info { info: Seq<u8> },
    ChangeBaudFail,
}

impl View for Response {
    type V = ResponseView;

    open spec fn view(&self) -> ResponseView {
        match self {
            Response::Overflow => ResponseView::Overflow,
            Response::Pong => ResponseView::Pong,
            Response::BadAddress => ResponseView::BadAddress,
            Response::InternalError => ResponseView::InternalError,
            Response::BadArguments => ResponseView::BadArguments,
            Response::Okay => ResponseView::Okay,
            Response::Unknown => ResponseView::Unknown,
            Response::ExFlashTimeout => ResponseView::ExFlashTimeout,
            Response::ExFlashPageError => ResponseView::ExFlashPageError,
            Response::CrcRxBuffer { length, crc } => ResponseView::CrcRxBuffer {
                length: *length,
                crc: *crc,
            },
            Response::ReadRange { data } => ResponseView::ReadRange { data: data@ },
            Response::ExReadRange { data } => ResponseView::ExReadRange { data: data@ },
            Response::GetAttr { key, value } => ResponseView::GetAttr {
                key: key@,
                value: value@,
            },
            Response::CrcIntFlash { crc } => ResponseView::CrcIntFlash { crc: *crc },
            Response::CrcExFlash { crc } => ResponseView::CrcExFlash { crc: *crc },
            Response::Info { info } => ResponseView::Info { info: info@ },
            Response::ChangeBaudFail => ResponseView::ChangeBaudFail,
        }
    }
}

/// The opcode byte that terminates this response's frame.
pub open spec fn response_opcode(r: ResponseView) -> u8 {
    match r {
        ResponseView::Overflow => RES_OVERFLOW,
        ResponseView::Pong => RES_PONG,
        ResponseView::BadAddress => RES_BADADDR,
        ResponseView::InternalError => RES_INTERROR,
        ResponseView::BadArguments => RES_BADARGS,
        ResponseView::Okay => RES_OK,
        ResponseView::Unknown => RES_UNKNOWN,
        ResponseView::ExFlashTimeout => RES_XFTIMEOUT,
        ResponseView::ExFlashPageError => RES_XFEPE,
        ResponseView::CrcRxBuffer { .. } => RES_CRCRX,
        ResponseView::ReadRange { .. } => RES_RRANGE,
        ResponseView::ExReadRange { .. } => RES_XRRANGE,
        ResponseView::GetAttr { .. } => RES_GATTR,
        ResponseView::CrcIntFlash { .. } => RES_CRCIF,
        ResponseView::CrcExFlash { .. } => RES_CRCXF,
        ResponseView::Info { .. } => RES_INFO,
        ResponseView::ChangeBaudFail => RES_CHANGE_BAUD_FAIL,
    }
}

/// This response's payload before byte-stuffing: its fields in wire order,
/// integers little-endian, the attribute value padded to its field width,
/// read data carried as it is.
pub open spec fn response_payload(r: ResponseView) -> Seq<u8> {
    match r {
        ResponseView::Overflow => Seq::<u8>::empty(),
        ResponseView::Pong => Seq::<u8>::empty(),
        ResponseView::BadAddress => Seq::<u8>::empty(),
        ResponseView::InternalError => Seq::<u8>::empty(),
        ResponseView::BadArguments => Seq::<u8>::empty(),
        ResponseView::Okay => Seq::<u8>::empty(),
        ResponseView::Unknown => Seq::<u8>::empty(),
        ResponseView::ExFlashTimeout => Seq::<u8>::empty(),
        ResponseView::ExFlashPageError => Seq::<u8>::empty(),
        ResponseView::CrcRxBuffer { length, crc } => le16_bytes(length) + le32_bytes(crc),
        ResponseView::ReadRange { data } => data,
        ResponseView::ExReadRange { data } => data,
        ResponseView::GetAttr { key, value } => pad_to(key, ATTR_KEY_SIZE as nat, 0x00) + seq![
            attr_value_len(value) as u8,
        ] + pad_to(value, ATTR_VALUE_MAX as nat, 0xFF),
        ResponseView::CrcIntFlash { crc } => le32_bytes(crc),
        ResponseView::CrcExFlash { crc } => le32_bytes(crc),
        ResponseView::Info { info } => info,
        ResponseView::ChangeBaudFail => Seq::<u8>::empty(),
    }
}

/// The complete wire image of a response: its stuffed payload, the escape
/// marker, and its opcode.
pub open spec fn response_wire(r: ResponseView) -> Seq<u8> {
    frame(response_payload(r), response_opcode(r))
}

/// A response whose buffers have their canonical wire sizes: an exactly
/// eight-byte key, a value no longer than the protocol allows, and read or
/// info data that fits a decoder's buffer. Decoding such a response's own
/// wire image reproduces it exactly.
pub open spec fn response_wf(r: ResponseView) -> bool {
    match r {
        ResponseView::ReadRange { data } => data.len() <= BUFFER_CAPACITY,
        ResponseView::ExReadRange { data } => data.len() <= BUFFER_CAPACITY,
        ResponseView::GetAttr { key, value } => key.len() == ATTR_KEY_SIZE && value.len()
            <= ATTR_VALUE_MAX,
        ResponseView::Info { info } => info.len() <= BUFFER_CAPACITY,
        _ => true,
    }
}

} // verus!
