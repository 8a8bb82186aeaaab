//! Wire vocabulary: the reserved escape byte and the opcode assigned to each
//! command and response of the bootloader protocol.
//!
//! A frame on the wire is a run of payload bytes followed by the escape
//! marker and one opcode byte. A literal `0xFC` inside a payload travels as
//! two consecutive `0xFC` bytes; a single `0xFC` always announces the
//! frame-terminating opcode.

use vstd::prelude::*;

verus! {

/// The reserved byte: doubled it stands for itself inside a payload, single
/// it introduces the frame-terminating opcode.
pub const ESCAPE_CHAR: u8 = 0xFC;

pub const CMD_PING: u8 = 0x01;
pub const CMD_INFO: u8 = 0x03;
pub const CMD_ID: u8 = 0x04;
pub const CMD_RESET: u8 = 0x05;
pub const CMD_EPAGE: u8 = 0x06;
pub const CMD_WPAGE: u8 = 0x07;
pub const CMD_XEBLOCK: u8 = 0x08;
pub const CMD_XWPAGE: u8 = 0x09;
pub const CMD_CRCRX: u8 = 0x10;
pub const CMD_RRANGE: u8 = 0x11;
pub const CMD_XRRANGE: u8 = 0x12;
pub const CMD_SATTR: u8 = 0x13;
pub const CMD_GATTR: u8 = 0x14;
pub const CMD_CRCIF: u8 = 0x15;
pub const CMD_CRCEF: u8 = 0x16;
pub const CMD_XEPAGE: u8 = 0x17;
pub const CMD_XFINIT: u8 = 0x18;
pub const CMD_CLKOUT: u8 = 0x19;
pub const CMD_WUSER: u8 = 0x20;
pub const CMD_CHANGE_BAUD: u8 = 0x21;

pub const RES_OVERFLOW: u8 = 0x10;
pub const RES_PONG: u8 = 0x11;
pub const RES_BADADDR: u8 = 0x12;
pub const RES_INTERROR: u8 = 0x13;
pub const RES_BADARGS: u8 = 0x14;
pub const RES_OK: u8 = 0x15;
pub const RES_UNKNOWN: u8 = 0x16;
pub const RES_XFTIMEOUT: u8 = 0x17;
pub const RES_XFEPE: u8 = 0x18;
pub const RES_CRCRX: u8 = 0x19;
pub const RES_RRANGE: u8 = 0x20;
pub const RES_XRRANGE: u8 = 0x21;
pub const RES_GATTR: u8 = 0x22;
pub const RES_CRCIF: u8 = 0x23;
pub const RES_CRCXF: u8 = 0x24;
pub const RES_INFO: u8 = 0x25;
pub const RES_CHANGE_BAUD_FAIL: u8 = 0x26;

/// Capacity of a decoder's payload buffer: enough for the largest fixed
/// payload (a four-byte address followed by a 512-byte page) with room to
/// spare. Bytes arriving beyond this many are silently dropped.
pub const BUFFER_CAPACITY: usize = 520;

} // verus!
