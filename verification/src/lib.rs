//! A byte-stream codec for the Tock bootloader's serial protocol.
//!
//! A flashing tool encodes [`Command`]s and decodes [`Response`]s; the
//! bootloader on the other end of the line does the reverse. Both directions
//! share one framing discipline: a frame is a run of payload bytes followed
//! by the escape marker `0xFC` and a single opcode byte, and a literal `0xFC`
//! inside a payload is doubled on the wire.
//!
//! Decoders consume one byte at a time and report either that more bytes are
//! needed, a completed value, or a decode error. Encoders are built around
//! one value and hand its wire bytes out one at a time until exhausted.

pub mod command;
pub mod command_decoder;
pub mod command_encoder;
pub mod decoder;
pub mod encoder;
pub mod framing;
pub mod ints;
pub mod laws;
pub mod response;
pub mod response_decoder;
pub mod response_encoder;
pub mod wire;

pub use command::{BaudMode, Command, CommandView};
pub use command_decoder::CommandDecoder;
pub use command_encoder::CommandEncoder;
pub use decoder::Error;
pub use ints::{parse_u16, parse_u32};
pub use response::{Response, ResponseView};
pub use response_decoder::ResponseDecoder;
pub use response_encoder::ResponseEncoder;
pub use wire::{BUFFER_CAPACITY, ESCAPE_CHAR};
