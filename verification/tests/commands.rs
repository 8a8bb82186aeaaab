//! Tests for the command side of the codec: decoding byte streams into
//! commands and pulling wire bytes out of command encoders.

use tockloader_proto::wire::{
    CMD_CHANGE_BAUD, CMD_EPAGE, CMD_GATTR, CMD_ID, CMD_INFO, CMD_PING, CMD_RESET, CMD_SATTR,
    CMD_WPAGE, CMD_WUSER,
};
use tockloader_proto::{BaudMode, Command, CommandDecoder, CommandEncoder, Error, ESCAPE_CHAR};

#[test]
fn check_cmd_ping_decode() {
    let mut p = CommandDecoder::new();
    assert_eq!(p.receive(ESCAPE_CHAR), Ok(None));
    match p.receive(CMD_PING) {
        Ok(Some(Command::Ping)) => {}
        e => panic!("Did not expect: {:?}", e),
    }
}

#[test]
fn check_cmd_ping_encode() {
    let cmd = Command::Ping;
    let mut e = CommandEncoder::new(cmd);
    assert_eq!(e.next(), Some(ESCAPE_CHAR));
    assert_eq!(e.next(), Some(CMD_PING));
    assert_eq!(e.next(), None);
    assert_eq!(e.next(), None);
}

#[test]
fn check_cmd_info_decode() {
    let mut p = CommandDecoder::new();
    assert_eq!(p.receive(ESCAPE_CHAR), Ok(None));
    match p.receive(CMD_INFO) {
        Ok(Some(Command::Info)) => {}
        e => panic!("Did not expect: {:?}", e),
    }
}

#[test]
fn check_cmd_info_encode() {
    let cmd = Command::Info;
    let mut e = CommandEncoder::new(cmd);
    assert_eq!(e.next(), Some(ESCAPE_CHAR));
    assert_eq!(e.next(), Some(CMD_INFO));
    assert_eq!(e.next(), None);
    assert_eq!(e.next(), None);
}

#[test]
fn check_cmd_id_decode() {
    let mut p = CommandDecoder::new();
    assert_eq!(p.receive(ESCAPE_CHAR), Ok(None));
    match p.receive(CMD_ID) {
        Ok(Some(Command::Id)) => {}
        e => panic!("Did not expect: {:?}", e),
    }
}

#[test]
fn check_cmd_id_encode() {
    let cmd = Command::Id;
    let mut e = CommandEncoder::new(cmd);
    assert_eq!(e.next(), Some(ESCAPE_CHAR));
    assert_eq!(e.next(), Some(CMD_ID));
    assert_eq!(e.next(), None);
    assert_eq!(e.next(), None);
}

#[test]
fn check_cmd_reset_decode() {
    let mut p = CommandDecoder::new();
    assert_eq!(p.receive(ESCAPE_CHAR), Ok(None));
    match p.receive(CMD_RESET) {
        Ok(Some(Command::Reset)) => {}
        e => panic!("Did not expect: {:?}", e),
    }
}

#[test]
fn check_cmd_reset_encode() {
    let cmd = Command::Reset;
    let mut e = CommandEncoder::new(cmd);
    assert_eq!(e.next(), Some(ESCAPE_CHAR));
    assert_eq!(e.next(), Some(CMD_RESET));
    assert_eq!(e.next(), None);
    assert_eq!(e.next(), None);
}

#[test]
fn check_cmd_erase_page_decode() {
    let mut p = CommandDecoder::new();
    assert_eq!(p.receive(0xEF), Ok(None));
    assert_eq!(p.receive(0xBE), Ok(None));
    assert_eq!(p.receive(0xAD), Ok(None));
    assert_eq!(p.receive(0xDE), Ok(None));
    assert_eq!(p.receive(ESCAPE_CHAR), Ok(None)); // Escape
    match p.receive(CMD_EPAGE) {
        Ok(Some(Command::ErasePage { address })) => {
            assert_eq!(address, 0xDEADBEEF);
        }
        e => panic!("Did not expect: {:?}", e),
    }
}

#[test]
fn check_cmd_erase_page_encode() {
    let cmd = Command::ErasePage { address: 0xDEADBEEF };
    let mut e = CommandEncoder::new(cmd);
    // 4 byte address, little-endian
    assert_eq!(e.next(), Some(0xEF));
    assert_eq!(e.next(), Some(0xBE));
    assert_eq!(e.next(), Some(0xAD));
    assert_eq!(e.next(), Some(0xDE));
    assert_eq!(e.next(), Some(ESCAPE_CHAR));
    assert_eq!(e.next(), Some(CMD_EPAGE));
    assert_eq!(e.next(), None);
    assert_eq!(e.next(), None);
}

#[test]
fn check_cmd_write_page_decode() {
    let mut p = CommandDecoder::new();
    assert_eq!(p.receive(0xEF), Ok(None));
    assert_eq!(p.receive(0xBE), Ok(None));
    assert_eq!(p.receive(0xAD), Ok(None));
    assert_eq!(p.receive(0xDE), Ok(None));
    for i in 0..512 {
        let datum = i as u8;
        assert_eq!(p.receive(datum), Ok(None));
        if datum == ESCAPE_CHAR {
            assert_eq!(p.receive(datum), Ok(None));
        }
    }
    assert_eq!(p.receive(ESCAPE_CHAR), Ok(None)); // Escape
    match p.receive(CMD_WPAGE) {
        Ok(Some(Command::WritePage {
            address,
            data: ref page,
        })) => {
            assert_eq!(address, 0xDEADBEEF);
            assert_eq!(page.len(), 512);
            for i in 0..512 {
                let datum = i as u8;
                assert_eq!(datum, page[i as usize]);
            }
        }
        e => panic!("Did not expect: {:?}", e),
    }
}

#[test]
fn check_cmd_write_page_encode() {
    let buffer: [u8; 5] = [0, 1, 2, 3, 4];
    let cmd = Command::WritePage {
        address: 0xDEADBEEF,
        data: buffer.to_vec(),
    };
    let mut e = CommandEncoder::new(cmd);
    // 4 byte address, little-endian
    assert_eq!(e.next(), Some(0xEF));
    assert_eq!(e.next(), Some(0xBE));
    assert_eq!(e.next(), Some(0xAD));
    assert_eq!(e.next(), Some(0xDE));
    // 5 bytes of data
    assert_eq!(e.next(), Some(0x00));
    assert_eq!(e.next(), Some(0x01));
    assert_eq!(e.next(), Some(0x02));
    assert_eq!(e.next(), Some(0x03));
    assert_eq!(e.next(), Some(0x04));
    for _ in 0..507 {
        // Padding up to 512 data bytes in the page
        assert_eq!(e.next(), Some(0xFF));
    }
    assert_eq!(e.next(), Some(ESCAPE_CHAR));
    assert_eq!(e.next(), Some(CMD_WPAGE));
    assert_eq!(e.next(), None);
    assert_eq!(e.next(), None);
}

/// Pull every byte out of an encoder built for `cmd`.
fn encode_command(cmd: Command) -> Vec<u8> {
    let mut e = CommandEncoder::new(cmd);
    let mut wire = Vec::new();
    while let Some(b) = e.next() {
        wire.push(b);
    }
    wire
}

/// Feed `wire` to a fresh decoder; every byte but the last must report
/// pending, and the last must complete a value.
fn decode_command(wire: &[u8]) -> Command {
    let mut p = CommandDecoder::new();
    for &b in &wire[..wire.len() - 1] {
        assert_eq!(p.receive(b), Ok(None));
    }
    match p.receive(wire[wire.len() - 1]) {
        Ok(Some(cmd)) => cmd,
        e => panic!("Did not expect: {:?}", e),
    }
}

#[test]
fn round_trip_basic_commands() {
    let wire = encode_command(Command::Ping);
    assert_eq!(decode_command(&wire), Command::Ping);
    let wire = encode_command(Command::Info);
    assert_eq!(decode_command(&wire), Command::Info);
    let wire = encode_command(Command::Id);
    assert_eq!(decode_command(&wire), Command::Id);
    let wire = encode_command(Command::Reset);
    assert_eq!(decode_command(&wire), Command::Reset);
    let wire = encode_command(Command::CrcRxBuffer);
    assert_eq!(decode_command(&wire), Command::CrcRxBuffer);
    let wire = encode_command(Command::ExFlashInit);
    assert_eq!(decode_command(&wire), Command::ExFlashInit);
    let wire = encode_command(Command::ClockOut);
    assert_eq!(decode_command(&wire), Command::ClockOut);
}

#[test]
fn round_trip_addressed_commands() {
    let wire = encode_command(Command::EraseExBlock { address: 0x01020304 });
    assert_eq!(
        decode_command(&wire),
        Command::EraseExBlock { address: 0x01020304 }
    );
    let wire = encode_command(Command::EraseExPage { address: 0xFFFFFFFF });
    assert_eq!(
        decode_command(&wire),
        Command::EraseExPage { address: 0xFFFFFFFF }
    );
    let wire = encode_command(Command::ReadRange {
        address: 0xCAFEBABE,
        length: 0x1234,
    });
    assert_eq!(
        decode_command(&wire),
        Command::ReadRange {
            address: 0xCAFEBABE,
            length: 0x1234
        }
    );
    let wire = encode_command(Command::ExReadRange {
        address: 0,
        length: 0,
    });
    assert_eq!(
        decode_command(&wire),
        Command::ExReadRange {
            address: 0,
            length: 0
        }
    );
    let wire = encode_command(Command::CrcIntFlash {
        address: 0x11223344,
        length: 0x55667788,
    });
    assert_eq!(
        decode_command(&wire),
        Command::CrcIntFlash {
            address: 0x11223344,
            length: 0x55667788
        }
    );
    let wire = encode_command(Command::CrcExFlash {
        address: 0xFCFCFCFC,
        length: 4,
    });
    assert_eq!(
        decode_command(&wire),
        Command::CrcExFlash {
            address: 0xFCFCFCFC,
            length: 4
        }
    );
    let wire = encode_command(Command::WriteFlashUserPages {
        page1: 0xAABBCCDD,
        page2: 0x00112233,
    });
    assert_eq!(
        decode_command(&wire),
        Command::WriteFlashUserPages {
            page1: 0xAABBCCDD,
            page2: 0x00112233
        }
    );
    let wire = encode_command(Command::GetAttr { index: 7 });
    assert_eq!(decode_command(&wire), Command::GetAttr { index: 7 });
}

#[test]
fn round_trip_write_pages_full_width() {
    let page: Vec<u8> = (0..512).map(|i| (i % 251) as u8).collect();
    let wire = encode_command(Command::WritePage {
        address: 0xDEADBEEF,
        data: page.clone(),
    });
    assert_eq!(
        decode_command(&wire),
        Command::WritePage {
            address: 0xDEADBEEF,
            data: page
        }
    );
    let ex_page: Vec<u8> = (0..256).map(|i| i as u8).collect();
    let wire = encode_command(Command::WriteExPage {
        address: 0x100,
        data: ex_page.clone(),
    });
    assert_eq!(
        decode_command(&wire),
        Command::WriteExPage {
            address: 0x100,
            data: ex_page
        }
    );
}

#[test]
fn round_trip_set_attr() {
    let key = b"hello\0\0\0".to_vec();
    let value = b"world".to_vec();
    let wire = encode_command(Command::SetAttr {
        index: 3,
        key: key.clone(),
        value: value.clone(),
    });
    assert_eq!(
        decode_command(&wire),
        Command::SetAttr {
            index: 3,
            key,
            value
        }
    );
    // The longest value the protocol allows still round-trips.
    let key = vec![0xFC; 8];
    let value = vec![0xAB; 55];
    let wire = encode_command(Command::SetAttr {
        index: 15,
        key: key.clone(),
        value: value.clone(),
    });
    assert_eq!(
        decode_command(&wire),
        Command::SetAttr {
            index: 15,
            key,
            value
        }
    );
}

#[test]
fn round_trip_change_baud() {
    let wire = encode_command(Command::ChangeBaud {
        mode: BaudMode::SetRate,
        baud: 115200,
    });
    assert_eq!(wire[0], 0x01);
    assert_eq!(
        decode_command(&wire),
        Command::ChangeBaud {
            mode: BaudMode::SetRate,
            baud: 115200
        }
    );
    let wire = encode_command(Command::ChangeBaud {
        mode: BaudMode::Verify,
        baud: 115200,
    });
    assert_eq!(wire[0], 0x02);
    assert_eq!(
        decode_command(&wire),
        Command::ChangeBaud {
            mode: BaudMode::Verify,
            baud: 115200
        }
    );
}

#[test]
fn set_attr_wire_layout() {
    // index, null-padded key, declared length, value padded with 0xFF to its
    // field width, then the terminator.
    let wire = encode_command(Command::SetAttr {
        index: 1,
        key: b"ab".to_vec(),
        value: b"xy".to_vec(),
    });
    assert_eq!(wire[0], 1);
    assert_eq!(&wire[1..9], &[b'a', b'b', 0, 0, 0, 0, 0, 0]);
    assert_eq!(wire[9], 2);
    assert_eq!(&wire[10..12], b"xy");
    assert!(wire[12..66].iter().all(|&b| b == 0xFF));
    assert_eq!(wire[66], ESCAPE_CHAR);
    assert_eq!(wire[67], CMD_SATTR);
    assert_eq!(wire.len(), 68);
}

#[test]
fn encoder_doubles_escape_bytes() {
    // An address made of escape bytes travels as eight escape bytes before
    // the single-escape terminator.
    let wire = encode_command(Command::ErasePage { address: 0xFCFCFCFC });
    assert_eq!(
        wire,
        vec![
            ESCAPE_CHAR,
            ESCAPE_CHAR,
            ESCAPE_CHAR,
            ESCAPE_CHAR,
            ESCAPE_CHAR,
            ESCAPE_CHAR,
            ESCAPE_CHAR,
            ESCAPE_CHAR,
            ESCAPE_CHAR,
            CMD_EPAGE
        ]
    );
    let mut p = CommandDecoder::new();
    for &b in &wire[..wire.len() - 1] {
        assert_eq!(p.receive(b), Ok(None));
    }
    assert_eq!(
        p.receive(CMD_EPAGE),
        Ok(Some(Command::ErasePage { address: 0xFCFCFCFC }))
    );
}

#[test]
fn wrong_length_is_rejected_and_buffer_clears() {
    let mut p = CommandDecoder::new();
    // Three bytes are too short for an erase-page frame.
    assert_eq!(p.receive(0x01), Ok(None));
    assert_eq!(p.receive(0x02), Ok(None));
    assert_eq!(p.receive(0x03), Ok(None));
    assert_eq!(p.receive(ESCAPE_CHAR), Ok(None));
    assert_eq!(p.receive(CMD_EPAGE), Err(Error::BadArguments));
    // Five bytes are too long; the error cleared the previous frame.
    for b in [1, 2, 3, 4, 5] {
        assert_eq!(p.receive(b), Ok(None));
    }
    assert_eq!(p.receive(ESCAPE_CHAR), Ok(None));
    assert_eq!(p.receive(CMD_EPAGE), Err(Error::BadArguments));
    // The decoder starts the next frame clean.
    for b in [0xEF, 0xBE, 0xAD, 0xDE] {
        assert_eq!(p.receive(b), Ok(None));
    }
    assert_eq!(p.receive(ESCAPE_CHAR), Ok(None));
    assert_eq!(
        p.receive(CMD_EPAGE),
        Ok(Some(Command::ErasePage { address: 0xDEADBEEF }))
    );
}

#[test]
fn wrong_mode_byte_is_rejected() {
    let mut p = CommandDecoder::new();
    for b in [0x03, 0x00, 0xC2, 0x01, 0x00] {
        assert_eq!(p.receive(b), Ok(None));
    }
    assert_eq!(p.receive(ESCAPE_CHAR), Ok(None));
    assert_eq!(p.receive(CMD_CHANGE_BAUD), Err(Error::BadArguments));
}

#[test]
fn set_attr_too_short_is_rejected() {
    let mut p = CommandDecoder::new();
    // Nine bytes fall short of the ten-byte prefix.
    for b in 0..9u8 {
        assert_eq!(p.receive(b), Ok(None));
    }
    assert_eq!(p.receive(ESCAPE_CHAR), Ok(None));
    assert_eq!(p.receive(CMD_SATTR), Err(Error::BadArguments));
    // Exactly prefix plus declared length is still too short: the check is
    // strict.
    for b in [9, 0, 0, 0, 0, 0, 0, 0, 0, 1, 0xAA] {
        assert_eq!(p.receive(b), Ok(None));
    }
    assert_eq!(p.receive(ESCAPE_CHAR), Ok(None));
    assert_eq!(p.receive(CMD_SATTR), Err(Error::BadArguments));
}

#[test]
fn overlong_frame_is_dropped_not_stored() {
    let mut p = CommandDecoder::new();
    // Far more payload bytes than the buffer holds: the excess is dropped
    // and the eventual frame is judged on the capped prefix.
    for _ in 0..600 {
        assert_eq!(p.receive(0x00), Ok(None));
    }
    assert_eq!(p.receive(ESCAPE_CHAR), Ok(None));
    assert_eq!(p.receive(CMD_WUSER), Err(Error::BadArguments));
    // And the decoder is immediately usable again.
    assert_eq!(p.receive(ESCAPE_CHAR), Ok(None));
    match p.receive(CMD_PING) {
        Ok(Some(Command::Ping)) => {}
        e => panic!("Did not expect: {:?}", e),
    }
}

#[test]
fn unknown_opcode_is_noise_and_keeps_buffer() {
    let mut p = CommandDecoder::new();
    for b in [0xEF, 0xBE, 0xAD, 0xDE] {
        assert_eq!(p.receive(b), Ok(None));
    }
    assert_eq!(p.receive(ESCAPE_CHAR), Ok(None));
    // 0x7F names no command: the frame is treated as noise and the payload
    // stays buffered.
    assert_eq!(p.receive(0x7F), Ok(None));
    assert_eq!(p.receive(ESCAPE_CHAR), Ok(None));
    assert_eq!(
        p.receive(CMD_EPAGE),
        Ok(Some(Command::ErasePage { address: 0xDEADBEEF }))
    );
}

#[test]
fn reset_discards_partial_frame() {
    let mut p = CommandDecoder::new();
    for b in [1, 2, 3, 4, 5, 6, 7] {
        assert_eq!(p.receive(b), Ok(None));
    }
    p.reset();
    for b in [0xEF, 0xBE, 0xAD, 0xDE] {
        assert_eq!(p.receive(b), Ok(None));
    }
    assert_eq!(p.receive(ESCAPE_CHAR), Ok(None));
    assert_eq!(
        p.receive(CMD_EPAGE),
        Ok(Some(Command::ErasePage { address: 0xDEADBEEF }))
    );
}

#[test]
fn scenario_escaped_literal_then_ping() {
    // An escaped literal escape byte is buffered, then a ping frame ends:
    // ping carries no fields, so the leftover byte is ignored and discarded.
    let mut p = CommandDecoder::new();
    assert_eq!(p.receive(0xFC), Ok(None));
    assert_eq!(p.receive(0xFC), Ok(None));
    assert_eq!(p.receive(0xFC), Ok(None));
    match p.receive(0x01) {
        Ok(Some(Command::Ping)) => {}
        e => panic!("Did not expect: {:?}", e),
    }
    // The completed frame cleared the buffer: a fresh erase-page frame
    // decodes from its own four bytes alone.
    for b in [0xEF, 0xBE, 0xAD, 0xDE] {
        assert_eq!(p.receive(b), Ok(None));
    }
    assert_eq!(p.receive(ESCAPE_CHAR), Ok(None));
    assert_eq!(
        p.receive(CMD_EPAGE),
        Ok(Some(Command::ErasePage { address: 0xDEADBEEF }))
    );
}

#[test]
fn short_get_attr_command_round_trips() {
    let wire = encode_command(Command::GetAttr { index: 0 });
    assert_eq!(wire, vec![0x00, ESCAPE_CHAR, CMD_GATTR]);
}
