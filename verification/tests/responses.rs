//! Tests for the response side of the codec: decoding byte streams into
//! responses and pulling wire bytes out of response encoders.

use tockloader_proto::wire::{
    RES_BADADDR, RES_CRCIF, RES_CRCRX, RES_GATTR, RES_INFO, RES_OK, RES_PONG, RES_RRANGE,
    RES_XRRANGE,
};
use tockloader_proto::{Error, Response, ResponseDecoder, ResponseEncoder, ESCAPE_CHAR};

#[test]
fn check_pong_rsp_decode() {
    let mut p = ResponseDecoder::new();
    assert_eq!(p.receive(ESCAPE_CHAR), Ok(None));
    match p.receive(RES_PONG) {
        Ok(Some(Response::Pong)) => {}
        e => panic!("Did not expect: {:?}", e),
    }
}

#[test]
fn check_pong_rsp_encode() {
    let rsp = Response::Pong;
    let mut e = ResponseEncoder::new(rsp);
    assert_eq!(e.next(), Some(ESCAPE_CHAR));
    assert_eq!(e.next(), Some(RES_PONG));
    assert_eq!(e.next(), None);
    assert_eq!(e.next(), None);
}

/// Pull every byte out of an encoder built for `rsp`.
fn encode_response(rsp: Response) -> Vec<u8> {
    let mut e = ResponseEncoder::new(rsp);
    let mut wire = Vec::new();
    while let Some(b) = e.next() {
        wire.push(b);
    }
    wire
}

/// Feed `wire` to a fresh decoder; every byte but the last must report
/// pending, and the last must complete a value.
fn decode_response(wire: &[u8]) -> Response {
    let mut p = ResponseDecoder::new();
    for &b in &wire[..wire.len() - 1] {
        assert_eq!(p.receive(b), Ok(None));
    }
    match p.receive(wire[wire.len() - 1]) {
        Ok(Some(rsp)) => rsp,
        e => panic!("Did not expect: {:?}", e),
    }
}

#[test]
fn round_trip_basic_responses() {
    let wire = encode_response(Response::Overflow);
    assert_eq!(decode_response(&wire), Response::Overflow);
    let wire = encode_response(Response::BadAddress);
    assert_eq!(decode_response(&wire), Response::BadAddress);
    let wire = encode_response(Response::InternalError);
    assert_eq!(decode_response(&wire), Response::InternalError);
    let wire = encode_response(Response::BadArguments);
    assert_eq!(decode_response(&wire), Response::BadArguments);
    let wire = encode_response(Response::Okay);
    assert_eq!(decode_response(&wire), Response::Okay);
    let wire = encode_response(Response::Unknown);
    assert_eq!(decode_response(&wire), Response::Unknown);
    let wire = encode_response(Response::ExFlashTimeout);
    assert_eq!(decode_response(&wire), Response::ExFlashTimeout);
    let wire = encode_response(Response::ExFlashPageError);
    assert_eq!(decode_response(&wire), Response::ExFlashPageError);
    let wire = encode_response(Response::ChangeBaudFail);
    assert_eq!(decode_response(&wire), Response::ChangeBaudFail);
}

#[test]
fn crc_rx_buffer_wire_layout() {
    // Two little-endian length bytes, four little-endian CRC bytes, then the
    // terminator.
    let wire = encode_response(Response::CrcRxBuffer {
        length: 0x1234,
        crc: 0xCAFEBABE,
    });
    assert_eq!(
        wire,
        vec![0x34, 0x12, 0xBE, 0xBA, 0xFE, 0xCA, ESCAPE_CHAR, RES_CRCRX]
    );
    assert_eq!(
        decode_response(&wire),
        Response::CrcRxBuffer {
            length: 0x1234,
            crc: 0xCAFEBABE
        }
    );
}

#[test]
fn round_trip_crc_flash_responses() {
    let wire = encode_response(Response::CrcIntFlash { crc: 0x00000000 });
    assert_eq!(decode_response(&wire), Response::CrcIntFlash { crc: 0 });
    let wire = encode_response(Response::CrcExFlash { crc: 0xFFFFFFFF });
    assert_eq!(
        decode_response(&wire),
        Response::CrcExFlash { crc: 0xFFFFFFFF }
    );
}

#[test]
fn round_trip_read_range_responses() {
    let data = vec![0x00, 0xFC, 0x7F, 0xFC, 0xFC];
    let wire = encode_response(Response::ReadRange { data: data.clone() });
    assert_eq!(decode_response(&wire), Response::ReadRange { data });
    let wire = encode_response(Response::ExReadRange { data: Vec::new() });
    assert_eq!(
        decode_response(&wire),
        Response::ExReadRange { data: Vec::new() }
    );
}

#[test]
fn read_range_escapes_data_on_the_wire() {
    let wire = encode_response(Response::ReadRange {
        data: vec![ESCAPE_CHAR],
    });
    assert_eq!(wire, vec![ESCAPE_CHAR, ESCAPE_CHAR, ESCAPE_CHAR, RES_RRANGE]);
    assert_eq!(
        decode_response(&wire),
        Response::ReadRange {
            data: vec![ESCAPE_CHAR]
        }
    );
}

#[test]
fn round_trip_get_attr_response() {
    let key = b"boardkey".to_vec();
    let value = b"tock".to_vec();
    let wire = encode_response(Response::GetAttr {
        key: key.clone(),
        value: value.clone(),
    });
    // Eight key bytes, the declared length, and the padded value field make
    // a sixty-four byte payload.
    assert_eq!(wire.len(), 64 + 2);
    assert_eq!(wire[8], 4);
    assert_eq!(decode_response(&wire), Response::GetAttr { key, value });
}

#[test]
fn round_trip_info_response() {
    let info = b"TockBootloader v1.0".to_vec();
    let wire = encode_response(Response::Info { info: info.clone() });
    assert_eq!(decode_response(&wire), Response::Info { info });
}

#[test]
fn response_wrong_length_is_rejected() {
    let mut p = ResponseDecoder::new();
    // Three payload bytes are too few for an RX-buffer CRC report.
    for b in [1, 2, 3] {
        assert_eq!(p.receive(b), Ok(None));
    }
    assert_eq!(p.receive(ESCAPE_CHAR), Ok(None));
    assert_eq!(p.receive(RES_CRCRX), Err(Error::BadArguments));
    // Five payload bytes are too many for a flash CRC report, and the error
    // above cleared the buffer.
    for b in [1, 2, 3, 4, 5] {
        assert_eq!(p.receive(b), Ok(None));
    }
    assert_eq!(p.receive(ESCAPE_CHAR), Ok(None));
    assert_eq!(p.receive(RES_CRCIF), Err(Error::BadArguments));
    // The next frame starts clean.
    assert_eq!(p.receive(ESCAPE_CHAR), Ok(None));
    match p.receive(RES_OK) {
        Ok(Some(Response::Okay)) => {}
        e => panic!("Did not expect: {:?}", e),
    }
}

#[test]
fn get_attr_over_declared_length_is_rejected() {
    let mut p = ResponseDecoder::new();
    // A sixty-four byte payload whose declared value length exceeds the
    // value field is rejected.
    for i in 0..64 {
        let b = if i == 8 { 56 } else { 0x20 };
        assert_eq!(p.receive(b), Ok(None));
    }
    assert_eq!(p.receive(ESCAPE_CHAR), Ok(None));
    assert_eq!(p.receive(RES_GATTR), Err(Error::BadArguments));
}

#[test]
fn response_unknown_opcode_is_noise() {
    let mut p = ResponseDecoder::new();
    assert_eq!(p.receive(0x42), Ok(None));
    assert_eq!(p.receive(ESCAPE_CHAR), Ok(None));
    // 0x7F names no response: noise, and the payload stays buffered for the
    // frame that follows.
    assert_eq!(p.receive(0x7F), Ok(None));
    assert_eq!(p.receive(ESCAPE_CHAR), Ok(None));
    assert_eq!(
        p.receive(RES_INFO),
        Ok(Some(Response::Info { info: vec![0x42] }))
    );
}

#[test]
fn response_decoder_reset_discards_partial_frame() {
    let mut p = ResponseDecoder::new();
    for b in [9, 9, 9] {
        assert_eq!(p.receive(b), Ok(None));
    }
    p.reset();
    assert_eq!(p.receive(ESCAPE_CHAR), Ok(None));
    assert_eq!(p.receive(RES_XRRANGE), Ok(Some(Response::ExReadRange { data: Vec::new() })));
    // A field-free frame still decodes over a stale buffer.
    for b in [1, 2] {
        assert_eq!(p.receive(b), Ok(None));
    }
    assert_eq!(p.receive(ESCAPE_CHAR), Ok(None));
    match p.receive(RES_BADADDR) {
        Ok(Some(Response::BadAddress)) => {}
        e => panic!("Did not expect: {:?}", e),
    }
}

#[test]
fn response_encoder_exhausts_after_terminator() {
    let mut e = ResponseEncoder::new(Response::CrcIntFlash { crc: 0x01020304 });
    assert_eq!(e.next(), Some(0x04));
    assert_eq!(e.next(), Some(0x03));
    assert_eq!(e.next(), Some(0x02));
    assert_eq!(e.next(), Some(0x01));
    assert_eq!(e.next(), Some(ESCAPE_CHAR));
    assert_eq!(e.next(), Some(RES_CRCIF));
    assert_eq!(e.next(), None);
    assert_eq!(e.next(), None);
    assert_eq!(e.next(), None);
}
