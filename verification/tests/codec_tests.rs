use voltage_iec104::{Apci, Apdu, Asdu, AsduHeader, Cot, Iec104Codec, TypeId, UFunction, START_BYTE};

#[test]
fn test_decode_u_frame() {
    let mut codec = Iec104Codec::new();
    let mut buf: Vec<u8> = vec![0x68, 0x04, 0x07, 0x00, 0x00, 0x00];

    let apdu = codec.decode(&mut buf).unwrap().unwrap();
    assert!(apdu.is_u_frame());

    if let Apci::UFrame { function } = apdu.apci {
        assert_eq!(function, UFunction::StartDtAct);
    } else {
        panic!("Expected U-frame");
    }
}

#[test]
fn test_decode_s_frame() {
    let mut codec = Iec104Codec::new();
    // S-frame with recv_seq = 100
    let mut buf: Vec<u8> = vec![0x68, 0x04, 0x01, 0x00, 0xC8, 0x00];

    let apdu = codec.decode(&mut buf).unwrap().unwrap();
    assert!(apdu.is_s_frame());
    assert_eq!(apdu.apci.recv_seq(), Some(100));
}

#[test]
fn test_encode_u_frame() {
    let mut codec = Iec104Codec::new();
    let mut buf: Vec<u8> = Vec::new();

    let apdu = Apdu::u_frame(UFunction::StartDtAct);
    codec.encode(apdu, &mut buf).unwrap();

    assert_eq!(&buf[..], &[0x68, 0x04, 0x07, 0x00, 0x00, 0x00]);
}

#[test]
fn test_encode_s_frame() {
    let mut codec = Iec104Codec::new();
    let mut buf: Vec<u8> = Vec::new();

    let apdu = Apdu::s_frame(100);
    codec.encode(apdu, &mut buf).unwrap();

    assert_eq!(&buf[..], &[0x68, 0x04, 0x01, 0x00, 0xC8, 0x00]);
}

#[test]
fn test_encode_i_frame() {
    let mut codec = Iec104Codec::new();
    let mut buf: Vec<u8> = Vec::new();

    let asdu = Asdu::new(AsduHeader::new(
        TypeId::InterrogationCommand,
        1,
        Cot::Activation,
        1,
    ));
    let apdu = Apdu::i_frame(10, 5, asdu);
    codec.encode(apdu, &mut buf).unwrap();

    // Verify header structure
    assert_eq!(buf[0], START_BYTE);
    // Length should be 4 (control) + 6 (ASDU header) = 10
    assert_eq!(buf[1], 10);
}

#[test]
fn test_decode_partial_frame() {
    let mut codec = Iec104Codec::new();

    // Send first part
    let mut buf: Vec<u8> = vec![0x68, 0x04];
    assert!(codec.decode(&mut buf).unwrap().is_none());

    // Send remaining part
    buf.extend_from_slice(&[0x07, 0x00, 0x00, 0x00]);
    let apdu = codec.decode(&mut buf).unwrap().unwrap();
    assert!(apdu.is_u_frame());
}

#[test]
fn test_decode_skip_garbage() {
    let mut codec = Iec104Codec::new();
    // Garbage bytes before valid frame
    let mut buf: Vec<u8> = vec![0xFF, 0xAA, 0x68, 0x04, 0x07, 0x00, 0x00, 0x00];

    let apdu = codec.decode(&mut buf).unwrap().unwrap();
    assert!(apdu.is_u_frame());
}

#[test]
fn test_roundtrip() {
    let mut codec = Iec104Codec::new();

    // Test U-frame roundtrip
    for func in [
        UFunction::StartDtAct,
        UFunction::StartDtCon,
        UFunction::StopDtAct,
        UFunction::StopDtCon,
        UFunction::TestFrAct,
        UFunction::TestFrCon,
    ] {
        let mut buf: Vec<u8> = Vec::new();
        codec.encode(Apdu::u_frame(func), &mut buf).unwrap();

        let decoded = codec.decode(&mut buf).unwrap().unwrap();
        assert_eq!(decoded.apci, Apci::u_frame(func));
    }

    // Test S-frame roundtrip
    for recv_seq in [0, 100, 32767] {
        let mut buf: Vec<u8> = Vec::new();
        codec.encode(Apdu::s_frame(recv_seq), &mut buf).unwrap();

        let decoded = codec.decode(&mut buf).unwrap().unwrap();
        assert_eq!(decoded.apci, Apci::s_frame(recv_seq));
    }
}

#[test]
fn test_decode_empty_buffer() {
    let mut codec = Iec104Codec::new();
    let mut buf: Vec<u8> = Vec::new();
    let result = codec.decode(&mut buf).unwrap();
    assert!(result.is_none());
}

#[test]
fn test_decode_invalid_length_too_small() {
    let mut codec = Iec104Codec::new();
    // Length byte = 3, which is less than the minimum APDU length (4)
    let mut buf: Vec<u8> = vec![0x68, 0x03, 0x00, 0x00, 0x00];
    // Should skip this start byte and restart
    let result = codec.decode(&mut buf).unwrap();
    assert!(result.is_none());
}

#[test]
fn test_decode_invalid_length_too_large() {
    let mut codec = Iec104Codec::new();
    // Length byte = 254, which is greater than the maximum APDU length (253)
    let mut buf: Vec<u8> = vec![0x68, 0xFE, 0x00, 0x00, 0x00, 0x00];
    // Should skip this start byte and restart
    let result = codec.decode(&mut buf).unwrap();
    assert!(result.is_none());
}

#[test]
fn test_decode_multiple_frames_in_buffer() {
    let mut codec = Iec104Codec::new();
    // Two U-frames in one buffer
    let mut buf: Vec<u8> = vec![
        0x68, 0x04, 0x07, 0x00, 0x00, 0x00, // STARTDT act
        0x68, 0x04, 0x0B, 0x00, 0x00, 0x00, // STARTDT con
    ];

    let apdu1 = codec.decode(&mut buf).unwrap().unwrap();
    assert!(apdu1.is_u_frame());
    if let Apci::UFrame { function } = apdu1.apci {
        assert_eq!(function, UFunction::StartDtAct);
    }

    let apdu2 = codec.decode(&mut buf).unwrap().unwrap();
    assert!(apdu2.is_u_frame());
    if let Apci::UFrame { function } = apdu2.apci {
        assert_eq!(function, UFunction::StartDtCon);
    }

    // Buffer should be empty now
    assert!(buf.is_empty());
}

#[test]
fn test_decode_i_frame_with_asdu() {
    let mut codec = Iec104Codec::new();
    // I-frame with simple ASDU
    let mut buf: Vec<u8> = vec![
        0x68, 0x0E, // Start + length (14 bytes)
        0x00, 0x00, 0x00, 0x00, // Control: I-frame S=0, R=0
        // ASDU header (6 bytes):
        0x64, // TypeId: InterrogationCommand (100)
        0x01, // VSQ: 1 object
        0x06, // COT: Activation
        0x00, // Originator
        0x01, 0x00, // Common address: 1
        // Information object (4 bytes):
        0x00, 0x00, 0x00, // IOA: 0
        0x14, // QOI: 20 (station interrogation)
    ];

    let apdu = codec.decode(&mut buf).unwrap().unwrap();
    assert!(apdu.is_i_frame());
    assert!(apdu.asdu.is_some());

    let asdu = apdu.asdu.unwrap();
    assert_eq!(asdu.header.type_id, TypeId::InterrogationCommand);
    assert_eq!(asdu.header.cot, Cot::Activation);
    assert_eq!(asdu.header.common_address, 1);
}

#[test]
fn test_decode_skip_multiple_garbage_bytes() {
    let mut codec = Iec104Codec::new();
    // Many garbage bytes before valid frame
    let mut buf: Vec<u8> = vec![
        0xFF, 0xAA, 0xBB, 0xCC, 0xDD, 0xEE, 0x68, 0x04, 0x07, 0x00, 0x00, 0x00, // Valid U-frame
    ];

    let apdu = codec.decode(&mut buf).unwrap().unwrap();
    assert!(apdu.is_u_frame());
}

#[test]
fn test_decode_partial_then_complete() {
    let mut codec = Iec104Codec::new();

    // First: only start byte
    let mut buf: Vec<u8> = vec![0x68];
    assert!(codec.decode(&mut buf).unwrap().is_none());

    // Add length byte
    buf.extend_from_slice(&[0x04]);
    assert!(codec.decode(&mut buf).unwrap().is_none());

    // Add partial control field
    buf.extend_from_slice(&[0x07, 0x00]);
    assert!(codec.decode(&mut buf).unwrap().is_none());

    // Complete the frame
    buf.extend_from_slice(&[0x00, 0x00]);
    let apdu = codec.decode(&mut buf).unwrap().unwrap();
    assert!(apdu.is_u_frame());
}

#[test]
fn test_encode_i_frame_with_asdu() {
    let mut codec = Iec104Codec::new();
    let mut buf: Vec<u8> = Vec::new();

    let asdu = Asdu::new(AsduHeader::new(
        TypeId::MeasuredFloat,
        2,
        Cot::Spontaneous,
        100,
    ));
    let apdu = Apdu::i_frame(50, 25, asdu);
    codec.encode(apdu, &mut buf).unwrap();

    // Verify structure
    assert_eq!(buf[0], START_BYTE);
    // Length should be 4 (control) + 6 (ASDU header) = 10
    assert_eq!(buf[1], 10);

    // Decode and verify
    let decoded = codec.decode(&mut buf).unwrap().unwrap();
    assert!(decoded.is_i_frame());
    assert_eq!(decoded.apci.send_seq(), Some(50));
    assert_eq!(decoded.apci.recv_seq(), Some(25));
}

#[test]
fn test_encode_decode_s_frame_sequence_numbers() {
    let mut codec = Iec104Codec::new();

    // Test various sequence numbers
    for recv_seq in [0, 1, 100, 1000, 16383, 32767] {
        let mut buf: Vec<u8> = Vec::new();
        let apdu = Apdu::s_frame(recv_seq);
        codec.encode(apdu.clone(), &mut buf).unwrap();

        let decoded = codec.decode(&mut buf).unwrap().unwrap();
        assert!(decoded.is_s_frame());
        assert_eq!(decoded.apci.recv_seq(), Some(recv_seq));
    }
}

#[test]
fn test_encode_decode_i_frame_sequence_numbers() {
    let mut codec = Iec104Codec::new();

    // Test various sequence number combinations
    let test_cases = [
        (0, 0),
        (1, 1),
        (100, 50),
        (16383, 16383),
        (32767, 32767),
        (0, 32767),
        (32767, 0),
    ];

    for (send_seq, recv_seq) in test_cases {
        let mut buf: Vec<u8> = Vec::new();
        let asdu = Asdu::new(AsduHeader::new(
            TypeId::SinglePoint,
            1,
            Cot::Spontaneous,
            1,
        ));
        let apdu = Apdu::i_frame(send_seq, recv_seq, asdu);
        codec.encode(apdu, &mut buf).unwrap();

        let decoded = codec.decode(&mut buf).unwrap().unwrap();
        assert!(decoded.is_i_frame());
        assert_eq!(decoded.apci.send_seq(), Some(send_seq));
        assert_eq!(decoded.apci.recv_seq(), Some(recv_seq));
    }
}

#[test]
fn test_apdu_display() {
    let apdu = Apdu::u_frame(UFunction::TestFrAct);
    let display = apdu.display_string();
    assert!(display.contains("TESTFR"));

    let apdu = Apdu::s_frame(100);
    let display = apdu.display_string();
    assert!(display.contains("100"));

    let asdu = Asdu::new(AsduHeader::new(
        TypeId::MeasuredFloat,
        1,
        Cot::Spontaneous,
        1,
    ));
    let apdu = Apdu::i_frame(10, 5, asdu);
    let display = apdu.display_string();
    assert!(display.contains("M_ME_NC_1"));
    assert!(display.contains("Spontaneous"));
}

#[test]
fn test_apdu_frame_type_helpers() {
    let u_frame = Apdu::u_frame(UFunction::StartDtAct);
    assert!(u_frame.is_u_frame());
    assert!(!u_frame.is_s_frame());
    assert!(!u_frame.is_i_frame());

    let s_frame = Apdu::s_frame(0);
    assert!(!s_frame.is_u_frame());
    assert!(s_frame.is_s_frame());
    assert!(!s_frame.is_i_frame());

    let asdu = Asdu::new(AsduHeader::new(TypeId::SinglePoint, 1, Cot::Spontaneous, 1));
    let i_frame = Apdu::i_frame(0, 0, asdu);
    assert!(!i_frame.is_u_frame());
    assert!(!i_frame.is_s_frame());
    assert!(i_frame.is_i_frame());
}

#[test]
fn test_codec_state_reset_on_invalid() {
    let mut codec = Iec104Codec::new();

    // Invalid length followed by valid frame
    let mut buf: Vec<u8> = vec![
        0x68, 0x01, // Invalid: length too small
        0x68, 0x04, 0x07, 0x00, 0x00, 0x00, // Valid U-frame
    ];

    // First decode should skip invalid and find valid
    let apdu = codec.decode(&mut buf).unwrap().unwrap();
    assert!(apdu.is_u_frame());
}

#[test]
fn test_decode_only_start_byte_no_length() {
    let mut codec = Iec104Codec::new();
    let mut buf: Vec<u8> = vec![0x68];

    // Should return None, waiting for more data
    let result = codec.decode(&mut buf).unwrap();
    assert!(result.is_none());
    // Start byte should still be in buffer
    assert_eq!(buf.len(), 1);
}

#[test]
fn test_encode_decode_full_i_frame_identity() {
    // The full round trip: an I-frame carrying a raw-form ASDU comes back
    // with the same header and payload bytes.
    let mut codec = Iec104Codec::new();
    let mut asdu = Asdu::new(AsduHeader::new(TypeId::SinglePoint, 1, Cot::Spontaneous, 7));
    asdu.raw_data = vec![0x01, 0x00, 0x00, 0x01];
    let apdu = Apdu::i_frame(3, 4, asdu.clone());

    let mut buf: Vec<u8> = Vec::new();
    codec.encode(apdu.clone(), &mut buf).unwrap();
    let decoded = codec.decode(&mut buf).unwrap().unwrap();
    assert!(buf.is_empty());
    assert_eq!(decoded, apdu);
}

#[test]
fn test_decode_bad_length_consumes_a_byte() {
    // A start byte with a bad length is consumed one byte at a time while
    // the rest stays buffered.
    let mut codec = Iec104Codec::new();
    let mut buf: Vec<u8> = vec![0x68, 0x03, 0x68, 0x04];
    let result = codec.decode(&mut buf).unwrap();
    assert!(result.is_none());
    // The bad start byte and its length byte are gone; the partial valid
    // frame remains.
    assert_eq!(buf, vec![0x68, 0x04]);
}

#[test]
fn test_encode_oversized_asdu_rejected() {
    let mut codec = Iec104Codec::new();
    let mut asdu = Asdu::new(AsduHeader::new(TypeId::SinglePoint, 1, Cot::Spontaneous, 1));
    asdu.raw_data = vec![0u8; 250];
    let apdu = Apdu::i_frame(0, 0, asdu);
    let mut buf: Vec<u8> = Vec::new();
    let err = codec.encode(apdu, &mut buf).unwrap_err();
    assert!(matches!(err, voltage_iec104::Iec104Error::Codec(_)));
    assert!(buf.is_empty());
}
