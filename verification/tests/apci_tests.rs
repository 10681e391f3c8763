use voltage_iec104::{Apci, FrameType, UFunction};

#[test]
fn test_i_frame_encode_decode() {
    let apci = Apci::i_frame(100, 50);
    let encoded = apci.encode();
    let decoded = Apci::parse(&encoded).unwrap();

    assert_eq!(decoded, apci);
    assert_eq!(decoded.send_seq(), Some(100));
    assert_eq!(decoded.recv_seq(), Some(50));
}

#[test]
fn test_s_frame_encode_decode() {
    let apci = Apci::s_frame(200);
    let encoded = apci.encode();
    let decoded = Apci::parse(&encoded).unwrap();

    assert_eq!(decoded, apci);
    assert_eq!(decoded.send_seq(), None);
    assert_eq!(decoded.recv_seq(), Some(200));
}

#[test]
fn test_u_frame_encode_decode() {
    for func in [
        UFunction::StartDtAct,
        UFunction::StartDtCon,
        UFunction::StopDtAct,
        UFunction::StopDtCon,
        UFunction::TestFrAct,
        UFunction::TestFrCon,
    ] {
        let apci = Apci::u_frame(func);
        let encoded = apci.encode();
        let decoded = Apci::parse(&encoded).unwrap();
        assert_eq!(decoded, apci);
    }
}

#[test]
fn test_frame_type() {
    assert_eq!(Apci::i_frame(0, 0).frame_type(), FrameType::IFrame);
    assert_eq!(Apci::s_frame(0).frame_type(), FrameType::SFrame);
    assert_eq!(
        Apci::u_frame(UFunction::StartDtAct).frame_type(),
        FrameType::UFrame
    );
}

#[test]
fn test_apci_display() {
    assert_eq!(Apci::i_frame(10, 5).display_string(), "I(S=10, R=5)");
    assert_eq!(Apci::s_frame(20).display_string(), "S(R=20)");
    assert_eq!(
        Apci::u_frame(UFunction::StartDtAct).display_string(),
        "U(STARTDT act)"
    );
}

#[test]
fn test_sequence_number_max() {
    // Max sequence number is 32767 (15 bits)
    let apci = Apci::i_frame(32767, 32767);
    let encoded = apci.encode();
    let decoded = Apci::parse(&encoded).unwrap();
    assert_eq!(decoded.send_seq(), Some(32767));
    assert_eq!(decoded.recv_seq(), Some(32767));
}

#[test]
fn test_u_function_control_bytes() {
    assert_eq!(UFunction::StartDtAct.control_byte(), 0x07);
    assert_eq!(UFunction::StartDtCon.control_byte(), 0x0B);
    assert_eq!(UFunction::StopDtAct.control_byte(), 0x13);
    assert_eq!(UFunction::StopDtCon.control_byte(), 0x23);
    assert_eq!(UFunction::TestFrAct.control_byte(), 0x43);
    assert_eq!(UFunction::TestFrCon.control_byte(), 0x83);
}

#[test]
fn test_u_function_unknown_byte() {
    // 0x0F has the U-frame marker bits but is no defined function
    let err = UFunction::from_control_byte(0x0F).unwrap_err();
    assert!(matches!(err, voltage_iec104::Iec104Error::InvalidFrame(_)));
}

#[test]
fn test_apci_parse_too_short() {
    let err = Apci::parse(&[0x00, 0x00, 0x00]).unwrap_err();
    assert!(matches!(err, voltage_iec104::Iec104Error::InvalidFrame(_)));
}

#[test]
fn test_apci_every_sequence_pair_roundtrips() {
    // Encode-decode identity across a spread of the 15-bit space
    for seq in [0u16, 1, 127, 128, 255, 256, 16383, 16384, 32767] {
        let apci = Apci::i_frame(seq, 32767 - seq);
        let decoded = Apci::parse(&apci.encode()).unwrap();
        assert_eq!(decoded, apci);
    }
}
