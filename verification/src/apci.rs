//! IEC 60870-5-104 APCI (Application Protocol Control Information).
//!
//! The APCI is the 6-byte header of an APDU: a start byte, a length byte and
//! four control-field bytes that carry the frame type and sequence numbers.

use vstd::prelude::*;

verus! {

use crate::error::Iec104Error;
use crate::text::dec_str;
use crate::text::fmt_u16;

/// Start byte for IEC 104 frames.
pub const START_BYTE: u8 = 0x68;

/// Minimum APDU length (APCI only, no ASDU).
pub const MIN_APDU_LENGTH: usize = 4;

/// Maximum APDU length.
pub const MAX_APDU_LENGTH: usize = 253;

/// Sequence numbers are 15 bits wide: all arithmetic is modulo this value.
pub const SEQ_MODULO: u16 = 32768;

/// APCI frame type.
#[derive(Debug, Clone, Copy, PartialEq, Eq, Structural)]
pub enum FrameType {
    /// I-frame: Information transfer
    IFrame,
    /// S-frame: Supervisory (acknowledgment)
    SFrame,
    /// U-frame: Unnumbered (control)
    UFrame,
}

/// U-frame function codes.
#[derive(Debug, Clone, Copy, PartialEq, Eq, Structural)]
pub enum UFunction {
    /// STARTDT act (Start Data Transfer activation)
    StartDtAct,
    /// STARTDT con (Start Data Transfer confirmation)
    StartDtCon,
    /// STOPDT act (Stop Data Transfer activation)
    StopDtAct,
    /// STOPDT con (Stop Data Transfer confirmation)
    StopDtCon,
    /// TESTFR act (Test Frame activation)
    TestFrAct,
    /// TESTFR con (Test Frame confirmation)
    TestFrCon,
}

/// The control byte of a U-frame function.
pub open spec fn spec_u_byte(f: UFunction) -> u8 {
    match f {
        UFunction::StartDtAct => 0x07,
        UFunction::StartDtCon => 0x0B,
        UFunction::StopDtAct => 0x13,
        UFunction::StopDtCon => 0x23,
        UFunction::TestFrAct => 0x43,
        UFunction::TestFrCon => 0x83,
    }
}

/// The U-frame function denoted by a control byte, or `None` if the byte is
/// not one of the six defined function codes.
pub open spec fn spec_u_from(byte: u8) -> Option<UFunction> {
    if byte == 0x07 {
        Some(UFunction::StartDtAct)
    } else if byte == 0x0B {
        Some(UFunction::StartDtCon)
    } else if byte == 0x13 {
        Some(UFunction::StopDtAct)
    } else if byte == 0x23 {
        Some(UFunction::StopDtCon)
    } else if byte == 0x43 {
        Some(UFunction::TestFrAct)
    } else if byte == 0x83 {
        Some(UFunction::TestFrCon)
    } else {
        None
    }
}

impl UFunction {
    /// Get the control field byte for this U-function.
    pub fn control_byte(&self) -> (r: u8)
        ensures
            r == spec_u_byte(*self),
    {
        match self {
            Self::StartDtAct => 0x07,
            Self::StartDtCon => 0x0B,
            Self::StopDtAct => 0x13,
            Self::StopDtCon => 0x23,
            Self::TestFrAct => 0x43,
            Self::TestFrCon => 0x83,
        }
    }

    /// Parse U-function from control byte.
    pub fn from_control_byte(byte: u8) -> (r: Result<Self, Iec104Error>)
        ensures
            r matches Ok(f) ==> spec_u_from(byte) == Some(f),
            r is Err <==> spec_u_from(byte) is None,
            r matches Err(e) ==> e is InvalidFrame,
    {
        match byte {
            0x07 => Ok(Self::StartDtAct),
            0x0B => Ok(Self::StartDtCon),
            0x13 => Ok(Self::StopDtAct),
            0x23 => Ok(Self::StopDtCon),
            0x43 => Ok(Self::TestFrAct),
            0x83 => Ok(Self::TestFrCon),
            _ => Err(Iec104Error::invalid_frame("Unknown U-frame function")),
        }
    }

    /// The conventional name of this function.
    pub fn name(&self) -> (r: &'static str)
        ensures
            r@ == spec_u_name(*self),
    {
        match self {
            Self::StartDtAct => "STARTDT act",
            Self::StartDtCon => "STARTDT con",
            Self::StopDtAct => "STOPDT act",
            Self::StopDtCon => "STOPDT con",
            Self::TestFrAct => "TESTFR act",
            Self::TestFrCon => "TESTFR con",
        }
    }
}

/// APCI (Application Protocol Control Information).
///
/// The frame-type discrimination and sequence-number layout of the four
/// control-field bytes.
#[derive(Debug, Clone, PartialEq, Eq, Structural)]
pub enum Apci {
    /// I-frame with send and receive sequence numbers.
    IFrame {
        /// Send sequence number (0-32767)
        send_seq: u16,
        /// Receive sequence number (0-32767)
        recv_seq: u16,
    },
    /// S-frame with receive sequence number only.
    SFrame {
        /// Receive sequence number (0-32767)
        recv_seq: u16,
    },
    /// U-frame with function code.
    UFrame {
        /// U-frame function
        function: UFunction,
    },
}

/// The low control byte carrying a sequence number: the 7 low bits of the
/// number, shifted into bits 1..=7 of the byte (bit 0 is the frame-type bit).
pub open spec fn seq_lo_byte(s: u16) -> u8 {
    (((s & 0x7F) << 1) as u8)
}

/// The high control byte carrying a sequence number: its 8 high bits.
pub open spec fn seq_hi_byte(s: u16) -> u8 {
    ((s >> 7) as u8)
}

/// The sequence number carried by a (high, low) control byte pair.
pub open spec fn spec_seq_of(hi: u8, lo: u8) -> u16 {
    ((hi as u16) << 7) | ((lo >> 1) as u16)
}

/// Whether every sequence number of an APCI is within the 15-bit range.
pub open spec fn apci_wf(a: Apci) -> bool {
    match a {
        Apci::IFrame { send_seq, recv_seq } => send_seq < 32768 && recv_seq < 32768,
        Apci::SFrame { recv_seq } => recv_seq < 32768,
        Apci::UFrame { .. } => true,
    }
}

/// The four control-field bytes of an APCI.
pub open spec fn spec_control_bytes(a: Apci) -> Seq<u8> {
    match a {
        Apci::IFrame { send_seq, recv_seq } => seq![
            seq_lo_byte(send_seq),
            seq_hi_byte(send_seq),
            seq_lo_byte(recv_seq),
            seq_hi_byte(recv_seq),
        ],
        Apci::SFrame { recv_seq } => seq![0x01u8, 0x00u8, seq_lo_byte(recv_seq), seq_hi_byte(recv_seq)],
        Apci::UFrame { function } => seq![spec_u_byte(function), 0x00u8, 0x00u8, 0x00u8],
    }
}

/// The APCI denoted by four control-field bytes, or `None` on a control byte
/// that belongs to no frame (an undefined U-frame function code).
pub open spec fn spec_parse_control(c: Seq<u8>) -> Option<Apci> {
    if c[0] & 0x01 == 0 {
        Some(
            Apci::IFrame {
                send_seq: spec_seq_of(c[1], c[0]),
                recv_seq: spec_seq_of(c[3], c[2]),
            },
        )
    } else if c[0] & 0x03 == 0x01 {
        Some(Apci::SFrame { recv_seq: spec_seq_of(c[3], c[2]) })
    } else {
        match spec_u_from(c[0]) {
            Some(f) => Some(Apci::UFrame { function: f }),
            None => None,
        }
    }
}

/// A sequence number parsed from two control bytes is within the 15-bit
/// range.
pub proof fn lemma_seq_of_range(hi: u8, lo: u8)
    ensures
        spec_seq_of(hi, lo) < 32768,
{
    assert((((hi as u16) << 7) | ((lo >> 1) as u16)) < 32768) by (bit_vector);
}

/// A sequence number split over two control bytes is recovered exactly.
pub proof fn lemma_seq_roundtrip(s: u16)
    requires
        s < 32768,
    ensures
        spec_seq_of(seq_hi_byte(s), seq_lo_byte(s)) == s,
{
    assert(((((s >> 7) as u8) as u16) << 7) | ((((((s & 0x7F) << 1) as u8)) >> 1) as u16) == s)
        by (bit_vector)
        requires
            s < 32768,
    ;
}

impl Apci {
    /// Create a new I-frame APCI.
    pub fn i_frame(send_seq: u16, recv_seq: u16) -> (r: Self)
        ensures
            r == (Apci::IFrame { send_seq, recv_seq }),
    {
        Self::IFrame { send_seq, recv_seq }
    }

    /// Create a new S-frame APCI.
    pub fn s_frame(recv_seq: u16) -> (r: Self)
        ensures
            r == (Apci::SFrame { recv_seq }),
    {
        Self::SFrame { recv_seq }
    }

    /// Create a new U-frame APCI.
    pub fn u_frame(function: UFunction) -> (r: Self)
        ensures
            r == (Apci::UFrame { function }),
    {
        Self::UFrame { function }
    }

    /// Get the frame type.
    pub fn frame_type(&self) -> (r: FrameType)
        ensures
            r is IFrame <==> self is IFrame,
            r is SFrame <==> self is SFrame,
            r is UFrame <==> self is UFrame,
    {
        match self {
            Self::IFrame { .. } => FrameType::IFrame,
            Self::SFrame { .. } => FrameType::SFrame,
            Self::UFrame { .. } => FrameType::UFrame,
        }
    }

    /// Parse APCI from the four control-field bytes of a frame.
    ///
    /// Note: this expects the 4 bytes of control field, not the full 6-byte
    /// APCI.
    pub fn parse(control: &[u8]) -> (r: Result<Self, Iec104Error>)
        ensures
            control@.len() >= 4 ==> {
                &&& (r matches Ok(a) ==> spec_parse_control(control@) == Some(a) && apci_wf(a))
                &&& (r is Err <==> spec_parse_control(control@) is None)
            },
            control@.len() < 4 ==> r is Err,
            r matches Err(e) ==> e is InvalidFrame,
    {
        if control.len() < 4 {
            return Err(Iec104Error::invalid_frame("Control field too short"));
        }
        let cf1 = control[0];

        if cf1 & 0x01 == 0 {
            // I-frame: bit 0 = 0
            let send_seq = ((control[1] as u16) << 7) | ((cf1 >> 1) as u16);
            let recv_seq = ((control[3] as u16) << 7) | ((control[2] >> 1) as u16);
            proof {
                lemma_seq_of_range(control@[1], control@[0]);
                lemma_seq_of_range(control@[3], control@[2]);
            }
            Ok(Self::IFrame { send_seq, recv_seq })
        } else if cf1 & 0x03 == 0x01 {
            // S-frame: bits 0-1 = 01
            let recv_seq = ((control[3] as u16) << 7) | ((control[2] >> 1) as u16);
            proof {
                lemma_seq_of_range(control@[3], control@[2]);
            }
            Ok(Self::SFrame { recv_seq })
        } else {
            // U-frame: bits 0-1 = 11
            match UFunction::from_control_byte(cf1) {
                Ok(function) => Ok(Self::UFrame { function }),
                Err(e) => Err(e),
            }
        }
    }

    /// Encode APCI to the 4 bytes of control field.
    pub fn encode(&self) -> (r: Vec<u8>)
        requires
            apci_wf(*self),
        ensures
            r@ == spec_control_bytes(*self),
    {
        let mut out: Vec<u8> = Vec::new();
        match self {
            Self::IFrame { send_seq, recv_seq } => {
                out.push(((*send_seq & 0x7F) << 1) as u8);
                out.push((*send_seq >> 7) as u8);
                out.push(((*recv_seq & 0x7F) << 1) as u8);
                out.push((*recv_seq >> 7) as u8);
            },
            Self::SFrame { recv_seq } => {
                out.push(0x01);
                out.push(0x00);
                out.push(((*recv_seq & 0x7F) << 1) as u8);
                out.push((*recv_seq >> 7) as u8);
            },
            Self::UFrame { function } => {
                out.push(function.control_byte());
                out.push(0x00);
                out.push(0x00);
                out.push(0x00);
            },
        }
        proof {
            assert(out@ =~= spec_control_bytes(*self));
        }
        out
    }

    /// Encode the full 6-byte APDU header: start byte, length byte and the
    /// four control-field bytes. `asdu_len` is the length of the ASDU that
    /// follows (0 for S-frames and U-frames).
    pub fn encode_header(&self, asdu_len: usize) -> (r: Vec<u8>)
        requires
            apci_wf(*self),
            asdu_len <= 249,
        ensures
            r@ == seq![START_BYTE, (4 + asdu_len) as u8] + spec_control_bytes(*self),
    {
        let control = self.encode();
        let apdu_len = (4 + asdu_len) as u8;
        let mut out: Vec<u8> = Vec::new();
        out.push(START_BYTE);
        out.push(apdu_len);
        out.push(control[0]);
        out.push(control[1]);
        out.push(control[2]);
        out.push(control[3]);
        proof {
            assert(out@ =~= seq![START_BYTE, (4 + asdu_len) as u8] + spec_control_bytes(*self));
        }
        out
    }

    /// Check if this is an I-frame.
    pub fn is_i_frame(&self) -> (r: bool)
        ensures
            r == (self is IFrame),
    {
        match self {
            Self::IFrame { .. } => true,
            _ => false,
        }
    }

    /// Check if this is an S-frame.
    pub fn is_s_frame(&self) -> (r: bool)
        ensures
            r == (self is SFrame),
    {
        match self {
            Self::SFrame { .. } => true,
            _ => false,
        }
    }

    /// Check if this is a U-frame.
    pub fn is_u_frame(&self) -> (r: bool)
        ensures
            r == (self is UFrame),
    {
        match self {
            Self::UFrame { .. } => true,
            _ => false,
        }
    }

    /// Get the send sequence number (I-frame only).
    pub fn send_seq(&self) -> (r: Option<u16>)
        ensures
            r == (match *self {
                Apci::IFrame { send_seq, .. } => Some(send_seq),
                _ => None::<u16>,
            }),
    {
        match self {
            Self::IFrame { send_seq, .. } => Some(*send_seq),
            _ => None,
        }
    }

    /// Get the receive sequence number (I-frame and S-frame).
    pub fn recv_seq(&self) -> (r: Option<u16>)
        ensures
            r == (match *self {
                Apci::IFrame { recv_seq, .. } => Some(recv_seq),
                Apci::SFrame { recv_seq } => Some(recv_seq),
                Apci::UFrame { .. } => None::<u16>,
            }),
    {
        match self {
            Self::IFrame { recv_seq, .. } | Self::SFrame { recv_seq } => Some(*recv_seq),
            _ => None,
        }
    }

    /// A human-readable description of this APCI.
    pub fn display_string(&self) -> (r: String)
        ensures
            r@ == spec_display(*self),
    {
        match self {
            Self::IFrame { send_seq, recv_seq } => {
                let mut s = "I(S=".to_owned();
                s.append(fmt_u16(*send_seq).as_str());
                s.append(", R=");
                s.append(fmt_u16(*recv_seq).as_str());
                s.append(")");
                proof {
                    assert(s@ =~= spec_display(*self));
                }
                s
            },
            Self::SFrame { recv_seq } => {
                let mut s = "S(R=".to_owned();
                s.append(fmt_u16(*recv_seq).as_str());
                s.append(")");
                proof {
                    assert(s@ =~= spec_display(*self));
                }
                s
            },
            Self::UFrame { function } => {
                let mut s = "U(".to_owned();
                s.append(function.name());
                s.append(")");
                proof {
                    assert(s@ =~= spec_display(*self));
                }
                s
            },
        }
    }
}

/// The human-readable description of an APCI.
pub open spec fn spec_display(a: Apci) -> Seq<char> {
    match a {
        Apci::IFrame { send_seq, recv_seq } => "I(S="@ + dec_str(send_seq as int) + ", R="@
            + dec_str(recv_seq as int) + ")"@,
        Apci::SFrame { recv_seq } => "S(R="@ + dec_str(recv_seq as int) + ")"@,
        Apci::UFrame { function } => "U("@ + spec_u_name(function) + ")"@,
    }
}

/// The conventional name of a U-frame function.
pub open spec fn spec_u_name(f: UFunction) -> Seq<char> {
    match f {
        UFunction::StartDtAct => "STARTDT act"@,
        UFunction::StartDtCon => "STARTDT con"@,
        UFunction::StopDtAct => "STOPDT act"@,
        UFunction::StopDtCon => "STOPDT con"@,
        UFunction::TestFrAct => "TESTFR act"@,
        UFunction::TestFrCon => "TESTFR con"@,
    }
}

/// Every APCI with in-range sequence numbers comes back unchanged when its
/// four control bytes are parsed again.
pub proof fn lemma_control_roundtrip(a: Apci)
    requires
        apci_wf(a),
    ensures
        spec_parse_control(spec_control_bytes(a)) == Some(a),
{
    match a {
        Apci::IFrame { send_seq, recv_seq } => {
            lemma_seq_parity(send_seq);
            lemma_seq_roundtrip(send_seq);
            lemma_seq_roundtrip(recv_seq);
        },
        Apci::SFrame { recv_seq } => {
            lemma_seq_roundtrip(recv_seq);
            assert(0x01u8 & 0x01 == 1 && 0x01u8 & 0x03 == 0x01) by (bit_vector);
        },
        Apci::UFrame { function } => {
            let b = spec_u_byte(function);
            assert(b & 0x01 != 0 && b & 0x03 != 0x01) by (bit_vector)
                requires
                    b == 0x07 || b == 0x0B || b == 0x13 || b == 0x23 || b == 0x43 || b == 0x83,
            ;
        },
    }
}

/// The low control byte of a sequence number has bit 0 (the I-frame marker)
/// clear.
proof fn lemma_seq_parity(s: u16)
    by (bit_vector)
    requires
        s < 32768,
    ensures
        seq_lo_byte(s) & 0x01 == 0,
{
}

} // verus!
