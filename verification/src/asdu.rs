//! IEC 60870-5-104 ASDU (Application Service Data Unit).
//!
//! The ASDU carries the actual data: a 6-byte header followed by information
//! objects.

use vstd::prelude::*;

verus! {

use crate::cot::{spec_cot_byte, spec_cot_from, Cot};
use crate::error::Iec104Error;
use crate::text::dec_str;
use crate::text::fmt_u32;
use crate::type_id::{spec_type_byte, spec_type_from, TypeId};

/// Variable Structure Qualifier (VSQ).
///
/// Defines the structure of the information objects in an ASDU: how many
/// there are, and whether their addresses are sequential.
#[derive(Debug, Clone, Copy, PartialEq, Eq, Structural)]
pub struct Vsq {
    /// Number of information objects (0-127)
    pub count: u8,
    /// If true, addresses are sequential (SQ=1)
    pub sequence: bool,
}

/// The wire byte of a VSQ: the count in the low seven bits, the sequence flag
/// in the top bit.
pub open spec fn spec_vsq_byte(v: Vsq) -> u8 {
    (v.count & 0x7F) | if v.sequence {
        0x80u8
    } else {
        0u8
    }
}

/// The VSQ denoted by a wire byte.
pub open spec fn spec_vsq_from(value: u8) -> Vsq {
    Vsq { count: value & 0x7F, sequence: (value & 0x80) != 0 }
}

impl Vsq {
    /// Create a new VSQ.
    pub fn new(count: u8, sequence: bool) -> (r: Self)
        ensures
            r == (Vsq { count, sequence }),
    {
        Self { count, sequence }
    }

    /// Parse VSQ from byte.
    pub fn from_u8(value: u8) -> (r: Self)
        ensures
            r == spec_vsq_from(value),
            r.count <= 127,
    {
        proof {
            assert(value & 0x7F <= 127) by (bit_vector);
        }
        Self { count: value & 0x7F, sequence: (value & 0x80) != 0 }
    }

    /// Encode VSQ to byte.
    pub fn as_u8(&self) -> (r: u8)
        ensures
            r == spec_vsq_byte(*self),
    {
        (self.count & 0x7F) | if self.sequence {
            0x80
        } else {
            0
        }
    }
}

/// A VSQ with an in-range count is recovered exactly from its wire byte.
pub proof fn lemma_vsq_roundtrip(v: Vsq)
    requires
        v.count <= 127,
    ensures
        spec_vsq_from(spec_vsq_byte(v)) == v,
{
    let c = v.count;
    if v.sequence {
        assert(((c & 0x7F) | 0x80) & 0x7F == c && ((c & 0x7F) | 0x80) & 0x80 != 0) by (bit_vector)
            requires
                c <= 127,
        ;
    } else {
        assert(((c & 0x7F) | 0u8) & 0x7F == c && ((c & 0x7F) | 0u8) & 0x80 == 0) by (bit_vector)
            requires
                c <= 127,
        ;
    }
}

/// IOA byte size on the wire.
pub const IOA_SIZE: usize = 3;

/// Information Object Address (IOA).
///
/// A 3-byte little-endian address identifying a specific data point; the
/// value is masked to its low 24 bits on construction.
#[derive(Debug, Clone, Copy, PartialEq, Eq, Hash, Structural)]
pub struct Ioa(pub u32);

/// The three little-endian wire bytes of an IOA value.
pub open spec fn spec_ioa_bytes(v: u32) -> Seq<u8> {
    seq![(v & 0xFF) as u8, ((v >> 8) & 0xFF) as u8, ((v >> 16) & 0xFF) as u8]
}

/// The IOA value denoted by three little-endian wire bytes.
pub open spec fn spec_ioa_of(b0: u8, b1: u8, b2: u8) -> u32 {
    (b0 as u32) | ((b1 as u32) << 8) | ((b2 as u32) << 16)
}

impl Ioa {
    /// Create IOA from u32 (lower 24 bits).
    pub fn new(value: u32) -> (r: Self)
        ensures
            r.0 == value & 0x00FFFFFF,
            r.0 <= 0xFFFFFF,
    {
        proof {
            assert(value & 0x00FFFFFF <= 0xFFFFFF) by (bit_vector);
        }
        Self(value & 0x00FFFFFF)
    }

    /// Parse IOA from three little-endian bytes given as a fixed array.
    pub fn from_array(bytes: [u8; 3]) -> (r: Self)
        ensures
            r.0 == spec_ioa_of(bytes[0], bytes[1], bytes[2]),
            r.0 <= 0xFFFFFF,
    {
        let b0 = bytes[0];
        let b1 = bytes[1];
        let b2 = bytes[2];
        proof {
            lemma_ioa_of_range(b0, b1, b2);
        }
        Self((b0 as u32) | ((b1 as u32) << 8) | ((b2 as u32) << 16))
    }

    /// Parse IOA from 3 bytes (little-endian), with a runtime length check.
    pub fn from_bytes(bytes: &[u8]) -> (r: Result<Self, Iec104Error>)
        ensures
            bytes@.len() >= 3 ==> (r matches Ok(a) && a.0 == spec_ioa_of(
                bytes@[0],
                bytes@[1],
                bytes@[2],
            ) && a.0 <= 0xFFFFFF),
            bytes@.len() < 3 ==> (r matches Err(e) && e is InvalidAsdu),
    {
        if bytes.len() < 3 {
            return Err(Iec104Error::invalid_asdu("IOA too short"));
        }
        Ok(Self::from_array([bytes[0], bytes[1], bytes[2]]))
    }

    /// Try to parse IOA from a slice, returning None if it is too short.
    pub fn try_from_slice(bytes: &[u8]) -> (r: Option<Self>)
        ensures
            bytes@.len() >= 3 ==> (r matches Some(a) && a.0 == spec_ioa_of(
                bytes@[0],
                bytes@[1],
                bytes@[2],
            ) && a.0 <= 0xFFFFFF),
            bytes@.len() < 3 ==> r is None,
    {
        if bytes.len() < 3 {
            None
        } else {
            Some(Self::from_array([bytes[0], bytes[1], bytes[2]]))
        }
    }

    /// Encode IOA to 3 bytes (little-endian).
    pub fn to_bytes(&self) -> (r: Vec<u8>)
        ensures
            r@ == spec_ioa_bytes(self.0),
    {
        let mut out: Vec<u8> = Vec::new();
        out.push((self.0 & 0xFF) as u8);
        out.push(((self.0 >> 8) & 0xFF) as u8);
        out.push(((self.0 >> 16) & 0xFF) as u8);
        proof {
            assert(out@ =~= spec_ioa_bytes(self.0));
        }
        out
    }

    /// Get the raw value.
    pub fn value(&self) -> (r: u32)
        ensures
            r == self.0,
    {
        self.0
    }

    /// The decimal rendering of this address.
    pub fn display_string(&self) -> (r: String)
        ensures
            r@ == dec_str(self.0 as int),
    {
        fmt_u32(self.0)
    }
}

/// An IOA parsed from three bytes is within the 24-bit range.
proof fn lemma_ioa_of_range(b0: u8, b1: u8, b2: u8)
    ensures
        spec_ioa_of(b0, b1, b2) <= 0xFFFFFF,
{
    assert((b0 as u32) | ((b1 as u32) << 8) | ((b2 as u32) << 16) <= 0xFFFFFF) by (bit_vector);
}

/// A 24-bit IOA value is recovered exactly from its three wire bytes.
pub proof fn lemma_ioa_roundtrip(v: u32)
    requires
        v <= 0xFFFFFF,
    ensures
        spec_ioa_of((v & 0xFF) as u8, ((v >> 8) & 0xFF) as u8, ((v >> 16) & 0xFF) as u8) == v,
{
    assert((((v & 0xFF) as u8) as u32) | ((((v >> 8) & 0xFF) as u8 as u32) << 8) | ((((v >> 16)
        & 0xFF) as u8 as u32) << 16) == v) by (bit_vector)
        requires
            v <= 0xFFFFFF,
    ;
}

/// Quality descriptor for single/double point information.
#[derive(Debug, Clone, Copy, PartialEq, Eq, Default, Structural)]
pub struct QualityDescriptor {
    /// Blocked (BL)
    pub blocked: bool,
    /// Substituted (SB)
    pub substituted: bool,
    /// Not topical (NT)
    pub not_topical: bool,
    /// Invalid (IV)
    pub invalid: bool,
}

/// The quality descriptor carried in the top four bits of an SIQ or DIQ byte.
pub open spec fn spec_qd_from(value: u8) -> QualityDescriptor {
    QualityDescriptor {
        blocked: (value & 0x10) != 0,
        substituted: (value & 0x20) != 0,
        not_topical: (value & 0x40) != 0,
        invalid: (value & 0x80) != 0,
    }
}

/// The SIQ bits (without the value bit) of a quality descriptor.
pub open spec fn spec_qd_byte(qd: QualityDescriptor) -> u8 {
    (if qd.blocked {
        0x10u8
    } else {
        0u8
    }) | (if qd.substituted {
        0x20u8
    } else {
        0u8
    }) | (if qd.not_topical {
        0x40u8
    } else {
        0u8
    }) | (if qd.invalid {
        0x80u8
    } else {
        0u8
    })
}

impl QualityDescriptor {
    /// Create a new quality descriptor with all flags false.
    pub fn new() -> (r: Self)
        ensures
            r == (QualityDescriptor {
                blocked: false,
                substituted: false,
                not_topical: false,
                invalid: false,
            }),
    {
        Self { blocked: false, substituted: false, not_topical: false, invalid: false }
    }

    /// Create a quality descriptor indicating invalid data.
    pub fn invalid() -> (r: Self)
        ensures
            r == (QualityDescriptor {
                blocked: false,
                substituted: false,
                not_topical: false,
                invalid: true,
            }),
    {
        Self { blocked: false, substituted: false, not_topical: false, invalid: true }
    }

    /// Parse from SIQ byte (single-point information with quality).
    pub fn from_siq(value: u8) -> (r: Self)
        ensures
            r == spec_qd_from(value),
    {
        Self {
            blocked: (value & 0x10) != 0,
            substituted: (value & 0x20) != 0,
            not_topical: (value & 0x40) != 0,
            invalid: (value & 0x80) != 0,
        }
    }

    /// Parse from DIQ byte (double-point information with quality). The
    /// quality bits sit in the same positions as in an SIQ byte.
    pub fn from_diq(value: u8) -> (r: Self)
        ensures
            r == spec_qd_from(value),
    {
        Self::from_siq(value)
    }

    /// Encode to SIQ byte (without value bits).
    pub fn to_siq(&self) -> (r: u8)
        ensures
            r == spec_qd_byte(*self),
    {
        let bl: u8 = if self.blocked {
            0x10
        } else {
            0
        };
        let sb: u8 = if self.substituted {
            0x20
        } else {
            0
        };
        let nt: u8 = if self.not_topical {
            0x40
        } else {
            0
        };
        let iv: u8 = if self.invalid {
            0x80
        } else {
            0
        };
        bl | sb | nt | iv
    }

    /// Check if the quality is good (all flags false).
    pub fn is_good(&self) -> (r: bool)
        ensures
            r == (!self.blocked && !self.substituted && !self.not_topical && !self.invalid),
    {
        !self.blocked && !self.substituted && !self.not_topical && !self.invalid
    }
}

/// The round trip from the quality bits of an SIQ byte back to an SIQ byte
/// keeps exactly those four bits.
pub proof fn lemma_qd_roundtrip(value: u8)
    ensures
        spec_qd_byte(spec_qd_from(value)) == value & 0xF0,
{
    let bl = (value & 0x10) != 0;
    let sb = (value & 0x20) != 0;
    let nt = (value & 0x40) != 0;
    let iv = (value & 0x80) != 0;
    assert(((if bl {
        0x10u8
    } else {
        0u8
    }) | (if sb {
        0x20u8
    } else {
        0u8
    }) | (if nt {
        0x40u8
    } else {
        0u8
    }) | (if iv {
        0x80u8
    } else {
        0u8
    })) == value & 0xF0) by (bit_vector)
        requires
            bl == ((value & 0x10) != 0),
            sb == ((value & 0x20) != 0),
            nt == ((value & 0x40) != 0),
            iv == ((value & 0x80) != 0),
    ;
}

/// Single-point information value.
#[derive(Debug, Clone, Copy, PartialEq, Eq, Structural)]
pub struct SinglePoint {
    /// Single-point value (off or on)
    pub value: bool,
    /// Quality descriptor
    pub quality: QualityDescriptor,
}

impl SinglePoint {
    /// Parse from an SIQ byte: bit 0 is the value, the top four bits carry
    /// the quality.
    pub fn from_u8(value: u8) -> (r: Self)
        ensures
            r.value == ((value & 0x01) != 0),
            r.quality == spec_qd_from(value),
    {
        Self { value: (value & 0x01) != 0, quality: QualityDescriptor::from_siq(value) }
    }

    /// Encode to an SIQ byte.
    pub fn as_u8(&self) -> (r: u8)
        ensures
            r == ((if self.value {
                0x01u8
            } else {
                0u8
            }) | spec_qd_byte(self.quality)),
    {
        let value_bit: u8 = if self.value {
            0x01
        } else {
            0x00
        };
        value_bit | self.quality.to_siq()
    }
}

/// Double-point information value.
#[derive(Debug, Clone, Copy, PartialEq, Eq, Structural)]
pub enum DoublePointValue {
    /// Indeterminate or intermediate (wire bits 00)
    Indeterminate,
    /// Determined OFF (01)
    Off,
    /// Determined ON (10)
    On,
    /// Indeterminate (11)
    IndeterminateOrFaulty,
}

/// The double-point state denoted by the low two bits of a DIQ byte.
pub open spec fn spec_dpv_from(value: u8) -> DoublePointValue {
    let v = value & 0x03;
    if v == 0 {
        DoublePointValue::Indeterminate
    } else if v == 1 {
        DoublePointValue::Off
    } else if v == 2 {
        DoublePointValue::On
    } else {
        DoublePointValue::IndeterminateOrFaulty
    }
}

impl DoublePointValue {
    /// Parse from byte (lower 2 bits).
    pub fn from_u8(value: u8) -> (r: Self)
        ensures
            r == spec_dpv_from(value),
    {
        proof {
            assert(value & 0x03 == 0 || value & 0x03 == 1 || value & 0x03 == 2 || value & 0x03
                == 3) by (bit_vector);
        }
        match value & 0x03 {
            0 => Self::Indeterminate,
            1 => Self::Off,
            2 => Self::On,
            _ => Self::IndeterminateOrFaulty,
        }
    }
}

/// Double-point information.
#[derive(Debug, Clone, Copy, PartialEq, Eq, Structural)]
pub struct DoublePoint {
    /// Double-point value
    pub value: DoublePointValue,
    /// Quality descriptor
    pub quality: QualityDescriptor,
}

impl DoublePoint {
    /// Parse from a DIQ byte: bits 0..=1 are the state, the top four bits
    /// carry the quality.
    pub fn from_u8(value: u8) -> (r: Self)
        ensures
            r.value == spec_dpv_from(value),
            r.quality == spec_qd_from(value),
    {
        Self { value: DoublePointValue::from_u8(value), quality: QualityDescriptor::from_diq(value) }
    }
}

/// Quality descriptor for measured values (QDS).
#[derive(Debug, Clone, Copy, PartialEq, Eq, Default, Structural)]
pub struct MeasuredQuality {
    /// Overflow (OV)
    pub overflow: bool,
    /// Blocked (BL)
    pub blocked: bool,
    /// Substituted (SB)
    pub substituted: bool,
    /// Not topical (NT)
    pub not_topical: bool,
    /// Invalid (IV)
    pub invalid: bool,
}

/// The measured-value quality carried by a QDS byte.
pub open spec fn spec_mq_from(value: u8) -> MeasuredQuality {
    MeasuredQuality {
        overflow: (value & 0x01) != 0,
        blocked: (value & 0x10) != 0,
        substituted: (value & 0x20) != 0,
        not_topical: (value & 0x40) != 0,
        invalid: (value & 0x80) != 0,
    }
}

/// The QDS byte of a measured-value quality.
pub open spec fn spec_mq_byte(mq: MeasuredQuality) -> u8 {
    (if mq.overflow {
        0x01u8
    } else {
        0u8
    }) | (if mq.blocked {
        0x10u8
    } else {
        0u8
    }) | (if mq.substituted {
        0x20u8
    } else {
        0u8
    }) | (if mq.not_topical {
        0x40u8
    } else {
        0u8
    }) | (if mq.invalid {
        0x80u8
    } else {
        0u8
    })
}

impl MeasuredQuality {
    /// Create a new quality descriptor with all flags false.
    pub fn new() -> (r: Self)
        ensures
            r == (MeasuredQuality {
                overflow: false,
                blocked: false,
                substituted: false,
                not_topical: false,
                invalid: false,
            }),
    {
        Self {
            overflow: false,
            blocked: false,
            substituted: false,
            not_topical: false,
            invalid: false,
        }
    }

    /// Parse from QDS byte.
    pub fn from_u8(value: u8) -> (r: Self)
        ensures
            r == spec_mq_from(value),
    {
        Self {
            overflow: (value & 0x01) != 0,
            blocked: (value & 0x10) != 0,
            substituted: (value & 0x20) != 0,
            not_topical: (value & 0x40) != 0,
            invalid: (value & 0x80) != 0,
        }
    }

    /// Encode to QDS byte.
    pub fn as_u8(&self) -> (r: u8)
        ensures
            r == spec_mq_byte(*self),
    {
        let ov: u8 = if self.overflow {
            0x01
        } else {
            0
        };
        let bl: u8 = if self.blocked {
            0x10
        } else {
            0
        };
        let sb: u8 = if self.substituted {
            0x20
        } else {
            0
        };
        let nt: u8 = if self.not_topical {
            0x40
        } else {
            0
        };
        let iv: u8 = if self.invalid {
            0x80
        } else {
            0
        };
        ov | bl | sb | nt | iv
    }

    /// Check if the quality is good (all flags false).
    pub fn is_good(&self) -> (r: bool)
        ensures
            r == (!self.overflow && !self.blocked && !self.substituted && !self.not_topical
                && !self.invalid),
    {
        !self.overflow && !self.blocked && !self.substituted && !self.not_topical && !self.invalid
    }
}

/// CP56Time2a timestamp (7 bytes on the wire).
#[derive(Debug, Clone, Copy, PartialEq, Eq, Structural)]
pub struct Cp56Time2a {
    /// Milliseconds within the minute (0-59999)
    pub milliseconds: u16,
    /// Minutes (0-59)
    pub minutes: u8,
    /// Hours (0-23)
    pub hours: u8,
    /// Day of month (1-31)
    pub day: u8,
    /// Day of week (1-7, 1=Monday)
    pub day_of_week: u8,
    /// Month (1-12)
    pub month: u8,
    /// Year (0-99, years since 2000)
    pub year: u8,
    /// Invalid flag
    pub invalid: bool,
    /// Summer time flag
    pub summer_time: bool,
}

/// The timestamp denoted by seven wire bytes.
pub open spec fn spec_cp56_from(b: Seq<u8>) -> Cp56Time2a {
    Cp56Time2a {
        milliseconds: (b[0] as u16) | ((b[1] as u16) << 8),
        minutes: b[2] & 0x3F,
        hours: b[3] & 0x1F,
        day: b[4] & 0x1F,
        day_of_week: (b[4] >> 5) & 0x07,
        month: b[5] & 0x0F,
        year: b[6] & 0x7F,
        invalid: (b[2] & 0x80) != 0,
        summer_time: (b[3] & 0x80) != 0,
    }
}

/// The seven wire bytes of a timestamp.
pub open spec fn spec_cp56_bytes(t: Cp56Time2a) -> Seq<u8> {
    seq![
        (t.milliseconds & 0xFF) as u8,
        ((t.milliseconds >> 8) & 0xFF) as u8,
        (t.minutes & 0x3F) | if t.invalid {
            0x80u8
        } else {
            0u8
        },
        (t.hours & 0x1F) | if t.summer_time {
            0x80u8
        } else {
            0u8
        },
        (t.day & 0x1F) | ((t.day_of_week & 0x07) << 5),
        t.month & 0x0F,
        t.year & 0x7F,
    ]
}

impl Cp56Time2a {
    /// Parse from 7 bytes.
    pub fn from_bytes(bytes: &[u8]) -> (r: Result<Self, Iec104Error>)
        ensures
            bytes@.len() >= 7 ==> (r matches Ok(t) && t == spec_cp56_from(bytes@)),
            bytes@.len() < 7 ==> (r matches Err(e) && e is InvalidAsdu),
    {
        if bytes.len() < 7 {
            return Err(Iec104Error::invalid_asdu("CP56Time2a too short"));
        }
        let milliseconds = (bytes[0] as u16) | ((bytes[1] as u16) << 8);
        let minutes = bytes[2] & 0x3F;
        let invalid = (bytes[2] & 0x80) != 0;
        let hours = bytes[3] & 0x1F;
        let summer_time = (bytes[3] & 0x80) != 0;
        let day = bytes[4] & 0x1F;
        let day_of_week = (bytes[4] >> 5) & 0x07;
        let month = bytes[5] & 0x0F;
        let year = bytes[6] & 0x7F;
        Ok(
            Self {
                milliseconds,
                minutes,
                hours,
                day,
                day_of_week,
                month,
                year,
                invalid,
                summer_time,
            },
        )
    }

    /// Encode to 7 bytes.
    pub fn to_bytes(&self) -> (r: Vec<u8>)
        ensures
            r@ == spec_cp56_bytes(*self),
    {
        let mut out: Vec<u8> = Vec::new();
        out.push((self.milliseconds & 0xFF) as u8);
        out.push(((self.milliseconds >> 8) & 0xFF) as u8);
        out.push((self.minutes & 0x3F) | if self.invalid {
            0x80
        } else {
            0
        });
        out.push((self.hours & 0x1F) | if self.summer_time {
            0x80
        } else {
            0
        });
        out.push((self.day & 0x1F) | ((self.day_of_week & 0x07) << 5));
        out.push(self.month & 0x0F);
        out.push(self.year & 0x7F);
        proof {
            assert(out@ =~= spec_cp56_bytes(*self));
        }
        out
    }
}

/// A timestamp whose fields are within their wire ranges is recovered exactly
/// from its seven bytes.
pub proof fn lemma_cp56_roundtrip(t: Cp56Time2a)
    requires
        t.minutes < 64,
        t.hours < 32,
        t.day < 32,
        t.day_of_week < 8,
        t.month < 16,
        t.year < 128,
    ensures
        spec_cp56_from(spec_cp56_bytes(t)) == t,
{
    let ms = t.milliseconds;
    assert(((((ms & 0xFF) as u8) as u16) | ((((ms >> 8) & 0xFF) as u8 as u16) << 8)) == ms)
        by (bit_vector);
    let mi = t.minutes;
    let ivb: u8 = if t.invalid {
        0x80
    } else {
        0
    };
    let b2 = (mi & 0x3F) | ivb;
    assert(b2 & 0x3F == mi && ((b2 & 0x80) != 0) == (ivb == 0x80)) by (bit_vector)
        requires
            mi < 64,
            ivb == 0 || ivb == 0x80,
            b2 == ((mi & 0x3F) | ivb),
    ;
    let h = t.hours;
    let stb: u8 = if t.summer_time {
        0x80
    } else {
        0
    };
    let b3 = (h & 0x1F) | stb;
    assert(b3 & 0x1F == h && ((b3 & 0x80) != 0) == (stb == 0x80)) by (bit_vector)
        requires
            h < 32,
            stb == 0 || stb == 0x80,
            b3 == ((h & 0x1F) | stb),
    ;
    let d = t.day;
    let dw = t.day_of_week;
    let b4 = (d & 0x1F) | ((dw & 0x07) << 5);
    assert(b4 & 0x1F == d && (b4 >> 5) & 0x07 == dw) by (bit_vector)
        requires
            d < 32,
            dw < 8,
            b4 == ((d & 0x1F) | ((dw & 0x07) << 5)),
    ;
    let mo = t.month;
    assert((mo & 0x0F) & 0x0F == mo) by (bit_vector)
        requires
            mo < 16,
    ;
    let y = t.year;
    assert((y & 0x7F) & 0x7F == y) by (bit_vector)
        requires
            y < 128,
    ;
    assert(spec_cp56_from(spec_cp56_bytes(t)) == t);
}

/// ASDU header (the fixed 6-byte part).
#[derive(Debug, Clone, Copy, PartialEq, Eq, Structural)]
pub struct AsduHeader {
    /// Type identification
    pub type_id: TypeId,
    /// Variable structure qualifier
    pub vsq: Vsq,
    /// Cause of transmission
    pub cot: Cot,
    /// Test flag (if true, this is a test ASDU)
    pub test: bool,
    /// Negative flag (if true, negative confirmation)
    pub negative: bool,
    /// Originator address (0 if not used)
    pub originator: u8,
    /// Common address of ASDU (station address)
    pub common_address: u16,
}

/// The third header byte: the cause in the low six bits, the negative flag in
/// bit 6, the test flag in bit 7.
pub open spec fn spec_cot_field_byte(h: AsduHeader) -> u8 {
    spec_cot_byte(h.cot) | (if h.test {
        0x80u8
    } else {
        0u8
    }) | (if h.negative {
        0x40u8
    } else {
        0u8
    })
}

/// The six wire bytes of an ASDU header.
pub open spec fn spec_header_bytes(h: AsduHeader) -> Seq<u8> {
    seq![
        spec_type_byte(h.type_id),
        spec_vsq_byte(h.vsq),
        spec_cot_field_byte(h),
        h.originator,
        (h.common_address & 0xFF) as u8,
        ((h.common_address >> 8) & 0xFF) as u8,
    ]
}

/// The header denoted by the first six bytes of an ASDU, or `None` on an
/// unknown type identification or cause of transmission.
pub open spec fn spec_header_from(d: Seq<u8>) -> Option<AsduHeader> {
    if spec_type_from(d[0]) is Some && spec_cot_from(d[2]) is Some {
        Some(
            AsduHeader {
                type_id: spec_type_from(d[0])->0,
                vsq: spec_vsq_from(d[1]),
                cot: spec_cot_from(d[2])->0,
                test: (d[2] & 0x80) != 0,
                negative: (d[2] & 0x40) != 0,
                originator: d[3],
                common_address: (d[4] as u16) | ((d[5] as u16) << 8),
            },
        )
    } else {
        None
    }
}

impl AsduHeader {
    /// Create a new ASDU header with the given count of addressed (not
    /// sequenced) objects, no flags and originator zero.
    pub fn new(type_id: TypeId, count: u8, cot: Cot, common_address: u16) -> (r: Self)
        ensures
            r == (AsduHeader {
                type_id,
                vsq: Vsq { count, sequence: false },
                cot,
                test: false,
                negative: false,
                originator: 0u8,
                common_address,
            }),
    {
        Self {
            type_id,
            vsq: Vsq::new(count, false),
            cot,
            test: false,
            negative: false,
            originator: 0,
            common_address,
        }
    }

    /// Parse an ASDU header from bytes.
    ///
    /// Returns the header and the number of bytes consumed.
    pub fn parse(data: &[u8]) -> (r: Result<(Self, usize), Iec104Error>)
        ensures
            data@.len() < 6 ==> (r matches Err(e) && e is InvalidAsdu),
            data@.len() >= 6 ==> {
                &&& r is Ok <==> spec_header_from(data@) is Some
                &&& (r matches Ok(p) ==> Some(p.0) == spec_header_from(data@) && p.1 == 6
                    && p.0.vsq.count <= 127)
                &&& (r matches Err(e) ==> (e is UnknownTypeId || e is Protocol))
            },
    {
        if data.len() < 6 {
            return Err(Iec104Error::invalid_asdu("ASDU header too short"));
        }
        let type_id = match TypeId::from_u8(data[0]) {
            Ok(t) => t,
            Err(e) => {
                return Err(e);
            },
        };
        let vsq = Vsq::from_u8(data[1]);

        // COT is in the lower 6 bits, the test flag in bit 7, negative in bit 6
        let cot = match Cot::from_u8(data[2]) {
            Ok(c) => c,
            Err(e) => {
                return Err(e);
            },
        };
        let test = (data[2] & 0x80) != 0;
        let negative = (data[2] & 0x40) != 0;

        let originator = data[3];
        let common_address = (data[4] as u16) | ((data[5] as u16) << 8);

        Ok((Self { type_id, vsq, cot, test, negative, originator, common_address }, 6))
    }

    /// Encode this header, appending its six bytes to the buffer.
    pub fn encode(&self, buf: &mut Vec<u8>)
        ensures
            final(buf)@ == old(buf)@ + spec_header_bytes(*self),
    {
        buf.push(self.type_id.as_u8());
        buf.push(self.vsq.as_u8());
        let tb: u8 = if self.test {
            0x80
        } else {
            0
        };
        let nb: u8 = if self.negative {
            0x40
        } else {
            0
        };
        buf.push(self.cot.as_u8() | tb | nb);
        buf.push(self.originator);
        buf.push((self.common_address & 0xFF) as u8);
        buf.push(((self.common_address >> 8) & 0xFF) as u8);
        proof {
            assert(buf@ =~= old(buf)@ + spec_header_bytes(*self));
        }
    }

    /// Get the encoded size in bytes.
    pub fn encoded_size(&self) -> (r: usize)
        ensures
            r == spec_header_bytes(*self).len(),
    {
        proof {
            assert(spec_header_bytes(*self).len() == 6);
        }
        6
    }
}

/// A header whose VSQ count fits its seven wire bits is recovered exactly
/// from its six bytes.
pub proof fn lemma_header_roundtrip(h: AsduHeader)
    requires
        h.vsq.count <= 127,
    ensures
        spec_header_from(spec_header_bytes(h)) == Some(h),
{
    crate::type_id::lemma_type_id_roundtrip(h.type_id);
    lemma_vsq_roundtrip(h.vsq);
    let cb = spec_cot_byte(h.cot);
    let tb: u8 = if h.test {
        0x80
    } else {
        0
    };
    let nb: u8 = if h.negative {
        0x40
    } else {
        0
    };
    let d2 = cb | tb | nb;
    assert(d2 & 0x3F == cb && ((d2 & 0x80) != 0) == (tb == 0x80) && ((d2 & 0x40) != 0) == (nb
        == 0x40)) by (bit_vector)
        requires
            cb <= 47,
            tb == 0 || tb == 0x80,
            nb == 0 || nb == 0x40,
            d2 == (cb | tb | nb),
    ;
    crate::cot::lemma_cot_roundtrip(h.cot);
    assert(cb & 0x3F == cb) by (bit_vector)
        requires
            cb <= 47,
    ;
    assert(spec_cot_from(d2) == spec_cot_from(cb));
    let ca = h.common_address;
    assert(((((ca & 0xFF) as u8) as u16) | ((((ca >> 8) & 0xFF) as u8 as u16) << 8)) == ca)
        by (bit_vector);
    assert(spec_header_from(spec_header_bytes(h)) == Some(h));
}

/// Information object: an address together with its raw element bytes.
#[derive(Debug, Clone, PartialEq, Eq)]
pub struct InformationObject {
    /// Information object address
    pub ioa: Ioa,
    /// Raw element bytes
    pub data: Vec<u8>,
}

impl InformationObject {
    /// Create a new information object.
    pub fn new(ioa: Ioa, data: Vec<u8>) -> (r: Self)
        ensures
            r.ioa == ioa,
            r.data == data,
    {
        Self { ioa, data }
    }
}

/// The wire bytes of one information object: its three address bytes
/// followed by its element bytes.
pub open spec fn spec_obj_bytes(o: InformationObject) -> Seq<u8> {
    spec_ioa_bytes(o.ioa.0) + o.data@
}

/// The wire bytes of a list of information objects, in order.
pub open spec fn spec_objs_bytes(s: Seq<InformationObject>) -> Seq<u8>
    decreases s.len(),
{
    if s.len() == 0 {
        Seq::empty()
    } else {
        spec_objs_bytes(s.drop_last()) + spec_obj_bytes(s.last())
    }
}

/// Extending a list of objects by one appends that object's bytes.
pub proof fn lemma_objs_bytes_take_succ(s: Seq<InformationObject>, i: int)
    requires
        0 <= i < s.len(),
    ensures
        spec_objs_bytes(s.take(i + 1)) == spec_objs_bytes(s.take(i)) + spec_obj_bytes(s[i]),
{
    let t = s.take(i + 1);
    assert(t.drop_last() =~= s.take(i));
    assert(t.last() == s[i]);
}

/// Complete ASDU: the header plus either parsed information objects or the
/// raw payload bytes (for ASDUs taken from the wire).
#[derive(Debug, Clone, PartialEq, Eq)]
pub struct Asdu {
    /// ASDU header
    pub header: AsduHeader,
    /// Information objects
    pub objects: Vec<InformationObject>,
    /// Raw payload (for unparsed ASDUs); used only when `objects` is empty
    pub raw_data: Vec<u8>,
}

/// The payload bytes that an ASDU encodes to: its objects if it has any,
/// else its raw payload.
pub open spec fn spec_asdu_payload(a: Asdu) -> Seq<u8> {
    if a.objects@.len() > 0 {
        spec_objs_bytes(a.objects@)
    } else {
        a.raw_data@
    }
}

/// The full wire bytes of an ASDU.
pub open spec fn spec_asdu_bytes(a: Asdu) -> Seq<u8> {
    spec_header_bytes(a.header) + spec_asdu_payload(a)
}

impl Asdu {
    /// Create a new ASDU with no objects and no raw payload.
    pub fn new(header: AsduHeader) -> (r: Self)
        ensures
            r.header == header,
            r.objects@.len() == 0,
            r.raw_data@.len() == 0,
    {
        Self { header, objects: Vec::new(), raw_data: Vec::new() }
    }

    /// Create a general or group interrogation command ASDU: one object at
    /// address zero whose single payload byte is the qualifier of
    /// interrogation.
    pub fn interrogation_command(common_address: u16, qoi: u8) -> (r: Self)
        ensures
            r.header == AsduHeader::spec_command_header(
                TypeId::InterrogationCommand,
                common_address,
            ),
            r.objects@.len() == 1,
            r.objects@[0].ioa.0 == 0,
            r.objects@[0].data@ =~= seq![qoi],
            r.raw_data@.len() == 0,
    {
        let mut asdu = Self::new(
            AsduHeader::new(TypeId::InterrogationCommand, 1, Cot::Activation, common_address),
        );
        let mut data: Vec<u8> = Vec::new();
        data.push(qoi);
        asdu.objects.push(InformationObject { ioa: Ioa::new(0), data });
        proof {
            assert(0u32 & 0x00FFFFFF == 0) by (bit_vector);
        }
        asdu
    }

    /// Create a counter interrogation command ASDU: one object at address
    /// zero whose single payload byte selects the counter group.
    pub fn counter_interrogation_command(common_address: u16, group: u8) -> (r: Self)
        ensures
            r.header == AsduHeader::spec_command_header(
                TypeId::CounterInterrogation,
                common_address,
            ),
            r.objects@.len() == 1,
            r.objects@[0].ioa.0 == 0,
            r.objects@[0].data@ =~= seq![group],
            r.raw_data@.len() == 0,
    {
        let mut asdu = Self::new(
            AsduHeader::new(TypeId::CounterInterrogation, 1, Cot::Activation, common_address),
        );
        let mut data: Vec<u8> = Vec::new();
        data.push(group);
        asdu.objects.push(InformationObject { ioa: Ioa::new(0), data });
        proof {
            assert(0u32 & 0x00FFFFFF == 0) by (bit_vector);
        }
        asdu
    }

    /// Create a clock synchronization command ASDU: one object at address
    /// zero carrying the seven CP56Time2a bytes.
    pub fn clock_sync_command(common_address: u16, time: Cp56Time2a) -> (r: Self)
        ensures
            r.header == AsduHeader::spec_command_header(TypeId::ClockSync, common_address),
            r.objects@.len() == 1,
            r.objects@[0].ioa.0 == 0,
            r.objects@[0].data@ == spec_cp56_bytes(time),
            r.raw_data@.len() == 0,
    {
        let mut asdu = Self::new(
            AsduHeader::new(TypeId::ClockSync, 1, Cot::Activation, common_address),
        );
        asdu.objects.push(InformationObject { ioa: Ioa::new(0), data: time.to_bytes() });
        proof {
            assert(0u32 & 0x00FFFFFF == 0) by (bit_vector);
        }
        asdu
    }

    /// Create a single command ASDU. The payload byte holds the commanded
    /// state in bit 0 and the select flag in bit 7.
    pub fn single_command(common_address: u16, ioa: u32, value: bool, select: bool) -> (r: Self)
        ensures
            r.header == AsduHeader::spec_command_header(TypeId::SingleCommand, common_address),
            r.objects@.len() == 1,
            r.objects@[0].ioa.0 == ioa & 0x00FFFFFF,
            r.objects@[0].data@ =~= seq![
                (if value {
                    0x01u8
                } else {
                    0u8
                }) | (if select {
                    0x80u8
                } else {
                    0u8
                }),
            ],
            r.raw_data@.len() == 0,
    {
        let mut asdu = Self::new(
            AsduHeader::new(TypeId::SingleCommand, 1, Cot::Activation, common_address),
        );
        let vb: u8 = if value {
            0x01
        } else {
            0x00
        };
        let sb: u8 = if select {
            0x80
        } else {
            0x00
        };
        let mut data: Vec<u8> = Vec::new();
        data.push(vb | sb);
        asdu.objects.push(InformationObject { ioa: Ioa::new(ioa), data });
        asdu
    }

    /// Create a double command ASDU. The payload byte holds the commanded
    /// state in bits 0..=1 and the select flag in bit 7.
    pub fn double_command(common_address: u16, ioa: u32, value: u8, select: bool) -> (r: Self)
        ensures
            r.header == AsduHeader::spec_command_header(TypeId::DoubleCommand, common_address),
            r.objects@.len() == 1,
            r.objects@[0].ioa.0 == ioa & 0x00FFFFFF,
            r.objects@[0].data@ =~= seq![
                (value & 0x03) | (if select {
                    0x80u8
                } else {
                    0u8
                }),
            ],
            r.raw_data@.len() == 0,
    {
        let mut asdu = Self::new(
            AsduHeader::new(TypeId::DoubleCommand, 1, Cot::Activation, common_address),
        );
        let sb: u8 = if select {
            0x80
        } else {
            0x00
        };
        let mut data: Vec<u8> = Vec::new();
        data.push((value & 0x03) | sb);
        asdu.objects.push(InformationObject { ioa: Ioa::new(ioa), data });
        asdu
    }

    /// Create a floating-point setpoint command ASDU. The payload holds the
    /// four little-endian bytes of the IEEE-754 value followed by the QOS
    /// byte, whose bit 7 is the select flag.
    pub fn setpoint_float_command(
        common_address: u16,
        ioa: u32,
        value_bits: u32,
        select: bool,
    ) -> (r: Self)
        ensures
            r.header == AsduHeader::spec_command_header(TypeId::SetpointFloat, common_address),
            r.objects@.len() == 1,
            r.objects@[0].ioa.0 == ioa & 0x00FFFFFF,
            r.objects@[0].data@ =~= seq![
                (value_bits & 0xFF) as u8,
                ((value_bits >> 8) & 0xFF) as u8,
                ((value_bits >> 16) & 0xFF) as u8,
                ((value_bits >> 24) & 0xFF) as u8,
                (if select {
                    0x80u8
                } else {
                    0u8
                }),
            ],
            r.raw_data@.len() == 0,
    {
        let mut asdu = Self::new(
            AsduHeader::new(TypeId::SetpointFloat, 1, Cot::Activation, common_address),
        );
        let qos: u8 = if select {
            0x80
        } else {
            0x00
        };
        let mut data: Vec<u8> = Vec::new();
        data.push((value_bits & 0xFF) as u8);
        data.push(((value_bits >> 8) & 0xFF) as u8);
        data.push(((value_bits >> 16) & 0xFF) as u8);
        data.push(((value_bits >> 24) & 0xFF) as u8);
        data.push(qos);
        asdu.objects.push(InformationObject { ioa: Ioa::new(ioa), data });
        asdu
    }

    /// Parse an ASDU from bytes (everything after the APCI): the six header
    /// bytes followed by the raw payload, which is kept unparsed.
    pub fn parse(data: &[u8]) -> (r: Result<Self, Iec104Error>)
        ensures
            r is Ok <==> (data@.len() >= 6 && spec_header_from(data@) is Some),
            r matches Ok(a) ==> (Some(a.header) == spec_header_from(data@) && a.header.vsq.count
                <= 127 && a.objects@.len() == 0 && a.raw_data@ == data@.skip(6)),
            r matches Err(e) ==> (e is InvalidAsdu || e is UnknownTypeId || e is Protocol),
    {
        let (header, header_len) = match AsduHeader::parse(data) {
            Ok(p) => p,
            Err(e) => {
                return Err(e);
            },
        };
        let rest = vstd::slice::slice_subrange(data, header_len, data.len());
        let raw_data = vstd::slice::slice_to_vec(rest);
        proof {
            assert(raw_data@ =~= data@.skip(6));
        }
        Ok(Self { header, objects: Vec::new(), raw_data })
    }

    /// Parse an ASDU from an owned byte buffer.
    pub fn parse_bytes(data: Vec<u8>) -> (r: Result<Self, Iec104Error>)
        ensures
            r is Ok <==> (data@.len() >= 6 && spec_header_from(data@) is Some),
            r matches Ok(a) ==> (Some(a.header) == spec_header_from(data@) && a.header.vsq.count
                <= 127 && a.objects@.len() == 0 && a.raw_data@ == data@.skip(6)),
            r matches Err(e) ==> (e is InvalidAsdu || e is UnknownTypeId || e is Protocol),
    {
        Self::parse(data.as_slice())
    }

    /// Encode this ASDU to a fresh byte buffer.
    pub fn encode(&self) -> (r: Vec<u8>)
        ensures
            r@ == spec_asdu_bytes(*self),
    {
        let mut buf: Vec<u8> = Vec::new();
        self.encode_to(&mut buf);
        buf
    }

    /// Encode this ASDU, appending its bytes to the buffer.
    pub fn encode_to(&self, buf: &mut Vec<u8>)
        ensures
            final(buf)@ == old(buf)@ + spec_asdu_bytes(*self),
    {
        self.header.encode(buf);

        // Encode information objects
        let n = self.objects.len();
        let mut i: usize = 0;
        while i < n
            invariant
                n == self.objects@.len(),
                i <= n,
                buf@ == old(buf)@ + spec_header_bytes(self.header) + spec_objs_bytes(
                    self.objects@.take(i as int),
                ),
            decreases n - i,
        {
            let obj = &self.objects[i];
            let ioa_bytes = obj.ioa.to_bytes();
            buf.push(ioa_bytes[0]);
            buf.push(ioa_bytes[1]);
            buf.push(ioa_bytes[2]);
            buf.extend_from_slice(obj.data.as_slice());
            proof {
                lemma_objs_bytes_take_succ(self.objects@, i as int);
                assert(buf@ =~= old(buf)@ + spec_header_bytes(self.header) + spec_objs_bytes(
                    self.objects@.take(i as int + 1),
                ));
            }
            i = i + 1;
        }

        // Or the raw payload if no parsed objects are present
        if self.objects.len() == 0 && self.raw_data.len() > 0 {
            buf.extend_from_slice(self.raw_data.as_slice());
        }
        proof {
            assert(self.objects@.take(self.objects@.len() as int) =~= self.objects@);
            assert(buf@ =~= old(buf)@ + spec_asdu_bytes(*self));
        }
    }

    /// Calculate the encoded length of this ASDU.
    pub fn encoded_len(&self) -> (r: usize)
        requires
            spec_asdu_bytes(*self).len() <= usize::MAX,
        ensures
            r == spec_asdu_bytes(*self).len(),
    {
        let mut len: usize = 6;
        if self.objects.len() == 0 {
            proof {
                assert(spec_asdu_bytes(*self).len() == 6 + self.raw_data@.len());
            }
            len = len + self.raw_data.len();
            return len;
        }
        let n = self.objects.len();
        let mut i: usize = 0;
        while i < n
            invariant
                n == self.objects@.len(),
                n > 0,
                i <= n,
                len == 6 + spec_objs_bytes(self.objects@.take(i as int)).len(),
                spec_asdu_bytes(*self).len() == 6 + spec_objs_bytes(self.objects@).len(),
                spec_asdu_bytes(*self).len() <= usize::MAX,
            decreases n - i,
        {
            proof {
                lemma_objs_bytes_take_succ(self.objects@, i as int);
                lemma_objs_bytes_take_len_le(self.objects@, i as int + 1);
            }
            let obj = &self.objects[i];
            len = len + 3 + obj.data.len();
            i = i + 1;
        }
        proof {
            assert(self.objects@.take(n as int) =~= self.objects@);
        }
        len
    }
}

impl AsduHeader {
    /// The header that every command builder produces: one addressed object,
    /// cause Activation, no flags, originator zero.
    pub open spec fn spec_command_header(type_id: TypeId, common_address: u16) -> AsduHeader {
        AsduHeader {
            type_id,
            vsq: Vsq { count: 1, sequence: false },
            cot: Cot::Activation,
            test: false,
            negative: false,
            originator: 0,
            common_address,
        }
    }
}

/// The bytes of a prefix of an object list are no longer than the bytes of
/// the whole list.
pub proof fn lemma_objs_bytes_take_len_le(s: Seq<InformationObject>, i: int)
    requires
        0 <= i <= s.len(),
    ensures
        spec_objs_bytes(s.take(i)).len() <= spec_objs_bytes(s).len(),
    decreases s.len() - i,
{
    if i == s.len() {
        assert(s.take(i) =~= s);
    } else {
        lemma_objs_bytes_take_succ(s, i);
        lemma_objs_bytes_take_len_le(s, i + 1);
    }
}


} // verus!
