//! Data point types: the parsed output that the ASDU parser emits.

use vstd::prelude::*;

verus! {

use crate::asdu::{Cp56Time2a, DoublePointValue, MeasuredQuality, QualityDescriptor};

/// Quality flags for data points.
///
/// Packed into a single byte. Bit layout:
/// - Bit 0: overflow (OV)
/// - Bit 1: blocked (BL)
/// - Bit 2: substituted (SB)
/// - Bit 3: not_topical (NT)
/// - Bit 4: invalid (IV)
/// - Bit 5: elapsed_time_invalid (EI)
#[derive(Debug, Clone, Copy, PartialEq, Eq, Default, Structural)]
pub struct Quality(pub u8);

impl Quality {
    /// Mask of the overflow flag.
    pub const OV_MASK: u8 = 0b0000_0001;

    /// Mask of the blocked flag.
    pub const BL_MASK: u8 = 0b0000_0010;

    /// Mask of the substituted flag.
    pub const SB_MASK: u8 = 0b0000_0100;

    /// Mask of the not-topical flag.
    pub const NT_MASK: u8 = 0b0000_1000;

    /// Mask of the invalid flag.
    pub const IV_MASK: u8 = 0b0001_0000;

    /// Mask of the elapsed-time-invalid flag.
    pub const EI_MASK: u8 = 0b0010_0000;

    /// Good quality (all flags false).
    pub fn good() -> (r: Self)
        ensures
            r.0 == 0,
    {
        Self(0)
    }
}

impl Quality {
    /// Overflow (OV): the value exceeds its predefined range.
    pub open spec fn spec_overflow(&self) -> bool {
        self.0 & 0x01 != 0
    }

    /// Blocked (BL): the value is blocked for transmission.
    pub open spec fn spec_blocked(&self) -> bool {
        self.0 & 0x02 != 0
    }

    /// Substituted (SB): the value was entered by hand.
    pub open spec fn spec_substituted(&self) -> bool {
        self.0 & 0x04 != 0
    }

    /// Not topical (NT): the value is outdated.
    pub open spec fn spec_not_topical(&self) -> bool {
        self.0 & 0x08 != 0
    }

    /// Invalid (IV): the value is invalid.
    pub open spec fn spec_invalid(&self) -> bool {
        self.0 & 0x10 != 0
    }

    /// Elapsed time invalid (EI), for counter values.
    pub open spec fn spec_elapsed_time_invalid(&self) -> bool {
        self.0 & 0x20 != 0
    }

    /// Overflow (OV) - value exceeds predefined range
    #[verifier::when_used_as_spec(spec_overflow)]
    pub fn overflow(&self) -> (r: bool)
        ensures
            r == self.spec_overflow(),
    {
        (self.0 & Self::OV_MASK) != 0
    }

    /// Set overflow flag
    pub fn set_overflow(self, value: bool) -> (r: Self)
        ensures
            r.0 == (if value {
                self.0 | 0x01
            } else {
                self.0 & 0xFE
            }),
    {
        if value {
            Self(self.0 | Self::OV_MASK)
        } else {
            Self(self.0 & 0xFE)
        }
    }

    /// Blocked (BL) - value is blocked for transmission
    #[verifier::when_used_as_spec(spec_blocked)]
    pub fn blocked(&self) -> (r: bool)
        ensures
            r == self.spec_blocked(),
    {
        (self.0 & Self::BL_MASK) != 0
    }

    /// Set blocked flag
    pub fn set_blocked(self, value: bool) -> (r: Self)
        ensures
            r.0 == (if value {
                self.0 | 0x02
            } else {
                self.0 & 0xFD
            }),
    {
        if value {
            Self(self.0 | Self::BL_MASK)
        } else {
            Self(self.0 & 0xFD)
        }
    }

    /// Substituted (SB) - value is substituted
    #[verifier::when_used_as_spec(spec_substituted)]
    pub fn substituted(&self) -> (r: bool)
        ensures
            r == self.spec_substituted(),
    {
        (self.0 & Self::SB_MASK) != 0
    }

    /// Set substituted flag
    pub fn set_substituted(self, value: bool) -> (r: Self)
        ensures
            r.0 == (if value {
                self.0 | 0x04
            } else {
                self.0 & 0xFB
            }),
    {
        if value {
            Self(self.0 | Self::SB_MASK)
        } else {
            Self(self.0 & 0xFB)
        }
    }

    /// Not topical (NT) - value is not topical (outdated)
    #[verifier::when_used_as_spec(spec_not_topical)]
    pub fn not_topical(&self) -> (r: bool)
        ensures
            r == self.spec_not_topical(),
    {
        (self.0 & Self::NT_MASK) != 0
    }

    /// Set not_topical flag
    pub fn set_not_topical(self, value: bool) -> (r: Self)
        ensures
            r.0 == (if value {
                self.0 | 0x08
            } else {
                self.0 & 0xF7
            }),
    {
        if value {
            Self(self.0 | Self::NT_MASK)
        } else {
            Self(self.0 & 0xF7)
        }
    }

    /// Invalid (IV) - value is invalid
    #[verifier::when_used_as_spec(spec_invalid)]
    pub fn invalid(&self) -> (r: bool)
        ensures
            r == self.spec_invalid(),
    {
        (self.0 & Self::IV_MASK) != 0
    }

    /// Set invalid flag
    pub fn set_invalid(self, value: bool) -> (r: Self)
        ensures
            r.0 == (if value {
                self.0 | 0x10
            } else {
                self.0 & 0xEF
            }),
    {
        if value {
            Self(self.0 | Self::IV_MASK)
        } else {
            Self(self.0 & 0xEF)
        }
    }

    /// Elapsed time invalid (for counter values)
    #[verifier::when_used_as_spec(spec_elapsed_time_invalid)]
    pub fn elapsed_time_invalid(&self) -> (r: bool)
        ensures
            r == self.spec_elapsed_time_invalid(),
    {
        (self.0 & Self::EI_MASK) != 0
    }

    /// Set elapsed_time_invalid flag
    pub fn set_elapsed_time_invalid(self, value: bool) -> (r: Self)
        ensures
            r.0 == (if value {
                self.0 | 0x20
            } else {
                self.0 & 0xDF
            }),
    {
        if value {
            Self(self.0 | Self::EI_MASK)
        } else {
            Self(self.0 & 0xDF)
        }
    }

    /// Get the raw packed byte value
    pub fn as_raw(&self) -> (r: u8)
        ensures
            r == self.0,
    {
        self.0
    }

    /// Create from raw packed byte value
    pub fn from_raw(raw: u8) -> (r: Self)
        ensures
            r.0 == raw,
    {
        Self(raw)
    }

    /// Check if quality is good (no flags set).
    pub fn is_good(&self) -> (r: bool)
        ensures
            r == (self.0 == 0),
    {
        self.0 == 0
    }

    /// Create a new Quality with only the invalid flag set based on a boolean.
    pub fn with_invalid(invalid: bool) -> (r: Self)
        ensures
            r.0 == (if invalid {
                0x10u8
            } else {
                0u8
            }),
    {
        if invalid {
            Self(Self::IV_MASK)
        } else {
            Self(0)
        }
    }
}

/// The packed quality byte derived from a quality descriptor.
pub open spec fn spec_quality_from_qd(qd: QualityDescriptor) -> u8 {
    (if qd.blocked {
        0x02u8
    } else {
        0u8
    }) | (if qd.substituted {
        0x04u8
    } else {
        0u8
    }) | (if qd.not_topical {
        0x08u8
    } else {
        0u8
    }) | (if qd.invalid {
        0x10u8
    } else {
        0u8
    })
}

/// The packed quality byte derived from a measured-value quality.
pub open spec fn spec_quality_from_mq(mq: MeasuredQuality) -> u8 {
    (if mq.overflow {
        0x01u8
    } else {
        0u8
    }) | (if mq.blocked {
        0x02u8
    } else {
        0u8
    }) | (if mq.substituted {
        0x04u8
    } else {
        0u8
    }) | (if mq.not_topical {
        0x08u8
    } else {
        0u8
    }) | (if mq.invalid {
        0x10u8
    } else {
        0u8
    })
}

/// The packed quality byte derived from a QDS wire byte: OV from bit 0, BL,
/// SB, NT, IV from bits 4 to 7.
pub open spec fn spec_quality_from_qds(byte: u8) -> u8 {
    (if byte & 0x01 != 0 {
        0x01u8
    } else {
        0u8
    }) | (if byte & 0x10 != 0 {
        0x02u8
    } else {
        0u8
    }) | (if byte & 0x20 != 0 {
        0x04u8
    } else {
        0u8
    }) | (if byte & 0x40 != 0 {
        0x08u8
    } else {
        0u8
    }) | (if byte & 0x80 != 0 {
        0x10u8
    } else {
        0u8
    })
}

/// The packed quality byte derived from an SIQ or DIQ wire byte: BL, SB, NT,
/// IV from bits 4 to 7.
pub open spec fn spec_quality_from_siq(byte: u8) -> u8 {
    (if byte & 0x10 != 0 {
        0x02u8
    } else {
        0u8
    }) | (if byte & 0x20 != 0 {
        0x04u8
    } else {
        0u8
    }) | (if byte & 0x40 != 0 {
        0x08u8
    } else {
        0u8
    }) | (if byte & 0x80 != 0 {
        0x10u8
    } else {
        0u8
    })
}

/// The packed quality byte derived from the BCR flag byte: IV from bit 7 and
/// EI (carry) from bit 6.
pub open spec fn spec_quality_from_bcr(byte: u8) -> u8 {
    (if byte & 0x80 != 0 {
        0x10u8
    } else {
        0u8
    }) | (if byte & 0x40 != 0 {
        0x20u8
    } else {
        0u8
    })
}

impl Quality {
    /// Create from QualityDescriptor (for single/double point).
    pub fn from_quality_descriptor(qd: QualityDescriptor) -> (r: Self)
        ensures
            r.0 == spec_quality_from_qd(qd),
    {
        let bl: u8 = if qd.blocked {
            0x02
        } else {
            0
        };
        let sb: u8 = if qd.substituted {
            0x04
        } else {
            0
        };
        let nt: u8 = if qd.not_topical {
            0x08
        } else {
            0
        };
        let iv: u8 = if qd.invalid {
            0x10
        } else {
            0
        };
        Self(bl | sb | nt | iv)
    }

    /// Create from MeasuredQuality (for measured values).
    pub fn from_measured_quality(mq: MeasuredQuality) -> (r: Self)
        ensures
            r.0 == spec_quality_from_mq(mq),
    {
        let ov: u8 = if mq.overflow {
            0x01
        } else {
            0
        };
        let bl: u8 = if mq.blocked {
            0x02
        } else {
            0
        };
        let sb: u8 = if mq.substituted {
            0x04
        } else {
            0
        };
        let nt: u8 = if mq.not_topical {
            0x08
        } else {
            0
        };
        let iv: u8 = if mq.invalid {
            0x10
        } else {
            0
        };
        Self(ov | bl | sb | nt | iv)
    }

    /// Parse from QDS byte (quality descriptor for measured values).
    pub fn from_qds(byte: u8) -> (r: Self)
        ensures
            r.0 == spec_quality_from_qds(byte),
            r.overflow() == (byte & 0x01 != 0),
            r.blocked() == (byte & 0x10 != 0),
            r.substituted() == (byte & 0x20 != 0),
            r.not_topical() == (byte & 0x40 != 0),
            r.invalid() == (byte & 0x80 != 0),
            !r.elapsed_time_invalid(),
            r.0 & 0x1F == r.0,
    {
        proof {
            lemma_qds_packing(byte);
        }
        let ov: u8 = if byte & 0x01 != 0 {
            0x01
        } else {
            0
        };
        let bl: u8 = if byte & 0x10 != 0 {
            0x02
        } else {
            0
        };
        let sb: u8 = if byte & 0x20 != 0 {
            0x04
        } else {
            0
        };
        let nt: u8 = if byte & 0x40 != 0 {
            0x08
        } else {
            0
        };
        let iv: u8 = if byte & 0x80 != 0 {
            0x10
        } else {
            0
        };
        Self(ov | bl | sb | nt | iv)
    }

    /// Parse from SIQ byte (single-point information with quality).
    pub fn from_siq(byte: u8) -> (r: Self)
        ensures
            r.0 == spec_quality_from_siq(byte),
            !r.overflow(),
            r.blocked() == (byte & 0x10 != 0),
            r.substituted() == (byte & 0x20 != 0),
            r.not_topical() == (byte & 0x40 != 0),
            r.invalid() == (byte & 0x80 != 0),
            !r.elapsed_time_invalid(),
            r.0 == 0 <==> (byte & 0xF0 == 0),
    {
        proof {
            lemma_siq_packing(byte);
        }
        let bl: u8 = if byte & 0x10 != 0 {
            0x02
        } else {
            0
        };
        let sb: u8 = if byte & 0x20 != 0 {
            0x04
        } else {
            0
        };
        let nt: u8 = if byte & 0x40 != 0 {
            0x08
        } else {
            0
        };
        let iv: u8 = if byte & 0x80 != 0 {
            0x10
        } else {
            0
        };
        Self(bl | sb | nt | iv)
    }

    /// Parse from DIQ byte (double-point information with quality). The
    /// quality bits sit in the same positions as in an SIQ byte.
    pub fn from_diq(byte: u8) -> (r: Self)
        ensures
            r.0 == spec_quality_from_siq(byte),
            !r.overflow(),
            r.blocked() == (byte & 0x10 != 0),
            r.substituted() == (byte & 0x20 != 0),
            r.not_topical() == (byte & 0x40 != 0),
            r.invalid() == (byte & 0x80 != 0),
            !r.elapsed_time_invalid(),
    {
        Self::from_siq(byte)
    }

    /// Parse from the flag byte of a binary counter reading.
    pub fn from_bcr_flags(byte: u8) -> (r: Self)
        ensures
            r.0 == spec_quality_from_bcr(byte),
            r.invalid() == (byte & 0x80 != 0),
            r.elapsed_time_invalid() == (byte & 0x40 != 0),
    {
        proof {
            lemma_bcr_packing(byte);
        }
        let iv: u8 = if byte & 0x80 != 0 {
            0x10
        } else {
            0
        };
        let ei: u8 = if byte & 0x40 != 0 {
            0x20
        } else {
            0
        };
        Self(iv | ei)
    }
}

/// Packing a QDS byte touches only the five low bits, and each selector of
/// the packed byte agrees with the corresponding input bit.
pub proof fn lemma_qds_packing(byte: u8)
    ensures
        spec_quality_from_qds(byte) & 0x1F == spec_quality_from_qds(byte),
        (spec_quality_from_qds(byte) & 0x01 != 0) == (byte & 0x01 != 0),
        (spec_quality_from_qds(byte) & 0x02 != 0) == (byte & 0x10 != 0),
        (spec_quality_from_qds(byte) & 0x04 != 0) == (byte & 0x20 != 0),
        (spec_quality_from_qds(byte) & 0x08 != 0) == (byte & 0x40 != 0),
        (spec_quality_from_qds(byte) & 0x10 != 0) == (byte & 0x80 != 0),
        (spec_quality_from_qds(byte) & 0x20 != 0) == false,
{
    let ov: u8 = if byte & 0x01 != 0 {
        0x01
    } else {
        0
    };
    let bl: u8 = if byte & 0x10 != 0 {
        0x02
    } else {
        0
    };
    let sb: u8 = if byte & 0x20 != 0 {
        0x04
    } else {
        0
    };
    let nt: u8 = if byte & 0x40 != 0 {
        0x08
    } else {
        0
    };
    let iv: u8 = if byte & 0x80 != 0 {
        0x10
    } else {
        0
    };
    let r = ov | bl | sb | nt | iv;
    assert(r & 0x1F == r && (r & 0x01 != 0) == (ov == 0x01) && (r & 0x02 != 0) == (bl == 0x02) && (
    r & 0x04 != 0) == (sb == 0x04) && (r & 0x08 != 0) == (nt == 0x08) && (r & 0x10 != 0) == (iv
        == 0x10) && (r & 0x20 == 0)) by (bit_vector)
        requires
            ov == 0 || ov == 0x01,
            bl == 0 || bl == 0x02,
            sb == 0 || sb == 0x04,
            nt == 0 || nt == 0x08,
            iv == 0 || iv == 0x10,
            r == (ov | bl | sb | nt | iv),
    ;
}

/// Packing an SIQ byte touches only the four quality bits, and each selector
/// of the packed byte agrees with the corresponding input bit.
pub proof fn lemma_siq_packing(byte: u8)
    ensures
        (spec_quality_from_siq(byte) & 0x01 != 0) == false,
        (spec_quality_from_siq(byte) & 0x02 != 0) == (byte & 0x10 != 0),
        (spec_quality_from_siq(byte) & 0x04 != 0) == (byte & 0x20 != 0),
        (spec_quality_from_siq(byte) & 0x08 != 0) == (byte & 0x40 != 0),
        (spec_quality_from_siq(byte) & 0x10 != 0) == (byte & 0x80 != 0),
        (spec_quality_from_siq(byte) & 0x20 != 0) == false,
        (spec_quality_from_siq(byte) == 0) == (byte & 0xF0 == 0),
{
    let bl: u8 = if byte & 0x10 != 0 {
        0x02
    } else {
        0
    };
    let sb: u8 = if byte & 0x20 != 0 {
        0x04
    } else {
        0
    };
    let nt: u8 = if byte & 0x40 != 0 {
        0x08
    } else {
        0
    };
    let iv: u8 = if byte & 0x80 != 0 {
        0x10
    } else {
        0
    };
    let r = bl | sb | nt | iv;
    assert((r & 0x01 == 0) && (r & 0x02 != 0) == (bl == 0x02) && (r & 0x04 != 0) == (sb == 0x04)
        && (r & 0x08 != 0) == (nt == 0x08) && (r & 0x10 != 0) == (iv == 0x10) && (r & 0x20 == 0) && (
    (r == 0) == (bl == 0 && sb == 0 && nt == 0 && iv == 0))) by (bit_vector)
        requires
            bl == 0 || bl == 0x02,
            sb == 0 || sb == 0x04,
            nt == 0 || nt == 0x08,
            iv == 0 || iv == 0x10,
            r == (bl | sb | nt | iv),
    ;
    assert((byte & 0xF0 == 0) == (byte & 0x10 == 0 && byte & 0x20 == 0 && byte & 0x40 == 0 && byte
        & 0x80 == 0)) by (bit_vector);
}

/// Packing a BCR flag byte sets only IV and EI, each agreeing with the
/// corresponding input bit.
pub proof fn lemma_bcr_packing(byte: u8)
    ensures
        (spec_quality_from_bcr(byte) & 0x10 != 0) == (byte & 0x80 != 0),
        (spec_quality_from_bcr(byte) & 0x20 != 0) == (byte & 0x40 != 0),
{
    let iv: u8 = if byte & 0x80 != 0 {
        0x10
    } else {
        0
    };
    let ei: u8 = if byte & 0x40 != 0 {
        0x20
    } else {
        0
    };
    let r = iv | ei;
    assert((r & 0x10 != 0) == (iv == 0x10) && (r & 0x20 != 0) == (ei == 0x20)) by (bit_vector)
        requires
            iv == 0 || iv == 0x10,
            ei == 0 || ei == 0x20,
            r == (iv | ei),
    ;
}

/// Data value variants.
///
/// Raw wire quantities are kept as stored: a normalized value is its signed
/// 16-bit wire word (the fraction of full scale is that word divided by
/// 32768), and a short float is its four IEEE-754 bytes as a 32-bit word.
#[derive(Debug, Clone, Copy, PartialEq, Eq, Structural)]
pub enum DataValue {
    /// Single-point information
    Single(bool),
    /// Double-point information
    Double(DoublePointValue),
    /// Normalized value: the raw signed 16-bit word; full scale is 32768
    Normalized(i16),
    /// Scaled value
    Scaled(i16),
    /// Short floating point: the IEEE-754 bit pattern, little-endian on the wire
    Float(u32),
    /// Integrated totals / counter
    Counter(i32),
    /// Bitstring of 32 bits
    Bitstring(u32),
    /// Step position (-64 to +63)
    StepPosition(i8),
    /// Binary counter reading with sequence and flags
    BinaryCounter {
        /// Counter reading
        value: i32,
        /// Sequence number (0-31)
        sequence: u8,
        /// Carry flag
        carry: bool,
        /// Adjusted flag
        adjusted: bool,
        /// Invalid flag
        invalid: bool,
    },
}

impl DataValue {
    /// Convert to bool if this is a settled boolean value.
    pub fn as_bool(&self) -> (r: Option<bool>)
        ensures
            r == (match *self {
                DataValue::Single(v) => Some(v),
                DataValue::Double(v) => match v {
                    DoublePointValue::Off => Some(false),
                    DoublePointValue::On => Some(true),
                    _ => None::<bool>,
                },
                _ => None::<bool>,
            }),
    {
        match self {
            Self::Single(v) => Some(*v),
            Self::Double(v) => match v {
                DoublePointValue::Off => Some(false),
                DoublePointValue::On => Some(true),
                _ => None,
            },
            _ => None,
        }
    }

    /// Check if this is a boolean type.
    pub fn is_boolean(&self) -> (r: bool)
        ensures
            r == (self is Single || self is Double),
    {
        match self {
            Self::Single(_) | Self::Double(_) => true,
            _ => false,
        }
    }

    /// Check if this is a numeric type.
    pub fn is_numeric(&self) -> (r: bool)
        ensures
            r == (self is Normalized || self is Scaled || self is Float || self is Counter
                || self is StepPosition || self is BinaryCounter),
    {
        match self {
            Self::Normalized(_) | Self::Scaled(_) | Self::Float(_) | Self::Counter(_)
            | Self::StepPosition(_) | Self::BinaryCounter { .. } => true,
            _ => false,
        }
    }
}

/// Unified data point representing an information object.
#[derive(Debug, Clone, Copy, PartialEq, Eq, Structural)]
pub struct DataPoint {
    /// Information object address (IOA)
    pub ioa: u32,
    /// Data value
    pub value: DataValue,
    /// Quality flags
    pub quality: Quality,
    /// Timestamp (if present)
    pub timestamp: Option<Cp56Time2a>,
}

impl DataPoint {
    /// Create a new data point with good quality and no timestamp.
    pub fn new(ioa: u32, value: DataValue) -> (r: Self)
        ensures
            r == (DataPoint { ioa, value, quality: Quality(0), timestamp: None::<Cp56Time2a> }),
    {
        Self { ioa, value, quality: Quality(0), timestamp: None }
    }

    /// Create a data point with quality.
    pub fn with_quality(ioa: u32, value: DataValue, quality: Quality) -> (r: Self)
        ensures
            r == (DataPoint { ioa, value, quality, timestamp: None::<Cp56Time2a> }),
    {
        Self { ioa, value, quality, timestamp: None }
    }

    /// Create a data point with timestamp.
    pub fn with_timestamp(ioa: u32, value: DataValue, quality: Quality, timestamp: Cp56Time2a) -> (r:
        Self)
        ensures
            r == (DataPoint { ioa, value, quality, timestamp: Some(timestamp) }),
    {
        Self { ioa, value, quality, timestamp: Some(timestamp) }
    }

    /// Check if the data point has good quality.
    pub fn is_good(&self) -> (r: bool)
        ensures
            r == (self.quality.0 == 0),
    {
        self.quality.is_good()
    }

    /// Get the value as bool if boolean.
    pub fn as_bool(&self) -> (r: Option<bool>)
        ensures
            r == (match self.value {
                DataValue::Single(v) => Some(v),
                DataValue::Double(v) => match v {
                    DoublePointValue::Off => Some(false),
                    DoublePointValue::On => Some(true),
                    _ => None::<bool>,
                },
                _ => None::<bool>,
            }),
    {
        self.value.as_bool()
    }
}

/// One step of joining flag names with `|`: append the name if the flag is
/// set, with a separator unless nothing came before.
pub open spec fn spec_flag_seg(acc: Seq<char>, name: Seq<char>, set: bool) -> Seq<char> {
    if !set {
        acc
    } else if acc.len() == 0 {
        name
    } else {
        acc + "|"@ + name
    }
}

/// The human-readable description of a quality byte: `Good`, or the set
/// flags joined with `|`.
pub open spec fn spec_quality_display(q: Quality) -> Seq<char> {
    if q.0 == 0 {
        "Good"@
    } else {
        spec_flag_seg(
            spec_flag_seg(
                spec_flag_seg(
                    spec_flag_seg(
                        spec_flag_seg(
                            spec_flag_seg(Seq::empty(), "OV"@, q.spec_overflow()),
                            "BL"@,
                            q.spec_blocked(),
                        ),
                        "SB"@,
                        q.spec_substituted(),
                    ),
                    "NT"@,
                    q.spec_not_topical(),
                ),
                "IV"@,
                q.spec_invalid(),
            ),
            "EI"@,
            q.spec_elapsed_time_invalid(),
        )
    }
}

impl Quality {
    /// A human-readable description of this quality.
    pub fn display_string(&self) -> (r: String)
        ensures
            r@ == spec_quality_display(*self),
    {
        if self.is_good() {
            return "Good".to_owned();
        }
        proof {
            reveal_strlit("OV");
            reveal_strlit("BL");
            reveal_strlit("SB");
            reveal_strlit("NT");
            reveal_strlit("IV");
            reveal_strlit("EI");
        }
        let mut s = String::new();
        let mut first: bool = true;
        let ghost mut g: Seq<char> = Seq::empty();
        if self.overflow() {
            if !first {
                s.append("|");
            }
            s.append("OV");
            first = false;
        }
        proof {
            g = spec_flag_seg(g, "OV"@, self.spec_overflow());
            assert(s@ =~= g);
        }
        if self.blocked() {
            if !first {
                s.append("|");
            }
            s.append("BL");
            first = false;
        }
        proof {
            g = spec_flag_seg(g, "BL"@, self.spec_blocked());
            assert(s@ =~= g);
        }
        if self.substituted() {
            if !first {
                s.append("|");
            }
            s.append("SB");
            first = false;
        }
        proof {
            g = spec_flag_seg(g, "SB"@, self.spec_substituted());
            assert(s@ =~= g);
        }
        if self.not_topical() {
            if !first {
                s.append("|");
            }
            s.append("NT");
            first = false;
        }
        proof {
            g = spec_flag_seg(g, "NT"@, self.spec_not_topical());
            assert(s@ =~= g);
        }
        if self.invalid() {
            if !first {
                s.append("|");
            }
            s.append("IV");
            first = false;
        }
        proof {
            g = spec_flag_seg(g, "IV"@, self.spec_invalid());
            assert(s@ =~= g);
        }
        if self.elapsed_time_invalid() {
            if !first {
                s.append("|");
            }
            s.append("EI");
            first = false;
        }
        proof {
            g = spec_flag_seg(g, "EI"@, self.spec_elapsed_time_invalid());
            assert(s@ =~= g);
        }
        s
    }
}


} // verus!
