//! IEC 60870-5-104 Cause of Transmission (COT).
//!
//! The cause of transmission defines the reason for sending an ASDU. On the
//! wire it occupies the low six bits of the third ASDU header byte.

use vstd::prelude::*;

verus! {

use crate::error::Iec104Error;

/// Cause of Transmission (COT).
#[derive(Debug, Clone, Copy, PartialEq, Eq, Hash, Structural)]
pub enum Cot {
    /// Periodic, cyclic (1)
    Periodic,
    /// Background scan (2)
    Background,
    /// Spontaneous (3)
    Spontaneous,
    /// Initialized (4)
    Initialized,
    /// Request or requested (5)
    Request,
    /// Activation (6)
    Activation,
    /// Activation confirmation (7)
    ActivationConfirm,
    /// Deactivation (8)
    Deactivation,
    /// Deactivation confirmation (9)
    DeactivationConfirm,
    /// Activation termination (10)
    ActivationTermination,
    /// Return information caused by a remote command (11)
    ReturnRemoteCommand,
    /// Return information caused by a local command (12)
    ReturnLocalCommand,
    /// File transfer (13)
    FileTransfer,
    /// Interrogated by station interrogation (20)
    InterrogatedByStation,
    /// Interrogated by group 1 interrogation (21)
    InterrogatedByGroup1,
    /// Interrogated by group 2 interrogation (22)
    InterrogatedByGroup2,
    /// Interrogated by group 3 interrogation (23)
    InterrogatedByGroup3,
    /// Interrogated by group 4 interrogation (24)
    InterrogatedByGroup4,
    /// Interrogated by group 5 interrogation (25)
    InterrogatedByGroup5,
    /// Interrogated by group 6 interrogation (26)
    InterrogatedByGroup6,
    /// Interrogated by group 7 interrogation (27)
    InterrogatedByGroup7,
    /// Interrogated by group 8 interrogation (28)
    InterrogatedByGroup8,
    /// Interrogated by group 9 interrogation (29)
    InterrogatedByGroup9,
    /// Interrogated by group 10 interrogation (30)
    InterrogatedByGroup10,
    /// Interrogated by group 11 interrogation (31)
    InterrogatedByGroup11,
    /// Interrogated by group 12 interrogation (32)
    InterrogatedByGroup12,
    /// Interrogated by group 13 interrogation (33)
    InterrogatedByGroup13,
    /// Interrogated by group 14 interrogation (34)
    InterrogatedByGroup14,
    /// Interrogated by group 15 interrogation (35)
    InterrogatedByGroup15,
    /// Interrogated by group 16 interrogation (36)
    InterrogatedByGroup16,
    /// Requested by general counter request (37)
    RequestedByGeneralCounter,
    /// Requested by group 1 counter request (38)
    RequestedByGroup1Counter,
    /// Requested by group 2 counter request (39)
    RequestedByGroup2Counter,
    /// Requested by group 3 counter request (40)
    RequestedByGroup3Counter,
    /// Requested by group 4 counter request (41)
    RequestedByGroup4Counter,
    /// Unknown type identification (44)
    UnknownTypeId,
    /// Unknown cause of transmission (45)
    UnknownCot,
    /// Unknown common address of ASDU (46)
    UnknownCommonAddress,
    /// Unknown information object address (47)
    UnknownIoa,
}

/// The wire value of a cause of transmission.
pub open spec fn spec_cot_byte(c: Cot) -> u8 {
    match c {
        Cot::Periodic => 1,
        Cot::Background => 2,
        Cot::Spontaneous => 3,
        Cot::Initialized => 4,
        Cot::Request => 5,
        Cot::Activation => 6,
        Cot::ActivationConfirm => 7,
        Cot::Deactivation => 8,
        Cot::DeactivationConfirm => 9,
        Cot::ActivationTermination => 10,
        Cot::ReturnRemoteCommand => 11,
        Cot::ReturnLocalCommand => 12,
        Cot::FileTransfer => 13,
        Cot::InterrogatedByStation => 20,
        Cot::InterrogatedByGroup1 => 21,
        Cot::InterrogatedByGroup2 => 22,
        Cot::InterrogatedByGroup3 => 23,
        Cot::InterrogatedByGroup4 => 24,
        Cot::InterrogatedByGroup5 => 25,
        Cot::InterrogatedByGroup6 => 26,
        Cot::InterrogatedByGroup7 => 27,
        Cot::InterrogatedByGroup8 => 28,
        Cot::InterrogatedByGroup9 => 29,
        Cot::InterrogatedByGroup10 => 30,
        Cot::InterrogatedByGroup11 => 31,
        Cot::InterrogatedByGroup12 => 32,
        Cot::InterrogatedByGroup13 => 33,
        Cot::InterrogatedByGroup14 => 34,
        Cot::InterrogatedByGroup15 => 35,
        Cot::InterrogatedByGroup16 => 36,
        Cot::RequestedByGeneralCounter => 37,
        Cot::RequestedByGroup1Counter => 38,
        Cot::RequestedByGroup2Counter => 39,
        Cot::RequestedByGroup3Counter => 40,
        Cot::RequestedByGroup4Counter => 41,
        Cot::UnknownTypeId => 44,
        Cot::UnknownCot => 45,
        Cot::UnknownCommonAddress => 46,
        Cot::UnknownIoa => 47,
    }
}

/// The cause of transmission denoted by the low six bits of a wire byte,
/// or `None` if the value is outside the supported set.
pub open spec fn spec_cot_from(value: u8) -> Option<Cot> {
    let v = value & 0x3F;
    if v == 1 {
        Some(Cot::Periodic)
    } else if v == 2 {
        Some(Cot::Background)
    } else if v == 3 {
        Some(Cot::Spontaneous)
    } else if v == 4 {
        Some(Cot::Initialized)
    } else if v == 5 {
        Some(Cot::Request)
    } else if v == 6 {
        Some(Cot::Activation)
    } else if v == 7 {
        Some(Cot::ActivationConfirm)
    } else if v == 8 {
        Some(Cot::Deactivation)
    } else if v == 9 {
        Some(Cot::DeactivationConfirm)
    } else if v == 10 {
        Some(Cot::ActivationTermination)
    } else if v == 11 {
        Some(Cot::ReturnRemoteCommand)
    } else if v == 12 {
        Some(Cot::ReturnLocalCommand)
    } else if v == 13 {
        Some(Cot::FileTransfer)
    } else if v == 20 {
        Some(Cot::InterrogatedByStation)
    } else if v == 21 {
        Some(Cot::InterrogatedByGroup1)
    } else if v == 22 {
        Some(Cot::InterrogatedByGroup2)
    } else if v == 23 {
        Some(Cot::InterrogatedByGroup3)
    } else if v == 24 {
        Some(Cot::InterrogatedByGroup4)
    } else if v == 25 {
        Some(Cot::InterrogatedByGroup5)
    } else if v == 26 {
        Some(Cot::InterrogatedByGroup6)
    } else if v == 27 {
        Some(Cot::InterrogatedByGroup7)
    } else if v == 28 {
        Some(Cot::InterrogatedByGroup8)
    } else if v == 29 {
        Some(Cot::InterrogatedByGroup9)
    } else if v == 30 {
        Some(Cot::InterrogatedByGroup10)
    } else if v == 31 {
        Some(Cot::InterrogatedByGroup11)
    } else if v == 32 {
        Some(Cot::InterrogatedByGroup12)
    } else if v == 33 {
        Some(Cot::InterrogatedByGroup13)
    } else if v == 34 {
        Some(Cot::InterrogatedByGroup14)
    } else if v == 35 {
        Some(Cot::InterrogatedByGroup15)
    } else if v == 36 {
        Some(Cot::InterrogatedByGroup16)
    } else if v == 37 {
        Some(Cot::RequestedByGeneralCounter)
    } else if v == 38 {
        Some(Cot::RequestedByGroup1Counter)
    } else if v == 39 {
        Some(Cot::RequestedByGroup2Counter)
    } else if v == 40 {
        Some(Cot::RequestedByGroup3Counter)
    } else if v == 41 {
        Some(Cot::RequestedByGroup4Counter)
    } else if v == 44 {
        Some(Cot::UnknownTypeId)
    } else if v == 45 {
        Some(Cot::UnknownCot)
    } else if v == 46 {
        Some(Cot::UnknownCommonAddress)
    } else if v == 47 {
        Some(Cot::UnknownIoa)
    } else {
        None
    }
}

/// The name of a cause of transmission.
pub open spec fn spec_cot_name(c: Cot) -> Seq<char> {
    match c {
        Cot::Periodic => "Periodic"@,
        Cot::Background => "Background"@,
        Cot::Spontaneous => "Spontaneous"@,
        Cot::Initialized => "Initialized"@,
        Cot::Request => "Request"@,
        Cot::Activation => "Activation"@,
        Cot::ActivationConfirm => "ActivationConfirm"@,
        Cot::Deactivation => "Deactivation"@,
        Cot::DeactivationConfirm => "DeactivationConfirm"@,
        Cot::ActivationTermination => "ActivationTermination"@,
        Cot::ReturnRemoteCommand => "ReturnRemoteCommand"@,
        Cot::ReturnLocalCommand => "ReturnLocalCommand"@,
        Cot::FileTransfer => "FileTransfer"@,
        Cot::InterrogatedByStation => "InterrogatedByStation"@,
        Cot::InterrogatedByGroup1 => "InterrogatedByGroup1"@,
        Cot::InterrogatedByGroup2 => "InterrogatedByGroup2"@,
        Cot::InterrogatedByGroup3 => "InterrogatedByGroup3"@,
        Cot::InterrogatedByGroup4 => "InterrogatedByGroup4"@,
        Cot::InterrogatedByGroup5 => "InterrogatedByGroup5"@,
        Cot::InterrogatedByGroup6 => "InterrogatedByGroup6"@,
        Cot::InterrogatedByGroup7 => "InterrogatedByGroup7"@,
        Cot::InterrogatedByGroup8 => "InterrogatedByGroup8"@,
        Cot::InterrogatedByGroup9 => "InterrogatedByGroup9"@,
        Cot::InterrogatedByGroup10 => "InterrogatedByGroup10"@,
        Cot::InterrogatedByGroup11 => "InterrogatedByGroup11"@,
        Cot::InterrogatedByGroup12 => "InterrogatedByGroup12"@,
        Cot::InterrogatedByGroup13 => "InterrogatedByGroup13"@,
        Cot::InterrogatedByGroup14 => "InterrogatedByGroup14"@,
        Cot::InterrogatedByGroup15 => "InterrogatedByGroup15"@,
        Cot::InterrogatedByGroup16 => "InterrogatedByGroup16"@,
        Cot::RequestedByGeneralCounter => "RequestedByGeneralCounter"@,
        Cot::RequestedByGroup1Counter => "RequestedByGroup1Counter"@,
        Cot::RequestedByGroup2Counter => "RequestedByGroup2Counter"@,
        Cot::RequestedByGroup3Counter => "RequestedByGroup3Counter"@,
        Cot::RequestedByGroup4Counter => "RequestedByGroup4Counter"@,
        Cot::UnknownTypeId => "UnknownTypeId"@,
        Cot::UnknownCot => "UnknownCot"@,
        Cot::UnknownCommonAddress => "UnknownCommonAddress"@,
        Cot::UnknownIoa => "UnknownIoa"@,
    }
}

impl Cot {
    /// Create COT from raw byte value (lower 6 bits). The two high bits carry
    /// the test and negative flags and are ignored here.
    pub fn from_u8(value: u8) -> (r: Result<Self, Iec104Error>)
        ensures
            r matches Ok(c) ==> spec_cot_from(value) == Some(c),
            r is Err <==> spec_cot_from(value) is None,
            r matches Err(e) ==> e is Protocol,
    {
        let cot_value = value & 0x3F;
        match cot_value {
            1 => Ok(Self::Periodic),
            2 => Ok(Self::Background),
            3 => Ok(Self::Spontaneous),
            4 => Ok(Self::Initialized),
            5 => Ok(Self::Request),
            6 => Ok(Self::Activation),
            7 => Ok(Self::ActivationConfirm),
            8 => Ok(Self::Deactivation),
            9 => Ok(Self::DeactivationConfirm),
            10 => Ok(Self::ActivationTermination),
            11 => Ok(Self::ReturnRemoteCommand),
            12 => Ok(Self::ReturnLocalCommand),
            13 => Ok(Self::FileTransfer),
            20 => Ok(Self::InterrogatedByStation),
            21 => Ok(Self::InterrogatedByGroup1),
            22 => Ok(Self::InterrogatedByGroup2),
            23 => Ok(Self::InterrogatedByGroup3),
            24 => Ok(Self::InterrogatedByGroup4),
            25 => Ok(Self::InterrogatedByGroup5),
            26 => Ok(Self::InterrogatedByGroup6),
            27 => Ok(Self::InterrogatedByGroup7),
            28 => Ok(Self::InterrogatedByGroup8),
            29 => Ok(Self::InterrogatedByGroup9),
            30 => Ok(Self::InterrogatedByGroup10),
            31 => Ok(Self::InterrogatedByGroup11),
            32 => Ok(Self::InterrogatedByGroup12),
            33 => Ok(Self::InterrogatedByGroup13),
            34 => Ok(Self::InterrogatedByGroup14),
            35 => Ok(Self::InterrogatedByGroup15),
            36 => Ok(Self::InterrogatedByGroup16),
            37 => Ok(Self::RequestedByGeneralCounter),
            38 => Ok(Self::RequestedByGroup1Counter),
            39 => Ok(Self::RequestedByGroup2Counter),
            40 => Ok(Self::RequestedByGroup3Counter),
            41 => Ok(Self::RequestedByGroup4Counter),
            44 => Ok(Self::UnknownTypeId),
            45 => Ok(Self::UnknownCot),
            46 => Ok(Self::UnknownCommonAddress),
            47 => Ok(Self::UnknownIoa),
            _ => Err(Iec104Error::protocol("Unknown COT")),
        }
    }

    /// Convert to raw byte value.
    pub fn as_u8(self) -> (r: u8)
        ensures
            r == spec_cot_byte(self),
    {
        match self {
            Self::Periodic => 1,
            Self::Background => 2,
            Self::Spontaneous => 3,
            Self::Initialized => 4,
            Self::Request => 5,
            Self::Activation => 6,
            Self::ActivationConfirm => 7,
            Self::Deactivation => 8,
            Self::DeactivationConfirm => 9,
            Self::ActivationTermination => 10,
            Self::ReturnRemoteCommand => 11,
            Self::ReturnLocalCommand => 12,
            Self::FileTransfer => 13,
            Self::InterrogatedByStation => 20,
            Self::InterrogatedByGroup1 => 21,
            Self::InterrogatedByGroup2 => 22,
            Self::InterrogatedByGroup3 => 23,
            Self::InterrogatedByGroup4 => 24,
            Self::InterrogatedByGroup5 => 25,
            Self::InterrogatedByGroup6 => 26,
            Self::InterrogatedByGroup7 => 27,
            Self::InterrogatedByGroup8 => 28,
            Self::InterrogatedByGroup9 => 29,
            Self::InterrogatedByGroup10 => 30,
            Self::InterrogatedByGroup11 => 31,
            Self::InterrogatedByGroup12 => 32,
            Self::InterrogatedByGroup13 => 33,
            Self::InterrogatedByGroup14 => 34,
            Self::InterrogatedByGroup15 => 35,
            Self::InterrogatedByGroup16 => 36,
            Self::RequestedByGeneralCounter => 37,
            Self::RequestedByGroup1Counter => 38,
            Self::RequestedByGroup2Counter => 39,
            Self::RequestedByGroup3Counter => 40,
            Self::RequestedByGroup4Counter => 41,
            Self::UnknownTypeId => 44,
            Self::UnknownCot => 45,
            Self::UnknownCommonAddress => 46,
            Self::UnknownIoa => 47,
        }
    }

    /// Check if this is a positive confirmation.
    pub fn is_positive(&self) -> (r: bool)
        ensures
            r == (self is ActivationConfirm || self is DeactivationConfirm
                || self is ActivationTermination),
    {
        match self {
            Self::ActivationConfirm | Self::DeactivationConfirm | Self::ActivationTermination => {
                true
            },
            _ => false,
        }
    }

    /// Check if this is a negative confirmation.
    pub fn is_negative(&self) -> (r: bool)
        ensures
            r == (self is UnknownTypeId || self is UnknownCot || self is UnknownCommonAddress
                || self is UnknownIoa),
    {
        match self {
            Self::UnknownTypeId | Self::UnknownCot | Self::UnknownCommonAddress
            | Self::UnknownIoa => true,
            _ => false,
        }
    }

    /// Check if this COT indicates an interrogation response.
    pub fn is_interrogation_response(&self) -> (r: bool)
        ensures
            r == (20 <= spec_cot_byte(*self) <= 36),
    {
        let v = self.as_u8();
        20 <= v && v <= 36
    }

    /// Check if this COT indicates a counter request response.
    pub fn is_counter_response(&self) -> (r: bool)
        ensures
            r == (37 <= spec_cot_byte(*self) <= 41),
    {
        let v = self.as_u8();
        37 <= v && v <= 41
    }

    /// The name of this cause of transmission.
    pub fn name(&self) -> (r: &'static str)
        ensures
            r@ == spec_cot_name(*self),
    {
        match self {
            Self::Periodic => "Periodic",
            Self::Background => "Background",
            Self::Spontaneous => "Spontaneous",
            Self::Initialized => "Initialized",
            Self::Request => "Request",
            Self::Activation => "Activation",
            Self::ActivationConfirm => "ActivationConfirm",
            Self::Deactivation => "Deactivation",
            Self::DeactivationConfirm => "DeactivationConfirm",
            Self::ActivationTermination => "ActivationTermination",
            Self::ReturnRemoteCommand => "ReturnRemoteCommand",
            Self::ReturnLocalCommand => "ReturnLocalCommand",
            Self::FileTransfer => "FileTransfer",
            Self::InterrogatedByStation => "InterrogatedByStation",
            Self::InterrogatedByGroup1 => "InterrogatedByGroup1",
            Self::InterrogatedByGroup2 => "InterrogatedByGroup2",
            Self::InterrogatedByGroup3 => "InterrogatedByGroup3",
            Self::InterrogatedByGroup4 => "InterrogatedByGroup4",
            Self::InterrogatedByGroup5 => "InterrogatedByGroup5",
            Self::InterrogatedByGroup6 => "InterrogatedByGroup6",
            Self::InterrogatedByGroup7 => "InterrogatedByGroup7",
            Self::InterrogatedByGroup8 => "InterrogatedByGroup8",
            Self::InterrogatedByGroup9 => "InterrogatedByGroup9",
            Self::InterrogatedByGroup10 => "InterrogatedByGroup10",
            Self::InterrogatedByGroup11 => "InterrogatedByGroup11",
            Self::InterrogatedByGroup12 => "InterrogatedByGroup12",
            Self::InterrogatedByGroup13 => "InterrogatedByGroup13",
            Self::InterrogatedByGroup14 => "InterrogatedByGroup14",
            Self::InterrogatedByGroup15 => "InterrogatedByGroup15",
            Self::InterrogatedByGroup16 => "InterrogatedByGroup16",
            Self::RequestedByGeneralCounter => "RequestedByGeneralCounter",
            Self::RequestedByGroup1Counter => "RequestedByGroup1Counter",
            Self::RequestedByGroup2Counter => "RequestedByGroup2Counter",
            Self::RequestedByGroup3Counter => "RequestedByGroup3Counter",
            Self::RequestedByGroup4Counter => "RequestedByGroup4Counter",
            Self::UnknownTypeId => "UnknownTypeId",
            Self::UnknownCot => "UnknownCot",
            Self::UnknownCommonAddress => "UnknownCommonAddress",
            Self::UnknownIoa => "UnknownIoa",
        }
    }
}

/// Converting a cause of transmission to its wire byte and back yields the
/// same cause: the wire byte of every supported cause is in the supported set.
pub proof fn lemma_cot_roundtrip(c: Cot)
    ensures
        spec_cot_from(spec_cot_byte(c)) == Some(c),
{
    let b = spec_cot_byte(c);
    assert(b & 0x3F == b) by (bit_vector)
        requires
            1 <= b <= 47,
    ;
}

} // verus!
