//! IEC 60870-5-104 Type Identification.
//!
//! The type identification defines the structure and meaning of the
//! information objects carried in an ASDU.

use vstd::prelude::*;

verus! {

use crate::error::Iec104Error;

/// IEC 60870-5-104 Type Identification.
#[derive(Debug, Clone, Copy, PartialEq, Eq, Hash, Structural)]
pub enum TypeId {
    /// Single-point information (M_SP_NA_1, wire value 1)
    SinglePoint,
    /// Single-point information with CP24 time tag (M_SP_TA_1, 2)
    SinglePointTime24,
    /// Double-point information (M_DP_NA_1, 3)
    DoublePoint,
    /// Double-point information with CP24 time tag (M_DP_TA_1, 4)
    DoublePointTime24,
    /// Step position information (M_ST_NA_1, 5)
    StepPosition,
    /// Bitstring of 32 bit (M_BO_NA_1, 7)
    Bitstring32,
    /// Measured value, normalized (M_ME_NA_1, 9)
    MeasuredNormalized,
    /// Measured value, normalized with CP24 time tag (M_ME_TA_1, 10)
    MeasuredNormalizedTime24,
    /// Measured value, scaled (M_ME_NB_1, 11)
    MeasuredScaled,
    /// Measured value, scaled with CP24 time tag (M_ME_TB_1, 12)
    MeasuredScaledTime24,
    /// Measured value, short floating point (M_ME_NC_1, 13)
    MeasuredFloat,
    /// Measured value, short floating point with CP24 time tag (M_ME_TC_1, 14)
    MeasuredFloatTime24,
    /// Integrated totals (M_IT_NA_1, 15)
    IntegratedTotals,
    /// Single-point information with CP56Time2a (M_SP_TB_1, 30)
    SinglePointTime56,
    /// Double-point information with CP56Time2a (M_DP_TB_1, 31)
    DoublePointTime56,
    /// Measured value, short floating point with CP56Time2a (M_ME_TF_1, 36)
    MeasuredFloatTime56,
    /// Single command (C_SC_NA_1, 45)
    SingleCommand,
    /// Double command (C_DC_NA_1, 46)
    DoubleCommand,
    /// Regulating step command (C_RC_NA_1, 47)
    RegulatingStep,
    /// Set-point command, normalized (C_SE_NA_1, 48)
    SetpointNormalized,
    /// Set-point command, scaled (C_SE_NB_1, 49)
    SetpointScaled,
    /// Set-point command, short floating point (C_SE_NC_1, 50)
    SetpointFloat,
    /// Bitstring of 32 bit command (C_BO_NA_1, 51)
    Bitstring32Command,
    /// Single command with CP56Time2a (C_SC_TA_1, 58)
    SingleCommandTime56,
    /// Double command with CP56Time2a (C_DC_TA_1, 59)
    DoubleCommandTime56,
    /// Set-point command, short floating point with CP56Time2a (C_SE_TC_1, 63)
    SetpointFloatTime56,
    /// End of initialization (M_EI_NA_1, 70)
    EndOfInit,
    /// Interrogation command (C_IC_NA_1, 100)
    InterrogationCommand,
    /// Counter interrogation command (C_CI_NA_1, 101)
    CounterInterrogation,
    /// Read command (C_RD_NA_1, 102)
    ReadCommand,
    /// Clock synchronization command (C_CS_NA_1, 103)
    ClockSync,
    /// Test command (C_TS_NA_1, 104)
    TestCommand,
    /// Reset process command (C_RP_NA_1, 105)
    ResetProcess,
    /// Test command with CP56Time2a (C_TS_TA_1, 107)
    TestCommandTime56,
}

/// The wire value of a type identification.
pub open spec fn spec_type_byte(t: TypeId) -> u8 {
    match t {
        TypeId::SinglePoint => 1,
        TypeId::SinglePointTime24 => 2,
        TypeId::DoublePoint => 3,
        TypeId::DoublePointTime24 => 4,
        TypeId::StepPosition => 5,
        TypeId::Bitstring32 => 7,
        TypeId::MeasuredNormalized => 9,
        TypeId::MeasuredNormalizedTime24 => 10,
        TypeId::MeasuredScaled => 11,
        TypeId::MeasuredScaledTime24 => 12,
        TypeId::MeasuredFloat => 13,
        TypeId::MeasuredFloatTime24 => 14,
        TypeId::IntegratedTotals => 15,
        TypeId::SinglePointTime56 => 30,
        TypeId::DoublePointTime56 => 31,
        TypeId::MeasuredFloatTime56 => 36,
        TypeId::SingleCommand => 45,
        TypeId::DoubleCommand => 46,
        TypeId::RegulatingStep => 47,
        TypeId::SetpointNormalized => 48,
        TypeId::SetpointScaled => 49,
        TypeId::SetpointFloat => 50,
        TypeId::Bitstring32Command => 51,
        TypeId::SingleCommandTime56 => 58,
        TypeId::DoubleCommandTime56 => 59,
        TypeId::SetpointFloatTime56 => 63,
        TypeId::EndOfInit => 70,
        TypeId::InterrogationCommand => 100,
        TypeId::CounterInterrogation => 101,
        TypeId::ReadCommand => 102,
        TypeId::ClockSync => 103,
        TypeId::TestCommand => 104,
        TypeId::ResetProcess => 105,
        TypeId::TestCommandTime56 => 107,
    }
}

/// The type identification denoted by a wire byte, or `None` if the value is
/// outside the supported set.
pub open spec fn spec_type_from(value: u8) -> Option<TypeId> {
    if value == 1 {
        Some(TypeId::SinglePoint)
    } else if value == 2 {
        Some(TypeId::SinglePointTime24)
    } else if value == 3 {
        Some(TypeId::DoublePoint)
    } else if value == 4 {
        Some(TypeId::DoublePointTime24)
    } else if value == 5 {
        Some(TypeId::StepPosition)
    } else if value == 7 {
        Some(TypeId::Bitstring32)
    } else if value == 9 {
        Some(TypeId::MeasuredNormalized)
    } else if value == 10 {
        Some(TypeId::MeasuredNormalizedTime24)
    } else if value == 11 {
        Some(TypeId::MeasuredScaled)
    } else if value == 12 {
        Some(TypeId::MeasuredScaledTime24)
    } else if value == 13 {
        Some(TypeId::MeasuredFloat)
    } else if value == 14 {
        Some(TypeId::MeasuredFloatTime24)
    } else if value == 15 {
        Some(TypeId::IntegratedTotals)
    } else if value == 30 {
        Some(TypeId::SinglePointTime56)
    } else if value == 31 {
        Some(TypeId::DoublePointTime56)
    } else if value == 36 {
        Some(TypeId::MeasuredFloatTime56)
    } else if value == 45 {
        Some(TypeId::SingleCommand)
    } else if value == 46 {
        Some(TypeId::DoubleCommand)
    } else if value == 47 {
        Some(TypeId::RegulatingStep)
    } else if value == 48 {
        Some(TypeId::SetpointNormalized)
    } else if value == 49 {
        Some(TypeId::SetpointScaled)
    } else if value == 50 {
        Some(TypeId::SetpointFloat)
    } else if value == 51 {
        Some(TypeId::Bitstring32Command)
    } else if value == 58 {
        Some(TypeId::SingleCommandTime56)
    } else if value == 59 {
        Some(TypeId::DoubleCommandTime56)
    } else if value == 63 {
        Some(TypeId::SetpointFloatTime56)
    } else if value == 70 {
        Some(TypeId::EndOfInit)
    } else if value == 100 {
        Some(TypeId::InterrogationCommand)
    } else if value == 101 {
        Some(TypeId::CounterInterrogation)
    } else if value == 102 {
        Some(TypeId::ReadCommand)
    } else if value == 103 {
        Some(TypeId::ClockSync)
    } else if value == 104 {
        Some(TypeId::TestCommand)
    } else if value == 105 {
        Some(TypeId::ResetProcess)
    } else if value == 107 {
        Some(TypeId::TestCommandTime56)
    } else {
        None
    }
}

/// Whether a type identification carries a time tag.
pub open spec fn spec_has_time_tag(t: TypeId) -> bool {
    ||| t is SinglePointTime24
    ||| t is DoublePointTime24
    ||| t is MeasuredNormalizedTime24
    ||| t is MeasuredScaledTime24
    ||| t is MeasuredFloatTime24
    ||| t is SinglePointTime56
    ||| t is DoublePointTime56
    ||| t is MeasuredFloatTime56
    ||| t is SingleCommandTime56
    ||| t is DoubleCommandTime56
    ||| t is SetpointFloatTime56
    ||| t is TestCommandTime56
}

/// The IEC standard name of a type identification.
pub open spec fn spec_standard_name(t: TypeId) -> Seq<char> {
    match t {
        TypeId::SinglePoint => "M_SP_NA_1"@,
        TypeId::SinglePointTime24 => "M_SP_TA_1"@,
        TypeId::DoublePoint => "M_DP_NA_1"@,
        TypeId::DoublePointTime24 => "M_DP_TA_1"@,
        TypeId::StepPosition => "M_ST_NA_1"@,
        TypeId::Bitstring32 => "M_BO_NA_1"@,
        TypeId::MeasuredNormalized => "M_ME_NA_1"@,
        TypeId::MeasuredNormalizedTime24 => "M_ME_TA_1"@,
        TypeId::MeasuredScaled => "M_ME_NB_1"@,
        TypeId::MeasuredScaledTime24 => "M_ME_TB_1"@,
        TypeId::MeasuredFloat => "M_ME_NC_1"@,
        TypeId::MeasuredFloatTime24 => "M_ME_TC_1"@,
        TypeId::IntegratedTotals => "M_IT_NA_1"@,
        TypeId::SinglePointTime56 => "M_SP_TB_1"@,
        TypeId::DoublePointTime56 => "M_DP_TB_1"@,
        TypeId::MeasuredFloatTime56 => "M_ME_TF_1"@,
        TypeId::SingleCommand => "C_SC_NA_1"@,
        TypeId::DoubleCommand => "C_DC_NA_1"@,
        TypeId::RegulatingStep => "C_RC_NA_1"@,
        TypeId::SetpointNormalized => "C_SE_NA_1"@,
        TypeId::SetpointScaled => "C_SE_NB_1"@,
        TypeId::SetpointFloat => "C_SE_NC_1"@,
        TypeId::Bitstring32Command => "C_BO_NA_1"@,
        TypeId::SingleCommandTime56 => "C_SC_TA_1"@,
        TypeId::DoubleCommandTime56 => "C_DC_TA_1"@,
        TypeId::SetpointFloatTime56 => "C_SE_TC_1"@,
        TypeId::EndOfInit => "M_EI_NA_1"@,
        TypeId::InterrogationCommand => "C_IC_NA_1"@,
        TypeId::CounterInterrogation => "C_CI_NA_1"@,
        TypeId::ReadCommand => "C_RD_NA_1"@,
        TypeId::ClockSync => "C_CS_NA_1"@,
        TypeId::TestCommand => "C_TS_NA_1"@,
        TypeId::ResetProcess => "C_RP_NA_1"@,
        TypeId::TestCommandTime56 => "C_TS_TA_1"@,
    }
}

impl TypeId {
    /// Create TypeId from raw byte value.
    pub fn from_u8(value: u8) -> (r: Result<Self, Iec104Error>)
        ensures
            r matches Ok(t) ==> spec_type_from(value) == Some(t),
            r is Err <==> spec_type_from(value) is None,
            r matches Err(e) ==> e == Iec104Error::UnknownTypeId(value),
    {
        match value {
            1 => Ok(Self::SinglePoint),
            2 => Ok(Self::SinglePointTime24),
            3 => Ok(Self::DoublePoint),
            4 => Ok(Self::DoublePointTime24),
            5 => Ok(Self::StepPosition),
            7 => Ok(Self::Bitstring32),
            9 => Ok(Self::MeasuredNormalized),
            10 => Ok(Self::MeasuredNormalizedTime24),
            11 => Ok(Self::MeasuredScaled),
            12 => Ok(Self::MeasuredScaledTime24),
            13 => Ok(Self::MeasuredFloat),
            14 => Ok(Self::MeasuredFloatTime24),
            15 => Ok(Self::IntegratedTotals),
            30 => Ok(Self::SinglePointTime56),
            31 => Ok(Self::DoublePointTime56),
            36 => Ok(Self::MeasuredFloatTime56),
            45 => Ok(Self::SingleCommand),
            46 => Ok(Self::DoubleCommand),
            47 => Ok(Self::RegulatingStep),
            48 => Ok(Self::SetpointNormalized),
            49 => Ok(Self::SetpointScaled),
            50 => Ok(Self::SetpointFloat),
            51 => Ok(Self::Bitstring32Command),
            58 => Ok(Self::SingleCommandTime56),
            59 => Ok(Self::DoubleCommandTime56),
            63 => Ok(Self::SetpointFloatTime56),
            70 => Ok(Self::EndOfInit),
            100 => Ok(Self::InterrogationCommand),
            101 => Ok(Self::CounterInterrogation),
            102 => Ok(Self::ReadCommand),
            103 => Ok(Self::ClockSync),
            104 => Ok(Self::TestCommand),
            105 => Ok(Self::ResetProcess),
            107 => Ok(Self::TestCommandTime56),
            _ => Err(Iec104Error::UnknownTypeId(value)),
        }
    }

    /// Convert to raw byte value.
    pub fn as_u8(self) -> (r: u8)
        ensures
            r == spec_type_byte(self),
    {
        match self {
            Self::SinglePoint => 1,
            Self::SinglePointTime24 => 2,
            Self::DoublePoint => 3,
            Self::DoublePointTime24 => 4,
            Self::StepPosition => 5,
            Self::Bitstring32 => 7,
            Self::MeasuredNormalized => 9,
            Self::MeasuredNormalizedTime24 => 10,
            Self::MeasuredScaled => 11,
            Self::MeasuredScaledTime24 => 12,
            Self::MeasuredFloat => 13,
            Self::MeasuredFloatTime24 => 14,
            Self::IntegratedTotals => 15,
            Self::SinglePointTime56 => 30,
            Self::DoublePointTime56 => 31,
            Self::MeasuredFloatTime56 => 36,
            Self::SingleCommand => 45,
            Self::DoubleCommand => 46,
            Self::RegulatingStep => 47,
            Self::SetpointNormalized => 48,
            Self::SetpointScaled => 49,
            Self::SetpointFloat => 50,
            Self::Bitstring32Command => 51,
            Self::SingleCommandTime56 => 58,
            Self::DoubleCommandTime56 => 59,
            Self::SetpointFloatTime56 => 63,
            Self::EndOfInit => 70,
            Self::InterrogationCommand => 100,
            Self::CounterInterrogation => 101,
            Self::ReadCommand => 102,
            Self::ClockSync => 103,
            Self::TestCommand => 104,
            Self::ResetProcess => 105,
            Self::TestCommandTime56 => 107,
        }
    }

    /// Check if this type is in the monitoring direction (from RTU to master).
    pub fn is_monitoring(&self) -> (r: bool)
        ensures
            r == (1 <= spec_type_byte(*self) <= 70),
    {
        let v = self.as_u8();
        1 <= v && v <= 70
    }

    /// Check if this type is in the control direction (from master to RTU).
    pub fn is_control(&self) -> (r: bool)
        ensures
            r == (45 <= spec_type_byte(*self) <= 51 || 58 <= spec_type_byte(*self) <= 63 || 100
                <= spec_type_byte(*self) <= 107),
    {
        let v = self.as_u8();
        (45 <= v && v <= 51) || (58 <= v && v <= 63) || (100 <= v && v <= 107)
    }

    /// Check if this type contains a time tag.
    pub fn has_time_tag(&self) -> (r: bool)
        ensures
            r == spec_has_time_tag(*self),
    {
        match self {
            Self::SinglePointTime24
            | Self::DoublePointTime24
            | Self::MeasuredNormalizedTime24
            | Self::MeasuredScaledTime24
            | Self::MeasuredFloatTime24
            | Self::SinglePointTime56
            | Self::DoublePointTime56
            | Self::MeasuredFloatTime56
            | Self::SingleCommandTime56
            | Self::DoubleCommandTime56
            | Self::SetpointFloatTime56
            | Self::TestCommandTime56 => true,
            _ => false,
        }
    }

    /// Get the IEC standard name (e.g., "M_SP_NA_1").
    pub fn standard_name(&self) -> (r: &'static str)
        ensures
            r@ == spec_standard_name(*self),
    {
        match self {
            Self::SinglePoint => "M_SP_NA_1",
            Self::SinglePointTime24 => "M_SP_TA_1",
            Self::DoublePoint => "M_DP_NA_1",
            Self::DoublePointTime24 => "M_DP_TA_1",
            Self::StepPosition => "M_ST_NA_1",
            Self::Bitstring32 => "M_BO_NA_1",
            Self::MeasuredNormalized => "M_ME_NA_1",
            Self::MeasuredNormalizedTime24 => "M_ME_TA_1",
            Self::MeasuredScaled => "M_ME_NB_1",
            Self::MeasuredScaledTime24 => "M_ME_TB_1",
            Self::MeasuredFloat => "M_ME_NC_1",
            Self::MeasuredFloatTime24 => "M_ME_TC_1",
            Self::IntegratedTotals => "M_IT_NA_1",
            Self::SinglePointTime56 => "M_SP_TB_1",
            Self::DoublePointTime56 => "M_DP_TB_1",
            Self::MeasuredFloatTime56 => "M_ME_TF_1",
            Self::SingleCommand => "C_SC_NA_1",
            Self::DoubleCommand => "C_DC_NA_1",
            Self::RegulatingStep => "C_RC_NA_1",
            Self::SetpointNormalized => "C_SE_NA_1",
            Self::SetpointScaled => "C_SE_NB_1",
            Self::SetpointFloat => "C_SE_NC_1",
            Self::Bitstring32Command => "C_BO_NA_1",
            Self::SingleCommandTime56 => "C_SC_TA_1",
            Self::DoubleCommandTime56 => "C_DC_TA_1",
            Self::SetpointFloatTime56 => "C_SE_TC_1",
            Self::EndOfInit => "M_EI_NA_1",
            Self::InterrogationCommand => "C_IC_NA_1",
            Self::CounterInterrogation => "C_CI_NA_1",
            Self::ReadCommand => "C_RD_NA_1",
            Self::ClockSync => "C_CS_NA_1",
            Self::TestCommand => "C_TS_NA_1",
            Self::ResetProcess => "C_RP_NA_1",
            Self::TestCommandTime56 => "C_TS_TA_1",
        }
    }
}

/// Converting a type identification to its wire byte and back yields the same
/// type: the wire byte of every supported type is in the supported set.
pub proof fn lemma_type_id_roundtrip(t: TypeId)
    ensures
        spec_type_from(spec_type_byte(t)) == Some(t),
{
}

} // verus!
