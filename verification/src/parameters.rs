//! The parameter catalogue: identifiers, wire codes, names and value kinds.

use vstd::prelude::*;
use vstd::string::StringSliceAdditionalSpecFns;

verus! {

pub const DEFAULT_ENCODER_CPR: u16 = 4_096;
pub const PARAMETER_PAYLOAD_SIZE: usize = 160;
pub const PARAMETER_COUNT: usize = 43;

/// The wire type of a parameter value.
#[derive(Clone, Copy, Debug, PartialEq, Eq, Structural)]
pub enum ParameterKind {
    U8,
    I8,
    U16,
    F32,
}

/// A parameter value. Single-precision values travel as their IEEE-754
/// binary32 encoding, exactly as they are stored and sent on the wire.
#[derive(Clone, Copy, Debug, PartialEq, Eq, Structural)]
pub enum ParameterValue {
    U8(u8),
    I8(i8),
    U16(u16),
    F32(u32),
}

/// The kind of a value.
pub open spec fn kind_of_value(value: ParameterValue) -> ParameterKind {
    match value {
        ParameterValue::U8(_) => ParameterKind::U8,
        ParameterValue::I8(_) => ParameterKind::I8,
        ParameterValue::U16(_) => ParameterKind::U16,
        ParameterValue::F32(_) => ParameterKind::F32,
    }
}

#[derive(Clone, Copy, Debug, PartialEq, Eq, Structural)]
pub enum ParameterError {
    WrongType,
    OutOfRange,
    InvalidRelationship,
    ReservedBytes,
}

/// Identifier of a tunable parameter.
#[derive(Clone, Copy, Debug, PartialEq, Eq, Structural)]
pub enum ParameterId {
    BatteryCells,
    PolePairs,
    SensorDirection,
    EncoderCpr,
    ElectricalZero,
    CurrentKp,
    CurrentKi,
    CurrentKd,
    CurrentOutputLimit,
    CurrentOutputRamp,
    VelocityKp,
    VelocityKi,
    VelocityKd,
    VelocityOutputLimit,
    VelocityOutputRamp,
    AdcReferenceVoltage,
    CurrentSenseGain,
    ShuntResistance,
    BusDividerHigh,
    BusDividerLow,
    CurrentLimit,
    OverCurrentThreshold,
    OverCurrentDebounce,
    ResidualThreshold,
    ResidualDebounce,
    CellUnderVoltage,
    CellOverVoltage,
    BusFilterTimeConstant,
    MosfetHotResistance,
    ThermalResistance,
    ThermalTimeConstant,
    AmbientTemperature,
    DerateTemperature,
    ShutdownTemperature,
    StallTargetVelocity,
    StallMaxVelocity,
    StallMinIq,
    StallTime,
    SensorFaultTime,
    MaximumVelocity,
    MaximumOpenLoopVelocity,
    TemperatureSensorZeroVoltage,
    TemperatureSensorVoltsPerDegree,
}

/// Every parameter, in catalogue order.
pub const ALL_PARAMETERS: [ParameterId; PARAMETER_COUNT] = [
    ParameterId::BatteryCells,
    ParameterId::PolePairs,
    ParameterId::SensorDirection,
    ParameterId::EncoderCpr,
    ParameterId::ElectricalZero,
    ParameterId::CurrentKp,
    ParameterId::CurrentKi,
    ParameterId::CurrentKd,
    ParameterId::CurrentOutputLimit,
    ParameterId::CurrentOutputRamp,
    ParameterId::VelocityKp,
    ParameterId::VelocityKi,
    ParameterId::VelocityKd,
    ParameterId::VelocityOutputLimit,
    ParameterId::VelocityOutputRamp,
    ParameterId::AdcReferenceVoltage,
    ParameterId::CurrentSenseGain,
    ParameterId::ShuntResistance,
    ParameterId::BusDividerHigh,
    ParameterId::BusDividerLow,
    ParameterId::CurrentLimit,
    ParameterId::OverCurrentThreshold,
    ParameterId::OverCurrentDebounce,
    ParameterId::ResidualThreshold,
    ParameterId::ResidualDebounce,
    ParameterId::CellUnderVoltage,
    ParameterId::CellOverVoltage,
    ParameterId::BusFilterTimeConstant,
    ParameterId::MosfetHotResistance,
    ParameterId::ThermalResistance,
    ParameterId::ThermalTimeConstant,
    ParameterId::AmbientTemperature,
    ParameterId::DerateTemperature,
    ParameterId::ShutdownTemperature,
    ParameterId::StallTargetVelocity,
    ParameterId::StallMaxVelocity,
    ParameterId::StallMinIq,
    ParameterId::StallTime,
    ParameterId::SensorFaultTime,
    ParameterId::MaximumVelocity,
    ParameterId::MaximumOpenLoopVelocity,
    ParameterId::TemperatureSensorZeroVoltage,
    ParameterId::TemperatureSensorVoltsPerDegree,
];

/// The catalogue order as a sequence.
pub open spec fn all_parameters() -> Seq<ParameterId> {
    seq![
        ParameterId::BatteryCells,
        ParameterId::PolePairs,
        ParameterId::SensorDirection,
        ParameterId::EncoderCpr,
        ParameterId::ElectricalZero,
        ParameterId::CurrentKp,
        ParameterId::CurrentKi,
        ParameterId::CurrentKd,
        ParameterId::CurrentOutputLimit,
        ParameterId::CurrentOutputRamp,
        ParameterId::VelocityKp,
        ParameterId::VelocityKi,
        ParameterId::VelocityKd,
        ParameterId::VelocityOutputLimit,
        ParameterId::VelocityOutputRamp,
        ParameterId::AdcReferenceVoltage,
        ParameterId::CurrentSenseGain,
        ParameterId::ShuntResistance,
        ParameterId::BusDividerHigh,
        ParameterId::BusDividerLow,
        ParameterId::CurrentLimit,
        ParameterId::OverCurrentThreshold,
        ParameterId::OverCurrentDebounce,
        ParameterId::ResidualThreshold,
        ParameterId::ResidualDebounce,
        ParameterId::CellUnderVoltage,
        ParameterId::CellOverVoltage,
        ParameterId::BusFilterTimeConstant,
        ParameterId::MosfetHotResistance,
        ParameterId::ThermalResistance,
        ParameterId::ThermalTimeConstant,
        ParameterId::AmbientTemperature,
        ParameterId::DerateTemperature,
        ParameterId::ShutdownTemperature,
        ParameterId::StallTargetVelocity,
        ParameterId::StallMaxVelocity,
        ParameterId::StallMinIq,
        ParameterId::StallTime,
        ParameterId::SensorFaultTime,
        ParameterId::MaximumVelocity,
        ParameterId::MaximumOpenLoopVelocity,
        ParameterId::TemperatureSensorZeroVoltage,
        ParameterId::TemperatureSensorVoltsPerDegree,
    ]
}

impl ParameterId {
    /// The one-byte code that identifies the parameter on the CAN bus.
    pub open spec fn code(self) -> u8 {
        match self {
            ParameterId::BatteryCells => 0x01,
            ParameterId::PolePairs => 0x02,
            ParameterId::SensorDirection => 0x03,
            ParameterId::EncoderCpr => 0x04,
            ParameterId::ElectricalZero => 0x05,
            ParameterId::CurrentKp => 0x10,
            ParameterId::CurrentKi => 0x11,
            ParameterId::CurrentKd => 0x12,
            ParameterId::CurrentOutputLimit => 0x13,
            ParameterId::CurrentOutputRamp => 0x14,
            ParameterId::VelocityKp => 0x18,
            ParameterId::VelocityKi => 0x19,
            ParameterId::VelocityKd => 0x1a,
            ParameterId::VelocityOutputLimit => 0x1b,
            ParameterId::VelocityOutputRamp => 0x1c,
            ParameterId::AdcReferenceVoltage => 0x20,
            ParameterId::CurrentSenseGain => 0x21,
            ParameterId::ShuntResistance => 0x22,
            ParameterId::BusDividerHigh => 0x23,
            ParameterId::BusDividerLow => 0x24,
            ParameterId::CurrentLimit => 0x28,
            ParameterId::OverCurrentThreshold => 0x29,
            ParameterId::OverCurrentDebounce => 0x2a,
            ParameterId::ResidualThreshold => 0x2b,
            ParameterId::ResidualDebounce => 0x2c,
            ParameterId::CellUnderVoltage => 0x2d,
            ParameterId::CellOverVoltage => 0x2e,
            ParameterId::BusFilterTimeConstant => 0x30,
            ParameterId::MosfetHotResistance => 0x31,
            ParameterId::ThermalResistance => 0x32,
            ParameterId::ThermalTimeConstant => 0x33,
            ParameterId::AmbientTemperature => 0x34,
            ParameterId::DerateTemperature => 0x35,
            ParameterId::ShutdownTemperature => 0x36,
            ParameterId::StallTargetVelocity => 0x38,
            ParameterId::StallMaxVelocity => 0x39,
            ParameterId::StallMinIq => 0x3a,
            ParameterId::StallTime => 0x3b,
            ParameterId::SensorFaultTime => 0x3c,
            ParameterId::MaximumVelocity => 0x3d,
            ParameterId::MaximumOpenLoopVelocity => 0x3e,
            ParameterId::TemperatureSensorZeroVoltage => 0x40,
            ParameterId::TemperatureSensorVoltsPerDegree => 0x41,
        }
    }

    /// The name that identifies the parameter on the text console.
    pub open spec fn spec_name(self) -> Seq<char> {
        match self {
            ParameterId::BatteryCells => "battery-cells"@,
            ParameterId::PolePairs => "pole-pairs"@,
            ParameterId::SensorDirection => "sensor-direction"@,
            ParameterId::EncoderCpr => "encoder-cpr"@,
            ParameterId::ElectricalZero => "electrical-zero"@,
            ParameterId::CurrentKp => "current-kp"@,
            ParameterId::CurrentKi => "current-ki"@,
            ParameterId::CurrentKd => "current-kd"@,
            ParameterId::CurrentOutputLimit => "current-output-limit"@,
            ParameterId::CurrentOutputRamp => "current-output-ramp"@,
            ParameterId::VelocityKp => "velocity-kp"@,
            ParameterId::VelocityKi => "velocity-ki"@,
            ParameterId::VelocityKd => "velocity-kd"@,
            ParameterId::VelocityOutputLimit => "velocity-output-limit"@,
            ParameterId::VelocityOutputRamp => "velocity-output-ramp"@,
            ParameterId::AdcReferenceVoltage => "adc-reference-voltage"@,
            ParameterId::CurrentSenseGain => "current-sense-gain"@,
            ParameterId::ShuntResistance => "shunt-resistance"@,
            ParameterId::BusDividerHigh => "bus-divider-high"@,
            ParameterId::BusDividerLow => "bus-divider-low"@,
            ParameterId::CurrentLimit => "current-limit"@,
            ParameterId::OverCurrentThreshold => "over-current-threshold"@,
            ParameterId::OverCurrentDebounce => "over-current-debounce"@,
            ParameterId::ResidualThreshold => "residual-threshold"@,
            ParameterId::ResidualDebounce => "residual-debounce"@,
            ParameterId::CellUnderVoltage => "cell-under-voltage"@,
            ParameterId::CellOverVoltage => "cell-over-voltage"@,
            ParameterId::BusFilterTimeConstant => "bus-filter-time-constant"@,
            ParameterId::MosfetHotResistance => "mosfet-hot-resistance"@,
            ParameterId::ThermalResistance => "thermal-resistance"@,
            ParameterId::ThermalTimeConstant => "thermal-time-constant"@,
            ParameterId::AmbientTemperature => "ambient-temperature"@,
            ParameterId::DerateTemperature => "derate-temperature"@,
            ParameterId::ShutdownTemperature => "shutdown-temperature"@,
            ParameterId::StallTargetVelocity => "stall-target-velocity"@,
            ParameterId::StallMaxVelocity => "stall-max-velocity"@,
            ParameterId::StallMinIq => "stall-min-iq"@,
            ParameterId::StallTime => "stall-time"@,
            ParameterId::SensorFaultTime => "sensor-fault-time"@,
            ParameterId::MaximumVelocity => "maximum-velocity"@,
            ParameterId::MaximumOpenLoopVelocity => "maximum-open-loop-velocity"@,
            ParameterId::TemperatureSensorZeroVoltage => "temperature-sensor-zero-voltage"@,
            ParameterId::TemperatureSensorVoltsPerDegree => "temperature-sensor-volts-per-degree"@,
        }
    }

    /// The wire code of this parameter.
    pub fn raw(self) -> (code: u8)
        ensures
            code == self.code(),
    {
        match self {
            ParameterId::BatteryCells => 0x01,
            ParameterId::PolePairs => 0x02,
            ParameterId::SensorDirection => 0x03,
            ParameterId::EncoderCpr => 0x04,
            ParameterId::ElectricalZero => 0x05,
            ParameterId::CurrentKp => 0x10,
            ParameterId::CurrentKi => 0x11,
            ParameterId::CurrentKd => 0x12,
            ParameterId::CurrentOutputLimit => 0x13,
            ParameterId::CurrentOutputRamp => 0x14,
            ParameterId::VelocityKp => 0x18,
            ParameterId::VelocityKi => 0x19,
            ParameterId::VelocityKd => 0x1a,
            ParameterId::VelocityOutputLimit => 0x1b,
            ParameterId::VelocityOutputRamp => 0x1c,
            ParameterId::AdcReferenceVoltage => 0x20,
            ParameterId::CurrentSenseGain => 0x21,
            ParameterId::ShuntResistance => 0x22,
            ParameterId::BusDividerHigh => 0x23,
            ParameterId::BusDividerLow => 0x24,
            ParameterId::CurrentLimit => 0x28,
            ParameterId::OverCurrentThreshold => 0x29,
            ParameterId::OverCurrentDebounce => 0x2a,
            ParameterId::ResidualThreshold => 0x2b,
            ParameterId::ResidualDebounce => 0x2c,
            ParameterId::CellUnderVoltage => 0x2d,
            ParameterId::CellOverVoltage => 0x2e,
            ParameterId::BusFilterTimeConstant => 0x30,
            ParameterId::MosfetHotResistance => 0x31,
            ParameterId::ThermalResistance => 0x32,
            ParameterId::ThermalTimeConstant => 0x33,
            ParameterId::AmbientTemperature => 0x34,
            ParameterId::DerateTemperature => 0x35,
            ParameterId::ShutdownTemperature => 0x36,
            ParameterId::StallTargetVelocity => 0x38,
            ParameterId::StallMaxVelocity => 0x39,
            ParameterId::StallMinIq => 0x3a,
            ParameterId::StallTime => 0x3b,
            ParameterId::SensorFaultTime => 0x3c,
            ParameterId::MaximumVelocity => 0x3d,
            ParameterId::MaximumOpenLoopVelocity => 0x3e,
            ParameterId::TemperatureSensorZeroVoltage => 0x40,
            ParameterId::TemperatureSensorVoltsPerDegree => 0x41,
        }
    }

    /// The parameter with wire code `raw`, if there is one.
    pub fn from_raw(raw: u8) -> (id: Option<Self>)
        ensures
            id matches Some(found) ==> found.code() == raw,
            id is None ==> forall|other: ParameterId| other.code() != raw,
            id == parameter_with_code(raw),
    {
        match raw {
            0x01 => Some(ParameterId::BatteryCells),
            0x02 => Some(ParameterId::PolePairs),
            0x03 => Some(ParameterId::SensorDirection),
            0x04 => Some(ParameterId::EncoderCpr),
            0x05 => Some(ParameterId::ElectricalZero),
            0x10 => Some(ParameterId::CurrentKp),
            0x11 => Some(ParameterId::CurrentKi),
            0x12 => Some(ParameterId::CurrentKd),
            0x13 => Some(ParameterId::CurrentOutputLimit),
            0x14 => Some(ParameterId::CurrentOutputRamp),
            0x18 => Some(ParameterId::VelocityKp),
            0x19 => Some(ParameterId::VelocityKi),
            0x1a => Some(ParameterId::VelocityKd),
            0x1b => Some(ParameterId::VelocityOutputLimit),
            0x1c => Some(ParameterId::VelocityOutputRamp),
            0x20 => Some(ParameterId::AdcReferenceVoltage),
            0x21 => Some(ParameterId::CurrentSenseGain),
            0x22 => Some(ParameterId::ShuntResistance),
            0x23 => Some(ParameterId::BusDividerHigh),
            0x24 => Some(ParameterId::BusDividerLow),
            0x28 => Some(ParameterId::CurrentLimit),
            0x29 => Some(ParameterId::OverCurrentThreshold),
            0x2a => Some(ParameterId::OverCurrentDebounce),
            0x2b => Some(ParameterId::ResidualThreshold),
            0x2c => Some(ParameterId::ResidualDebounce),
            0x2d => Some(ParameterId::CellUnderVoltage),
            0x2e => Some(ParameterId::CellOverVoltage),
            0x30 => Some(ParameterId::BusFilterTimeConstant),
            0x31 => Some(ParameterId::MosfetHotResistance),
            0x32 => Some(ParameterId::ThermalResistance),
            0x33 => Some(ParameterId::ThermalTimeConstant),
            0x34 => Some(ParameterId::AmbientTemperature),
            0x35 => Some(ParameterId::DerateTemperature),
            0x36 => Some(ParameterId::ShutdownTemperature),
            0x38 => Some(ParameterId::StallTargetVelocity),
            0x39 => Some(ParameterId::StallMaxVelocity),
            0x3a => Some(ParameterId::StallMinIq),
            0x3b => Some(ParameterId::StallTime),
            0x3c => Some(ParameterId::SensorFaultTime),
            0x3d => Some(ParameterId::MaximumVelocity),
            0x3e => Some(ParameterId::MaximumOpenLoopVelocity),
            0x40 => Some(ParameterId::TemperatureSensorZeroVoltage),
            0x41 => Some(ParameterId::TemperatureSensorVoltsPerDegree),
            _ => None,
        }
    }

    /// The console name of this parameter.
    pub fn name(self) -> (text: &'static str)
        ensures
            text@ == self.spec_name(),
    {
        match self {
            ParameterId::BatteryCells => "battery-cells",
            ParameterId::PolePairs => "pole-pairs",
            ParameterId::SensorDirection => "sensor-direction",
            ParameterId::EncoderCpr => "encoder-cpr",
            ParameterId::ElectricalZero => "electrical-zero",
            ParameterId::CurrentKp => "current-kp",
            ParameterId::CurrentKi => "current-ki",
            ParameterId::CurrentKd => "current-kd",
            ParameterId::CurrentOutputLimit => "current-output-limit",
            ParameterId::CurrentOutputRamp => "current-output-ramp",
            ParameterId::VelocityKp => "velocity-kp",
            ParameterId::VelocityKi => "velocity-ki",
            ParameterId::VelocityKd => "velocity-kd",
            ParameterId::VelocityOutputLimit => "velocity-output-limit",
            ParameterId::VelocityOutputRamp => "velocity-output-ramp",
            ParameterId::AdcReferenceVoltage => "adc-reference-voltage",
            ParameterId::CurrentSenseGain => "current-sense-gain",
            ParameterId::ShuntResistance => "shunt-resistance",
            ParameterId::BusDividerHigh => "bus-divider-high",
            ParameterId::BusDividerLow => "bus-divider-low",
            ParameterId::CurrentLimit => "current-limit",
            ParameterId::OverCurrentThreshold => "over-current-threshold",
            ParameterId::OverCurrentDebounce => "over-current-debounce",
            ParameterId::ResidualThreshold => "residual-threshold",
            ParameterId::ResidualDebounce => "residual-debounce",
            ParameterId::CellUnderVoltage => "cell-under-voltage",
            ParameterId::CellOverVoltage => "cell-over-voltage",
            ParameterId::BusFilterTimeConstant => "bus-filter-time-constant",
            ParameterId::MosfetHotResistance => "mosfet-hot-resistance",
            ParameterId::ThermalResistance => "thermal-resistance",
            ParameterId::ThermalTimeConstant => "thermal-time-constant",
            ParameterId::AmbientTemperature => "ambient-temperature",
            ParameterId::DerateTemperature => "derate-temperature",
            ParameterId::ShutdownTemperature => "shutdown-temperature",
            ParameterId::StallTargetVelocity => "stall-target-velocity",
            ParameterId::StallMaxVelocity => "stall-max-velocity",
            ParameterId::StallMinIq => "stall-min-iq",
            ParameterId::StallTime => "stall-time",
            ParameterId::SensorFaultTime => "sensor-fault-time",
            ParameterId::MaximumVelocity => "maximum-velocity",
            ParameterId::MaximumOpenLoopVelocity => "maximum-open-loop-velocity",
            ParameterId::TemperatureSensorZeroVoltage => "temperature-sensor-zero-voltage",
            ParameterId::TemperatureSensorVoltsPerDegree => "temperature-sensor-volts-per-degree",
        }
    }

    /// The wire type of this parameter's value.
    pub open spec fn value_kind(self) -> ParameterKind {
        match self {
            ParameterId::BatteryCells | ParameterId::PolePairs => ParameterKind::U8,
            ParameterId::SensorDirection => ParameterKind::I8,
            ParameterId::EncoderCpr
            | ParameterId::OverCurrentDebounce
            | ParameterId::ResidualDebounce => ParameterKind::U16,
            _ => ParameterKind::F32,
        }
    }

    /// The wire type of this parameter's value.
    pub fn kind(self) -> (kind: ParameterKind)
        ensures
            kind == self.value_kind(),
            (kind == ParameterKind::U8) <==> (self == ParameterId::BatteryCells
                || self == ParameterId::PolePairs),
            (kind == ParameterKind::I8) <==> self == ParameterId::SensorDirection,
            (kind == ParameterKind::U16) <==> (self == ParameterId::EncoderCpr
                || self == ParameterId::OverCurrentDebounce
                || self == ParameterId::ResidualDebounce),
    {
        match self {
            ParameterId::BatteryCells | ParameterId::PolePairs => ParameterKind::U8,
            ParameterId::SensorDirection => ParameterKind::I8,
            ParameterId::EncoderCpr
            | ParameterId::OverCurrentDebounce
            | ParameterId::ResidualDebounce => ParameterKind::U16,
            _ => ParameterKind::F32,
        }
    }

    /// Whether a change of this parameter only takes effect after a restart.
    pub fn startup_only(self) -> (restart: bool)
        ensures
            restart <==> (self == ParameterId::PolePairs || self == ParameterId::EncoderCpr),
    {
        match self {
            ParameterId::PolePairs | ParameterId::EncoderCpr => true,
            _ => false,
        }
    }

    /// The parameter whose console name is `name`, if there is one.
    pub fn from_name(name: &str) -> (id: Option<Self>)
        ensures
            id matches Some(found) ==> found.spec_name() == name@,
            id is None ==> forall|other: ParameterId| other.spec_name() != name@,
            id == parameter_named(name.spec_bytes()),
    {
        let id = Self::from_name_bytes(name.as_bytes());
        proof {
            match id {
                Some(found) => lemma_bytes_determine_text(found.spec_name(), name@),
                None => {
                    assert forall|other: ParameterId| other.spec_name() != name@ by {
                        if other.spec_name() == name@ {
                            assert(vstd::utf8::encode_utf8(other.spec_name()) == name.spec_bytes());
                        }
                    }
                },
            }
        }
        id
    }

    /// The parameter whose console name has the UTF-8 encoding `name`, if
    /// there is one.
    pub fn from_name_bytes(name: &[u8]) -> (id: Option<Self>)
        ensures
            id == parameter_named(name@),
    {
        let mut index: usize = 0;
        proof {
            lemma_all_parameters_array();
        }
        while index < PARAMETER_COUNT
            invariant
                index <= PARAMETER_COUNT,
                ALL_PARAMETERS@ == all_parameters(),
                forall|k: int|
                    0 <= k < index ==> vstd::utf8::encode_utf8((#[trigger] all_parameters()[k]).spec_name())
                        != name@,
            decreases PARAMETER_COUNT - index,
        {
            let candidate = ALL_PARAMETERS[index];
            let text = candidate.name();
            if bytes_equal(text.as_bytes(), name) {
                proof {
                    let chosen = choose|p: ParameterId| vstd::utf8::encode_utf8(p.spec_name()) == name@;
                    assert(vstd::utf8::encode_utf8(candidate.spec_name()) == name@);
                    lemma_bytes_determine_text(chosen.spec_name(), candidate.spec_name());
                    lemma_catalogue_is_unique_and_complete(chosen, candidate);
                }
                return Some(candidate);
            }
            index += 1;
        }
        proof {
            assert forall|other: ParameterId| vstd::utf8::encode_utf8(other.spec_name()) != name@ by {
                lemma_catalogue_position(other);
                assert(all_parameters()[catalogue_position(other)] == other);
            }
        }
        None
    }
}

/// The parameter whose console name has the UTF-8 encoding `name`.
pub open spec fn parameter_named(name: Seq<u8>) -> Option<ParameterId> {
    if exists|p: ParameterId| vstd::utf8::encode_utf8(p.spec_name()) == name {
        Some(choose|p: ParameterId| vstd::utf8::encode_utf8(p.spec_name()) == name)
    } else {
        None
    }
}

/// Two byte strings compared element by element.
pub fn bytes_equal(left: &[u8], right: &[u8]) -> (same: bool)
    ensures
        same <==> left@ == right@,
{
    if left.len() != right.len() {
        return false;
    }
    let mut index: usize = 0;
    while index < left.len()
        invariant
            left@.len() == right@.len(),
            index <= left@.len(),
            forall|k: int| 0 <= k < index ==> left@[k] == right@[k],
        decreases left@.len() - index,
    {
        if left[index] != right[index] {
            return false;
        }
        index += 1;
    }
    assert(left@ =~= right@);
    true
}

/// Texts with the same UTF-8 encoding are the same text.
proof fn lemma_bytes_determine_text(left: Seq<char>, right: Seq<char>)
    requires
        vstd::utf8::encode_utf8(left) == vstd::utf8::encode_utf8(right),
    ensures
        left == right,
{
    vstd::utf8::encode_utf8_decode_utf8(left);
    vstd::utf8::encode_utf8_decode_utf8(right);
}

/// The position of each parameter in the catalogue.
pub open spec fn catalogue_position(id: ParameterId) -> int {
    match id {
        ParameterId::BatteryCells => 0,
        ParameterId::PolePairs => 1,
        ParameterId::SensorDirection => 2,
        ParameterId::EncoderCpr => 3,
        ParameterId::ElectricalZero => 4,
        ParameterId::CurrentKp => 5,
        ParameterId::CurrentKi => 6,
        ParameterId::CurrentKd => 7,
        ParameterId::CurrentOutputLimit => 8,
        ParameterId::CurrentOutputRamp => 9,
        ParameterId::VelocityKp => 10,
        ParameterId::VelocityKi => 11,
        ParameterId::VelocityKd => 12,
        ParameterId::VelocityOutputLimit => 13,
        ParameterId::VelocityOutputRamp => 14,
        ParameterId::AdcReferenceVoltage => 15,
        ParameterId::CurrentSenseGain => 16,
        ParameterId::ShuntResistance => 17,
        ParameterId::BusDividerHigh => 18,
        ParameterId::BusDividerLow => 19,
        ParameterId::CurrentLimit => 20,
        ParameterId::OverCurrentThreshold => 21,
        ParameterId::OverCurrentDebounce => 22,
        ParameterId::ResidualThreshold => 23,
        ParameterId::ResidualDebounce => 24,
        ParameterId::CellUnderVoltage => 25,
        ParameterId::CellOverVoltage => 26,
        ParameterId::BusFilterTimeConstant => 27,
        ParameterId::MosfetHotResistance => 28,
        ParameterId::ThermalResistance => 29,
        ParameterId::ThermalTimeConstant => 30,
        ParameterId::AmbientTemperature => 31,
        ParameterId::DerateTemperature => 32,
        ParameterId::ShutdownTemperature => 33,
        ParameterId::StallTargetVelocity => 34,
        ParameterId::StallMaxVelocity => 35,
        ParameterId::StallMinIq => 36,
        ParameterId::StallTime => 37,
        ParameterId::SensorFaultTime => 38,
        ParameterId::MaximumVelocity => 39,
        ParameterId::MaximumOpenLoopVelocity => 40,
        ParameterId::TemperatureSensorZeroVoltage => 41,
        ParameterId::TemperatureSensorVoltsPerDegree => 42,
    }
}

proof fn lemma_catalogue_position(id: ParameterId)
    ensures
        0 <= catalogue_position(id) < PARAMETER_COUNT,
        all_parameters()[catalogue_position(id)] == id,
{
}

proof fn lemma_all_parameters_array()
    ensures
        ALL_PARAMETERS@ == all_parameters(),
{
    assert(ALL_PARAMETERS@ =~= all_parameters());
}

/// The parameter with the given wire code.
pub open spec fn parameter_with_code(code: u8) -> Option<ParameterId> {
    if code == 0x01 {
        Some(ParameterId::BatteryCells)
    } else if code == 0x02 {
        Some(ParameterId::PolePairs)
    } else if code == 0x03 {
        Some(ParameterId::SensorDirection)
    } else if code == 0x04 {
        Some(ParameterId::EncoderCpr)
    } else if code == 0x05 {
        Some(ParameterId::ElectricalZero)
    } else if code == 0x10 {
        Some(ParameterId::CurrentKp)
    } else if code == 0x11 {
        Some(ParameterId::CurrentKi)
    } else if code == 0x12 {
        Some(ParameterId::CurrentKd)
    } else if code == 0x13 {
        Some(ParameterId::CurrentOutputLimit)
    } else if code == 0x14 {
        Some(ParameterId::CurrentOutputRamp)
    } else if code == 0x18 {
        Some(ParameterId::VelocityKp)
    } else if code == 0x19 {
        Some(ParameterId::VelocityKi)
    } else if code == 0x1a {
        Some(ParameterId::VelocityKd)
    } else if code == 0x1b {
        Some(ParameterId::VelocityOutputLimit)
    } else if code == 0x1c {
        Some(ParameterId::VelocityOutputRamp)
    } else if code == 0x20 {
        Some(ParameterId::AdcReferenceVoltage)
    } else if code == 0x21 {
        Some(ParameterId::CurrentSenseGain)
    } else if code == 0x22 {
        Some(ParameterId::ShuntResistance)
    } else if code == 0x23 {
        Some(ParameterId::BusDividerHigh)
    } else if code == 0x24 {
        Some(ParameterId::BusDividerLow)
    } else if code == 0x28 {
        Some(ParameterId::CurrentLimit)
    } else if code == 0x29 {
        Some(ParameterId::OverCurrentThreshold)
    } else if code == 0x2a {
        Some(ParameterId::OverCurrentDebounce)
    } else if code == 0x2b {
        Some(ParameterId::ResidualThreshold)
    } else if code == 0x2c {
        Some(ParameterId::ResidualDebounce)
    } else if code == 0x2d {
        Some(ParameterId::CellUnderVoltage)
    } else if code == 0x2e {
        Some(ParameterId::CellOverVoltage)
    } else if code == 0x30 {
        Some(ParameterId::BusFilterTimeConstant)
    } else if code == 0x31 {
        Some(ParameterId::MosfetHotResistance)
    } else if code == 0x32 {
        Some(ParameterId::ThermalResistance)
    } else if code == 0x33 {
        Some(ParameterId::ThermalTimeConstant)
    } else if code == 0x34 {
        Some(ParameterId::AmbientTemperature)
    } else if code == 0x35 {
        Some(ParameterId::DerateTemperature)
    } else if code == 0x36 {
        Some(ParameterId::ShutdownTemperature)
    } else if code == 0x38 {
        Some(ParameterId::StallTargetVelocity)
    } else if code == 0x39 {
        Some(ParameterId::StallMaxVelocity)
    } else if code == 0x3a {
        Some(ParameterId::StallMinIq)
    } else if code == 0x3b {
        Some(ParameterId::StallTime)
    } else if code == 0x3c {
        Some(ParameterId::SensorFaultTime)
    } else if code == 0x3d {
        Some(ParameterId::MaximumVelocity)
    } else if code == 0x3e {
        Some(ParameterId::MaximumOpenLoopVelocity)
    } else if code == 0x40 {
        Some(ParameterId::TemperatureSensorZeroVoltage)
    } else if code == 0x41 {
        Some(ParameterId::TemperatureSensorVoltsPerDegree)
    } else {
        None
    }
}

proof fn lemma_code_identifies(id: ParameterId)
    ensures
        parameter_with_code(id.code()) == Some(id),
{
}

/// Length, first and last character of a name: enough to tell all
/// parameter names apart.
pub open spec fn name_key(name: Seq<char>) -> (nat, char, char) {
    (name.len(), name[0], name[name.len() - 1])
}

/// The parameter whose name has the given key.
pub open spec fn parameter_with_name_key(key: (nat, char, char)) -> Option<ParameterId> {
    if key == (13nat, 'b', 's') {
        Some(ParameterId::BatteryCells)
    } else if key == (10nat, 'p', 's') {
        Some(ParameterId::PolePairs)
    } else if key == (16nat, 's', 'n') {
        Some(ParameterId::SensorDirection)
    } else if key == (11nat, 'e', 'r') {
        Some(ParameterId::EncoderCpr)
    } else if key == (15nat, 'e', 'o') {
        Some(ParameterId::ElectricalZero)
    } else if key == (10nat, 'c', 'p') {
        Some(ParameterId::CurrentKp)
    } else if key == (10nat, 'c', 'i') {
        Some(ParameterId::CurrentKi)
    } else if key == (10nat, 'c', 'd') {
        Some(ParameterId::CurrentKd)
    } else if key == (20nat, 'c', 't') {
        Some(ParameterId::CurrentOutputLimit)
    } else if key == (19nat, 'c', 'p') {
        Some(ParameterId::CurrentOutputRamp)
    } else if key == (11nat, 'v', 'p') {
        Some(ParameterId::VelocityKp)
    } else if key == (11nat, 'v', 'i') {
        Some(ParameterId::VelocityKi)
    } else if key == (11nat, 'v', 'd') {
        Some(ParameterId::VelocityKd)
    } else if key == (21nat, 'v', 't') {
        Some(ParameterId::VelocityOutputLimit)
    } else if key == (20nat, 'v', 'p') {
        Some(ParameterId::VelocityOutputRamp)
    } else if key == (21nat, 'a', 'e') {
        Some(ParameterId::AdcReferenceVoltage)
    } else if key == (18nat, 'c', 'n') {
        Some(ParameterId::CurrentSenseGain)
    } else if key == (16nat, 's', 'e') {
        Some(ParameterId::ShuntResistance)
    } else if key == (16nat, 'b', 'h') {
        Some(ParameterId::BusDividerHigh)
    } else if key == (15nat, 'b', 'w') {
        Some(ParameterId::BusDividerLow)
    } else if key == (13nat, 'c', 't') {
        Some(ParameterId::CurrentLimit)
    } else if key == (22nat, 'o', 'd') {
        Some(ParameterId::OverCurrentThreshold)
    } else if key == (21nat, 'o', 'e') {
        Some(ParameterId::OverCurrentDebounce)
    } else if key == (18nat, 'r', 'd') {
        Some(ParameterId::ResidualThreshold)
    } else if key == (17nat, 'r', 'e') {
        Some(ParameterId::ResidualDebounce)
    } else if key == (18nat, 'c', 'e') {
        Some(ParameterId::CellUnderVoltage)
    } else if key == (17nat, 'c', 'e') {
        Some(ParameterId::CellOverVoltage)
    } else if key == (24nat, 'b', 't') {
        Some(ParameterId::BusFilterTimeConstant)
    } else if key == (21nat, 'm', 'e') {
        Some(ParameterId::MosfetHotResistance)
    } else if key == (18nat, 't', 'e') {
        Some(ParameterId::ThermalResistance)
    } else if key == (21nat, 't', 't') {
        Some(ParameterId::ThermalTimeConstant)
    } else if key == (19nat, 'a', 'e') {
        Some(ParameterId::AmbientTemperature)
    } else if key == (18nat, 'd', 'e') {
        Some(ParameterId::DerateTemperature)
    } else if key == (20nat, 's', 'e') {
        Some(ParameterId::ShutdownTemperature)
    } else if key == (21nat, 's', 'y') {
        Some(ParameterId::StallTargetVelocity)
    } else if key == (18nat, 's', 'y') {
        Some(ParameterId::StallMaxVelocity)
    } else if key == (12nat, 's', 'q') {
        Some(ParameterId::StallMinIq)
    } else if key == (10nat, 's', 'e') {
        Some(ParameterId::StallTime)
    } else if key == (17nat, 's', 'e') {
        Some(ParameterId::SensorFaultTime)
    } else if key == (16nat, 'm', 'y') {
        Some(ParameterId::MaximumVelocity)
    } else if key == (26nat, 'm', 'y') {
        Some(ParameterId::MaximumOpenLoopVelocity)
    } else if key == (31nat, 't', 'e') {
        Some(ParameterId::TemperatureSensorZeroVoltage)
    } else if key == (35nat, 't', 'e') {
        Some(ParameterId::TemperatureSensorVoltsPerDegree)
    } else {
        None
    }
}

proof fn lemma_name_key_identifies(id: ParameterId)
    ensures
        parameter_with_name_key(name_key(id.spec_name())) == Some(id),
{
    match id {
        ParameterId::BatteryCells => {
            reveal_strlit("battery-cells");
        },
        ParameterId::PolePairs => {
            reveal_strlit("pole-pairs");
        },
        ParameterId::SensorDirection => {
            reveal_strlit("sensor-direction");
        },
        ParameterId::EncoderCpr => {
            reveal_strlit("encoder-cpr");
        },
        ParameterId::ElectricalZero => {
            reveal_strlit("electrical-zero");
        },
        ParameterId::CurrentKp => {
            reveal_strlit("current-kp");
        },
        ParameterId::CurrentKi => {
            reveal_strlit("current-ki");
        },
        ParameterId::CurrentKd => {
            reveal_strlit("current-kd");
        },
        ParameterId::CurrentOutputLimit => {
            reveal_strlit("current-output-limit");
        },
        ParameterId::CurrentOutputRamp => {
            reveal_strlit("current-output-ramp");
        },
        ParameterId::VelocityKp => {
            reveal_strlit("velocity-kp");
        },
        ParameterId::VelocityKi => {
            reveal_strlit("velocity-ki");
        },
        ParameterId::VelocityKd => {
            reveal_strlit("velocity-kd");
        },
        ParameterId::VelocityOutputLimit => {
            reveal_strlit("velocity-output-limit");
        },
        ParameterId::VelocityOutputRamp => {
            reveal_strlit("velocity-output-ramp");
        },
        ParameterId::AdcReferenceVoltage => {
            reveal_strlit("adc-reference-voltage");
        },
        ParameterId::CurrentSenseGain => {
            reveal_strlit("current-sense-gain");
        },
        ParameterId::ShuntResistance => {
            reveal_strlit("shunt-resistance");
        },
        ParameterId::BusDividerHigh => {
            reveal_strlit("bus-divider-high");
        },
        ParameterId::BusDividerLow => {
            reveal_strlit("bus-divider-low");
        },
        ParameterId::CurrentLimit => {
            reveal_strlit("current-limit");
        },
        ParameterId::OverCurrentThreshold => {
            reveal_strlit("over-current-threshold");
        },
        ParameterId::OverCurrentDebounce => {
            reveal_strlit("over-current-debounce");
        },
        ParameterId::ResidualThreshold => {
            reveal_strlit("residual-threshold");
        },
        ParameterId::ResidualDebounce => {
            reveal_strlit("residual-debounce");
        },
        ParameterId::CellUnderVoltage => {
            reveal_strlit("cell-under-voltage");
        },
        ParameterId::CellOverVoltage => {
            reveal_strlit("cell-over-voltage");
        },
        ParameterId::BusFilterTimeConstant => {
            reveal_strlit("bus-filter-time-constant");
        },
        ParameterId::MosfetHotResistance => {
            reveal_strlit("mosfet-hot-resistance");
        },
        ParameterId::ThermalResistance => {
            reveal_strlit("thermal-resistance");
        },
        ParameterId::ThermalTimeConstant => {
            reveal_strlit("thermal-time-constant");
        },
        ParameterId::AmbientTemperature => {
            reveal_strlit("ambient-temperature");
        },
        ParameterId::DerateTemperature => {
            reveal_strlit("derate-temperature");
        },
        ParameterId::ShutdownTemperature => {
            reveal_strlit("shutdown-temperature");
        },
        ParameterId::StallTargetVelocity => {
            reveal_strlit("stall-target-velocity");
        },
        ParameterId::StallMaxVelocity => {
            reveal_strlit("stall-max-velocity");
        },
        ParameterId::StallMinIq => {
            reveal_strlit("stall-min-iq");
        },
        ParameterId::StallTime => {
            reveal_strlit("stall-time");
        },
        ParameterId::SensorFaultTime => {
            reveal_strlit("sensor-fault-time");
        },
        ParameterId::MaximumVelocity => {
            reveal_strlit("maximum-velocity");
        },
        ParameterId::MaximumOpenLoopVelocity => {
            reveal_strlit("maximum-open-loop-velocity");
        },
        ParameterId::TemperatureSensorZeroVoltage => {
            reveal_strlit("temperature-sensor-zero-voltage");
        },
        ParameterId::TemperatureSensorVoltsPerDegree => {
            reveal_strlit("temperature-sensor-volts-per-degree");
        },
    }
}

/// The catalogue is complete and unambiguous: every parameter appears in
/// it, wire codes and console names each identify exactly one parameter,
/// and looking a parameter up by its code or by its name finds it again.
pub proof fn lemma_catalogue_is_unique_and_complete(a: ParameterId, b: ParameterId)
    ensures
        0 <= catalogue_position(a) < PARAMETER_COUNT,
        all_parameters()[catalogue_position(a)] == a,
        all_parameters().len() == PARAMETER_COUNT,
        a.code() == b.code() ==> a == b,
        a.spec_name() == b.spec_name() ==> a == b,
        parameter_with_code(a.code()) == Some(a),
{
    lemma_catalogue_position(a);
    lemma_code_identifies(a);
    lemma_code_identifies(b);
    lemma_name_key_identifies(a);
    lemma_name_key_identifies(b);
}

/// Wire codes follow the catalogue: a parameter listed before another has
/// the smaller code, so the codes of neighbouring parameters cannot be
/// exchanged and each code names the parameter at its place in the list.
pub proof fn lemma_codes_follow_the_catalogue(a: ParameterId, b: ParameterId)
    ensures
        catalogue_position(a) < catalogue_position(b) <==> a.code() < b.code(),
{
}

} // verus!
