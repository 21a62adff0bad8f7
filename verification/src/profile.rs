//! The control profile: every tunable parameter, its wire value, and the
//! byte layout of the persisted payload.

use vstd::prelude::*;
use crate::bytes::{
    lemma_u16_bytes_determined, lemma_u16_round_trip, lemma_words_le_at, lemma_words_le_len,
    lemma_words_le_push, lemma_words_of_bytes, push_u16_le, push_u32_le, read_u16_le,
    read_u32_le, u16_at, u16_le, u32_at, words_le,
};
use crate::comm::{finite_bits, is_finite_bits};
use crate::interfaces::PidBits;
use crate::parameters::{
    catalogue_position, kind_of_value, ParameterError, ParameterId, ParameterKind, ParameterValue,
    PARAMETER_PAYLOAD_SIZE,
};

verus! {

/// Number of single-precision values in the payload.
pub const PROFILE_FLOAT_COUNT: usize = 37;

/// Offset of the first single-precision value in the payload.
pub const PROFILE_FLOAT_OFFSET: usize = 12;

/// The control profile. Single-precision values are held as their
/// IEEE-754 binary32 encoding.
#[derive(Clone, Copy, Debug, PartialEq, Eq, Structural)]
pub struct ParameterProfileV1 {
    pub battery_cells: u8,
    pub pole_pairs: u8,
    pub sensor_direction: i8,
    pub encoder_cpr: u16,
    pub electrical_zero: u32,
    pub current_pid: PidBits,
    pub velocity_pid: PidBits,
    pub adc_reference_voltage: u32,
    pub current_sense_gain: u32,
    pub shunt_resistance: u32,
    pub bus_divider_high: u32,
    pub bus_divider_low: u32,
    pub current_limit: u32,
    pub over_current_threshold: u32,
    pub over_current_debounce: u16,
    pub residual_threshold: u32,
    pub residual_debounce: u16,
    pub cell_under_voltage: u32,
    pub cell_over_voltage: u32,
    pub bus_filter_time_constant: u32,
    pub mosfet_hot_resistance: u32,
    pub thermal_resistance: u32,
    pub thermal_time_constant: u32,
    pub ambient_temperature: u32,
    pub derate_temperature: u32,
    pub shutdown_temperature: u32,
    pub stall_target_velocity: u32,
    pub stall_max_velocity: u32,
    pub stall_min_iq: u32,
    pub stall_time: u32,
    pub sensor_fault_time: u32,
    pub maximum_velocity: u32,
    pub maximum_open_loop_velocity: u32,
    pub temperature_sensor_zero_voltage: u32,
    pub temperature_sensor_volts_per_degree: u32,
}

/// The factory profile: the controller's built-in configuration, with
/// the current loop's output ramp disabled (zero).
pub open spec fn default_profile() -> ParameterProfileV1 {
    ParameterProfileV1 {
        battery_cells: 6u8,
        pole_pairs: 4u8,
        sensor_direction: 1i8,
        encoder_cpr: 4096u16,
        electrical_zero: 0x00000000u32,
        current_pid: PidBits {
            kp: 0x3e4ccccdu32,
            ki: 0x41a00000u32,
            kd: 0x00000000u32,
            output_limit: 0x41f00000u32,
            output_ramp: 0x00000000u32,
        },
        velocity_pid: PidBits {
            kp: 0x3ecccccdu32,
            ki: 0x40000000u32,
            kd: 0x00000000u32,
            output_limit: 0x42480000u32,
            output_ramp: 0x43480000u32,
        },
        adc_reference_voltage: 0x40533333u32,
        current_sense_gain: 0x42480000u32,
        shunt_resistance: 0x3a03126fu32,
        bus_divider_high: 0x47c35000u32,
        bus_divider_low: 0x461c4000u32,
        current_limit: 0x42480000u32,
        over_current_threshold: 0x425c0000u32,
        over_current_debounce: 3u16,
        residual_threshold: 0x40400000u32,
        residual_debounce: 20u16,
        cell_under_voltage: 0x40400000u32,
        cell_over_voltage: 0x40880000u32,
        bus_filter_time_constant: 0x3ca3d70au32,
        mosfet_hot_resistance: 0x3c23d70au32,
        thermal_resistance: 0x40000000u32,
        thermal_time_constant: 0x41200000u32,
        ambient_temperature: 0x41c80000u32,
        derate_temperature: 0x42c80000u32,
        shutdown_temperature: 0x42fa0000u32,
        stall_target_velocity: 0x41200000u32,
        stall_max_velocity: 0x3f800000u32,
        stall_min_iq: 0x41200000u32,
        stall_time: 0x3f000000u32,
        sensor_fault_time: 0x3b03126fu32,
        maximum_velocity: 0x447a0000u32,
        maximum_open_loop_velocity: 0x461c4000u32,
        temperature_sensor_zero_voltage: 0x3f000000u32,
        temperature_sensor_volts_per_degree: 0x3c23d70au32,
    }
}

impl Default for ParameterProfileV1 {
    fn default() -> (profile: Self)
        ensures
            profile == default_profile(),
    {
        ParameterProfileV1 {
            battery_cells: 6u8,
            pole_pairs: 4u8,
            sensor_direction: 1i8,
            encoder_cpr: 4096u16,
            electrical_zero: 0x00000000u32,
            current_pid: PidBits {
                kp: 0x3e4ccccdu32,
                ki: 0x41a00000u32,
                kd: 0x00000000u32,
                output_limit: 0x41f00000u32,
                output_ramp: 0x00000000u32,
            },
            velocity_pid: PidBits {
                kp: 0x3ecccccdu32,
                ki: 0x40000000u32,
                kd: 0x00000000u32,
                output_limit: 0x42480000u32,
                output_ramp: 0x43480000u32,
            },
            adc_reference_voltage: 0x40533333u32,
            current_sense_gain: 0x42480000u32,
            shunt_resistance: 0x3a03126fu32,
            bus_divider_high: 0x47c35000u32,
            bus_divider_low: 0x461c4000u32,
            current_limit: 0x42480000u32,
            over_current_threshold: 0x425c0000u32,
            over_current_debounce: 3u16,
            residual_threshold: 0x40400000u32,
            residual_debounce: 20u16,
            cell_under_voltage: 0x40400000u32,
            cell_over_voltage: 0x40880000u32,
            bus_filter_time_constant: 0x3ca3d70au32,
            mosfet_hot_resistance: 0x3c23d70au32,
            thermal_resistance: 0x40000000u32,
            thermal_time_constant: 0x41200000u32,
            ambient_temperature: 0x41c80000u32,
            derate_temperature: 0x42c80000u32,
            shutdown_temperature: 0x42fa0000u32,
            stall_target_velocity: 0x41200000u32,
            stall_max_velocity: 0x3f800000u32,
            stall_min_iq: 0x41200000u32,
            stall_time: 0x3f000000u32,
            sensor_fault_time: 0x3b03126fu32,
            maximum_velocity: 0x447a0000u32,
            maximum_open_loop_velocity: 0x461c4000u32,
            temperature_sensor_zero_voltage: 0x3f000000u32,
            temperature_sensor_volts_per_degree: 0x3c23d70au32,
        }
    }
}

/// The single-precision values in payload order.
pub open spec fn float_words(profile: ParameterProfileV1) -> Seq<u32> {
    seq![
        profile.electrical_zero,
        profile.current_pid.kp,
        profile.current_pid.ki,
        profile.current_pid.kd,
        profile.current_pid.output_limit,
        profile.current_pid.output_ramp,
        profile.velocity_pid.kp,
        profile.velocity_pid.ki,
        profile.velocity_pid.kd,
        profile.velocity_pid.output_limit,
        profile.velocity_pid.output_ramp,
        profile.adc_reference_voltage,
        profile.current_sense_gain,
        profile.shunt_resistance,
        profile.bus_divider_high,
        profile.bus_divider_low,
        profile.current_limit,
        profile.over_current_threshold,
        profile.residual_threshold,
        profile.cell_under_voltage,
        profile.cell_over_voltage,
        profile.bus_filter_time_constant,
        profile.mosfet_hot_resistance,
        profile.thermal_resistance,
        profile.thermal_time_constant,
        profile.ambient_temperature,
        profile.derate_temperature,
        profile.shutdown_temperature,
        profile.stall_target_velocity,
        profile.stall_max_velocity,
        profile.stall_min_iq,
        profile.stall_time,
        profile.sensor_fault_time,
        profile.maximum_velocity,
        profile.maximum_open_loop_velocity,
        profile.temperature_sensor_zero_voltage,
        profile.temperature_sensor_volts_per_degree,
    ]
}

/// The profile with the given integer fields and single-precision values
/// in payload order.
pub open spec fn profile_from_parts(
    battery_cells: u8,
    pole_pairs: u8,
    sensor_direction: i8,
    encoder_cpr: u16,
    over_current_debounce: u16,
    residual_debounce: u16,
    words: Seq<u32>,
) -> ParameterProfileV1 {
    ParameterProfileV1 {
        battery_cells: battery_cells,
        pole_pairs: pole_pairs,
        sensor_direction: sensor_direction,
        encoder_cpr: encoder_cpr,
        electrical_zero: words[0],
        current_pid: PidBits {
            kp: words[1],
            ki: words[2],
            kd: words[3],
            output_limit: words[4],
            output_ramp: words[5],
        },
        velocity_pid: PidBits {
            kp: words[6],
            ki: words[7],
            kd: words[8],
            output_limit: words[9],
            output_ramp: words[10],
        },
        adc_reference_voltage: words[11],
        current_sense_gain: words[12],
        shunt_resistance: words[13],
        bus_divider_high: words[14],
        bus_divider_low: words[15],
        current_limit: words[16],
        over_current_threshold: words[17],
        over_current_debounce: over_current_debounce,
        residual_threshold: words[18],
        residual_debounce: residual_debounce,
        cell_under_voltage: words[19],
        cell_over_voltage: words[20],
        bus_filter_time_constant: words[21],
        mosfet_hot_resistance: words[22],
        thermal_resistance: words[23],
        thermal_time_constant: words[24],
        ambient_temperature: words[25],
        derate_temperature: words[26],
        shutdown_temperature: words[27],
        stall_target_velocity: words[28],
        stall_max_velocity: words[29],
        stall_min_iq: words[30],
        stall_time: words[31],
        sensor_fault_time: words[32],
        maximum_velocity: words[33],
        maximum_open_loop_velocity: words[34],
        temperature_sensor_zero_voltage: words[35],
        temperature_sensor_volts_per_degree: words[36],
    }
}

/// The twelve bytes before the single-precision values: cell count, pole
/// pairs, sensor direction, a reserved zero, encoder counts, the two
/// debounce counts, and two reserved zeros.
pub open spec fn profile_header(profile: ParameterProfileV1) -> Seq<u8> {
    seq![profile.battery_cells, profile.pole_pairs, profile.sensor_direction as u8, 0u8]
        + u16_le(profile.encoder_cpr) + u16_le(profile.over_current_debounce) + u16_le(
        profile.residual_debounce,
    ) + seq![0u8, 0u8]
}

/// The persisted payload of a profile.
pub open spec fn profile_payload(profile: ParameterProfileV1) -> Seq<u8> {
    profile_header(profile) + words_le(float_words(profile))
}

/// The single-precision values a payload holds, in payload order.
pub open spec fn payload_words(data: Seq<u8>) -> Seq<u32> {
    Seq::new(PROFILE_FLOAT_COUNT as nat, |i: int| u32_at(data, PROFILE_FLOAT_OFFSET + 4 * i))
}

/// The profile a payload holds: `None` unless it is exactly
/// `PARAMETER_PAYLOAD_SIZE` bytes with its reserved bytes zero.
pub open spec fn payload_profile(data: Seq<u8>) -> Option<ParameterProfileV1> {
    if data.len() == PARAMETER_PAYLOAD_SIZE && data[3] == 0 && data[10] == 0 && data[11] == 0 {
        Some(
            profile_from_parts(
                data[0],
                data[1],
                data[2] as i8,
                u16_at(data, 4),
                u16_at(data, 6),
                u16_at(data, 8),
                payload_words(data),
            ),
        )
    } else {
        None
    }
}






proof fn lemma_float_words_of_parts(
    battery_cells: u8,
    pole_pairs: u8,
    sensor_direction: i8,
    encoder_cpr: u16,
    over_current_debounce: u16,
    residual_debounce: u16,
    words: Seq<u32>,
)
    requires
        words.len() == PROFILE_FLOAT_COUNT,
    ensures
        float_words(
            profile_from_parts(
                battery_cells,
                pole_pairs,
                sensor_direction,
                encoder_cpr,
                over_current_debounce,
                residual_debounce,
                words,
            ),
        ) == words,
{
    assert(float_words(
        profile_from_parts(
            battery_cells,
            pole_pairs,
            sensor_direction,
            encoder_cpr,
            over_current_debounce,
            residual_debounce,
            words,
        ),
    ) =~= words);
}

proof fn lemma_profile_payload_decodes(profile: ParameterProfileV1)
    ensures
        profile_payload(profile).len() == PARAMETER_PAYLOAD_SIZE,
        payload_profile(profile_payload(profile)) == Some(profile),
{
    let words = float_words(profile);
    let payload = profile_payload(profile);
    lemma_words_le_len(words);
    lemma_u16_round_trip(profile.encoder_cpr);
    lemma_u16_round_trip(profile.over_current_debounce);
    lemma_u16_round_trip(profile.residual_debounce);
    let direction = profile.sensor_direction;
    assert((direction as u8) as i8 == direction) by (bit_vector);
    assert forall|i: int| 0 <= i < PROFILE_FLOAT_COUNT implies #[trigger] payload_words(payload)[i]
        == words[i] by {
        lemma_words_le_at(words, i);
        assert(u32_at(payload, 12 + 4 * i) == u32_at(words_le(words), 4 * i));
    }
    assert(payload_words(payload) =~= words);
    assert(u16_at(payload, 4) == u16_at(u16_le(profile.encoder_cpr), 0));
    assert(u16_at(payload, 6) == u16_at(u16_le(profile.over_current_debounce), 0));
    assert(u16_at(payload, 8) == u16_at(u16_le(profile.residual_debounce), 0));
    lemma_float_words_of_parts(
        profile.battery_cells,
        profile.pole_pairs,
        profile.sensor_direction,
        profile.encoder_cpr,
        profile.over_current_debounce,
        profile.residual_debounce,
        words,
    );
}

proof fn lemma_header_of_bytes(data: Seq<u8>)
    requires
        data.len() >= 12,
        data[3] == 0,
        data[10] == 0,
        data[11] == 0,
    ensures
        seq![data[0], data[1], (data[2] as i8) as u8, 0u8] + u16_le(u16_at(data, 4)) + u16_le(
            u16_at(data, 6),
        ) + u16_le(u16_at(data, 8)) + seq![0u8, 0u8] == data.take(12),
{
    lemma_u16_bytes_determined(data, 4);
    lemma_u16_bytes_determined(data, 6);
    lemma_u16_bytes_determined(data, 8);
    let b2 = data[2];
    assert(((b2 as i8) as u8) == b2) by (bit_vector);
    assert(seq![data[0], data[1], (data[2] as i8) as u8, 0u8] + u16_le(u16_at(data, 4)) + u16_le(
        u16_at(data, 6),
    ) + u16_le(u16_at(data, 8)) + seq![0u8, 0u8] =~= data.take(12));
}

proof fn lemma_words_of_payload(data: Seq<u8>)
    requires
        data.len() == PARAMETER_PAYLOAD_SIZE,
    ensures
        words_le(payload_words(data)) == data.skip(12),
{
    let rest = data.skip(12);
    assert(payload_words(data) =~= Seq::new(PROFILE_FLOAT_COUNT as nat, |i: int| u32_at(rest, 4 * i)));
    lemma_words_of_bytes(rest, PROFILE_FLOAT_COUNT as nat);
}

#[verifier::rlimit(30)]
proof fn lemma_payload_is_determined(data: Seq<u8>)
    requires
        payload_profile(data) is Some,
    ensures
        profile_payload(payload_profile(data)->0) == data,
{
    let profile = payload_profile(data)->0;
    let stored = payload_words(data);
    lemma_float_words_of_parts(
        data[0],
        data[1],
        data[2] as i8,
        u16_at(data, 4),
        u16_at(data, 6),
        u16_at(data, 8),
        stored,
    );
    assert(float_words(profile) == stored);
    lemma_words_of_payload(data);
    lemma_header_of_bytes(data);
    assert(profile_header(profile) == data.take(12));
    assert(data =~= data.take(12) + data.skip(12));
}

/// Decoding the payload of a profile gives the profile back, and a payload
/// that decodes to a profile is exactly that profile's payload.
pub proof fn lemma_profile_payload_round_trip(profile: ParameterProfileV1, data: Seq<u8>)
    ensures
        profile_payload(profile).len() == PARAMETER_PAYLOAD_SIZE,
        payload_profile(profile_payload(profile)) == Some(profile),
        payload_profile(data) == Some(profile) ==> profile_payload(profile) == data,
{
    lemma_profile_payload_decodes(profile);
    if payload_profile(data) == Some(profile) {
        lemma_payload_is_determined(data);
    }
}

impl ParameterProfileV1 {
    /// The current value of a parameter.
    pub open spec fn spec_get(self, id: ParameterId) -> ParameterValue {
        match id {
            ParameterId::BatteryCells => ParameterValue::U8(self.battery_cells),
            ParameterId::PolePairs => ParameterValue::U8(self.pole_pairs),
            ParameterId::SensorDirection => ParameterValue::I8(self.sensor_direction),
            ParameterId::EncoderCpr => ParameterValue::U16(self.encoder_cpr),
            ParameterId::ElectricalZero => ParameterValue::F32(self.electrical_zero),
            ParameterId::CurrentKp => ParameterValue::F32(self.current_pid.kp),
            ParameterId::CurrentKi => ParameterValue::F32(self.current_pid.ki),
            ParameterId::CurrentKd => ParameterValue::F32(self.current_pid.kd),
            ParameterId::CurrentOutputLimit => ParameterValue::F32(self.current_pid.output_limit),
            ParameterId::CurrentOutputRamp => ParameterValue::F32(self.current_pid.output_ramp),
            ParameterId::VelocityKp => ParameterValue::F32(self.velocity_pid.kp),
            ParameterId::VelocityKi => ParameterValue::F32(self.velocity_pid.ki),
            ParameterId::VelocityKd => ParameterValue::F32(self.velocity_pid.kd),
            ParameterId::VelocityOutputLimit => ParameterValue::F32(self.velocity_pid.output_limit),
            ParameterId::VelocityOutputRamp => ParameterValue::F32(self.velocity_pid.output_ramp),
            ParameterId::AdcReferenceVoltage => ParameterValue::F32(self.adc_reference_voltage),
            ParameterId::CurrentSenseGain => ParameterValue::F32(self.current_sense_gain),
            ParameterId::ShuntResistance => ParameterValue::F32(self.shunt_resistance),
            ParameterId::BusDividerHigh => ParameterValue::F32(self.bus_divider_high),
            ParameterId::BusDividerLow => ParameterValue::F32(self.bus_divider_low),
            ParameterId::CurrentLimit => ParameterValue::F32(self.current_limit),
            ParameterId::OverCurrentThreshold => ParameterValue::F32(self.over_current_threshold),
            ParameterId::OverCurrentDebounce => ParameterValue::U16(self.over_current_debounce),
            ParameterId::ResidualThreshold => ParameterValue::F32(self.residual_threshold),
            ParameterId::ResidualDebounce => ParameterValue::U16(self.residual_debounce),
            ParameterId::CellUnderVoltage => ParameterValue::F32(self.cell_under_voltage),
            ParameterId::CellOverVoltage => ParameterValue::F32(self.cell_over_voltage),
            ParameterId::BusFilterTimeConstant => ParameterValue::F32(self.bus_filter_time_constant),
            ParameterId::MosfetHotResistance => ParameterValue::F32(self.mosfet_hot_resistance),
            ParameterId::ThermalResistance => ParameterValue::F32(self.thermal_resistance),
            ParameterId::ThermalTimeConstant => ParameterValue::F32(self.thermal_time_constant),
            ParameterId::AmbientTemperature => ParameterValue::F32(self.ambient_temperature),
            ParameterId::DerateTemperature => ParameterValue::F32(self.derate_temperature),
            ParameterId::ShutdownTemperature => ParameterValue::F32(self.shutdown_temperature),
            ParameterId::StallTargetVelocity => ParameterValue::F32(self.stall_target_velocity),
            ParameterId::StallMaxVelocity => ParameterValue::F32(self.stall_max_velocity),
            ParameterId::StallMinIq => ParameterValue::F32(self.stall_min_iq),
            ParameterId::StallTime => ParameterValue::F32(self.stall_time),
            ParameterId::SensorFaultTime => ParameterValue::F32(self.sensor_fault_time),
            ParameterId::MaximumVelocity => ParameterValue::F32(self.maximum_velocity),
            ParameterId::MaximumOpenLoopVelocity => ParameterValue::F32(self.maximum_open_loop_velocity),
            ParameterId::TemperatureSensorZeroVoltage => ParameterValue::F32(self.temperature_sensor_zero_voltage),
            ParameterId::TemperatureSensorVoltsPerDegree => ParameterValue::F32(self.temperature_sensor_volts_per_degree),
        }
    }

    /// The current value of a parameter.
    pub fn get(&self, id: ParameterId) -> (value: ParameterValue)
        ensures
            value == self.spec_get(id),
    {
        match id {
            ParameterId::BatteryCells => ParameterValue::U8(self.battery_cells),
            ParameterId::PolePairs => ParameterValue::U8(self.pole_pairs),
            ParameterId::SensorDirection => ParameterValue::I8(self.sensor_direction),
            ParameterId::EncoderCpr => ParameterValue::U16(self.encoder_cpr),
            ParameterId::ElectricalZero => ParameterValue::F32(self.electrical_zero),
            ParameterId::CurrentKp => ParameterValue::F32(self.current_pid.kp),
            ParameterId::CurrentKi => ParameterValue::F32(self.current_pid.ki),
            ParameterId::CurrentKd => ParameterValue::F32(self.current_pid.kd),
            ParameterId::CurrentOutputLimit => ParameterValue::F32(self.current_pid.output_limit),
            ParameterId::CurrentOutputRamp => ParameterValue::F32(self.current_pid.output_ramp),
            ParameterId::VelocityKp => ParameterValue::F32(self.velocity_pid.kp),
            ParameterId::VelocityKi => ParameterValue::F32(self.velocity_pid.ki),
            ParameterId::VelocityKd => ParameterValue::F32(self.velocity_pid.kd),
            ParameterId::VelocityOutputLimit => ParameterValue::F32(self.velocity_pid.output_limit),
            ParameterId::VelocityOutputRamp => ParameterValue::F32(self.velocity_pid.output_ramp),
            ParameterId::AdcReferenceVoltage => ParameterValue::F32(self.adc_reference_voltage),
            ParameterId::CurrentSenseGain => ParameterValue::F32(self.current_sense_gain),
            ParameterId::ShuntResistance => ParameterValue::F32(self.shunt_resistance),
            ParameterId::BusDividerHigh => ParameterValue::F32(self.bus_divider_high),
            ParameterId::BusDividerLow => ParameterValue::F32(self.bus_divider_low),
            ParameterId::CurrentLimit => ParameterValue::F32(self.current_limit),
            ParameterId::OverCurrentThreshold => ParameterValue::F32(self.over_current_threshold),
            ParameterId::OverCurrentDebounce => ParameterValue::U16(self.over_current_debounce),
            ParameterId::ResidualThreshold => ParameterValue::F32(self.residual_threshold),
            ParameterId::ResidualDebounce => ParameterValue::U16(self.residual_debounce),
            ParameterId::CellUnderVoltage => ParameterValue::F32(self.cell_under_voltage),
            ParameterId::CellOverVoltage => ParameterValue::F32(self.cell_over_voltage),
            ParameterId::BusFilterTimeConstant => ParameterValue::F32(self.bus_filter_time_constant),
            ParameterId::MosfetHotResistance => ParameterValue::F32(self.mosfet_hot_resistance),
            ParameterId::ThermalResistance => ParameterValue::F32(self.thermal_resistance),
            ParameterId::ThermalTimeConstant => ParameterValue::F32(self.thermal_time_constant),
            ParameterId::AmbientTemperature => ParameterValue::F32(self.ambient_temperature),
            ParameterId::DerateTemperature => ParameterValue::F32(self.derate_temperature),
            ParameterId::ShutdownTemperature => ParameterValue::F32(self.shutdown_temperature),
            ParameterId::StallTargetVelocity => ParameterValue::F32(self.stall_target_velocity),
            ParameterId::StallMaxVelocity => ParameterValue::F32(self.stall_max_velocity),
            ParameterId::StallMinIq => ParameterValue::F32(self.stall_min_iq),
            ParameterId::StallTime => ParameterValue::F32(self.stall_time),
            ParameterId::SensorFaultTime => ParameterValue::F32(self.sensor_fault_time),
            ParameterId::MaximumVelocity => ParameterValue::F32(self.maximum_velocity),
            ParameterId::MaximumOpenLoopVelocity => ParameterValue::F32(self.maximum_open_loop_velocity),
            ParameterId::TemperatureSensorZeroVoltage => ParameterValue::F32(self.temperature_sensor_zero_voltage),
            ParameterId::TemperatureSensorVoltsPerDegree => ParameterValue::F32(self.temperature_sensor_volts_per_degree),
        }
    }

    /// The profile with the parameter's field set to the value the value
    /// carries; unchanged when the value's kind is not the parameter's.
    pub open spec fn with_field(self, id: ParameterId, value: ParameterValue) -> ParameterProfileV1 {
        match (id, value) {
            (ParameterId::BatteryCells, ParameterValue::U8(x)) => ParameterProfileV1 { battery_cells: x, ..self },
            (ParameterId::PolePairs, ParameterValue::U8(x)) => ParameterProfileV1 { pole_pairs: x, ..self },
            (ParameterId::SensorDirection, ParameterValue::I8(x)) => ParameterProfileV1 { sensor_direction: x, ..self },
            (ParameterId::EncoderCpr, ParameterValue::U16(x)) => ParameterProfileV1 { encoder_cpr: x, ..self },
            (ParameterId::ElectricalZero, ParameterValue::F32(x)) => ParameterProfileV1 { electrical_zero: x, ..self },
            (ParameterId::CurrentKp, ParameterValue::F32(x)) => ParameterProfileV1 { current_pid: PidBits { kp: x, ..self.current_pid }, ..self },
            (ParameterId::CurrentKi, ParameterValue::F32(x)) => ParameterProfileV1 { current_pid: PidBits { ki: x, ..self.current_pid }, ..self },
            (ParameterId::CurrentKd, ParameterValue::F32(x)) => ParameterProfileV1 { current_pid: PidBits { kd: x, ..self.current_pid }, ..self },
            (ParameterId::CurrentOutputLimit, ParameterValue::F32(x)) => ParameterProfileV1 { current_pid: PidBits { output_limit: x, ..self.current_pid }, ..self },
            (ParameterId::CurrentOutputRamp, ParameterValue::F32(x)) => ParameterProfileV1 { current_pid: PidBits { output_ramp: x, ..self.current_pid }, ..self },
            (ParameterId::VelocityKp, ParameterValue::F32(x)) => ParameterProfileV1 { velocity_pid: PidBits { kp: x, ..self.velocity_pid }, ..self },
            (ParameterId::VelocityKi, ParameterValue::F32(x)) => ParameterProfileV1 { velocity_pid: PidBits { ki: x, ..self.velocity_pid }, ..self },
            (ParameterId::VelocityKd, ParameterValue::F32(x)) => ParameterProfileV1 { velocity_pid: PidBits { kd: x, ..self.velocity_pid }, ..self },
            (ParameterId::VelocityOutputLimit, ParameterValue::F32(x)) => ParameterProfileV1 { velocity_pid: PidBits { output_limit: x, ..self.velocity_pid }, ..self },
            (ParameterId::VelocityOutputRamp, ParameterValue::F32(x)) => ParameterProfileV1 { velocity_pid: PidBits { output_ramp: x, ..self.velocity_pid }, ..self },
            (ParameterId::AdcReferenceVoltage, ParameterValue::F32(x)) => ParameterProfileV1 { adc_reference_voltage: x, ..self },
            (ParameterId::CurrentSenseGain, ParameterValue::F32(x)) => ParameterProfileV1 { current_sense_gain: x, ..self },
            (ParameterId::ShuntResistance, ParameterValue::F32(x)) => ParameterProfileV1 { shunt_resistance: x, ..self },
            (ParameterId::BusDividerHigh, ParameterValue::F32(x)) => ParameterProfileV1 { bus_divider_high: x, ..self },
            (ParameterId::BusDividerLow, ParameterValue::F32(x)) => ParameterProfileV1 { bus_divider_low: x, ..self },
            (ParameterId::CurrentLimit, ParameterValue::F32(x)) => ParameterProfileV1 { current_limit: x, ..self },
            (ParameterId::OverCurrentThreshold, ParameterValue::F32(x)) => ParameterProfileV1 { over_current_threshold: x, ..self },
            (ParameterId::OverCurrentDebounce, ParameterValue::U16(x)) => ParameterProfileV1 { over_current_debounce: x, ..self },
            (ParameterId::ResidualThreshold, ParameterValue::F32(x)) => ParameterProfileV1 { residual_threshold: x, ..self },
            (ParameterId::ResidualDebounce, ParameterValue::U16(x)) => ParameterProfileV1 { residual_debounce: x, ..self },
            (ParameterId::CellUnderVoltage, ParameterValue::F32(x)) => ParameterProfileV1 { cell_under_voltage: x, ..self },
            (ParameterId::CellOverVoltage, ParameterValue::F32(x)) => ParameterProfileV1 { cell_over_voltage: x, ..self },
            (ParameterId::BusFilterTimeConstant, ParameterValue::F32(x)) => ParameterProfileV1 { bus_filter_time_constant: x, ..self },
            (ParameterId::MosfetHotResistance, ParameterValue::F32(x)) => ParameterProfileV1 { mosfet_hot_resistance: x, ..self },
            (ParameterId::ThermalResistance, ParameterValue::F32(x)) => ParameterProfileV1 { thermal_resistance: x, ..self },
            (ParameterId::ThermalTimeConstant, ParameterValue::F32(x)) => ParameterProfileV1 { thermal_time_constant: x, ..self },
            (ParameterId::AmbientTemperature, ParameterValue::F32(x)) => ParameterProfileV1 { ambient_temperature: x, ..self },
            (ParameterId::DerateTemperature, ParameterValue::F32(x)) => ParameterProfileV1 { derate_temperature: x, ..self },
            (ParameterId::ShutdownTemperature, ParameterValue::F32(x)) => ParameterProfileV1 { shutdown_temperature: x, ..self },
            (ParameterId::StallTargetVelocity, ParameterValue::F32(x)) => ParameterProfileV1 { stall_target_velocity: x, ..self },
            (ParameterId::StallMaxVelocity, ParameterValue::F32(x)) => ParameterProfileV1 { stall_max_velocity: x, ..self },
            (ParameterId::StallMinIq, ParameterValue::F32(x)) => ParameterProfileV1 { stall_min_iq: x, ..self },
            (ParameterId::StallTime, ParameterValue::F32(x)) => ParameterProfileV1 { stall_time: x, ..self },
            (ParameterId::SensorFaultTime, ParameterValue::F32(x)) => ParameterProfileV1 { sensor_fault_time: x, ..self },
            (ParameterId::MaximumVelocity, ParameterValue::F32(x)) => ParameterProfileV1 { maximum_velocity: x, ..self },
            (ParameterId::MaximumOpenLoopVelocity, ParameterValue::F32(x)) => ParameterProfileV1 { maximum_open_loop_velocity: x, ..self },
            (ParameterId::TemperatureSensorZeroVoltage, ParameterValue::F32(x)) => ParameterProfileV1 { temperature_sensor_zero_voltage: x, ..self },
            (ParameterId::TemperatureSensorVoltsPerDegree, ParameterValue::F32(x)) => ParameterProfileV1 { temperature_sensor_volts_per_degree: x, ..self },
            _ => self,
        }
    }

    /// Sets one parameter, checking only that the value has the parameter's
    /// kind and, for the electrical zero, that it is finite. The result
    /// differs from `self` in that parameter alone.
    pub fn with_value(&self, id: ParameterId, value: ParameterValue) -> (updated: Result<Self, ParameterError>)
        ensures
            kind_of_value(value) != id.value_kind() ==> updated == Err::<Self, ParameterError>(
                ParameterError::WrongType,
            ),
            kind_of_value(value) == id.value_kind() && id == ParameterId::ElectricalZero && !finite_bits(
                value->F32_0,
            ) ==> updated == Err::<Self, ParameterError>(ParameterError::OutOfRange),
            kind_of_value(value) == id.value_kind() && (id != ParameterId::ElectricalZero
                || finite_bits(value->F32_0)) ==> updated == Ok::<Self, ParameterError>(
                self.with_field(id, value),
            ),
    {
        match (id, value) {
            (ParameterId::BatteryCells, ParameterValue::U8(x)) => Ok(ParameterProfileV1 { battery_cells: x, ..*self }),
            (ParameterId::PolePairs, ParameterValue::U8(x)) => Ok(ParameterProfileV1 { pole_pairs: x, ..*self }),
            (ParameterId::SensorDirection, ParameterValue::I8(x)) => Ok(ParameterProfileV1 { sensor_direction: x, ..*self }),
            (ParameterId::EncoderCpr, ParameterValue::U16(x)) => Ok(ParameterProfileV1 { encoder_cpr: x, ..*self }),
            (ParameterId::ElectricalZero, ParameterValue::F32(x)) => if is_finite_bits(x) {
                Ok(ParameterProfileV1 { electrical_zero: x, ..*self })
            } else {
                Err(ParameterError::OutOfRange)
            },
            (ParameterId::CurrentKp, ParameterValue::F32(x)) => Ok(ParameterProfileV1 { current_pid: PidBits { kp: x, ..self.current_pid }, ..*self }),
            (ParameterId::CurrentKi, ParameterValue::F32(x)) => Ok(ParameterProfileV1 { current_pid: PidBits { ki: x, ..self.current_pid }, ..*self }),
            (ParameterId::CurrentKd, ParameterValue::F32(x)) => Ok(ParameterProfileV1 { current_pid: PidBits { kd: x, ..self.current_pid }, ..*self }),
            (ParameterId::CurrentOutputLimit, ParameterValue::F32(x)) => Ok(ParameterProfileV1 { current_pid: PidBits { output_limit: x, ..self.current_pid }, ..*self }),
            (ParameterId::CurrentOutputRamp, ParameterValue::F32(x)) => Ok(ParameterProfileV1 { current_pid: PidBits { output_ramp: x, ..self.current_pid }, ..*self }),
            (ParameterId::VelocityKp, ParameterValue::F32(x)) => Ok(ParameterProfileV1 { velocity_pid: PidBits { kp: x, ..self.velocity_pid }, ..*self }),
            (ParameterId::VelocityKi, ParameterValue::F32(x)) => Ok(ParameterProfileV1 { velocity_pid: PidBits { ki: x, ..self.velocity_pid }, ..*self }),
            (ParameterId::VelocityKd, ParameterValue::F32(x)) => Ok(ParameterProfileV1 { velocity_pid: PidBits { kd: x, ..self.velocity_pid }, ..*self }),
            (ParameterId::VelocityOutputLimit, ParameterValue::F32(x)) => Ok(ParameterProfileV1 { velocity_pid: PidBits { output_limit: x, ..self.velocity_pid }, ..*self }),
            (ParameterId::VelocityOutputRamp, ParameterValue::F32(x)) => Ok(ParameterProfileV1 { velocity_pid: PidBits { output_ramp: x, ..self.velocity_pid }, ..*self }),
            (ParameterId::AdcReferenceVoltage, ParameterValue::F32(x)) => Ok(ParameterProfileV1 { adc_reference_voltage: x, ..*self }),
            (ParameterId::CurrentSenseGain, ParameterValue::F32(x)) => Ok(ParameterProfileV1 { current_sense_gain: x, ..*self }),
            (ParameterId::ShuntResistance, ParameterValue::F32(x)) => Ok(ParameterProfileV1 { shunt_resistance: x, ..*self }),
            (ParameterId::BusDividerHigh, ParameterValue::F32(x)) => Ok(ParameterProfileV1 { bus_divider_high: x, ..*self }),
            (ParameterId::BusDividerLow, ParameterValue::F32(x)) => Ok(ParameterProfileV1 { bus_divider_low: x, ..*self }),
            (ParameterId::CurrentLimit, ParameterValue::F32(x)) => Ok(ParameterProfileV1 { current_limit: x, ..*self }),
            (ParameterId::OverCurrentThreshold, ParameterValue::F32(x)) => Ok(ParameterProfileV1 { over_current_threshold: x, ..*self }),
            (ParameterId::OverCurrentDebounce, ParameterValue::U16(x)) => Ok(ParameterProfileV1 { over_current_debounce: x, ..*self }),
            (ParameterId::ResidualThreshold, ParameterValue::F32(x)) => Ok(ParameterProfileV1 { residual_threshold: x, ..*self }),
            (ParameterId::ResidualDebounce, ParameterValue::U16(x)) => Ok(ParameterProfileV1 { residual_debounce: x, ..*self }),
            (ParameterId::CellUnderVoltage, ParameterValue::F32(x)) => Ok(ParameterProfileV1 { cell_under_voltage: x, ..*self }),
            (ParameterId::CellOverVoltage, ParameterValue::F32(x)) => Ok(ParameterProfileV1 { cell_over_voltage: x, ..*self }),
            (ParameterId::BusFilterTimeConstant, ParameterValue::F32(x)) => Ok(ParameterProfileV1 { bus_filter_time_constant: x, ..*self }),
            (ParameterId::MosfetHotResistance, ParameterValue::F32(x)) => Ok(ParameterProfileV1 { mosfet_hot_resistance: x, ..*self }),
            (ParameterId::ThermalResistance, ParameterValue::F32(x)) => Ok(ParameterProfileV1 { thermal_resistance: x, ..*self }),
            (ParameterId::ThermalTimeConstant, ParameterValue::F32(x)) => Ok(ParameterProfileV1 { thermal_time_constant: x, ..*self }),
            (ParameterId::AmbientTemperature, ParameterValue::F32(x)) => Ok(ParameterProfileV1 { ambient_temperature: x, ..*self }),
            (ParameterId::DerateTemperature, ParameterValue::F32(x)) => Ok(ParameterProfileV1 { derate_temperature: x, ..*self }),
            (ParameterId::ShutdownTemperature, ParameterValue::F32(x)) => Ok(ParameterProfileV1 { shutdown_temperature: x, ..*self }),
            (ParameterId::StallTargetVelocity, ParameterValue::F32(x)) => Ok(ParameterProfileV1 { stall_target_velocity: x, ..*self }),
            (ParameterId::StallMaxVelocity, ParameterValue::F32(x)) => Ok(ParameterProfileV1 { stall_max_velocity: x, ..*self }),
            (ParameterId::StallMinIq, ParameterValue::F32(x)) => Ok(ParameterProfileV1 { stall_min_iq: x, ..*self }),
            (ParameterId::StallTime, ParameterValue::F32(x)) => Ok(ParameterProfileV1 { stall_time: x, ..*self }),
            (ParameterId::SensorFaultTime, ParameterValue::F32(x)) => Ok(ParameterProfileV1 { sensor_fault_time: x, ..*self }),
            (ParameterId::MaximumVelocity, ParameterValue::F32(x)) => Ok(ParameterProfileV1 { maximum_velocity: x, ..*self }),
            (ParameterId::MaximumOpenLoopVelocity, ParameterValue::F32(x)) => Ok(ParameterProfileV1 { maximum_open_loop_velocity: x, ..*self }),
            (ParameterId::TemperatureSensorZeroVoltage, ParameterValue::F32(x)) => Ok(ParameterProfileV1 { temperature_sensor_zero_voltage: x, ..*self }),
            (ParameterId::TemperatureSensorVoltsPerDegree, ParameterValue::F32(x)) => Ok(ParameterProfileV1 { temperature_sensor_volts_per_degree: x, ..*self }),
            _ => Err(ParameterError::WrongType),
        }
    }

    /// The single-precision values in payload order.
    pub fn float_values(&self) -> (words: Vec<u32>)
        ensures
            words@ == float_words(*self),
    {
        let mut words: Vec<u32> = Vec::new();
        words.push(self.electrical_zero);
        words.push(self.current_pid.kp);
        words.push(self.current_pid.ki);
        words.push(self.current_pid.kd);
        words.push(self.current_pid.output_limit);
        words.push(self.current_pid.output_ramp);
        words.push(self.velocity_pid.kp);
        words.push(self.velocity_pid.ki);
        words.push(self.velocity_pid.kd);
        words.push(self.velocity_pid.output_limit);
        words.push(self.velocity_pid.output_ramp);
        words.push(self.adc_reference_voltage);
        words.push(self.current_sense_gain);
        words.push(self.shunt_resistance);
        words.push(self.bus_divider_high);
        words.push(self.bus_divider_low);
        words.push(self.current_limit);
        words.push(self.over_current_threshold);
        words.push(self.residual_threshold);
        words.push(self.cell_under_voltage);
        words.push(self.cell_over_voltage);
        words.push(self.bus_filter_time_constant);
        words.push(self.mosfet_hot_resistance);
        words.push(self.thermal_resistance);
        words.push(self.thermal_time_constant);
        words.push(self.ambient_temperature);
        words.push(self.derate_temperature);
        words.push(self.shutdown_temperature);
        words.push(self.stall_target_velocity);
        words.push(self.stall_max_velocity);
        words.push(self.stall_min_iq);
        words.push(self.stall_time);
        words.push(self.sensor_fault_time);
        words.push(self.maximum_velocity);
        words.push(self.maximum_open_loop_velocity);
        words.push(self.temperature_sensor_zero_voltage);
        words.push(self.temperature_sensor_volts_per_degree);
        assert(words@ =~= float_words(*self));
        words
    }

    /// The persisted payload.
    pub fn encode_payload(&self) -> (data: Vec<u8>)
        ensures
            data@ == profile_payload(*self),
            data@.len() == PARAMETER_PAYLOAD_SIZE,
    {
        let mut data: Vec<u8> = Vec::new();
        data.push(self.battery_cells);
        data.push(self.pole_pairs);
        data.push(self.sensor_direction as u8);
        data.push(0);
        push_u16_le(&mut data, self.encoder_cpr);
        push_u16_le(&mut data, self.over_current_debounce);
        push_u16_le(&mut data, self.residual_debounce);
        data.push(0);
        data.push(0);
        assert(data@ =~= profile_header(*self));
        let words = self.float_values();
        let ghost header = data@;
        let mut index: usize = 0;
        assert(words@.take(0) =~= Seq::<u32>::empty());
        assert(header + words_le(Seq::<u32>::empty()) =~= header);
        while index < words.len()
            invariant
                index <= words@.len(),
                words@ == float_words(*self),
                data@ == header + words_le(words@.take(index as int)),
            decreases words@.len() - index,
        {
            let word = words[index];
            push_u32_le(&mut data, word);
            proof {
                assert(words@.take(index + 1) =~= words@.take(index as int).push(word));
                lemma_words_le_push(words@.take(index as int), word);
            }
            index += 1;
        }
        assert(words@.take(words@.len() as int) =~= words@);
        proof {
            lemma_profile_payload_decodes(*self);
        }
        data
    }

    /// Writes the payload into the start of `payload`, returning its size.
    pub fn encode_payload_into(&self, payload: &mut [u8]) -> (written: usize)
        requires
            PARAMETER_PAYLOAD_SIZE <= old(payload)@.len(),
        ensures
            written == PARAMETER_PAYLOAD_SIZE,
            final(payload)@.len() == old(payload)@.len(),
            final(payload)@.subrange(0, written as int) == profile_payload(*self),
            final(payload)@.subrange(written as int, old(payload)@.len() as int) == old(
                payload,
            )@.subrange(written as int, old(payload)@.len() as int),
    {
        let data = self.encode_payload();
        let mut index: usize = 0;
        while index < PARAMETER_PAYLOAD_SIZE
            invariant
                index <= PARAMETER_PAYLOAD_SIZE,
                data@.len() == PARAMETER_PAYLOAD_SIZE,
                payload@.len() == old(payload)@.len(),
                PARAMETER_PAYLOAD_SIZE <= payload@.len(),
                forall|k: int| 0 <= k < index ==> payload@[k] == data@[k],
                forall|k: int| PARAMETER_PAYLOAD_SIZE <= k < payload@.len() ==> payload@[k] == old(
                    payload,
                )@[k],
            decreases PARAMETER_PAYLOAD_SIZE - index,
        {
            payload[index] = data[index];
            index += 1;
        }
        assert(payload@.subrange(0, PARAMETER_PAYLOAD_SIZE as int) =~= data@);
        assert(payload@.subrange(PARAMETER_PAYLOAD_SIZE as int, payload@.len() as int) =~= old(
            payload,
        )@.subrange(PARAMETER_PAYLOAD_SIZE as int, old(payload)@.len() as int));
        PARAMETER_PAYLOAD_SIZE
    }

    /// The profile a payload holds, before any range checks: the payload
    /// must be `PARAMETER_PAYLOAD_SIZE` bytes with its reserved bytes zero.
    pub fn decode_fields(data: &[u8]) -> (profile: Result<Self, ParameterError>)
        ensures
            match profile {
                Ok(profile) => payload_profile(data@) == Some(profile),
                Err(error) => payload_profile(data@) is None && error == ParameterError::ReservedBytes,
            },
    {
        if data.len() != PARAMETER_PAYLOAD_SIZE || data[3] != 0 || data[10] != 0 || data[11] != 0 {
            return Err(ParameterError::ReservedBytes);
        }
        let profile = ParameterProfileV1 {
            battery_cells: data[0],
            pole_pairs: data[1],
            sensor_direction: data[2] as i8,
            encoder_cpr: read_u16_le(data, 4),
            electrical_zero: read_u32_le(data, 12),
            current_pid: PidBits {
                kp: read_u32_le(data, 16),
                ki: read_u32_le(data, 20),
                kd: read_u32_le(data, 24),
                output_limit: read_u32_le(data, 28),
                output_ramp: read_u32_le(data, 32),
            },
            velocity_pid: PidBits {
                kp: read_u32_le(data, 36),
                ki: read_u32_le(data, 40),
                kd: read_u32_le(data, 44),
                output_limit: read_u32_le(data, 48),
                output_ramp: read_u32_le(data, 52),
            },
            adc_reference_voltage: read_u32_le(data, 56),
            current_sense_gain: read_u32_le(data, 60),
            shunt_resistance: read_u32_le(data, 64),
            bus_divider_high: read_u32_le(data, 68),
            bus_divider_low: read_u32_le(data, 72),
            current_limit: read_u32_le(data, 76),
            over_current_threshold: read_u32_le(data, 80),
            over_current_debounce: read_u16_le(data, 6),
            residual_threshold: read_u32_le(data, 84),
            residual_debounce: read_u16_le(data, 8),
            cell_under_voltage: read_u32_le(data, 88),
            cell_over_voltage: read_u32_le(data, 92),
            bus_filter_time_constant: read_u32_le(data, 96),
            mosfet_hot_resistance: read_u32_le(data, 100),
            thermal_resistance: read_u32_le(data, 104),
            thermal_time_constant: read_u32_le(data, 108),
            ambient_temperature: read_u32_le(data, 112),
            derate_temperature: read_u32_le(data, 116),
            shutdown_temperature: read_u32_le(data, 120),
            stall_target_velocity: read_u32_le(data, 124),
            stall_max_velocity: read_u32_le(data, 128),
            stall_min_iq: read_u32_le(data, 132),
            stall_time: read_u32_le(data, 136),
            sensor_fault_time: read_u32_le(data, 140),
            maximum_velocity: read_u32_le(data, 144),
            maximum_open_loop_velocity: read_u32_le(data, 148),
            temperature_sensor_zero_voltage: read_u32_le(data, 152),
            temperature_sensor_volts_per_degree: read_u32_le(data, 156),
        };
        assert(profile == payload_profile(data@)->0);
        Ok(profile)
    }

    /// Whether two profiles hold the same values, single-precision values
    /// compared as numbers: NaN equals nothing and the two zeros are equal.
    pub open spec fn same_values(self, other: ParameterProfileV1) -> bool {
        &&& self.battery_cells == other.battery_cells
        &&& self.pole_pairs == other.pole_pairs
        &&& self.sensor_direction == other.sensor_direction
        &&& self.encoder_cpr == other.encoder_cpr
        &&& float_equal(self.electrical_zero, other.electrical_zero)
        &&& float_equal(self.current_pid.kp, other.current_pid.kp)
        &&& float_equal(self.current_pid.ki, other.current_pid.ki)
        &&& float_equal(self.current_pid.kd, other.current_pid.kd)
        &&& float_equal(self.current_pid.output_limit, other.current_pid.output_limit)
        &&& float_equal(self.current_pid.output_ramp, other.current_pid.output_ramp)
        &&& float_equal(self.velocity_pid.kp, other.velocity_pid.kp)
        &&& float_equal(self.velocity_pid.ki, other.velocity_pid.ki)
        &&& float_equal(self.velocity_pid.kd, other.velocity_pid.kd)
        &&& float_equal(self.velocity_pid.output_limit, other.velocity_pid.output_limit)
        &&& float_equal(self.velocity_pid.output_ramp, other.velocity_pid.output_ramp)
        &&& float_equal(self.adc_reference_voltage, other.adc_reference_voltage)
        &&& float_equal(self.current_sense_gain, other.current_sense_gain)
        &&& float_equal(self.shunt_resistance, other.shunt_resistance)
        &&& float_equal(self.bus_divider_high, other.bus_divider_high)
        &&& float_equal(self.bus_divider_low, other.bus_divider_low)
        &&& float_equal(self.current_limit, other.current_limit)
        &&& float_equal(self.over_current_threshold, other.over_current_threshold)
        &&& self.over_current_debounce == other.over_current_debounce
        &&& float_equal(self.residual_threshold, other.residual_threshold)
        &&& self.residual_debounce == other.residual_debounce
        &&& float_equal(self.cell_under_voltage, other.cell_under_voltage)
        &&& float_equal(self.cell_over_voltage, other.cell_over_voltage)
        &&& float_equal(self.bus_filter_time_constant, other.bus_filter_time_constant)
        &&& float_equal(self.mosfet_hot_resistance, other.mosfet_hot_resistance)
        &&& float_equal(self.thermal_resistance, other.thermal_resistance)
        &&& float_equal(self.thermal_time_constant, other.thermal_time_constant)
        &&& float_equal(self.ambient_temperature, other.ambient_temperature)
        &&& float_equal(self.derate_temperature, other.derate_temperature)
        &&& float_equal(self.shutdown_temperature, other.shutdown_temperature)
        &&& float_equal(self.stall_target_velocity, other.stall_target_velocity)
        &&& float_equal(self.stall_max_velocity, other.stall_max_velocity)
        &&& float_equal(self.stall_min_iq, other.stall_min_iq)
        &&& float_equal(self.stall_time, other.stall_time)
        &&& float_equal(self.sensor_fault_time, other.sensor_fault_time)
        &&& float_equal(self.maximum_velocity, other.maximum_velocity)
        &&& float_equal(self.maximum_open_loop_velocity, other.maximum_open_loop_velocity)
        &&& float_equal(self.temperature_sensor_zero_voltage, other.temperature_sensor_zero_voltage)
        &&& float_equal(self.temperature_sensor_volts_per_degree, other.temperature_sensor_volts_per_degree)
    }

    /// The integer parameters lie in their ranges: 2 to 6 cells, 1 to 64
    /// pole pairs, a sensor direction of 1 or -1, at least 2 encoder counts
    /// per turn, and debounce counts of 1 to 10000 samples.
    pub open spec fn integers_in_range(self) -> bool {
        &&& valid_cell_count(self.battery_cells)
        &&& 1 <= self.pole_pairs <= 64
        &&& (self.sensor_direction == 1 || self.sensor_direction == -1)
        &&& self.encoder_cpr >= 2
        &&& 1 <= self.over_current_debounce <= 10_000
        &&& 1 <= self.residual_debounce <= 10_000
    }

    /// Whether the integer parameters lie in their ranges; the
    /// single-precision ranges and the relations between values are checked
    /// separately.
    pub fn integers_valid(&self) -> (valid: bool)
        ensures
            valid == self.integers_in_range(),
    {
        is_valid_cell_count(self.battery_cells) && 1 <= self.pole_pairs && self.pole_pairs <= 64
            && (self.sensor_direction == 1 || self.sensor_direction == -1)
            && self.encoder_cpr >= 2 && 1 <= self.over_current_debounce
            && self.over_current_debounce <= 10_000 && 1 <= self.residual_debounce
            && self.residual_debounce <= 10_000
    }

    /// Whether two profiles hold the same values, single-precision values
    /// compared as numbers.
    pub fn equals(&self, other: &Self) -> (same: bool)
        ensures
            same == self.same_values(*other),
    {
        self.battery_cells == other.battery_cells
            && self.pole_pairs == other.pole_pairs
            && self.sensor_direction == other.sensor_direction
            && self.encoder_cpr == other.encoder_cpr
            && floats_equal(self.electrical_zero, other.electrical_zero)
            && floats_equal(self.current_pid.kp, other.current_pid.kp)
            && floats_equal(self.current_pid.ki, other.current_pid.ki)
            && floats_equal(self.current_pid.kd, other.current_pid.kd)
            && floats_equal(self.current_pid.output_limit, other.current_pid.output_limit)
            && floats_equal(self.current_pid.output_ramp, other.current_pid.output_ramp)
            && floats_equal(self.velocity_pid.kp, other.velocity_pid.kp)
            && floats_equal(self.velocity_pid.ki, other.velocity_pid.ki)
            && floats_equal(self.velocity_pid.kd, other.velocity_pid.kd)
            && floats_equal(self.velocity_pid.output_limit, other.velocity_pid.output_limit)
            && floats_equal(self.velocity_pid.output_ramp, other.velocity_pid.output_ramp)
            && floats_equal(self.adc_reference_voltage, other.adc_reference_voltage)
            && floats_equal(self.current_sense_gain, other.current_sense_gain)
            && floats_equal(self.shunt_resistance, other.shunt_resistance)
            && floats_equal(self.bus_divider_high, other.bus_divider_high)
            && floats_equal(self.bus_divider_low, other.bus_divider_low)
            && floats_equal(self.current_limit, other.current_limit)
            && floats_equal(self.over_current_threshold, other.over_current_threshold)
            && self.over_current_debounce == other.over_current_debounce
            && floats_equal(self.residual_threshold, other.residual_threshold)
            && self.residual_debounce == other.residual_debounce
            && floats_equal(self.cell_under_voltage, other.cell_under_voltage)
            && floats_equal(self.cell_over_voltage, other.cell_over_voltage)
            && floats_equal(self.bus_filter_time_constant, other.bus_filter_time_constant)
            && floats_equal(self.mosfet_hot_resistance, other.mosfet_hot_resistance)
            && floats_equal(self.thermal_resistance, other.thermal_resistance)
            && floats_equal(self.thermal_time_constant, other.thermal_time_constant)
            && floats_equal(self.ambient_temperature, other.ambient_temperature)
            && floats_equal(self.derate_temperature, other.derate_temperature)
            && floats_equal(self.shutdown_temperature, other.shutdown_temperature)
            && floats_equal(self.stall_target_velocity, other.stall_target_velocity)
            && floats_equal(self.stall_max_velocity, other.stall_max_velocity)
            && floats_equal(self.stall_min_iq, other.stall_min_iq)
            && floats_equal(self.stall_time, other.stall_time)
            && floats_equal(self.sensor_fault_time, other.sensor_fault_time)
            && floats_equal(self.maximum_velocity, other.maximum_velocity)
            && floats_equal(self.maximum_open_loop_velocity, other.maximum_open_loop_velocity)
            && floats_equal(self.temperature_sensor_zero_voltage, other.temperature_sensor_zero_voltage)
            && floats_equal(self.temperature_sensor_volts_per_degree, other.temperature_sensor_volts_per_degree)
    }
}

/// A binary32 encoding of NaN: exponent all ones, mantissa not zero.
/// A battery of 2 to 6 cells in series.
pub open spec fn valid_cell_count(cells: u8) -> bool {
    2 <= cells <= 6
}

/// Whether `cells` is a supported battery cell count.
pub fn is_valid_cell_count(cells: u8) -> (valid: bool)
    ensures
        valid == valid_cell_count(cells),
{
    2 <= cells && cells <= 6
}

pub open spec fn is_nan_bits(bits: u32) -> bool {
    bits & 0x7f80_0000u32 == 0x7f80_0000u32 && bits & 0x007f_ffffu32 != 0
}

/// Equality of two binary32 encodings as numbers.
pub open spec fn float_equal(a: u32, b: u32) -> bool {
    !is_nan_bits(a) && !is_nan_bits(b) && (a == b || (a | b) & 0x7fff_ffffu32 == 0)
}

/// Equality of two binary32 encodings as numbers.
pub fn floats_equal(a: u32, b: u32) -> (same: bool)
    ensures
        same == float_equal(a, b),
{
    let a_nan = a & 0x7f80_0000 == 0x7f80_0000 && a & 0x007f_ffff != 0;
    let b_nan = b & 0x7f80_0000 == 0x7f80_0000 && b & 0x007f_ffff != 0;
    !a_nan && !b_nan && (a == b || (a | b) & 0x7fff_ffff == 0)
}

/// Setting a parameter changes that parameter alone: reading it back gives
/// the value set, and every other parameter keeps its value.
#[verifier::rlimit(60)]
pub proof fn lemma_set_reads_back(
    profile: ParameterProfileV1,
    id: ParameterId,
    value: ParameterValue,
    other: ParameterId,
)
    requires
        kind_of_value(value) == id.value_kind(),
    ensures
        profile.with_field(id, value).spec_get(id) == value,
        other != id ==> profile.with_field(id, value).spec_get(other) == profile.spec_get(other),
{
    match id {
        ParameterId::BatteryCells => {},
        ParameterId::PolePairs => {},
        ParameterId::SensorDirection => {},
        ParameterId::EncoderCpr => {},
        ParameterId::ElectricalZero => {},
        ParameterId::CurrentKp => {},
        ParameterId::CurrentKi => {},
        ParameterId::CurrentKd => {},
        ParameterId::CurrentOutputLimit => {},
        ParameterId::CurrentOutputRamp => {},
        ParameterId::VelocityKp => {},
        ParameterId::VelocityKi => {},
        ParameterId::VelocityKd => {},
        ParameterId::VelocityOutputLimit => {},
        ParameterId::VelocityOutputRamp => {},
        ParameterId::AdcReferenceVoltage => {},
        ParameterId::CurrentSenseGain => {},
        ParameterId::ShuntResistance => {},
        ParameterId::BusDividerHigh => {},
        ParameterId::BusDividerLow => {},
        ParameterId::CurrentLimit => {},
        ParameterId::OverCurrentThreshold => {},
        ParameterId::OverCurrentDebounce => {},
        ParameterId::ResidualThreshold => {},
        ParameterId::ResidualDebounce => {},
        ParameterId::CellUnderVoltage => {},
        ParameterId::CellOverVoltage => {},
        ParameterId::BusFilterTimeConstant => {},
        ParameterId::MosfetHotResistance => {},
        ParameterId::ThermalResistance => {},
        ParameterId::ThermalTimeConstant => {},
        ParameterId::AmbientTemperature => {},
        ParameterId::DerateTemperature => {},
        ParameterId::ShutdownTemperature => {},
        ParameterId::StallTargetVelocity => {},
        ParameterId::StallMaxVelocity => {},
        ParameterId::StallMinIq => {},
        ParameterId::StallTime => {},
        ParameterId::SensorFaultTime => {},
        ParameterId::MaximumVelocity => {},
        ParameterId::MaximumOpenLoopVelocity => {},
        ParameterId::TemperatureSensorZeroVoltage => {},
        ParameterId::TemperatureSensorVoltsPerDegree => {},
    }
}

/// A profile is determined by the values of its parameters.
pub proof fn lemma_values_determine_profile(a: ParameterProfileV1, b: ParameterProfileV1)
    requires
        forall|id: ParameterId| #[trigger] a.spec_get(id) == b.spec_get(id),
    ensures
        a == b,
{
    assert(a.spec_get(ParameterId::BatteryCells) == b.spec_get(ParameterId::BatteryCells));
    assert(a.spec_get(ParameterId::PolePairs) == b.spec_get(ParameterId::PolePairs));
    assert(a.spec_get(ParameterId::SensorDirection) == b.spec_get(ParameterId::SensorDirection));
    assert(a.spec_get(ParameterId::EncoderCpr) == b.spec_get(ParameterId::EncoderCpr));
    assert(a.spec_get(ParameterId::ElectricalZero) == b.spec_get(ParameterId::ElectricalZero));
    assert(a.spec_get(ParameterId::CurrentKp) == b.spec_get(ParameterId::CurrentKp));
    assert(a.spec_get(ParameterId::CurrentKi) == b.spec_get(ParameterId::CurrentKi));
    assert(a.spec_get(ParameterId::CurrentKd) == b.spec_get(ParameterId::CurrentKd));
    assert(a.spec_get(ParameterId::CurrentOutputLimit) == b.spec_get(ParameterId::CurrentOutputLimit));
    assert(a.spec_get(ParameterId::CurrentOutputRamp) == b.spec_get(ParameterId::CurrentOutputRamp));
    assert(a.spec_get(ParameterId::VelocityKp) == b.spec_get(ParameterId::VelocityKp));
    assert(a.spec_get(ParameterId::VelocityKi) == b.spec_get(ParameterId::VelocityKi));
    assert(a.spec_get(ParameterId::VelocityKd) == b.spec_get(ParameterId::VelocityKd));
    assert(a.spec_get(ParameterId::VelocityOutputLimit) == b.spec_get(ParameterId::VelocityOutputLimit));
    assert(a.spec_get(ParameterId::VelocityOutputRamp) == b.spec_get(ParameterId::VelocityOutputRamp));
    assert(a.spec_get(ParameterId::AdcReferenceVoltage) == b.spec_get(ParameterId::AdcReferenceVoltage));
    assert(a.spec_get(ParameterId::CurrentSenseGain) == b.spec_get(ParameterId::CurrentSenseGain));
    assert(a.spec_get(ParameterId::ShuntResistance) == b.spec_get(ParameterId::ShuntResistance));
    assert(a.spec_get(ParameterId::BusDividerHigh) == b.spec_get(ParameterId::BusDividerHigh));
    assert(a.spec_get(ParameterId::BusDividerLow) == b.spec_get(ParameterId::BusDividerLow));
    assert(a.spec_get(ParameterId::CurrentLimit) == b.spec_get(ParameterId::CurrentLimit));
    assert(a.spec_get(ParameterId::OverCurrentThreshold) == b.spec_get(ParameterId::OverCurrentThreshold));
    assert(a.spec_get(ParameterId::OverCurrentDebounce) == b.spec_get(ParameterId::OverCurrentDebounce));
    assert(a.spec_get(ParameterId::ResidualThreshold) == b.spec_get(ParameterId::ResidualThreshold));
    assert(a.spec_get(ParameterId::ResidualDebounce) == b.spec_get(ParameterId::ResidualDebounce));
    assert(a.spec_get(ParameterId::CellUnderVoltage) == b.spec_get(ParameterId::CellUnderVoltage));
    assert(a.spec_get(ParameterId::CellOverVoltage) == b.spec_get(ParameterId::CellOverVoltage));
    assert(a.spec_get(ParameterId::BusFilterTimeConstant) == b.spec_get(ParameterId::BusFilterTimeConstant));
    assert(a.spec_get(ParameterId::MosfetHotResistance) == b.spec_get(ParameterId::MosfetHotResistance));
    assert(a.spec_get(ParameterId::ThermalResistance) == b.spec_get(ParameterId::ThermalResistance));
    assert(a.spec_get(ParameterId::ThermalTimeConstant) == b.spec_get(ParameterId::ThermalTimeConstant));
    assert(a.spec_get(ParameterId::AmbientTemperature) == b.spec_get(ParameterId::AmbientTemperature));
    assert(a.spec_get(ParameterId::DerateTemperature) == b.spec_get(ParameterId::DerateTemperature));
    assert(a.spec_get(ParameterId::ShutdownTemperature) == b.spec_get(ParameterId::ShutdownTemperature));
    assert(a.spec_get(ParameterId::StallTargetVelocity) == b.spec_get(ParameterId::StallTargetVelocity));
    assert(a.spec_get(ParameterId::StallMaxVelocity) == b.spec_get(ParameterId::StallMaxVelocity));
    assert(a.spec_get(ParameterId::StallMinIq) == b.spec_get(ParameterId::StallMinIq));
    assert(a.spec_get(ParameterId::StallTime) == b.spec_get(ParameterId::StallTime));
    assert(a.spec_get(ParameterId::SensorFaultTime) == b.spec_get(ParameterId::SensorFaultTime));
    assert(a.spec_get(ParameterId::MaximumVelocity) == b.spec_get(ParameterId::MaximumVelocity));
    assert(a.spec_get(ParameterId::MaximumOpenLoopVelocity) == b.spec_get(ParameterId::MaximumOpenLoopVelocity));
    assert(a.spec_get(ParameterId::TemperatureSensorZeroVoltage) == b.spec_get(ParameterId::TemperatureSensorZeroVoltage));
    assert(a.spec_get(ParameterId::TemperatureSensorVoltsPerDegree) == b.spec_get(ParameterId::TemperatureSensorVoltsPerDegree));
}

/// Where a parameter's value sits in the payload: the integers in the
/// header (cell count, pole pairs and sensor direction in bytes 0 to 2,
/// encoder counts at 4, the two debounce counts at 6 and 8), then the
/// single-precision values one word each, in catalogue order.
pub open spec fn payload_offset(id: ParameterId) -> int {
    match id {
        ParameterId::BatteryCells => 0,
        ParameterId::PolePairs => 1,
        ParameterId::SensorDirection => 2,
        ParameterId::EncoderCpr => 4,
        ParameterId::OverCurrentDebounce => 6,
        ParameterId::ResidualDebounce => 8,
        _ => {
            let position = catalogue_position(id);
            let integers_before: int = if position < 22 {
                4
            } else if position < 24 {
                5
            } else {
                6
            };
            PROFILE_FLOAT_OFFSET + 4 * (position - integers_before)
        },
    }
}

/// The value of the given kind stored, little-endian, at `offset`.
pub open spec fn value_at(data: Seq<u8>, offset: int, kind: ParameterKind) -> ParameterValue {
    match kind {
        ParameterKind::U8 => ParameterValue::U8(data[offset]),
        ParameterKind::I8 => ParameterValue::I8(data[offset] as i8),
        ParameterKind::U16 => ParameterValue::U16(u16_at(data, offset)),
        ParameterKind::F32 => ParameterValue::F32(u32_at(data, offset)),
    }
}

proof fn lemma_payload_words_at(profile: ParameterProfileV1, k: int)
    requires
        0 <= k < PROFILE_FLOAT_COUNT,
    ensures
        u32_at(profile_payload(profile), PROFILE_FLOAT_OFFSET + 4 * k) == float_words(profile)[k],
{
    let words = float_words(profile);
    let data = profile_payload(profile);
    let tail = words_le(words);
    lemma_words_le_len(words);
    lemma_words_le_at(words, k);
    assert(profile_header(profile).len() == PROFILE_FLOAT_OFFSET);
    assert(data[PROFILE_FLOAT_OFFSET + 4 * k] == tail[4 * k]);
    assert(data[PROFILE_FLOAT_OFFSET + 4 * k + 1] == tail[4 * k + 1]);
    assert(data[PROFILE_FLOAT_OFFSET + 4 * k + 2] == tail[4 * k + 2]);
    assert(data[PROFILE_FLOAT_OFFSET + 4 * k + 3] == tail[4 * k + 3]);
}

/// Reading a parameter gives the value its payload holds for it: for every
/// profile and parameter, `get` is the value of the parameter's kind at
/// the parameter's place in the persisted payload, and after setting a
/// parameter that place holds the value set.
pub proof fn lemma_get_reads_the_payload(profile: ParameterProfileV1, id: ParameterId, value: ParameterValue)
    ensures
        profile.spec_get(id) == value_at(profile_payload(profile), payload_offset(id), id.value_kind()),
        kind_of_value(value) == id.value_kind() ==> value_at(
            profile_payload(profile.with_field(id, value)),
            payload_offset(id),
            id.value_kind(),
        ) == value,
{
    lemma_get_reads_the_payload_of(profile, id);
    lemma_get_reads_the_payload_of(profile.with_field(id, value), id);
    if kind_of_value(value) == id.value_kind() {
        lemma_set_reads_back(profile, id, value, id);
    }
}

proof fn lemma_get_reads_the_payload_of(profile: ParameterProfileV1, id: ParameterId)
    ensures
        profile.spec_get(id) == value_at(profile_payload(profile), payload_offset(id), id.value_kind()),
{
    let data = profile_payload(profile);
    let header = profile_header(profile);
    assert(header.len() == PROFILE_FLOAT_OFFSET);
    assert(data[0] == profile.battery_cells);
    assert(data[1] == profile.pole_pairs);
    let direction = profile.sensor_direction;
    assert(((direction as u8) as i8) == direction) by (bit_vector);
    assert(data[2] == direction as u8);
    lemma_u16_round_trip(profile.encoder_cpr);
    lemma_u16_round_trip(profile.over_current_debounce);
    lemma_u16_round_trip(profile.residual_debounce);
    assert(data.subrange(4, 6) =~= u16_le(profile.encoder_cpr));
    assert(data.subrange(6, 8) =~= u16_le(profile.over_current_debounce));
    assert(data.subrange(8, 10) =~= u16_le(profile.residual_debounce));
    assert(u16_at(data, 4) == u16_at(u16_le(profile.encoder_cpr), 0));
    assert(u16_at(data, 6) == u16_at(u16_le(profile.over_current_debounce), 0));
    assert(u16_at(data, 8) == u16_at(u16_le(profile.residual_debounce), 0));
    if id.value_kind() == ParameterKind::F32 {
        let position = catalogue_position(id);
        let k = (payload_offset(id) - PROFILE_FLOAT_OFFSET) / 4;
        match id {
            ParameterId::BatteryCells => {},
            ParameterId::PolePairs => {},
            ParameterId::SensorDirection => {},
            ParameterId::EncoderCpr => {},
            ParameterId::ElectricalZero => {},
            ParameterId::CurrentKp => {},
            ParameterId::CurrentKi => {},
            ParameterId::CurrentKd => {},
            ParameterId::CurrentOutputLimit => {},
            ParameterId::CurrentOutputRamp => {},
            ParameterId::VelocityKp => {},
            ParameterId::VelocityKi => {},
            ParameterId::VelocityKd => {},
            ParameterId::VelocityOutputLimit => {},
            ParameterId::VelocityOutputRamp => {},
            ParameterId::AdcReferenceVoltage => {},
            ParameterId::CurrentSenseGain => {},
            ParameterId::ShuntResistance => {},
            ParameterId::BusDividerHigh => {},
            ParameterId::BusDividerLow => {},
            ParameterId::CurrentLimit => {},
            ParameterId::OverCurrentThreshold => {},
            ParameterId::OverCurrentDebounce => {},
            ParameterId::ResidualThreshold => {},
            ParameterId::ResidualDebounce => {},
            ParameterId::CellUnderVoltage => {},
            ParameterId::CellOverVoltage => {},
            ParameterId::BusFilterTimeConstant => {},
            ParameterId::MosfetHotResistance => {},
            ParameterId::ThermalResistance => {},
            ParameterId::ThermalTimeConstant => {},
            ParameterId::AmbientTemperature => {},
            ParameterId::DerateTemperature => {},
            ParameterId::ShutdownTemperature => {},
            ParameterId::StallTargetVelocity => {},
            ParameterId::StallMaxVelocity => {},
            ParameterId::StallMinIq => {},
            ParameterId::StallTime => {},
            ParameterId::SensorFaultTime => {},
            ParameterId::MaximumVelocity => {},
            ParameterId::MaximumOpenLoopVelocity => {},
            ParameterId::TemperatureSensorZeroVoltage => {},
            ParameterId::TemperatureSensorVoltsPerDegree => {},
        }
        assert(payload_offset(id) == PROFILE_FLOAT_OFFSET + 4 * k);
        lemma_payload_words_at(profile, k);
    }
}

} // verus!
