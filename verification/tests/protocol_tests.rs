use foc_firmware::comm::{
    decode_can_command, decode_can_parameter_request, decode_parameter_value,
    encode_can_parameter_response, encode_can_status, encode_parameter_value, encode_word_frame,
    operation_code,
    state_code, storage_flags, CAN_CONTROL_ID, CAN_IQ_TARGET_ID, CAN_OPEN_LOOP_ID,
    CAN_PARAMETER_ACCESS_ID, CAN_PARAMETER_ACCESS_RESULT_ID, CAN_PARAMETER_OPERATION_ID,
    CAN_PARAMETER_OPERATION_RESULT_ID, CAN_STATUS_ID,
};
use foc_firmware::console::{
    parse_uart_request, word_bounds, AutoTuneAction, ParseError, UartRequest,
};
use foc_firmware::interfaces::{
    Command, ControlMode, FaultFlags, MotorState, ParameterAction, ParameterRequest,
    ParameterResponse, ParameterResultCode, ParameterRoute, ParameterStorageStatus, PidBits,
};
use foc_firmware::parameters::{ParameterId, ParameterValue};

/// Reads a console line the way the firmware does: each word that parses
/// as a finite `f32` is handed over as its encoding.
fn parse(line: &str) -> Result<UartRequest, ParseError> {
    let floats: Vec<Option<u32>> = word_bounds(line.as_bytes())
        .iter()
        .map(|&(from, to)| {
            line[from..to]
                .parse::<f32>()
                .ok()
                .filter(|value| value.is_finite())
                .map(f32::to_bits)
        })
        .collect();
    parse_uart_request(line, &floats)
}

#[test]
fn parses_uart_commands() {
    assert_eq!(
        parse("enable current"),
        Ok(UartRequest::Command(Command::Enable(ControlMode::Current)))
    );
    assert_eq!(
        parse("open 12.5 3.0"),
        Ok(UartRequest::Command(Command::SetOpenLoop {
            electrical_velocity: 12.5f32.to_bits(),
            q_voltage: 3.0f32.to_bits(),
        }))
    );
    assert_eq!(parse("status"), Ok(UartRequest::Status));
    assert_eq!(parse("iq nan"), Err(ParseError::InvalidArgument));
}

#[test]
fn parses_autotune_requests() {
    assert_eq!(parse("autotune start"), Ok(UartRequest::AutoTune(AutoTuneAction::Start)));
    assert_eq!(parse("autotune stop"), Ok(UartRequest::AutoTune(AutoTuneAction::Stop)));
    assert_eq!(parse("autotune status"), Ok(UartRequest::AutoTune(AutoTuneAction::Status)));
    assert_eq!(parse("autotune"), Err(ParseError::MissingArgument));
    assert_eq!(parse("autotune reboot"), Err(ParseError::InvalidArgument));
}

#[test]
fn decodes_can_commands() {
    assert_eq!(
        decode_can_command(CAN_CONTROL_ID, &[4]),
        Some(Command::Enable(ControlMode::Velocity))
    );
    assert_eq!(
        decode_can_command(CAN_IQ_TARGET_ID, &12.5f32.to_le_bytes()),
        Some(Command::SetIq(12.5f32.to_bits()))
    );
    assert_eq!(decode_can_command(CAN_OPEN_LOOP_ID, &[0; 4]), None);
    assert_eq!(decode_can_command(CAN_CONTROL_ID, &[0, 0]), None);
    assert_eq!(decode_can_command(CAN_IQ_TARGET_ID, &[0, 0, 0, 0, 0]), None);
}

#[test]
fn parses_uart_parameter_requests_with_declared_types() {
    assert_eq!(
        parse("param get current-kp"),
        Ok(UartRequest::Parameter(ParameterAction::Get(ParameterId::CurrentKp)))
    );
    assert_eq!(
        parse("param set battery-cells 4"),
        Ok(UartRequest::Parameter(ParameterAction::SetValue(
            ParameterId::BatteryCells,
            ParameterValue::U8(4),
        )))
    );
    assert_eq!(
        parse("param set sensor-direction -1"),
        Ok(UartRequest::Parameter(ParameterAction::SetValue(
            ParameterId::SensorDirection,
            ParameterValue::I8(-1),
        )))
    );
    assert_eq!(parse("param show"), Ok(UartRequest::ParameterShow));
    assert_eq!(parse("param set current-kp inf"), Err(ParseError::InvalidArgument));
}

#[test]
fn decodes_strict_can_parameter_frames() {
    assert_eq!(
        decode_can_parameter_request(CAN_PARAMETER_OPERATION_ID, &[7, 1, 0, 0, 0, 0, 0, 0]),
        Some(ParameterRequest {
            route: ParameterRoute::Can {
                transaction: 7,
                request_id: CAN_PARAMETER_OPERATION_ID,
                request_data: [7, 1, 0, 0, 0, 0, 0, 0],
            },
            action: ParameterAction::Save,
        })
    );
    let mut set = [0u8; 8];
    set[0] = 8;
    set[1] = 1;
    set[2] = ParameterId::CurrentKp.raw();
    set[4..8].copy_from_slice(&0.25f32.to_le_bytes());
    assert_eq!(
        decode_can_parameter_request(CAN_PARAMETER_ACCESS_ID, &set),
        Some(ParameterRequest {
            route: ParameterRoute::Can {
                transaction: 8,
                request_id: CAN_PARAMETER_ACCESS_ID,
                request_data: set,
            },
            action: ParameterAction::SetValue(
                ParameterId::CurrentKp,
                ParameterValue::F32(0.25f32.to_bits()),
            ),
        })
    );
    set[3] = 1;
    assert_eq!(decode_can_parameter_request(CAN_PARAMETER_ACCESS_ID, &set), None);
    assert_eq!(decode_can_parameter_request(CAN_PARAMETER_OPERATION_ID, &[0; 7]), None);
}

#[test]
fn encodes_can_parameter_results() {
    let response = ParameterResponse {
        route: ParameterRoute::Can {
            transaction: 9,
            request_id: CAN_PARAMETER_ACCESS_ID,
            request_data: [0; 8],
        },
        action: ParameterAction::Get(ParameterId::EncoderCpr),
        result: ParameterResultCode::Success,
        value: Some(ParameterValue::U16(4_096)),
        storage: ParameterStorageStatus {
            persisted_valid: true,
            generation: 12,
            restart_required: true,
            ..ParameterStorageStatus::default()
        },
    };
    let (id, data) = encode_can_parameter_response(&response).unwrap();
    assert_eq!(id, CAN_PARAMETER_ACCESS_RESULT_ID);
    assert_eq!(data, [9, 0, 4, 0x80, 0x00, 0x10, 0, 0]);

    let operation = ParameterResponse {
        route: ParameterRoute::Can {
            transaction: 10,
            request_id: CAN_PARAMETER_OPERATION_ID,
            request_data: [0; 8],
        },
        action: ParameterAction::Save,
        result: ParameterResultCode::Unchanged,
        value: None,
        storage: ParameterStorageStatus {
            persisted_valid: true,
            generation: 12,
            dirty: false,
            ..ParameterStorageStatus::default()
        },
    };
    let (id, data) = encode_can_parameter_response(&operation).unwrap();
    assert_eq!(id, CAN_PARAMETER_OPERATION_RESULT_ID);
    assert_eq!(data, [10, 1, 1, 1, 12, 0, 0, 0]);
}

#[test]
fn can_status_exposes_fault_state_and_bitmap() {
    let mut faults = FaultFlags::empty();
    faults.insert(FaultFlags::over_current());
    faults.insert(FaultFlags::sensor());
    let data = encode_can_status(MotorState::Fault, faults, false, 0x1234);
    let bitmap = u32::from_le_bytes(data[1..5].try_into().unwrap());

    assert_eq!(data.len(), 8);
    assert_eq!(data[0], 5);
    assert_eq!(bitmap, faults.bits());
    assert_eq!(data[5], 0);
    assert_eq!(u16::from_le_bytes([data[6], data[7]]), 0x1234);
    assert_eq!(CAN_STATUS_ID, 0x180);
}

#[test]
fn uart_and_can_clear_fault_commands_are_decodable() {
    assert_eq!(parse("clear-fault"), Ok(UartRequest::Command(Command::ClearFault)));
    assert_eq!(parse("status"), Ok(UartRequest::Status));
    assert_eq!(decode_can_command(CAN_CONTROL_ID, &[1]), Some(Command::ClearFault));
}

#[test]
fn console_errors_name_what_went_wrong() {
    assert_eq!(parse(""), Err(ParseError::Empty));
    assert_eq!(parse(" \t\r\n"), Err(ParseError::Empty));
    assert_eq!(parse("reboot"), Err(ParseError::Unknown));
    assert_eq!(parse("enable"), Err(ParseError::MissingArgument));
    assert_eq!(parse("enable unknown"), Err(ParseError::InvalidArgument));
    assert_eq!(parse("status now"), Err(ParseError::ExtraArgument));
    assert_eq!(parse("cells 256"), Err(ParseError::InvalidArgument));
    assert_eq!(parse("cells -1"), Err(ParseError::InvalidArgument));
    assert_eq!(parse("cells +4"), Ok(UartRequest::Command(Command::SetCellCount(4))));
    assert_eq!(parse("open 1.0"), Err(ParseError::MissingArgument));
    assert_eq!(parse("param"), Err(ParseError::MissingArgument));
    assert_eq!(parse("param get"), Err(ParseError::MissingArgument));
    assert_eq!(parse("param get no-such-parameter"), Err(ParseError::InvalidArgument));
    assert_eq!(parse("param set battery-cells"), Err(ParseError::MissingArgument));
    assert_eq!(parse("param set sensor-direction -129"), Err(ParseError::InvalidArgument));
    assert_eq!(
        parse("param set sensor-direction -128"),
        Ok(UartRequest::Parameter(ParameterAction::SetValue(
            ParameterId::SensorDirection,
            ParameterValue::I8(-128),
        )))
    );
    assert_eq!(
        parse("param set encoder-cpr 65535"),
        Ok(UartRequest::Parameter(ParameterAction::SetValue(
            ParameterId::EncoderCpr,
            ParameterValue::U16(65535),
        )))
    );
    assert_eq!(parse("param set encoder-cpr 65536"), Err(ParseError::InvalidArgument));
    assert_eq!(parse("param save extra"), Err(ParseError::ExtraArgument));
}

#[test]
fn console_reads_every_command() {
    assert_eq!(parse("mode open"), Ok(UartRequest::Command(Command::Enable(ControlMode::OpenLoop))));
    assert_eq!(parse("  disable  "), Ok(UartRequest::Command(Command::Disable)));
    assert_eq!(parse("clear"), Ok(UartRequest::Command(Command::ClearFault)));
    assert_eq!(
        parse("velocity -3.5"),
        Ok(UartRequest::Command(Command::SetVelocity((-3.5f32).to_bits())))
    );
    assert_eq!(
        parse("zero 1.25"),
        Ok(UartRequest::Command(Command::SetElectricalZero(1.25f32.to_bits())))
    );
    assert_eq!(
        parse("current-pid 1 2 3 4 5"),
        Ok(UartRequest::Command(Command::SetCurrentPid(PidBits {
            kp: 1.0f32.to_bits(),
            ki: 2.0f32.to_bits(),
            kd: 3.0f32.to_bits(),
            output_limit: 4.0f32.to_bits(),
            output_ramp: 5.0f32.to_bits(),
        })))
    );
    assert_eq!(parse("velocity-pid 1 2 3 4"), Err(ParseError::MissingArgument));
    assert_eq!(parse("velocity-pid 1 2 x 4"), Err(ParseError::InvalidArgument));
    assert_eq!(parse("param status"), Ok(UartRequest::Parameter(ParameterAction::Status)));
    assert_eq!(parse("param load"), Ok(UartRequest::Parameter(ParameterAction::Load)));
    assert_eq!(parse("param defaults"), Ok(UartRequest::Parameter(ParameterAction::Defaults)));
    assert_eq!(
        parse("param factory-reset"),
        Ok(UartRequest::Parameter(ParameterAction::FactoryReset))
    );
}

#[test]
fn word_bounds_mark_each_word() {
    assert_eq!(word_bounds(b"  iq\t12.5 \r\n"), vec![(2, 4), (5, 9)]);
    assert_eq!(word_bounds(b""), Vec::<(usize, usize)>::new());
}

#[test]
fn can_control_frames_cover_every_code() {
    assert_eq!(decode_can_command(CAN_CONTROL_ID, &[0]), Some(Command::Disable));
    assert_eq!(
        decode_can_command(CAN_CONTROL_ID, &[2]),
        Some(Command::Enable(ControlMode::OpenLoop))
    );
    assert_eq!(
        decode_can_command(CAN_CONTROL_ID, &[3]),
        Some(Command::Enable(ControlMode::Current))
    );
    assert_eq!(decode_can_command(CAN_CONTROL_ID, &[5]), None);
    assert_eq!(decode_can_command(0x104, &[3]), Some(Command::SetCellCount(3)));
    assert_eq!(decode_can_command(0x102, &f32::INFINITY.to_le_bytes()), None);
    let mut open = [0u8; 8];
    open[..4].copy_from_slice(&1.5f32.to_le_bytes());
    open[4..].copy_from_slice(&2.0f32.to_le_bytes());
    assert_eq!(
        decode_can_command(CAN_OPEN_LOOP_ID, &open),
        Some(Command::SetOpenLoop {
            electrical_velocity: 1.5f32.to_bits(),
            q_voltage: 2.0f32.to_bits(),
        })
    );
    assert_eq!(decode_can_command(0x1ff, &[0]), None);
}

#[test]
fn parameter_values_round_trip_through_frame_bytes() {
    for (parameter, value) in [
        (ParameterId::BatteryCells, ParameterValue::U8(5)),
        (ParameterId::SensorDirection, ParameterValue::I8(-1)),
        (ParameterId::EncoderCpr, ParameterValue::U16(8_192)),
        (ParameterId::CurrentKp, ParameterValue::F32(0.5f32.to_bits())),
    ] {
        let bytes = encode_parameter_value(value);
        assert_eq!(decode_parameter_value(parameter, &bytes), Some(value));
    }
    assert_eq!(encode_parameter_value(ParameterValue::I8(-1)), [0xff, 0, 0, 0]);
    assert_eq!(decode_parameter_value(ParameterId::BatteryCells, &[5, 1, 0, 0]), None);
    assert_eq!(decode_parameter_value(ParameterId::CurrentKp, &f32::NAN.to_le_bytes()), None);
}

#[test]
fn storage_flags_and_codes_pack_as_documented() {
    let status = ParameterStorageStatus {
        persisted_valid: true,
        source_defaults: true,
        generation: 0,
        dirty: false,
        restart_required: true,
    };
    assert_eq!(storage_flags(status), 0b1101);
    assert_eq!(operation_code(ParameterAction::FactoryReset), Some(4));
    assert_eq!(operation_code(ParameterAction::Get(ParameterId::PolePairs)), None);
    assert_eq!(state_code(MotorState::Running(ControlMode::Velocity)), 4);
    assert_eq!(state_code(MotorState::Running(ControlMode::Idle)), 1);
}

#[test]
fn uart_responses_have_no_can_frame() {
    let response = ParameterResponse {
        route: ParameterRoute::Uart,
        action: ParameterAction::Status,
        result: ParameterResultCode::Success,
        value: None,
        storage: ParameterStorageStatus::default(),
    };
    assert_eq!(encode_can_parameter_response(&response), None);
}

#[test]
fn telemetry_word_frames_are_little_endian() {
    let data = encode_word_frame([125, (-250i16) as u16, 75, 300]);
    assert_eq!(i16::from_le_bytes([data[0], data[1]]), 125);
    assert_eq!(i16::from_le_bytes([data[2], data[3]]), -250);
    assert_eq!(i16::from_le_bytes([data[4], data[5]]), 75);
    assert_eq!(i16::from_le_bytes([data[6], data[7]]), 300);
    assert_eq!(data, [0x7d, 0x00, 0x06, 0xff, 0x4b, 0x00, 0x2c, 0x01]);
}
