//! The CAN protocol: command frames, parameter request and result frames,
//! and the status frame of the telemetry stream.

use vstd::prelude::*;
use crate::bytes::{u16_at, u16_le, u32_at, u32_le, lemma_u16_round_trip, lemma_u32_round_trip};
use crate::interfaces::{
    Command, ControlMode, FaultFlags, MotorState, ParameterAction, ParameterRequest,
    ParameterResponse, ParameterRoute, ParameterStorageStatus,
};
use crate::parameters::{kind_of_value, parameter_with_code, ParameterId, ParameterKind, ParameterValue};

verus! {

pub const CAN_CONTROL_ID: u16 = 0x100;
pub const CAN_IQ_TARGET_ID: u16 = 0x101;
pub const CAN_VELOCITY_TARGET_ID: u16 = 0x102;
pub const CAN_OPEN_LOOP_ID: u16 = 0x103;
pub const CAN_CELL_COUNT_ID: u16 = 0x104;
pub const CAN_ELECTRICAL_ZERO_ID: u16 = 0x105;
pub const CAN_PARAMETER_OPERATION_ID: u16 = 0x106;
pub const CAN_PARAMETER_ACCESS_ID: u16 = 0x107;
pub const CAN_STATUS_ID: u16 = 0x180;
pub const CAN_CURRENTS_ID: u16 = 0x181;
pub const CAN_MOTION_ID: u16 = 0x182;
pub const CAN_PARAMETER_OPERATION_RESULT_ID: u16 = 0x183;
pub const CAN_PARAMETER_ACCESS_RESULT_ID: u16 = 0x184;

/// An IEEE-754 binary32 encoding whose exponent is not all ones, that is,
/// one of a finite number.
pub open spec fn finite_bits(bits: u32) -> bool {
    bits & 0x7f80_0000u32 != 0x7f80_0000u32
}

/// Whether a binary32 encoding is that of a finite number.
pub fn is_finite_bits(bits: u32) -> (finite: bool)
    ensures
        finite == finite_bits(bits),
{
    bits & 0x7f80_0000 != 0x7f80_0000
}

/// The finite single-precision value stored little-endian at `at`, if the
/// four bytes are there and encode a finite number.
pub open spec fn finite_at(data: Seq<u8>, at: int) -> Option<u32> {
    if 0 <= at && at + 4 <= data.len() && finite_bits(u32_at(data, at)) {
        Some(u32_at(data, at))
    } else {
        None
    }
}

fn read_finite(data: &[u8], at: usize) -> (bits: Option<u32>)
    ensures
        bits == finite_at(data@, at as int),
{
    if data.len() < 4 || at > data.len() - 4 {
        return None;
    }
    let bits = (data[at] as u32) | ((data[at + 1] as u32) << 8) | ((data[at + 2] as u32) << 16)
        | ((data[at + 3] as u32) << 24);
    if is_finite_bits(bits) {
        Some(bits)
    } else {
        None
    }
}

/// The command carried by a frame with the given identifier and payload.
pub open spec fn can_command_of(id: u16, data: Seq<u8>) -> Option<Command> {
    if id == CAN_CONTROL_ID {
        if data.len() != 1 {
            None
        } else if data[0] == 0 {
            Some(Command::Disable)
        } else if data[0] == 1 {
            Some(Command::ClearFault)
        } else if data[0] == 2 {
            Some(Command::Enable(ControlMode::OpenLoop))
        } else if data[0] == 3 {
            Some(Command::Enable(ControlMode::Current))
        } else if data[0] == 4 {
            Some(Command::Enable(ControlMode::Velocity))
        } else {
            None
        }
    } else if id == CAN_CELL_COUNT_ID {
        if data.len() == 1 {
            Some(Command::SetCellCount(data[0]))
        } else {
            None
        }
    } else if id == CAN_IQ_TARGET_ID || id == CAN_VELOCITY_TARGET_ID || id
        == CAN_ELECTRICAL_ZERO_ID {
        if data.len() != 4 {
            None
        } else {
            match finite_at(data, 0) {
                Some(value) => Some(
                    if id == CAN_IQ_TARGET_ID {
                        Command::SetIq(value)
                    } else if id == CAN_VELOCITY_TARGET_ID {
                        Command::SetVelocity(value)
                    } else {
                        Command::SetElectricalZero(value)
                    },
                ),
                None => None,
            }
        }
    } else if id == CAN_OPEN_LOOP_ID {
        if data.len() != 8 {
            None
        } else {
            match (finite_at(data, 0), finite_at(data, 4)) {
                (Some(velocity), Some(voltage)) => Some(
                    Command::SetOpenLoop { electrical_velocity: velocity, q_voltage: voltage },
                ),
                _ => None,
            }
        }
    } else {
        None
    }
}

/// Decodes a command frame: the payload length must be exactly the one of
/// the identifier, and single-precision arguments must be finite.
pub fn decode_can_command(id: u16, data: &[u8]) -> (command: Option<Command>)
    ensures
        command == can_command_of(id, data@),
{
    let expected_length: usize = if id == CAN_CONTROL_ID || id == CAN_CELL_COUNT_ID {
        1
    } else if id == CAN_IQ_TARGET_ID || id == CAN_VELOCITY_TARGET_ID || id
        == CAN_ELECTRICAL_ZERO_ID {
        4
    } else if id == CAN_OPEN_LOOP_ID {
        8
    } else {
        return None;
    };
    if data.len() != expected_length {
        return None;
    }
    if id == CAN_CONTROL_ID {
        match data[0] {
            0 => Some(Command::Disable),
            1 => Some(Command::ClearFault),
            2 => Some(Command::Enable(ControlMode::OpenLoop)),
            3 => Some(Command::Enable(ControlMode::Current)),
            4 => Some(Command::Enable(ControlMode::Velocity)),
            _ => None,
        }
    } else if id == CAN_IQ_TARGET_ID {
        match read_finite(data, 0) {
            Some(value) => Some(Command::SetIq(value)),
            None => None,
        }
    } else if id == CAN_VELOCITY_TARGET_ID {
        match read_finite(data, 0) {
            Some(value) => Some(Command::SetVelocity(value)),
            None => None,
        }
    } else if id == CAN_OPEN_LOOP_ID {
        let velocity = read_finite(data, 0);
        let voltage = read_finite(data, 4);
        match (velocity, voltage) {
            (Some(electrical_velocity), Some(q_voltage)) => Some(
                Command::SetOpenLoop { electrical_velocity, q_voltage },
            ),
            _ => None,
        }
    } else if id == CAN_CELL_COUNT_ID {
        Some(Command::SetCellCount(data[0]))
    } else {
        match read_finite(data, 0) {
            Some(value) => Some(Command::SetElectricalZero(value)),
            None => None,
        }
    }
}

/// The four value bytes of a parameter access frame.
pub open spec fn value_bytes(value: ParameterValue) -> Seq<u8> {
    match value {
        ParameterValue::U8(v) => seq![v, 0u8, 0u8, 0u8],
        ParameterValue::I8(v) => seq![v as u8, 0u8, 0u8, 0u8],
        ParameterValue::U16(v) => u16_le(v) + seq![0u8, 0u8],
        ParameterValue::F32(bits) => u32_le(bits),
    }
}

/// The value of the given kind that four value bytes carry: integer values
/// must leave their unused high bytes zero, single-precision values must be
/// finite.
pub open spec fn value_of_bytes(kind: ParameterKind, bytes: Seq<u8>) -> Option<ParameterValue> {
    if bytes.len() != 4 {
        None
    } else {
        match kind {
            ParameterKind::U8 => if bytes[1] == 0 && bytes[2] == 0 && bytes[3] == 0 {
                Some(ParameterValue::U8(bytes[0]))
            } else {
                None
            },
            ParameterKind::I8 => if bytes[1] == 0 && bytes[2] == 0 && bytes[3] == 0 {
                Some(ParameterValue::I8(bytes[0] as i8))
            } else {
                None
            },
            ParameterKind::U16 => if bytes[2] == 0 && bytes[3] == 0 {
                Some(ParameterValue::U16(u16_at(bytes, 0)))
            } else {
                None
            },
            ParameterKind::F32 => match finite_at(bytes, 0) {
                Some(bits) => Some(ParameterValue::F32(bits)),
                None => None,
            },
        }
    }
}

/// A value that can travel in an access frame: single-precision values
/// must be finite.
pub open spec fn sendable_value(value: ParameterValue) -> bool {
    match value {
        ParameterValue::F32(bits) => finite_bits(bits),
        _ => true,
    }
}

/// Encodes a value into the four value bytes of an access frame.
pub fn encode_parameter_value(value: ParameterValue) -> (bytes: [u8; 4])
    ensures
        bytes@ == value_bytes(value),
{
    let bytes: [u8; 4] = match value {
        ParameterValue::U8(v) => [v, 0, 0, 0],
        ParameterValue::I8(v) => [v as u8, 0, 0, 0],
        ParameterValue::U16(v) => [(v & 0xff) as u8, (v >> 8) as u8, 0, 0],
        ParameterValue::F32(bits) => [
            (bits & 0xff) as u8,
            ((bits >> 8) & 0xff) as u8,
            ((bits >> 16) & 0xff) as u8,
            (bits >> 24) as u8,
        ],
    };
    assert(bytes@ =~= value_bytes(value));
    bytes
}

/// Decodes the four value bytes of an access frame as a value of the
/// parameter's kind.
pub fn decode_parameter_value(parameter: ParameterId, data: &[u8]) -> (value: Option<ParameterValue>)
    ensures
        value == value_of_bytes(parameter.value_kind(), data@),
{
    if data.len() != 4 {
        return None;
    }
    match parameter.kind() {
        ParameterKind::U8 => if data[1] == 0 && data[2] == 0 && data[3] == 0 {
            Some(ParameterValue::U8(data[0]))
        } else {
            None
        },
        ParameterKind::I8 => if data[1] == 0 && data[2] == 0 && data[3] == 0 {
            Some(ParameterValue::I8(data[0] as i8))
        } else {
            None
        },
        ParameterKind::U16 => if data[2] == 0 && data[3] == 0 {
            Some(ParameterValue::U16((data[0] as u16) | ((data[1] as u16) << 8)))
        } else {
            None
        },
        ParameterKind::F32 => match read_finite(data, 0) {
            Some(bits) => Some(ParameterValue::F32(bits)),
            None => None,
        },
    }
}

/// A value of the parameter's kind that can be sent is read back from its
/// bytes unchanged, and bytes that decode to a value are exactly that
/// value's bytes.
pub proof fn lemma_parameter_value_round_trip(kind: ParameterKind, value: ParameterValue, bytes: Seq<u8>)
    ensures
        kind_of_value(value) == kind && sendable_value(value) ==> value_of_bytes(kind, value_bytes(value))
            == Some(value),
        value_of_bytes(kind, bytes) == Some(value) ==> value_bytes(value) == bytes
            && kind_of_value(value) == kind && sendable_value(value),
{
    match value {
        ParameterValue::U8(v) => {},
        ParameterValue::I8(v) => {
            assert(((v as u8) as i8) == v) by (bit_vector);
            if value_of_bytes(kind, bytes) == Some(value) {
                let b = bytes[0];
                assert(b as i8 == v);
                assert(((b as i8) as u8) == b) by (bit_vector);
                assert(value_bytes(value) =~= bytes);
            }
        },
        ParameterValue::U16(v) => {
            lemma_u16_round_trip(v);
            assert((u16_le(v) + seq![0u8, 0u8]).subrange(0, 2) =~= u16_le(v));
            if value_of_bytes(kind, bytes) == Some(value) {
                let b0 = bytes[0];
                let b1 = bytes[1];
                assert(((v & 0xff) as u8) == b0 && ((v >> 8u16) as u8) == b1) by (bit_vector)
                    requires
                        v == (b0 as u16) | ((b1 as u16) << 8u16),
                ;
                assert(value_bytes(value) =~= bytes);
            }
        },
        ParameterValue::F32(bits) => {
            lemma_u32_round_trip(bits);
            if value_of_bytes(kind, bytes) == Some(value) {
                crate::bytes::lemma_u32_bytes_determined(bytes, 0);
                assert(bytes.subrange(0, 4) =~= bytes);
            }
        },
    }
}

/// Every byte of `data` in `from..to` is zero.
pub open spec fn all_zero(data: Seq<u8>, from: int, to: int) -> bool {
    forall|i: int| from <= i < to ==> data[i] == 0
}

fn zero_from(data: &[u8], from: usize) -> (zero: bool)
    requires
        from <= data@.len(),
    ensures
        zero == all_zero(data@, from as int, data@.len() as int),
{
    let mut index = from;
    while index < data.len()
        invariant
            from <= index <= data@.len(),
            all_zero(data@, from as int, index as int),
        decreases data@.len() - index,
    {
        if data[index] != 0 {
            return false;
        }
        index += 1;
    }
    true
}

/// The parameter action that a request frame with the given identifier
/// and payload asks for. Operation frames leave bytes 2 to 7 zero; access
/// frames name a known parameter in byte 2 and leave byte 3 zero, a read
/// leaves the value bytes zero and a write carries a value of the
/// parameter's kind.
pub open spec fn can_parameter_action_of(id: u16, data: Seq<u8>) -> Option<ParameterAction> {
    if data.len() != 8 {
        None
    } else if id == CAN_PARAMETER_OPERATION_ID {
        if !all_zero(data, 2, 8) {
            None
        } else if data[1] == 0 {
            Some(ParameterAction::Status)
        } else if data[1] == 1 {
            Some(ParameterAction::Save)
        } else if data[1] == 2 {
            Some(ParameterAction::Load)
        } else if data[1] == 3 {
            Some(ParameterAction::Defaults)
        } else if data[1] == 4 {
            Some(ParameterAction::FactoryReset)
        } else {
            None
        }
    } else if id == CAN_PARAMETER_ACCESS_ID {
        match parameter_with_code(data[2]) {
            None => None,
            Some(parameter) => if data[3] != 0 {
                None
            } else if data[1] == 0 {
                if all_zero(data, 4, 8) {
                    Some(ParameterAction::Get(parameter))
                } else {
                    None
                }
            } else if data[1] == 1 {
                match value_of_bytes(parameter.value_kind(), data.subrange(4, 8)) {
                    Some(value) => Some(ParameterAction::SetValue(parameter, value)),
                    None => None,
                }
            } else {
                None
            },
        }
    } else {
        None
    }
}

/// Decodes a parameter request frame. The request is answered on the CAN
/// route, which keeps the transaction byte, the identifier and the whole
/// payload of the frame.
pub fn decode_can_parameter_request(id: u16, data: &[u8]) -> (request: Option<ParameterRequest>)
    ensures
        match request {
            Some(request) => {
                &&& can_parameter_action_of(id, data@) == Some(request.action)
                &&& request.route matches ParameterRoute::Can { transaction, request_id, request_data }
                &&& transaction == data@[0]
                &&& request_id == id
                &&& request_data@ == data@
            },
            None => can_parameter_action_of(id, data@) is None,
        },
{
    if data.len() != 8 {
        return None;
    }
    let request_data: [u8; 8] = [
        data[0],
        data[1],
        data[2],
        data[3],
        data[4],
        data[5],
        data[6],
        data[7],
    ];
    assert(request_data@ =~= data@);
    let route = ParameterRoute::Can { transaction: data[0], request_id: id, request_data };
    let action = if id == CAN_PARAMETER_OPERATION_ID {
        if !zero_from(data, 2) {
            return None;
        }
        match data[1] {
            0 => ParameterAction::Status,
            1 => ParameterAction::Save,
            2 => ParameterAction::Load,
            3 => ParameterAction::Defaults,
            4 => ParameterAction::FactoryReset,
            _ => {
                return None;
            },
        }
    } else if id == CAN_PARAMETER_ACCESS_ID {
        let parameter = match ParameterId::from_raw(data[2]) {
            Some(parameter) => parameter,
            None => {
                return None;
            },
        };
        if data[3] != 0 {
            return None;
        }
        if data[1] == 0 {
            if !zero_from(data, 4) {
                return None;
            }
            ParameterAction::Get(parameter)
        } else if data[1] == 1 {
            let value_data: [u8; 4] = [data[4], data[5], data[6], data[7]];
            assert(value_data@ =~= data@.subrange(4, 8));
            match decode_parameter_value(parameter, value_data.as_slice()) {
                Some(value) => ParameterAction::SetValue(parameter, value),
                None => {
                    return None;
                },
            }
        } else {
            return None;
        }
    } else {
        return None;
    };
    Some(ParameterRequest { route, action })
}

/// The operation code of a storage action.
pub open spec fn operation_code_of(action: ParameterAction) -> Option<u8> {
    match action {
        ParameterAction::Status => Some(0),
        ParameterAction::Save => Some(1),
        ParameterAction::Load => Some(2),
        ParameterAction::Defaults => Some(3),
        ParameterAction::FactoryReset => Some(4),
        _ => None,
    }
}

/// The operation code of a storage action; parameter reads and writes
/// have none.
pub fn operation_code(action: ParameterAction) -> (code: Option<u8>)
    ensures
        code == operation_code_of(action),
{
    match action {
        ParameterAction::Status => Some(0),
        ParameterAction::Save => Some(1),
        ParameterAction::Load => Some(2),
        ParameterAction::Defaults => Some(3),
        ParameterAction::FactoryReset => Some(4),
        _ => None,
    }
}

/// The storage flags byte: bit 0 a valid record is persisted, bit 1 the
/// live set differs from it, bit 2 a restart is required, bit 3 the live
/// set came from the defaults.
pub open spec fn storage_flag_bits(status: ParameterStorageStatus) -> u8 {
    ((if status.persisted_valid { 1int } else { 0int }) + (if status.dirty { 2int } else { 0int })
        + (if status.restart_required { 4int } else { 0int }) + (if status.source_defaults {
        8int
    } else {
        0int
    })) as u8
}

/// Packs the storage status into its flags byte.
pub fn storage_flags(status: ParameterStorageStatus) -> (flags: u8)
    ensures
        flags == storage_flag_bits(status),
{
    let mut flags: u8 = 0;
    if status.persisted_valid {
        flags = flags + 1;
    }
    if status.dirty {
        flags = flags + 2;
    }
    if status.restart_required {
        flags = flags + 4;
    }
    if status.source_defaults {
        flags = flags + 8;
    }
    flags
}

/// The result byte of an access result frame: the result code, with the
/// top bit set when the change needs a restart.
pub open spec fn access_status_byte(response: ParameterResponse) -> u8 {
    if response.storage.restart_required {
        (response.result.spec_code() + 0x80) as u8
    } else {
        response.result.spec_code()
    }
}

/// The value bytes of a result frame; zero when there is no value.
pub open spec fn value_field(value: Option<ParameterValue>) -> Seq<u8> {
    match value {
        Some(value) => value_bytes(value),
        None => seq![0u8, 0u8, 0u8, 0u8],
    }
}

/// The result frame that answers a parameter request received over CAN:
/// an access result for reads and writes, an operation result (with the
/// storage flags and the stored generation) for the storage actions.
pub open spec fn can_result_frame(response: ParameterResponse) -> Option<(u16, Seq<u8>)> {
    match response.route {
        ParameterRoute::Uart => None,
        ParameterRoute::Can { transaction, .. } => match response.action {
            ParameterAction::Get(parameter) => Some(
                (
                    CAN_PARAMETER_ACCESS_RESULT_ID,
                    seq![transaction, 0u8, parameter.code(), access_status_byte(response)]
                        + value_field(response.value),
                ),
            ),
            ParameterAction::SetValue(parameter, _) => Some(
                (
                    CAN_PARAMETER_ACCESS_RESULT_ID,
                    seq![transaction, 1u8, parameter.code(), access_status_byte(response)]
                        + value_field(response.value),
                ),
            ),
            other => match operation_code_of(other) {
                Some(code) => Some(
                    (
                        CAN_PARAMETER_OPERATION_RESULT_ID,
                        seq![
                            transaction,
                            code,
                            response.result.spec_code(),
                            storage_flag_bits(response.storage),
                        ] + u32_le(response.storage.generation),
                    ),
                ),
                None => None,
            },
        },
    }
}

/// Encodes the answer to a CAN parameter request; answers to UART
/// requests have no frame.
pub fn encode_can_parameter_response(response: &ParameterResponse) -> (frame: Option<(u16, [u8; 8])>)
    ensures
        match frame {
            Some((id, data)) => can_result_frame(*response) == Some((id, data@)),
            None => can_result_frame(*response) is None,
        },
{
    let transaction = match response.route {
        ParameterRoute::Can { transaction, .. } => transaction,
        ParameterRoute::Uart => {
            return None;
        },
    };
    match response.action {
        ParameterAction::Get(parameter) | ParameterAction::SetValue(parameter, _) => {
            let write: u8 = match response.action {
                ParameterAction::SetValue(_, _) => 1,
                _ => 0,
            };
            let code = response.result.code();
            let status: u8 = if response.storage.restart_required {
                code + 0x80
            } else {
                code
            };
            let value: [u8; 4] = match response.value {
                Some(value) => encode_parameter_value(value),
                None => [0, 0, 0, 0],
            };
            let data: [u8; 8] = [
                transaction,
                write,
                parameter.raw(),
                status,
                value[0],
                value[1],
                value[2],
                value[3],
            ];
            assert(data@ =~= seq![transaction, write, parameter.code(), status] + value@);
            assert(value@ == value_field(response.value));
            Some((CAN_PARAMETER_ACCESS_RESULT_ID, data))
        },
        action => {
            let code = match operation_code(action) {
                Some(code) => code,
                None => {
                    return None;
                },
            };
            let generation = response.storage.generation;
            let data: [u8; 8] = [
                transaction,
                code,
                response.result.code(),
                storage_flags(response.storage),
                (generation & 0xff) as u8,
                ((generation >> 8) & 0xff) as u8,
                ((generation >> 16) & 0xff) as u8,
                (generation >> 24) as u8,
            ];
            assert(data@ =~= seq![
                transaction,
                code,
                response.result.spec_code(),
                storage_flag_bits(response.storage),
            ] + u32_le(generation));
            Some((CAN_PARAMETER_OPERATION_RESULT_ID, data))
        },
    }
}

/// The state byte of the status frame.
pub open spec fn state_code_of(state: MotorState) -> u8 {
    match state {
        MotorState::Calibrating => 0,
        MotorState::Idle => 1,
        MotorState::Running(ControlMode::OpenLoop) => 2,
        MotorState::Running(ControlMode::Current) => 3,
        MotorState::Running(ControlMode::Velocity) => 4,
        MotorState::Running(ControlMode::Idle) => 1,
        MotorState::Fault => 5,
    }
}

/// The state byte of the status frame.
pub fn state_code(state: MotorState) -> (code: u8)
    ensures
        code == state_code_of(state),
{
    match state {
        MotorState::Calibrating => 0,
        MotorState::Idle => 1,
        MotorState::Running(ControlMode::OpenLoop) => 2,
        MotorState::Running(ControlMode::Current) => 3,
        MotorState::Running(ControlMode::Velocity) => 4,
        MotorState::Running(ControlMode::Idle) => 1,
        MotorState::Fault => 5,
    }
}

/// The status frame: state byte, fault bits little-endian, sensor-valid
/// byte, and the low 16 bits of the telemetry sequence little-endian.
pub open spec fn status_frame(state: MotorState, faults: FaultFlags, sensor_valid: bool, sequence: u32) -> Seq<u8> {
    seq![state_code_of(state)] + u32_le(faults.flags()) + seq![if sensor_valid { 1u8 } else { 0u8 }]
        + u16_le(sequence as u16)
}

/// Encodes the status frame of the telemetry stream.
pub fn encode_can_status(state: MotorState, faults: FaultFlags, sensor_valid: bool, sequence: u32) -> (data: [u8; 8])
    ensures
        data@ == status_frame(state, faults, sensor_valid, sequence),
{
    let bits = faults.bits();
    let short = sequence as u16;
    let data: [u8; 8] = [
        state_code(state),
        (bits & 0xff) as u8,
        ((bits >> 8) & 0xff) as u8,
        ((bits >> 16) & 0xff) as u8,
        (bits >> 24) as u8,
        if sensor_valid { 1 } else { 0 },
        (short & 0xff) as u8,
        (short >> 8) as u8,
    ];
    assert(data@ =~= status_frame(state, faults, sensor_valid, sequence));
    data
}

/// A telemetry frame of four 16-bit fields, each little-endian, in order.
pub open spec fn word_frame(values: Seq<u16>) -> Seq<u8> {
    u16_le(values[0]) + u16_le(values[1]) + u16_le(values[2]) + u16_le(values[3])
}

/// Packs the four 16-bit fields of a currents or motion telemetry frame.
pub fn encode_word_frame(values: [u16; 4]) -> (data: [u8; 8])
    ensures
        data@ == word_frame(values@),
{
    let data: [u8; 8] = [
        (values[0] & 0xff) as u8,
        (values[0] >> 8) as u8,
        (values[1] & 0xff) as u8,
        (values[1] >> 8) as u8,
        (values[2] & 0xff) as u8,
        (values[2] >> 8) as u8,
        (values[3] & 0xff) as u8,
        (values[3] >> 8) as u8,
    ];
    assert(data@ =~= word_frame(values@));
    data
}

/// What a received CAN frame asks for.
#[derive(Clone, Copy, Debug)]
pub enum CanInbound {
    Parameter(ParameterRequest),
    Command(Command),
    Ignore,
}

/// Routes a received frame: remote frames, CAN-FD frames and extended
/// identifiers (`standard_id` is `None`) are ignored; a frame that decodes
/// as a parameter request is one, otherwise a frame that decodes as a
/// command is one, and anything else is ignored.
pub fn route_can_frame(standard_id: Option<u16>, remote: bool, fd: bool, data: &[u8]) -> (inbound: CanInbound)
    ensures
        (remote || fd || standard_id is None) ==> inbound is Ignore,
        !(remote || fd || standard_id is None) ==> {
            let id = standard_id->0;
            match inbound {
                CanInbound::Parameter(request) => {
                    &&& can_parameter_action_of(id, data@) == Some(request.action)
                    &&& request.route matches ParameterRoute::Can { transaction, request_id, request_data }
                    &&& transaction == data@[0]
                    &&& request_id == id
                    &&& request_data@ == data@
                },
                CanInbound::Command(command) => {
                    &&& can_parameter_action_of(id, data@) is None
                    &&& can_command_of(id, data@) == Some(command)
                },
                CanInbound::Ignore => {
                    &&& can_parameter_action_of(id, data@) is None
                    &&& can_command_of(id, data@) is None
                },
            }
        },
{
    if remote || fd {
        return CanInbound::Ignore;
    }
    let id = match standard_id {
        Some(id) => id,
        None => {
            return CanInbound::Ignore;
        },
    };
    match decode_can_parameter_request(id, data) {
        Some(request) => CanInbound::Parameter(request),
        None => match decode_can_command(id, data) {
            Some(command) => CanInbound::Command(command),
            None => CanInbound::Ignore,
        },
    }
}

/// Each target frame sets its own target: four little-endian bytes of a
/// finite single-precision value sent on the current-target identifier set
/// the q-axis current target, on the velocity-target identifier the
/// velocity target, and on the electrical-zero identifier the electrical
/// zero, each to exactly that value; the open-loop frame carries the
/// electrical velocity first and the q-axis voltage second.
pub proof fn lemma_target_frames_set_their_own_target(value: u32, voltage: u32)
    requires
        finite_bits(value),
        finite_bits(voltage),
    ensures
        can_command_of(CAN_IQ_TARGET_ID, u32_le(value)) == Some(Command::SetIq(value)),
        can_command_of(CAN_VELOCITY_TARGET_ID, u32_le(value)) == Some(Command::SetVelocity(value)),
        can_command_of(CAN_ELECTRICAL_ZERO_ID, u32_le(value)) == Some(
            Command::SetElectricalZero(value),
        ),
        can_command_of(CAN_OPEN_LOOP_ID, u32_le(value) + u32_le(voltage)) == Some(
            Command::SetOpenLoop { electrical_velocity: value, q_voltage: voltage },
        ),
{
    lemma_u32_round_trip(value);
    lemma_u32_round_trip(voltage);
    let both = u32_le(value) + u32_le(voltage);
    assert(u32_at(both, 0) == u32_at(u32_le(value), 0));
    assert(u32_at(both, 4) == u32_at(u32_le(voltage), 0));
}

/// A decoded command names the frame it came from: two frames that decode
/// to the same command were sent on the same identifier, so no two
/// identifiers can act on the same target.
pub proof fn lemma_command_identifies_frame(id: u16, data: Seq<u8>, other_id: u16, other_data: Seq<u8>)
    requires
        can_command_of(id, data) is Some,
        can_command_of(id, data) == can_command_of(other_id, other_data),
    ensures
        id == other_id,
{
}

/// The motor state a status byte reports: running without a control mode
/// is reported as idle.
pub open spec fn reported_state(state: MotorState) -> MotorState {
    match state {
        MotorState::Running(ControlMode::Idle) => MotorState::Idle,
        _ => state,
    }
}

/// The status byte reports a running motor with the byte of the control
/// frame that enables its mode, and tells every reported state apart:
/// two states with the same status byte are the same reported state.
pub proof fn lemma_status_byte_names_the_state(mode: ControlMode, a: MotorState, b: MotorState)
    ensures
        mode != ControlMode::Idle ==> can_command_of(
            CAN_CONTROL_ID,
            seq![state_code_of(MotorState::Running(mode))],
        ) == Some(Command::Enable(mode)),
        state_code_of(a) == state_code_of(b) ==> reported_state(a) == reported_state(b),
{
}

} // verus!
