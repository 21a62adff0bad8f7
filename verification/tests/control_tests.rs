use foc_firmware::autotune::{autotune_may_start, AutoTuneError, AutoTuneSequence, AutoTuneState};
use foc_firmware::comm::{route_can_frame, CanInbound, CAN_CONTROL_ID, CAN_PARAMETER_OPERATION_ID};
use foc_firmware::console::{uart_action, LineAssembler, LineEvent, ParseError, UartAction, UartRequest};
use foc_firmware::hall::{hall_sector, hall_step, HallStep};
use foc_firmware::interfaces::{
    Command, ControlMode, FaultFlags, MotorState, ParameterAction, ParameterResponse,
    ParameterResultCode, ParameterRoute, ParameterStorageStatus,
};
use foc_firmware::parameters::{ParameterId, ParameterValue};
use foc_firmware::queue::RequestQueue;
use foc_firmware::supervisor::{debounce, MotorSupervisor};
use foc_firmware::text::{format_parameter_response, write_parameter_value, TextBuffer};

fn calibrated() -> MotorSupervisor {
    let mut supervisor = MotorSupervisor::new();
    supervisor.calibration_done();
    supervisor
}

#[test]
fn fault_stays_latched_until_a_safe_clear() {
    let mut supervisor = calibrated();
    assert!(supervisor.enable(ControlMode::OpenLoop, true, false));
    supervisor.trip(FaultFlags::over_current());
    assert_eq!(supervisor.state(), MotorState::Fault);
    assert!(supervisor.faults().contains(FaultFlags::over_current()));

    assert!(!supervisor.clear_fault(false));
    assert_eq!(supervisor.state(), MotorState::Fault);
    supervisor.enter_idle();
    assert_eq!(supervisor.state(), MotorState::Fault);
    assert!(!supervisor.enable(ControlMode::OpenLoop, true, true));

    assert!(supervisor.clear_fault(true));
    assert_eq!(supervisor.state(), MotorState::Idle);
    assert!(supervisor.faults().is_empty());
    assert!(supervisor.enable(ControlMode::OpenLoop, true, false));
    assert!(supervisor.bridge_requested());
}

#[test]
fn fault_during_calibration_restarts_calibration_on_clear() {
    let mut supervisor = MotorSupervisor::new();
    supervisor.trip(FaultFlags::over_temperature());
    assert!(supervisor.clear_fault(true));
    assert_eq!(supervisor.state(), MotorState::Calibrating);
    assert!(!supervisor.calibration_complete());
    supervisor.calibration_done();
    assert_eq!(supervisor.state(), MotorState::Idle);
}

#[test]
fn enabling_needs_supply_and_sensor() {
    let mut supervisor = calibrated();
    assert!(!supervisor.enable(ControlMode::Current, false, true));
    assert!(!supervisor.enable(ControlMode::Current, true, false));
    assert!(!supervisor.enable(ControlMode::Idle, true, true));
    assert!(supervisor.storage_ready());
    assert!(supervisor.enable(ControlMode::Velocity, true, true));
    assert_eq!(supervisor.state(), MotorState::Running(ControlMode::Velocity));
    assert!(!supervisor.storage_ready());
    assert!(!supervisor.enable(ControlMode::Current, true, true));
    supervisor.enter_idle();
    assert_eq!(supervisor.state(), MotorState::Idle);
    assert!(!MotorSupervisor::new().storage_ready());
}

#[test]
fn skipped_control_frame_trips_control_overrun() {
    let mut supervisor = calibrated();
    supervisor.check_sequence(u32::MAX);
    supervisor.check_sequence(0);
    assert_eq!(supervisor.state(), MotorState::Idle);
    supervisor.check_sequence(2);
    assert_eq!(supervisor.state(), MotorState::Fault);
    assert!(supervisor.faults().contains(FaultFlags::control_overrun()));
    supervisor.resynchronize_control_input();
    let mut fresh = calibrated();
    fresh.check_sequence(10);
    fresh.resynchronize_control_input();
    fresh.check_sequence(50);
    assert_eq!(fresh.state(), MotorState::Idle);
}

#[test]
fn debounce_trips_after_the_limit_and_resets_on_a_clear_sample() {
    let mut count = 0u16;
    assert!(!debounce(&mut count, true, 3));
    assert!(!debounce(&mut count, true, 3));
    assert!(debounce(&mut count, true, 3));
    assert!(!debounce(&mut count, false, 3));
    assert_eq!(count, 0);
    assert!(debounce(&mut count, true, 0));
    let mut saturated = u16::MAX;
    assert!(debounce(&mut saturated, true, 5));
    assert_eq!(saturated, u16::MAX);
}

#[test]
fn request_queue_is_first_in_first_out_and_bounded() {
    let mut queue = RequestQueue::new();
    assert!(!queue.has_pending());
    for value in 1..=5 {
        queue.push(value);
    }
    assert!(queue.has_pending());
    assert_eq!(queue.pop(), Some(1));
    assert_eq!(queue.pop(), Some(2));
    queue.push(6);
    assert_eq!(queue.pop(), Some(3));
    assert_eq!(queue.pop(), Some(4));
    assert_eq!(queue.pop(), Some(6));
    assert_eq!(queue.pop(), None);
}

#[test]
fn hall_states_map_to_sectors_and_steps() {
    assert_eq!(hall_sector(0), None);
    assert_eq!(hall_sector(7), None);
    assert_eq!(hall_sector(1), Some(0));
    assert_eq!(hall_sector(5), Some(1));
    assert_eq!(hall_sector(3), Some(5));
    assert_eq!(hall_step(5, 0), HallStep::Forward);
    assert_eq!(hall_step(0, 5), HallStep::Backward);
    assert_eq!(hall_step(1, 3), HallStep::Invalid);
    assert_eq!(hall_step(2, 2), HallStep::Invalid);
}

#[test]
fn console_lines_are_assembled_and_overlong_lines_dropped() {
    let mut assembler = LineAssembler::new();
    for byte in b"status\r" {
        assert!(matches!(assembler.push(*byte), LineEvent::Pending));
    }
    match assembler.push(b'\n') {
        LineEvent::Line(line) => assert_eq!(line, b"status".to_vec()),
        other => panic!("unexpected {:?}", other),
    }
    for _ in 0..129 {
        assert!(matches!(assembler.push(b'x'), LineEvent::Pending));
    }
    assert!(matches!(assembler.push(b'\n'), LineEvent::TooLong));
    for byte in b"iq 1" {
        assembler.push(*byte);
    }
    match assembler.push(b'\n') {
        LineEvent::Line(line) => assert_eq!(line, b"iq 1".to_vec()),
        other => panic!("unexpected {:?}", other),
    }
    let mut full = LineAssembler::new();
    for _ in 0..128 {
        full.push(b'y');
    }
    match full.push(b'\n') {
        LineEvent::Line(line) => assert_eq!(line.len(), 128),
        other => panic!("unexpected {:?}", other),
    }
}

#[test]
fn console_actions_follow_the_request() {
    assert!(matches!(
        uart_action(Ok(UartRequest::Command(Command::Disable))),
        UartAction::Send(Command::Disable, "ok\r\n")
    ));
    assert!(matches!(
        uart_action(Ok(UartRequest::AutoTune(foc_firmware::console::AutoTuneAction::Start))),
        UartAction::Send(Command::AutoTuneStart, "ok autotune-starting\r\n")
    ));
    assert!(matches!(uart_action(Ok(UartRequest::ParameterShow)), UartAction::ShowParameters));
    assert!(matches!(uart_action(Ok(UartRequest::Status)), UartAction::TelemetryStatus));
    assert!(matches!(uart_action(Err(ParseError::Unknown)), UartAction::Reply("error\r\n")));
}

#[test]
fn can_frames_are_routed_by_kind() {
    assert!(matches!(route_can_frame(Some(CAN_CONTROL_ID), true, false, &[1]), CanInbound::Ignore));
    assert!(matches!(route_can_frame(None, false, false, &[1]), CanInbound::Ignore));
    assert!(matches!(
        route_can_frame(Some(CAN_CONTROL_ID), false, false, &[1]),
        CanInbound::Command(Command::ClearFault)
    ));
    match route_can_frame(Some(CAN_PARAMETER_OPERATION_ID), false, false, &[3, 0, 0, 0, 0, 0, 0, 0]) {
        CanInbound::Parameter(request) => assert_eq!(request.action, ParameterAction::Status),
        other => panic!("unexpected {:?}", other),
    }
    assert!(matches!(route_can_frame(Some(0x7ff), false, false, &[]), CanInbound::Ignore));
}

fn response(action: ParameterAction, result: ParameterResultCode, value: Option<ParameterValue>) -> ParameterResponse {
    ParameterResponse {
        route: ParameterRoute::Uart,
        action,
        result,
        value,
        storage: ParameterStorageStatus {
            persisted_valid: true,
            source_defaults: false,
            generation: 12,
            dirty: true,
            restart_required: false,
        },
    }
}

fn format(response: &ParameterResponse, float_text: &str) -> (Result<(), ()>, Vec<u8>) {
    let mut output: TextBuffer<256> = TextBuffer::new();
    let written = format_parameter_response(response, float_text, &mut output).map_err(|_| ());
    (written, output.as_bytes().to_vec())
}

#[test]
fn console_replies_to_parameter_requests() {
    let get = response(
        ParameterAction::Get(ParameterId::SensorDirection),
        ParameterResultCode::Success,
        Some(ParameterValue::I8(-1)),
    );
    assert_eq!(format(&get, ""), (Ok(()), b"param sensor-direction=-1\r\n".to_vec()));

    let set = response(
        ParameterAction::SetValue(ParameterId::CurrentKp, ParameterValue::F32(0.25f32.to_bits())),
        ParameterResultCode::Success,
        Some(ParameterValue::F32(0.25f32.to_bits())),
    );
    assert_eq!(
        format(&set, "0.2500000"),
        (Ok(()), b"ok set current-kp=0.2500000 dirty=1 restart-required=0\r\n".to_vec())
    );

    let save = response(ParameterAction::Save, ParameterResultCode::Unchanged, None);
    assert_eq!(format(&save, ""), (Ok(()), b"ok unchanged generation=12\r\n".to_vec()));

    let busy = response(ParameterAction::Load, ParameterResultCode::Busy, None);
    assert_eq!(format(&busy, ""), (Ok(()), b"error busy\r\n".to_vec()));

    let missing = response(ParameterAction::Get(ParameterId::PolePairs), ParameterResultCode::Success, None);
    assert_eq!(format(&missing, ""), (Err(()), b"param pole-pairs=".to_vec()));

    let reset = response(ParameterAction::FactoryReset, ParameterResultCode::Success, None);
    assert_eq!(
        format(&reset, ""),
        (Ok(()), b"ok factory-reset generation=12 restart-required=0\r\n".to_vec())
    );
    let defaults = response(ParameterAction::Defaults, ParameterResultCode::Success, None);
    assert_eq!(format(&defaults, ""), (Ok(()), b"ok defaults dirty=1 restart-required=0\r\n".to_vec()));
    let status = response(ParameterAction::Status, ParameterResultCode::Success, None);
    assert_eq!(
        format(&status, ""),
        (Ok(()), b"param-status valid=1 source=flash generation=12 dirty=1 restart-required=0\r\n".to_vec())
    );
}

#[test]
fn parameter_values_are_written_in_decimal() {
    let mut output: TextBuffer<8> = TextBuffer::new();
    assert!(write_parameter_value(&mut output, ParameterValue::U16(65_535), "").is_ok());
    assert!(write_parameter_value(&mut output, ParameterValue::I8(-128), "").is_err());
    assert_eq!(output.as_bytes(), b"65535-");
}

#[test]
fn identification_progress_tables() {
    assert_eq!(AutoTuneState::RsMeasure.progress_base(), 12);
    assert_eq!(AutoTuneState::RsMeasure.progress_span(), 20);
    assert_eq!(AutoTuneState::Done.progress_base(), 100);
    assert_eq!(AutoTuneState::Error.progress_base(), 0);
    assert_eq!(AutoTuneState::Save.progress_span(), 1);
}

#[test]
fn overlong_line_with_carriage_returns_is_dropped_whole() {
    let mut assembler = LineAssembler::new();
    for _ in 0..128 {
        assert!(matches!(assembler.push(b'p'), LineEvent::Pending));
        assert!(matches!(assembler.push(b'\r'), LineEvent::Pending));
    }
    assert!(matches!(assembler.push(b'q'), LineEvent::Pending));
    assert!(matches!(assembler.push(b'\n'), LineEvent::TooLong));
    match assembler.push(b'\n') {
        LineEvent::Line(line) => assert!(line.is_empty()),
        other => panic!("unexpected {:?}", other),
    }
    let mut fits = LineAssembler::new();
    for _ in 0..128 {
        fits.push(b'z');
        fits.push(b'\r');
    }
    match fits.push(b'\n') {
        LineEvent::Line(line) => assert_eq!(line, vec![b'z'; 128]),
        other => panic!("unexpected {:?}", other),
    }
}

#[test]
fn autotune_starts_only_from_an_idle_disabled_controller() {
    assert!(autotune_may_start(MotorState::Idle, false, false));
    assert!(!autotune_may_start(MotorState::Idle, true, false));
    assert!(!autotune_may_start(MotorState::Idle, false, true));
    assert!(!autotune_may_start(MotorState::Calibrating, false, false));
    assert!(!autotune_may_start(MotorState::Running(ControlMode::Current), false, false));
    assert!(!autotune_may_start(MotorState::Fault, false, false));
}

#[test]
fn identification_sequence_starts_stops_and_acknowledges_saves() {
    let mut sequence: AutoTuneSequence<u8> = AutoTuneSequence::new();
    assert_eq!(sequence.state(), AutoTuneState::Idle);
    assert!(!sequence.is_running());
    assert!(sequence.begin());
    assert_eq!(sequence.state(), AutoTuneState::Init);
    assert_eq!(sequence.error(), AutoTuneError::NoError);
    assert!(!sequence.begin());

    sequence.enter(AutoTuneState::Save);
    sequence.notify_saved(true, 7);
    assert_eq!(sequence.state(), AutoTuneState::Done);
    assert_eq!(sequence.pop_request(), Some(7));
    assert!(!sequence.has_pending_requests());

    sequence.notify_saved(false, 8);
    assert_eq!(sequence.state(), AutoTuneState::Done);
    assert!(!sequence.has_pending_requests());

    assert!(sequence.begin());
    sequence.enter(AutoTuneState::Save);
    sequence.notify_saved(false, 9);
    assert_eq!(sequence.state(), AutoTuneState::Error);
    assert_eq!(sequence.error(), AutoTuneError::SaveFailed);
    assert_eq!(sequence.pop_request(), Some(9));

    assert!(sequence.begin());
    sequence.enter(AutoTuneState::RsMeasure);
    sequence.stop(1);
    assert_eq!(sequence.state(), AutoTuneState::Idle);
    assert_eq!(sequence.error(), AutoTuneError::Aborted);
    assert_eq!(sequence.pop_request(), Some(1));
    sequence.stop(2);
    assert!(!sequence.has_pending_requests());

    assert!(sequence.begin());
    sequence.fail(AutoTuneError::FrameOverrun, 3);
    assert_eq!(sequence.state(), AutoTuneState::Error);
    assert_eq!(sequence.error(), AutoTuneError::FrameOverrun);
}

#[test]
fn cell_count_changes_need_a_supported_count_and_no_bridge() {
    let mut supervisor = calibrated();
    assert!(supervisor.accepts_cell_count(2));
    assert!(supervisor.accepts_cell_count(6));
    assert!(!supervisor.accepts_cell_count(1));
    assert!(!supervisor.accepts_cell_count(7));
    assert!(supervisor.enable(ControlMode::OpenLoop, true, false));
    assert!(!supervisor.accepts_cell_count(4));
}
