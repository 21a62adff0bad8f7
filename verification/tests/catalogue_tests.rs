use foc_firmware::autotune::{AutoTuneError, AutoTuneState};
use foc_firmware::interfaces::{FaultFlags, ParameterResultCode, ParameterStorageStatus};
use foc_firmware::parameters::{ParameterId, ParameterKind, ALL_PARAMETERS};
use foc_firmware::text::{result_name, write_parameter_status, TextBuffer};

#[test]
fn ids_and_names_are_unique_and_complete() {
    for (index, id) in ALL_PARAMETERS.into_iter().enumerate() {
        assert_eq!(ParameterId::from_raw(id.raw()), Some(id));
        assert_eq!(ParameterId::from_name(id.name()), Some(id));
        for other in ALL_PARAMETERS.into_iter().skip(index + 1) {
            assert_ne!(id.raw(), other.raw());
            assert_ne!(id.name(), other.name());
        }
    }
}

#[test]
fn catalogue_answers_by_code_name_and_kind() {
    assert_eq!(ParameterId::from_raw(0x00), None);
    assert_eq!(ParameterId::from_raw(0x41), Some(ParameterId::TemperatureSensorVoltsPerDegree));
    assert_eq!(ParameterId::from_name("pole-pairs"), Some(ParameterId::PolePairs));
    assert_eq!(ParameterId::from_name("Pole-Pairs"), None);
    assert_eq!(ParameterId::EncoderCpr.kind(), ParameterKind::U16);
    assert_eq!(ParameterId::SensorDirection.kind(), ParameterKind::I8);
    assert_eq!(ParameterId::CurrentKp.kind(), ParameterKind::F32);
    assert!(ParameterId::PolePairs.startup_only());
    assert!(!ParameterId::BatteryCells.startup_only());
}

#[test]
fn fault_flags_latch_until_cleared() {
    let mut faults = FaultFlags::empty();
    assert!(faults.is_empty());
    faults.insert(FaultFlags::stall());
    faults.insert(FaultFlags::invalid_command());
    assert!(faults.contains(FaultFlags::stall()));
    assert!(faults.contains(FaultFlags::invalid_command()));
    assert!(!faults.contains(FaultFlags::sensor()));
    assert_eq!(faults.bits(), 32 | 256);
    faults.clear();
    assert!(faults.is_empty());
}

#[test]
fn status_line_names_every_field() {
    let mut output: TextBuffer<256> = TextBuffer::new();
    let status = ParameterStorageStatus {
        persisted_valid: true,
        source_defaults: false,
        generation: 4_294_967_295,
        dirty: true,
        restart_required: false,
    };
    assert_eq!(write_parameter_status(status, &mut output), Ok(()));
    assert_eq!(
        output.as_bytes(),
        b"param-status valid=1 source=flash generation=4294967295 dirty=1 restart-required=0\r\n"
    );
}

#[test]
fn text_buffer_refuses_what_does_not_fit() {
    let mut output: TextBuffer<4> = TextBuffer::new();
    assert!(output.write_str("abc").is_ok());
    assert!(output.write_str("de").is_err());
    assert_eq!(output.as_bytes(), b"abc");
    assert!(output.write_str("d").is_ok());
    assert_eq!(output.as_bytes(), b"abcd");
}

#[test]
fn names_of_results_and_identification_steps() {
    assert_eq!(result_name(ParameterResultCode::Conflict), "transaction-conflict");
    assert_eq!(result_name(ParameterResultCode::Unknown), "unknown-parameter");
    assert_eq!(AutoTuneState::PlLConfig.name(), "pll-config");
    assert!(AutoTuneState::Done.is_terminal());
    assert!(!AutoTuneState::RsMeasure.is_terminal());
    assert_eq!(AutoTuneError::NoError.name(), "none");
    assert_eq!(AutoTuneError::SaveFailed.name(), "save-failed");
    assert_eq!(AutoTuneError::default(), AutoTuneError::NoError);
}
