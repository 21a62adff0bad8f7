use foc_firmware::interfaces::{
    ParameterAction, ParameterRequest, ParameterResultCode, ParameterRoute, ParameterStorageStatus,
};
use foc_firmware::motor_param::{
    payload_checksum, MotorParam, MotorParamError, MOTOR_PARAM_PAYLOAD_SIZE, MOTOR_PARAM_VALID,
    MOTOR_PARAM_VERSION,
};
use foc_firmware::parameter_service::{boot_profile, boot_record, ParameterState};
use foc_firmware::parameter_store::{SaveOutcome, Slot, StoredProfile};
use foc_firmware::parameters::{ParameterError, ParameterId, ParameterValue, PARAMETER_PAYLOAD_SIZE};
use foc_firmware::profile::{floats_equal, ParameterProfileV1};
use foc_firmware::requests::{
    begin_parameter_request, finish_defaults, finish_factory_reset, finish_load, finish_save,
    finish_set, remember_exchange, replayed_response, store_error_name, store_result_code,
    ParameterWork,
};
use foc_firmware::parameter_store::StoreError;

/// Sets a parameter the way the firmware does for values that need no
/// normalisation and pass validation.
fn set(state: &mut ParameterState, id: ParameterId, value: ParameterValue) {
    let profile = state.working().with_value(id, value).unwrap();
    state.replace_working(profile);
}

fn uart(action: ParameterAction) -> ParameterRequest {
    ParameterRequest { route: ParameterRoute::Uart, action }
}

fn can(transaction: u8, action: ParameterAction) -> ParameterRequest {
    ParameterRequest {
        route: ParameterRoute::Can {
            transaction,
            request_id: 0x106,
            request_data: [transaction, 0, 0, 0, 0, 0, 0, 0],
        },
        action,
    }
}

/// The commissioning seed the firmware derives from its default
/// configuration.
fn seed_motor() -> MotorParam {
    let bandwidth = 2.0 * core::f32::consts::PI * 500.0;
    let rs = 0.050_0f32;
    let inductance = 0.000_2f32;
    MotorParam {
        rs: rs.to_bits(),
        ld: inductance.to_bits(),
        lq: inductance.to_bits(),
        flux: 0.010_0f32.to_bits(),
        pole_pairs: 4,
        id_kp: (inductance * bandwidth).to_bits(),
        id_ki: (rs * bandwidth).to_bits(),
        iq_kp: (inductance * bandwidth).to_bits(),
        iq_ki: (rs * bandwidth).to_bits(),
        speed_kp: 0.4f32.to_bits(),
        speed_ki: 2.0f32.to_bits(),
        observer_gain: 0,
        observer_bandwidth: 0,
        pll_kp: 0,
        pll_ki: 0,
        hfi_freq: 0,
        hfi_voltage: 0,
        observer_switch_speed: 0,
        max_current: 10.0f32.to_bits(),
        max_voltage: 30.0f32.to_bits(),
        version: MOTOR_PARAM_VERSION,
        checksum: 0,
        valid_flag: 0,
    }
}

#[test]
fn parameters_payload_round_trip_is_exact() {
    let profile = ParameterProfileV1::default();
    let encoded = profile.encode_payload();
    assert_eq!(ParameterProfileV1::decode_fields(&encoded), Ok(profile));
}

#[test]
fn default_profile_holds_the_factory_configuration() {
    let profile = ParameterProfileV1::default();
    assert_eq!(profile.battery_cells, 6);
    assert_eq!(profile.pole_pairs, 4);
    assert_eq!(profile.sensor_direction, 1);
    assert_eq!(profile.encoder_cpr, 4_096);
    assert_eq!(profile.current_pid.kp, 0.2f32.to_bits());
    assert_eq!(profile.current_pid.output_ramp, 0.0f32.to_bits());
    assert_eq!(profile.velocity_pid.output_ramp, 200.0f32.to_bits());
    assert_eq!(profile.adc_reference_voltage, 3.3f32.to_bits());
    assert_eq!(profile.shunt_resistance, 0.000_5f32.to_bits());
    assert_eq!(profile.mosfet_hot_resistance, 0.010f32.to_bits());
    assert_eq!(profile.sensor_fault_time, 0.002f32.to_bits());
    assert_eq!(profile.temperature_sensor_volts_per_degree, 0.01f32.to_bits());
    assert_eq!(profile.encode_payload().len(), PARAMETER_PAYLOAD_SIZE);
}

#[test]
fn profile_payload_layout_and_reserved_bytes() {
    let mut profile = ParameterProfileV1::default();
    profile.sensor_direction = -1;
    let encoded = profile.encode_payload();
    assert_eq!(&encoded[..12], &[6, 4, 0xff, 0, 0x00, 0x10, 3, 0, 20, 0, 0, 0]);
    assert_eq!(&encoded[12..16], &0.0f32.to_le_bytes());
    assert_eq!(&encoded[16..20], &0.2f32.to_le_bytes());
    assert_eq!(&encoded[156..160], &0.01f32.to_le_bytes());
    let mut corrupted = encoded.clone();
    corrupted[10] = 1;
    assert_eq!(ParameterProfileV1::decode_fields(&corrupted), Err(ParameterError::ReservedBytes));
    assert_eq!(ParameterProfileV1::decode_fields(&encoded[..159]), Err(ParameterError::ReservedBytes));
    let mut buffer = [0xaau8; 170];
    assert_eq!(profile.encode_payload_into(&mut buffer), PARAMETER_PAYLOAD_SIZE);
    assert_eq!(&buffer[..160], encoded.as_slice());
    assert_eq!(&buffer[160..], &[0xaa; 10]);
}

#[test]
fn setting_a_value_changes_that_parameter_alone() {
    let profile = ParameterProfileV1::default();
    let updated = profile.with_value(ParameterId::CurrentKi, ParameterValue::F32(15.0f32.to_bits())).unwrap();
    assert_eq!(updated.get(ParameterId::CurrentKi), ParameterValue::F32(15.0f32.to_bits()));
    assert_eq!(updated.get(ParameterId::CurrentKp), profile.get(ParameterId::CurrentKp));
    assert_eq!(
        profile.with_value(ParameterId::BatteryCells, ParameterValue::F32(6.0f32.to_bits())),
        Err(ParameterError::WrongType)
    );
    assert_eq!(
        profile.with_value(ParameterId::ElectricalZero, ParameterValue::F32(f32::NAN.to_bits())),
        Err(ParameterError::OutOfRange)
    );
    assert_eq!(
        profile.with_value(ParameterId::EncoderCpr, ParameterValue::U16(8_192)).unwrap().encoder_cpr,
        8_192
    );
}

#[test]
fn values_compare_as_numbers() {
    assert!(floats_equal(0.0f32.to_bits(), (-0.0f32).to_bits()));
    assert!(!floats_equal(f32::NAN.to_bits(), f32::NAN.to_bits()));
    assert!(floats_equal(1.5f32.to_bits(), 1.5f32.to_bits()));
    let profile = ParameterProfileV1::default();
    let mut negative_zero = profile;
    negative_zero.electrical_zero = (-0.0f32).to_bits();
    assert!(profile.equals(&negative_zero));
    assert_ne!(profile, negative_zero);
}

#[test]
fn tracks_dirty_and_restart_state() {
    let defaults = ParameterProfileV1::default();
    let mut state = ParameterState::from_boot(defaults, None);
    assert_eq!(
        state.status(),
        ParameterStorageStatus { source_defaults: true, ..ParameterStorageStatus::default() }
    );
    set(&mut state, ParameterId::PolePairs, ParameterValue::U8(5));
    assert!(state.status().dirty);
    assert!(state.status().restart_required);
    set(&mut state, ParameterId::PolePairs, ParameterValue::U8(4));
    assert!(!state.status().dirty);
    assert!(!state.status().restart_required);
}

#[test]
fn saved_and_loaded_profiles_are_clean() {
    let defaults = ParameterProfileV1::default();
    let stored = StoredProfile { profile: defaults, generation: 7, slot: Slot::A };
    let mut state = ParameterState::from_boot(defaults, Some(stored));
    set(&mut state, ParameterId::ElectricalZero, ParameterValue::F32(0.5f32.to_bits()));
    assert!(state.status().dirty);
    state.saved(SaveOutcome::Saved { generation: 8, slot: Slot::B });
    assert_eq!(state.status().generation, 8);
    assert!(!state.status().dirty);
    assert_eq!(state.working().electrical_zero, 0.5f32.to_bits());
}

#[test]
fn loading_and_defaults_update_the_status() {
    let defaults = ParameterProfileV1::default();
    let mut state = ParameterState::from_boot(defaults, None);
    let mut changed = defaults;
    changed.battery_cells = 4;
    state.load(StoredProfile { profile: changed, generation: 3, slot: Slot::B });
    let status = state.status();
    assert!(status.persisted_valid && !status.dirty && !status.source_defaults);
    assert_eq!(status.generation, 3);
    state.use_defaults();
    let status = state.status();
    assert!(status.dirty && status.source_defaults);
}

#[test]
fn parameter_requests_follow_the_storage_rules() {
    let defaults = ParameterProfileV1::default();
    let mut state = ParameterState::from_boot(defaults, None);

    match begin_parameter_request(&state, uart(ParameterAction::Get(ParameterId::PolePairs)), false) {
        ParameterWork::Answer(response) => {
            assert_eq!(response.result, ParameterResultCode::Success);
            assert_eq!(response.value, Some(ParameterValue::U8(4)));
        },
        other => panic!("unexpected {:?}", other),
    }
    let set_request = uart(ParameterAction::SetValue(ParameterId::PolePairs, ParameterValue::U8(7)));
    match begin_parameter_request(&state, set_request, false) {
        ParameterWork::Answer(response) => {
            assert_eq!(response.result, ParameterResultCode::Busy);
            assert_eq!(response.value, Some(ParameterValue::U8(4)));
        },
        other => panic!("unexpected {:?}", other),
    }
    match begin_parameter_request(&state, set_request, true) {
        ParameterWork::Stage { parameter, value, live } => {
            assert_eq!(parameter, ParameterId::PolePairs);
            assert_eq!(value, ParameterValue::U8(7));
            assert!(!live);
        },
        other => panic!("unexpected {:?}", other),
    }
    let staged = state.working().with_value(ParameterId::PolePairs, ParameterValue::U8(7));
    let response = finish_set(&mut state, set_request, ParameterId::PolePairs, staged, false);
    assert_eq!(response.result, ParameterResultCode::Success);
    assert_eq!(response.value, Some(ParameterValue::U8(7)));
    assert!(response.storage.restart_required && response.storage.dirty);

    let refused = finish_set(
        &mut state,
        set_request,
        ParameterId::PolePairs,
        Err(ParameterError::OutOfRange),
        true,
    );
    assert_eq!(refused.result, ParameterResultCode::Invalid);
    assert_eq!(refused.value, Some(ParameterValue::U8(7)));

    let live_request = uart(ParameterAction::SetValue(ParameterId::BatteryCells, ParameterValue::U8(3)));
    let staged = state.working().with_value(ParameterId::BatteryCells, ParameterValue::U8(3));
    let busy = finish_set(&mut state, live_request, ParameterId::BatteryCells, staged, false);
    assert_eq!(busy.result, ParameterResultCode::Busy);
    assert_eq!(state.working().battery_cells, 6);

    let save = finish_save(&mut state, uart(ParameterAction::Save), Ok(SaveOutcome::Saved { generation: 1, slot: Slot::A }));
    assert_eq!(save.result, ParameterResultCode::Success);
    assert!(!save.storage.dirty && save.storage.persisted_valid);
    let unchanged = finish_save(&mut state, uart(ParameterAction::Save), Ok(SaveOutcome::Unchanged { generation: 1, slot: Slot::A }));
    assert_eq!(unchanged.result, ParameterResultCode::Unchanged);
    let failed = finish_save(&mut state, uart(ParameterAction::Save), Err(ParameterResultCode::FlashErase));
    assert_eq!(failed.result, ParameterResultCode::FlashErase);

    let none = finish_load(&mut state, uart(ParameterAction::Load), Ok(None), true);
    assert_eq!(none.result, ParameterResultCode::NoValidRecord);
    let defaults_busy = finish_defaults(&mut state, uart(ParameterAction::Defaults), false);
    assert_eq!(defaults_busy.result, ParameterResultCode::Busy);
    assert_eq!(state.working().pole_pairs, 7);
    let reset = finish_factory_reset(
        &mut state,
        uart(ParameterAction::FactoryReset),
        Ok(SaveOutcome::Saved { generation: 2, slot: Slot::B }),
        true,
    );
    assert_eq!(reset.result, ParameterResultCode::Success);
    assert_eq!(state.working(), ParameterProfileV1::default());
    assert!(!reset.storage.dirty && reset.storage.source_defaults == false);
    assert_eq!(reset.storage.generation, 2);
}

#[test]
fn repeated_can_requests_are_answered_from_the_last_exchange() {
    let defaults = ParameterProfileV1::default();
    let state = ParameterState::from_boot(defaults, None);
    let request = can(5, ParameterAction::Status);
    let mut last = None;
    assert_eq!(replayed_response(&request, &last, state.status()), None);
    let response = match begin_parameter_request(&state, request, true) {
        ParameterWork::Answer(response) => response,
        other => panic!("unexpected {:?}", other),
    };
    remember_exchange(&mut last, request, response);
    assert_eq!(replayed_response(&request, &last, state.status()), Some(response));
    let different = can(5, ParameterAction::Save);
    let conflict = replayed_response(&different, &last, state.status()).unwrap();
    assert_eq!(conflict.result, ParameterResultCode::Conflict);
    remember_exchange(&mut last, different, conflict);
    assert_eq!(last, Some((request, response)));
    assert_eq!(replayed_response(&can(6, ParameterAction::Save), &last, state.status()), None);
    assert_eq!(replayed_response(&uart(ParameterAction::Status), &last, state.status()), None);
}

#[test]
fn store_errors_have_codes_and_names() {
    assert_eq!(store_result_code::<u8>(StoreError::Read(1)), ParameterResultCode::FlashRead);
    assert_eq!(store_result_code::<u8>(StoreError::Invalid), ParameterResultCode::Invalid);
    assert_eq!(store_error_name::<u8>(&StoreError::Program(0)), "flash-program");
    assert_eq!(store_error_name::<u8>(&StoreError::Verify), "verify");
}

#[test]
fn motor_param_payload_round_trip_is_exact() {
    let mut param = MotorParam {
        rs: 0.031f32.to_bits(),
        ld: 0.000_145f32.to_bits(),
        lq: 0.000_150f32.to_bits(),
        flux: 0.012_5f32.to_bits(),
        ..seed_motor()
    };
    param.mark_commissioned();
    let encoded = param.encode_payload();
    assert_eq!(MotorParam::decode_fields(&encoded), Ok(param));
    assert!(param.is_commissioned());
    assert_eq!(param.valid_flag, MOTOR_PARAM_VALID);
}

#[test]
fn corrupted_payload_is_rejected_by_checksum() {
    let mut encoded = seed_motor().encode_payload();
    encoded[0] ^= 0x01;
    assert_eq!(MotorParam::decode_fields(&encoded), Err(MotorParamError::Checksum));
}

#[test]
fn reserved_bytes_are_rejected() {
    let mut encoded = seed_motor().encode_payload();
    encoded[18] = 1;
    assert_eq!(MotorParam::decode_fields(&encoded), Err(MotorParamError::ReservedBytes));
}

#[test]
fn commissioned_payload_survives_uncommissioned_comparison() {
    let mut param = seed_motor();
    let plain = param.encode_payload();
    param.mark_commissioned();
    assert_ne!(param.encode_payload(), plain);
}

#[test]
fn motor_checksum_covers_the_leading_bytes() {
    let encoded = seed_motor().encode_payload();
    assert_eq!(encoded.len(), MOTOR_PARAM_PAYLOAD_SIZE);
    let stored = u32::from_le_bytes(encoded[88..92].try_into().unwrap());
    assert_eq!(payload_checksum(&encoded), stored);
    assert_eq!(&encoded[92..], &[0u8; 20]);
    assert!(!seed_motor().is_commissioned());
}

#[test]
fn boot_uses_the_stored_profile_or_the_defaults() {
    let mut stored_profile = ParameterProfileV1::default();
    stored_profile.battery_cells = 4;
    let stored = StoredProfile { profile: stored_profile, generation: 9, slot: Slot::B };
    let found: Result<Option<StoredProfile<ParameterProfileV1>>, StoreError<u8>> = Ok(Some(stored));
    assert_eq!(boot_record(found), Some(stored));
    let unreadable: Result<Option<StoredProfile<ParameterProfileV1>>, StoreError<u8>> =
        Err(StoreError::Read(3));
    assert_eq!(boot_record(unreadable), None);
    assert!(boot_profile(Some(stored)).equals(&stored_profile));
    assert_eq!(boot_profile(Some(stored)).battery_cells, 4);
    assert!(boot_profile(None).equals(&ParameterProfileV1::default()));
}

#[test]
fn commissioning_saves_are_recorded_only_when_both_succeed() {
    let defaults = ParameterProfileV1::default();
    let mut identified = defaults;
    identified.battery_cells = 5;

    let mut state = ParameterState::from_boot(defaults, None);
    let motor_failed: Result<SaveOutcome, StoreError<u8>> = Err(StoreError::Program(1));
    let profile_ok: Result<SaveOutcome, StoreError<u8>> =
        Ok(SaveOutcome::Saved { generation: 1, slot: Slot::A });
    assert_eq!(
        state.commissioning_saved(identified, motor_failed, profile_ok),
        Err(StoreError::Program(1))
    );
    assert_eq!(state.working().battery_cells, 6);
    assert!(!state.status().persisted_valid);

    let motor_ok: Result<SaveOutcome, StoreError<u8>> =
        Ok(SaveOutcome::Saved { generation: 1, slot: Slot::A });
    let profile_failed: Result<SaveOutcome, StoreError<u8>> = Err(StoreError::Verify);
    assert_eq!(
        state.commissioning_saved(identified, motor_ok, profile_failed),
        Err(StoreError::Verify)
    );
    assert_eq!(state.working().battery_cells, 6);

    let motor_ok: Result<SaveOutcome, StoreError<u8>> =
        Ok(SaveOutcome::Unchanged { generation: 2, slot: Slot::B });
    let profile_ok: Result<SaveOutcome, StoreError<u8>> =
        Ok(SaveOutcome::Saved { generation: 7, slot: Slot::B });
    assert_eq!(state.commissioning_saved(identified, motor_ok, profile_ok), Ok(()));
    assert_eq!(state.working().battery_cells, 5);
    let status = state.status();
    assert!(status.persisted_valid);
    assert_eq!(status.generation, 7);
    assert!(!status.dirty);
}

#[test]
fn integer_parameters_are_range_checked() {
    let defaults = ParameterProfileV1::default();
    assert!(defaults.integers_valid());
    for (cells, valid) in [(1u8, false), (2, true), (6, true), (7, false)] {
        let mut profile = defaults;
        profile.battery_cells = cells;
        assert_eq!(profile.integers_valid(), valid);
    }
    let mut profile = defaults;
    profile.pole_pairs = 65;
    assert!(!profile.integers_valid());
    let mut profile = defaults;
    profile.sensor_direction = 0;
    assert!(!profile.integers_valid());
    let mut profile = defaults;
    profile.encoder_cpr = 1;
    assert!(!profile.integers_valid());
    let mut profile = defaults;
    profile.over_current_debounce = 10_001;
    assert!(!profile.integers_valid());
    let mut profile = defaults;
    profile.residual_debounce = 0;
    assert!(!profile.integers_valid());
}
