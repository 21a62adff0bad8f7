use foc_firmware::crc::{crc32_of, record_crc};
use foc_firmware::parameter_store::{
    encode_record, generation_is_newer, FlashBackend, ParameterStore, SaveOutcome, Slot,
    StoreError, StoredRecord, COMMIT_MARKER, PRE_COMMIT_SIZE, RECORD_SIZE, SLOT_A_OFFSET,
    SLOT_B_OFFSET, SLOT_SIZE,
};
use foc_firmware::parameters::{ParameterError, ParameterId, ParameterValue, PARAMETER_PAYLOAD_SIZE};
use foc_firmware::motor_param::{motor_layout, MotorParam, MotorParamError, MOTOR_PARAM_PAYLOAD_SIZE, MOTOR_PARAM_VERSION};
use foc_firmware::profile::ParameterProfileV1;

/// Covers all four parameter pages at the top of flash.
const STORAGE_START: u32 = 0x0003_c000;
const STORAGE_SIZE: usize = (SLOT_SIZE * 4) as usize;
const VALID_ERASE_OFFSETS: [u32; 4] = [0x0003_c000, 0x0003_d000, SLOT_A_OFFSET, SLOT_B_OFFSET];

#[derive(Clone, Copy, Debug, PartialEq, Eq)]
enum MockError {
    OutOfBounds,
    Unaligned,
    NeedsErase,
    Injected,
}

#[derive(Clone, Copy, Debug, PartialEq, Eq)]
enum Operation {
    Erase(u32),
    Program(u32),
}

#[derive(Clone)]
struct MockFlash {
    bytes: Vec<u8>,
    operations: Vec<Operation>,
    fail_erase: bool,
    fail_program_at: Option<usize>,
    program_count: usize,
}

impl MockFlash {
    fn erased() -> Self {
        Self {
            bytes: vec![0xff; STORAGE_SIZE],
            operations: Vec::new(),
            fail_erase: false,
            fail_program_at: None,
            program_count: 0,
        }
    }

    fn index(offset: u32, len: usize) -> Result<usize, MockError> {
        let index = offset.checked_sub(STORAGE_START).ok_or(MockError::OutOfBounds)? as usize;
        if index + len <= STORAGE_SIZE {
            Ok(index)
        } else {
            Err(MockError::OutOfBounds)
        }
    }
}

impl FlashBackend for MockFlash {
    type Error = MockError;

    fn read(&mut self, offset: u32, bytes: &mut [u8]) -> Result<(), Self::Error> {
        let index = Self::index(offset, bytes.len())?;
        bytes.copy_from_slice(&self.bytes[index..index + bytes.len()]);
        Ok(())
    }

    fn erase_page(&mut self, offset: u32) -> Result<(), Self::Error> {
        if !VALID_ERASE_OFFSETS.contains(&offset) {
            return Err(MockError::Unaligned);
        }
        if self.fail_erase {
            return Err(MockError::Injected);
        }
        let index = Self::index(offset, SLOT_SIZE as usize)?;
        self.bytes[index..index + SLOT_SIZE as usize].fill(0xff);
        self.operations.push(Operation::Erase(offset));
        Ok(())
    }

    fn program_double_word(&mut self, offset: u32, bytes: &[u8; 8]) -> Result<(), Self::Error> {
        if offset % 8 != 0 {
            return Err(MockError::Unaligned);
        }
        if self.fail_program_at == Some(self.program_count) {
            return Err(MockError::Injected);
        }
        self.program_count += 1;
        let index = Self::index(offset, bytes.len())?;
        for (current, requested) in self.bytes[index..index + 8].iter().zip(bytes) {
            if current & requested != *requested {
                return Err(MockError::NeedsErase);
            }
        }
        for (current, requested) in self.bytes[index..index + 8].iter_mut().zip(bytes) {
            *current &= *requested;
        }
        self.operations.push(Operation::Program(offset));
        Ok(())
    }
}

/// The control profile as a stored record. Range checks are reduced to
/// the fields these tests change.
#[derive(Clone, Copy, Debug, PartialEq)]
struct Profile(ParameterProfileV1);

impl Profile {
    fn default() -> Self {
        Profile(ParameterProfileV1::default())
    }

    fn with_electrical_zero(self, value: f32) -> Self {
        Profile(
            self.0
                .with_value(ParameterId::ElectricalZero, ParameterValue::F32(value.to_bits()))
                .unwrap(),
        )
    }
}

impl StoredRecord for Profile {
    type Error = ParameterError;

    fn magic() -> [u8; 4] {
        *b"FOCP"
    }

    fn schema_version() -> u16 {
        1
    }

    fn payload_size() -> usize {
        PARAMETER_PAYLOAD_SIZE
    }

    fn validate_record(&self) -> Result<(), Self::Error> {
        let zero = f32::from_bits(self.0.electrical_zero);
        if (2..=6).contains(&self.0.battery_cells)
            && zero.is_finite()
            && zero >= 0.0
            && zero < core::f32::consts::TAU
        {
            Ok(())
        } else {
            Err(ParameterError::OutOfRange)
        }
    }

    fn encode_payload_into(&self, payload: &mut [u8]) -> usize {
        self.0.encode_payload_into(payload)
    }

    fn decode_payload(payload: &[u8]) -> Result<Self, Self::Error> {
        let profile = Profile(ParameterProfileV1::decode_fields(payload)?);
        profile.validate_record()?;
        Ok(profile)
    }
}

fn store_over(flash: MockFlash) -> ParameterStore<MockFlash, Profile> {
    ParameterStore::new(flash)
}

#[test]
fn parameter_store_crc_matches_standard_check_vector() {
    assert_eq!(crc32_of(b"123456789"), 0xcbf4_3926);
}

#[test]
fn parameter_store_erased_flash_has_no_record_and_boot_does_not_write() {
    let mut store = store_over(MockFlash::erased());
    assert_eq!(store.load_latest(), Ok(None));
    assert!(store.into_inner().operations.is_empty());
}

#[test]
fn parameter_store_save_alternates_slots_and_unchanged_save_does_not_write() {
    let mut store = store_over(MockFlash::erased());
    let mut profile = Profile::default();
    assert_eq!(
        store.save(&profile),
        Ok(SaveOutcome::Saved { generation: 1, slot: Slot::A })
    );
    let flash = store.into_inner();
    let operation_count = flash.operations.len();
    let mut store = store_over(flash);
    assert_eq!(
        store.save(&profile),
        Ok(SaveOutcome::Unchanged { generation: 1, slot: Slot::A })
    );
    let flash = store.into_inner();
    assert_eq!(flash.operations.len(), operation_count);
    let mut store = store_over(flash);

    profile = profile.with_electrical_zero(0.25);
    assert_eq!(
        store.save(&profile),
        Ok(SaveOutcome::Saved { generation: 2, slot: Slot::B })
    );
    assert_eq!(store.load_latest().unwrap().unwrap().profile, profile);
}

#[test]
fn parameter_store_commit_marker_is_the_last_program_operation() {
    let mut store = store_over(MockFlash::erased());
    store.save(&Profile::default()).unwrap();
    assert_eq!(
        store.into_inner().operations.last(),
        Some(&Operation::Program(SLOT_A_OFFSET + PRE_COMMIT_SIZE as u32))
    );
}

#[test]
fn parameter_store_interrupted_program_always_preserves_previous_record() {
    let mut initial = store_over(MockFlash::erased());
    let baseline = Profile::default();
    initial.save(&baseline).unwrap();
    let persisted = initial.into_inner();

    let changed = baseline.with_electrical_zero(0.75);
    let program_operations = PRE_COMMIT_SIZE / 8 + 1;
    for failure_at in 0..program_operations {
        let mut flash = persisted.clone();
        flash.fail_program_at = Some(failure_at);
        flash.program_count = 0;
        let mut store = store_over(flash);
        assert!(store.save(&changed).is_err());
        let mut rebooted = store_over(store.into_inner());
        assert_eq!(rebooted.load_latest().unwrap().unwrap().profile, baseline);
    }
}

#[test]
fn parameter_store_failed_erase_preserves_previous_record() {
    let mut store = store_over(MockFlash::erased());
    let baseline = Profile::default();
    store.save(&baseline).unwrap();
    let mut flash = store.into_inner();
    flash.fail_erase = true;
    let mut store = store_over(flash);
    let changed = baseline.with_electrical_zero(1.0);
    assert_eq!(store.save(&changed), Err(StoreError::Erase(MockError::Injected)));
    let mut flash = store.into_inner();
    flash.fail_erase = false;
    let mut store = store_over(flash);
    assert_eq!(store.load_latest().unwrap().unwrap().profile, baseline);
}

#[test]
fn parameter_store_force_save_writes_defaults_again() {
    let mut store = store_over(MockFlash::erased());
    let defaults = Profile::default();
    store.save(&defaults).unwrap();
    assert_eq!(
        store.force_save(&defaults),
        Ok(SaveOutcome::Saved { generation: 2, slot: Slot::B })
    );
}

#[test]
fn parameter_store_corrupted_new_slot_falls_back_to_old_slot() {
    let mut store = store_over(MockFlash::erased());
    let first = Profile::default();
    store.save(&first).unwrap();
    let second = first.with_electrical_zero(0.5);
    store.save(&second).unwrap();
    let mut flash = store.into_inner();
    let crc_byte = MockFlash::index(SLOT_B_OFFSET + 12, 1).unwrap();
    flash.bytes[crc_byte] ^= 1;
    let mut store = store_over(flash);
    assert_eq!(store.load_latest().unwrap().unwrap().profile, first);
}

#[test]
fn parameter_store_generation_wrap_selects_zero_as_newer_than_maximum() {
    let profile = Profile::default();
    let mut flash = MockFlash::erased();
    let mut a = encode_record(&profile, u32::MAX);
    a[PRE_COMMIT_SIZE..].copy_from_slice(&COMMIT_MARKER);
    let mut b = encode_record(&profile, 0);
    b[PRE_COMMIT_SIZE..].copy_from_slice(&COMMIT_MARKER);
    let a_index = MockFlash::index(SLOT_A_OFFSET, RECORD_SIZE).unwrap();
    let b_index = MockFlash::index(SLOT_B_OFFSET, RECORD_SIZE).unwrap();
    flash.bytes[a_index..a_index + RECORD_SIZE].copy_from_slice(&a);
    flash.bytes[b_index..b_index + RECORD_SIZE].copy_from_slice(&b);
    let mut store = store_over(flash);
    assert_eq!(store.load_latest().unwrap().unwrap().slot, Slot::B);
}

#[test]
fn record_crc_covers_head_then_tail() {
    assert_eq!(record_crc(b"1234", b"56789"), 0xcbf4_3926);
    assert_eq!(record_crc(b"", b""), crc32_of(b""));
    assert_eq!(crc32_of(b""), 0);
}

#[test]
fn generation_order_wraps_at_half_range() {
    assert!(generation_is_newer(1, 0));
    assert!(generation_is_newer(0, u32::MAX));
    assert!(!generation_is_newer(5, 5));
    assert!(!generation_is_newer(0, 1));
    assert!(generation_is_newer(0x7fff_ffff, 0));
    assert!(!generation_is_newer(0x8000_0000, 0));
}

#[test]
fn saved_record_is_what_a_reboot_loads() {
    let mut store = store_over(MockFlash::erased());
    let profile = Profile::default().with_electrical_zero(2.0);
    let outcome = store.save(&profile).unwrap();
    let mut rebooted = store_over(store.into_inner());
    let loaded = rebooted.load_latest().unwrap().unwrap();
    assert_eq!(outcome, SaveOutcome::Saved { generation: loaded.generation, slot: loaded.slot });
    assert_eq!(loaded.profile, profile);
}

#[test]
fn invalid_record_is_refused_without_writing() {
    let mut store = store_over(MockFlash::erased());
    let mut invalid = Profile::default();
    invalid.0.battery_cells = 1;
    assert_eq!(store.save(&invalid), Err(StoreError::Invalid));
    assert!(store.into_inner().operations.is_empty());
}

/// The motor record as a stored record. Range checks are reduced to the
/// resistance, the field these tests change.
#[derive(Clone, Copy, Debug, PartialEq)]
struct Motor(MotorParam);

impl Motor {
    fn seed() -> Self {
        let bandwidth = 2.0 * core::f32::consts::PI * 500.0;
        let rs = 0.050_0f32;
        let inductance = 0.000_2f32;
        Motor(MotorParam {
            rs: rs.to_bits(),
            ld: inductance.to_bits(),
            lq: inductance.to_bits(),
            flux: 0.010_0f32.to_bits(),
            pole_pairs: 4,
            id_kp: (inductance * bandwidth).to_bits(),
            id_ki: (rs * bandwidth).to_bits(),
            iq_kp: (inductance * bandwidth).to_bits(),
            iq_ki: (rs * bandwidth).to_bits(),
            speed_kp: 0.4f32.to_bits(),
            speed_ki: 2.0f32.to_bits(),
            observer_gain: 0,
            observer_bandwidth: 0,
            pll_kp: 0,
            pll_ki: 0,
            hfi_freq: 0,
            hfi_voltage: 0,
            observer_switch_speed: 0,
            max_current: 10.0f32.to_bits(),
            max_voltage: 30.0f32.to_bits(),
            version: MOTOR_PARAM_VERSION,
            checksum: 0,
            valid_flag: 0,
        })
    }

    fn with_rs(self, rs: f32) -> Self {
        Motor(MotorParam { rs: rs.to_bits(), ..self.0 })
    }
}

impl StoredRecord for Motor {
    type Error = MotorParamError;

    fn magic() -> [u8; 4] {
        *b"MTRP"
    }

    fn schema_version() -> u16 {
        1
    }

    fn payload_size() -> usize {
        MOTOR_PARAM_PAYLOAD_SIZE
    }

    fn validate_record(&self) -> Result<(), Self::Error> {
        let rs = f32::from_bits(self.0.rs);
        if rs.is_finite() && (0.000_2..=5.0).contains(&rs) {
            Ok(())
        } else {
            Err(MotorParamError::OutOfRange)
        }
    }

    fn encode_payload_into(&self, payload: &mut [u8]) -> usize {
        payload[..MOTOR_PARAM_PAYLOAD_SIZE].copy_from_slice(&self.0.encode_payload());
        MOTOR_PARAM_PAYLOAD_SIZE
    }

    fn decode_payload(payload: &[u8]) -> Result<Self, Self::Error> {
        let motor = Motor(MotorParam::decode_fields(payload)?);
        motor.validate_record()?;
        Ok(motor)
    }
}

#[test]
fn motor_record_and_profile_record_coexist_in_flash() {
    let flash = MockFlash::erased();
    let mut motor_store: ParameterStore<MockFlash, Motor> =
        ParameterStore::new_with_layout(flash.clone(), motor_layout());
    let mut profile_store: ParameterStore<MockFlash, Profile> = ParameterStore::new(flash.clone());

    let mut motor = Motor::seed().with_rs(0.021);
    motor.0.mark_commissioned();
    assert_eq!(motor_store.save(&motor), Ok(SaveOutcome::Saved { generation: 1, slot: Slot::A }));
    assert_eq!(
        profile_store.save(&Profile::default()),
        Ok(SaveOutcome::Saved { generation: 1, slot: Slot::A })
    );

    assert_eq!(motor_store.load_latest().unwrap().unwrap().profile, motor);
    assert_eq!(profile_store.load_latest().unwrap().unwrap().profile, Profile::default());

    motor = motor.with_rs(0.022);
    motor.0.mark_commissioned();
    assert_eq!(motor_store.save(&motor), Ok(SaveOutcome::Saved { generation: 2, slot: Slot::B }));
    assert_eq!(motor_store.load_latest().unwrap().unwrap().slot, Slot::B);
}

#[test]
fn invalid_motor_param_fails_store_save() {
    let param = Motor::seed().with_rs(0.0);
    let mut store: ParameterStore<MockFlash, Motor> =
        ParameterStore::new_with_layout(MockFlash::erased(), motor_layout());
    assert_eq!(store.save(&param), Err(StoreError::Invalid));
    assert_eq!(store.load_latest().unwrap(), None);
}

#[test]
fn record_that_does_not_read_back_as_itself_is_not_confirmed() {
    // A stale checksum: the record stored decodes with the payload's own
    // checksum, so it differs from the one that was saved.
    let mut param = Motor::seed().with_rs(0.021);
    param.0.checksum = 1;
    let mut store: ParameterStore<MockFlash, Motor> =
        ParameterStore::new_with_layout(MockFlash::erased(), motor_layout());
    assert_eq!(store.save(&param), Err(StoreError::Verify));
    let stored = store.load_latest().unwrap().unwrap();
    assert_eq!(stored.generation, 1);
    assert_ne!(stored.profile, param);
}
