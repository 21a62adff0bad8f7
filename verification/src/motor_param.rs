//! The motor commissioning record: identified motor constants and tuned
//! gains, with the byte layout and checksum of its persisted payload.

use vstd::prelude::*;
use crate::bytes::{
    lemma_u16_bytes_determined, lemma_u16_round_trip, lemma_u32_bytes_determined,
    lemma_u32_round_trip, lemma_words_le_at, lemma_words_le_len, lemma_words_of_bytes,
    push_u16_le, push_u32_le, push_words_le, read_u16_le, read_u32_le, u16_at, u16_le, u32_at,
    u32_le, words_le,
};
use crate::comm::all_zero;
use crate::crc::{crc32, crc32_of};
use crate::parameter_store::{SlotLayout, SLOT_SIZE};

verus! {

pub const MOTOR_SLOT_A_OFFSET: u32 = 0x0003_c000;
pub const MOTOR_SLOT_B_OFFSET: u32 = 0x0003_d000;

/// Marks a record that completed identification and passed verification.
pub const MOTOR_PARAM_VALID: u32 = 0xa55a_c33c;
pub const MOTOR_PARAM_VERSION: u32 = 1;
pub const MOTOR_PARAM_PAYLOAD_SIZE: usize = 112;

/// Number of leading payload bytes the checksum covers.
pub const CHECKSUM_BYTES: usize = 88;

/// The dual-slot layout of the motor record, directly below the control
/// profile's slots.
pub open spec fn motor_slot_layout() -> SlotLayout {
    SlotLayout { slot_a: MOTOR_SLOT_A_OFFSET, slot_b: MOTOR_SLOT_B_OFFSET, size: SLOT_SIZE }
}

/// The dual-slot layout of the motor record.
pub fn motor_layout() -> (layout: SlotLayout)
    ensures
        layout == motor_slot_layout(),
{
    SlotLayout { slot_a: MOTOR_SLOT_A_OFFSET, slot_b: MOTOR_SLOT_B_OFFSET, size: SLOT_SIZE }
}

#[derive(Clone, Copy, Debug, PartialEq, Eq, Structural)]
pub enum MotorParamError {
    OutOfRange,
    InvalidRelationship,
    ReservedBytes,
    Checksum,
    NotCommissioned,
}

/// Motor commissioning parameters. Single-precision values are held as
/// their IEEE-754 binary32 encoding.
#[derive(Clone, Copy, Debug, PartialEq, Eq, Structural)]
pub struct MotorParam {
    pub rs: u32,
    pub ld: u32,
    pub lq: u32,
    pub flux: u32,
    pub pole_pairs: u16,
    pub id_kp: u32,
    pub id_ki: u32,
    pub iq_kp: u32,
    pub iq_ki: u32,
    pub speed_kp: u32,
    pub speed_ki: u32,
    pub observer_gain: u32,
    pub observer_bandwidth: u32,
    pub pll_kp: u32,
    pub pll_ki: u32,
    pub hfi_freq: u32,
    pub hfi_voltage: u32,
    pub observer_switch_speed: u32,
    pub max_current: u32,
    pub max_voltage: u32,
    pub version: u32,
    pub checksum: u32,
    pub valid_flag: u32,
}

/// Resistance, the two inductances and the flux linkage, in payload order.
pub open spec fn motor_leading_words(param: MotorParam) -> Seq<u32> {
    seq![param.rs, param.ld, param.lq, param.flux]
}

/// The gains, limits, version and commissioning flag, in payload order.
pub open spec fn motor_trailing_words(param: MotorParam) -> Seq<u32> {
    seq![
        param.id_kp,
        param.id_ki,
        param.iq_kp,
        param.iq_ki,
        param.speed_kp,
        param.speed_ki,
        param.observer_gain,
        param.observer_bandwidth,
        param.pll_kp,
        param.pll_ki,
        param.hfi_freq,
        param.hfi_voltage,
        param.observer_switch_speed,
        param.max_current,
        param.max_voltage,
        param.version,
        param.valid_flag,
    ]
}

/// The payload bytes the checksum covers: the leading values, pole pairs,
/// two reserved zeros, then the trailing values.
pub open spec fn motor_checked_bytes(param: MotorParam) -> Seq<u8> {
    words_le(motor_leading_words(param)) + u16_le(param.pole_pairs) + seq![0u8, 0u8] + words_le(
        motor_trailing_words(param),
    )
}

/// The persisted payload: the checked bytes, their CRC-32, and zeros.
pub open spec fn motor_payload(param: MotorParam) -> Seq<u8> {
    motor_checked_bytes(param) + u32_le(crc32(motor_checked_bytes(param))) + Seq::new(
        20,
        |i: int| 0u8,
    )
}

/// The record with the given pole pairs, leading and trailing values and
/// stored checksum.
pub open spec fn motor_from_parts(pole_pairs: u16, leading: Seq<u32>, trailing: Seq<u32>, checksum: u32) -> MotorParam {
    MotorParam {
        rs: leading[0],
        ld: leading[1],
        lq: leading[2],
        flux: leading[3],
        pole_pairs,
        id_kp: trailing[0],
        id_ki: trailing[1],
        iq_kp: trailing[2],
        iq_ki: trailing[3],
        speed_kp: trailing[4],
        speed_ki: trailing[5],
        observer_gain: trailing[6],
        observer_bandwidth: trailing[7],
        pll_kp: trailing[8],
        pll_ki: trailing[9],
        hfi_freq: trailing[10],
        hfi_voltage: trailing[11],
        observer_switch_speed: trailing[12],
        max_current: trailing[13],
        max_voltage: trailing[14],
        version: trailing[15],
        checksum,
        valid_flag: trailing[16],
    }
}

/// What a payload decodes to: reserved bytes must be zero and the stored
/// checksum must match the checked bytes.
pub open spec fn motor_payload_decoded(data: Seq<u8>) -> Result<MotorParam, MotorParamError> {
    if data.len() != MOTOR_PARAM_PAYLOAD_SIZE || data[18] != 0 || data[19] != 0 || !all_zero(data, 92, 112) {
        Err(MotorParamError::ReservedBytes)
    } else if u32_at(data, 88) != crc32(data.take(88)) {
        Err(MotorParamError::Checksum)
    } else {
        Ok(
            motor_from_parts(
                u16_at(data, 16),
                Seq::new(4, |i: int| u32_at(data, 4 * i)),
                Seq::new(17, |i: int| u32_at(data, 20 + 4 * i)),
                u32_at(data, 88),
            ),
        )
    }
}

/// The CRC-32 of the checked bytes of a payload.
pub fn payload_checksum(data: &[u8]) -> (crc: u32)
    requires
        data@.len() == MOTOR_PARAM_PAYLOAD_SIZE,
    ensures
        crc == crc32(data@.take(CHECKSUM_BYTES as int)),
{
    let checked = vstd::slice::slice_subrange(data, 0, CHECKSUM_BYTES);
    assert(checked@ =~= data@.take(CHECKSUM_BYTES as int));
    crc32_of(checked)
}

impl MotorParam {
    pub open spec fn spec_is_commissioned(self) -> bool {
        self.valid_flag == MOTOR_PARAM_VALID
    }

    pub fn is_commissioned(&self) -> (commissioned: bool)
        ensures
            commissioned == self.spec_is_commissioned(),
    {
        self.valid_flag == MOTOR_PARAM_VALID
    }

    /// The payload bytes the checksum covers.
    fn checked_bytes(&self) -> (data: Vec<u8>)
        ensures
            data@ == motor_checked_bytes(*self),
            data@.len() == CHECKSUM_BYTES,
    {
        let mut leading: Vec<u32> = Vec::new();
        leading.push(self.rs);
        leading.push(self.ld);
        leading.push(self.lq);
        leading.push(self.flux);
        let mut trailing: Vec<u32> = Vec::new();
        trailing.push(self.id_kp);
        trailing.push(self.id_ki);
        trailing.push(self.iq_kp);
        trailing.push(self.iq_ki);
        trailing.push(self.speed_kp);
        trailing.push(self.speed_ki);
        trailing.push(self.observer_gain);
        trailing.push(self.observer_bandwidth);
        trailing.push(self.pll_kp);
        trailing.push(self.pll_ki);
        trailing.push(self.hfi_freq);
        trailing.push(self.hfi_voltage);
        trailing.push(self.observer_switch_speed);
        trailing.push(self.max_current);
        trailing.push(self.max_voltage);
        trailing.push(self.version);
        trailing.push(self.valid_flag);
        assert(leading@ =~= motor_leading_words(*self));
        assert(trailing@ =~= motor_trailing_words(*self));
        let mut data: Vec<u8> = Vec::new();
        push_words_le(&mut data, leading.as_slice());
        push_u16_le(&mut data, self.pole_pairs);
        data.push(0);
        data.push(0);
        push_words_le(&mut data, trailing.as_slice());
        proof {
            lemma_words_le_len(leading@);
            lemma_words_le_len(trailing@);
        }
        assert(data@ =~= motor_checked_bytes(*self));
        data
    }

    /// The persisted payload, with a freshly computed checksum.
    pub fn encode_payload(&self) -> (data: Vec<u8>)
        ensures
            data@ == motor_payload(*self),
            data@.len() == MOTOR_PARAM_PAYLOAD_SIZE,
    {
        let mut data = self.checked_bytes();
        let checksum = crc32_of(data.as_slice());
        push_u32_le(&mut data, checksum);
        let ghost before = data@;
        let mut index: usize = 0;
        while index < 20
            invariant
                index <= 20,
                data@ == before + Seq::new(index as nat, |i: int| 0u8),
            decreases 20 - index,
        {
            data.push(0);
            index += 1;
            assert(data@ =~= before + Seq::new(index as nat, |i: int| 0u8));
        }
        data
    }

    /// Marks the record as a completed, verified commissioning result and
    /// refreshes its checksum.
    pub fn mark_commissioned(&mut self)
        ensures
            final(self).version == MOTOR_PARAM_VERSION,
            final(self).valid_flag == MOTOR_PARAM_VALID,
            final(self).checksum == crc32(motor_checked_bytes(*final(self))),
            *final(self) == (MotorParam {
                version: MOTOR_PARAM_VERSION,
                valid_flag: MOTOR_PARAM_VALID,
                checksum: final(self).checksum,
                ..*old(self)
            }),
    {
        self.version = MOTOR_PARAM_VERSION;
        self.valid_flag = MOTOR_PARAM_VALID;
        let data = self.encode_payload();
        proof {
            assert(data@.take(CHECKSUM_BYTES as int) =~= motor_checked_bytes(*self));
        }
        self.checksum = payload_checksum(data.as_slice());
        assert(motor_checked_bytes(*self) =~= motor_checked_bytes(MotorParam { checksum: 0, ..*self }));
    }

    /// The record a payload holds, before any range checks.
    pub fn decode_fields(data: &[u8]) -> (param: Result<Self, MotorParamError>)
        ensures
            param == motor_payload_decoded(data@),
    {
        if data.len() != MOTOR_PARAM_PAYLOAD_SIZE || data[18] != 0 || data[19] != 0 {
            return Err(MotorParamError::ReservedBytes);
        }
        let mut index: usize = 92;
        while index < MOTOR_PARAM_PAYLOAD_SIZE
            invariant
                92 <= index <= MOTOR_PARAM_PAYLOAD_SIZE,
                data@.len() == MOTOR_PARAM_PAYLOAD_SIZE,
                all_zero(data@, 92, index as int),
            decreases MOTOR_PARAM_PAYLOAD_SIZE - index,
        {
            if data[index] != 0 {
                return Err(MotorParamError::ReservedBytes);
            }
            index += 1;
        }
        let stored = read_u32_le(data, 88);
        if stored != payload_checksum(data) {
            return Err(MotorParamError::Checksum);
        }
        let param = MotorParam {
            rs: read_u32_le(data, 0),
            ld: read_u32_le(data, 4),
            lq: read_u32_le(data, 8),
            flux: read_u32_le(data, 12),
            pole_pairs: read_u16_le(data, 16),
            id_kp: read_u32_le(data, 20),
            id_ki: read_u32_le(data, 24),
            iq_kp: read_u32_le(data, 28),
            iq_ki: read_u32_le(data, 32),
            speed_kp: read_u32_le(data, 36),
            speed_ki: read_u32_le(data, 40),
            observer_gain: read_u32_le(data, 44),
            observer_bandwidth: read_u32_le(data, 48),
            pll_kp: read_u32_le(data, 52),
            pll_ki: read_u32_le(data, 56),
            hfi_freq: read_u32_le(data, 60),
            hfi_voltage: read_u32_le(data, 64),
            observer_switch_speed: read_u32_le(data, 68),
            max_current: read_u32_le(data, 72),
            max_voltage: read_u32_le(data, 76),
            version: read_u32_le(data, 80),
            checksum: stored,
            valid_flag: read_u32_le(data, 84),
        };
        assert(param == motor_from_parts(
            u16_at(data@, 16),
            Seq::new(4, |i: int| u32_at(data@, 4 * i)),
            Seq::new(17, |i: int| u32_at(data@, 20 + 4 * i)),
            u32_at(data@, 88),
        ));
        Ok(param)
    }
}

proof fn lemma_motor_payload_decodes(param: MotorParam)
    ensures
        motor_payload(param).len() == MOTOR_PARAM_PAYLOAD_SIZE,
        motor_payload_decoded(motor_payload(param)) == Ok::<MotorParam, MotorParamError>(
            MotorParam { checksum: crc32(motor_checked_bytes(param)), ..param },
        ),
{
    let leading = motor_leading_words(param);
    let trailing = motor_trailing_words(param);
    let checked = motor_checked_bytes(param);
    let crc = crc32(checked);
    let data = motor_payload(param);
    lemma_words_le_len(leading);
    lemma_words_le_len(trailing);
    assert(checked.len() == 88);
    assert(data.take(88) =~= checked);
    lemma_u32_round_trip(crc);
    assert(u32_at(data, 88) == u32_at(u32_le(crc), 0));
    lemma_u16_round_trip(param.pole_pairs);
    assert(u16_at(data, 16) == u16_at(u16_le(param.pole_pairs), 0));
    let read_leading = Seq::new(4, |i: int| u32_at(data, 4 * i));
    let read_trailing = Seq::new(17, |i: int| u32_at(data, 20 + 4 * i));
    assert forall|i: int| 0 <= i < 4 implies #[trigger] read_leading[i] == leading[i] by {
        lemma_words_le_at(leading, i);
        assert(u32_at(data, 4 * i) == u32_at(words_le(leading), 4 * i));
    }
    assert(read_leading =~= leading);
    assert forall|i: int| 0 <= i < 17 implies #[trigger] read_trailing[i] == trailing[i] by {
        lemma_words_le_at(trailing, i);
        assert(u32_at(data, 20 + 4 * i) == u32_at(words_le(trailing), 4 * i));
    }
    assert(read_trailing =~= trailing);
}

#[verifier::rlimit(30)]
proof fn lemma_motor_payload_determined(data: Seq<u8>)
    requires
        motor_payload_decoded(data) is Ok,
    ensures
        motor_payload(motor_payload_decoded(data)->Ok_0) == data,
{
    let param = motor_payload_decoded(data)->Ok_0;
    let leading = Seq::new(4, |i: int| u32_at(data, 4 * i));
    let trailing = Seq::new(17, |i: int| u32_at(data, 20 + 4 * i));
    assert(motor_leading_words(param) =~= leading);
    assert(motor_trailing_words(param) =~= trailing);
    let first = data.take(16);
    assert(leading =~= Seq::new(4, |i: int| u32_at(first, 4 * i)));
    lemma_words_of_bytes(first, 4);
    let later = data.subrange(20, 88);
    assert(trailing =~= Seq::new(17, |i: int| u32_at(later, 4 * i)));
    lemma_words_of_bytes(later, 17);
    lemma_u16_bytes_determined(data, 16);
    assert(motor_checked_bytes(param) =~= data.take(88));
    lemma_u32_bytes_determined(data, 88);
    assert(data.subrange(92, 112) =~= Seq::new(20, |i: int| 0u8));
    assert(data =~= data.take(88) + data.subrange(88, 92) + data.subrange(92, 112));
}

/// A payload decodes to the record it was made from, with the checksum
/// of its checked bytes; a commissioned record (whose checksum is that
/// one) comes back unchanged; and a payload that decodes to a record is
/// exactly that record's payload, so any change to a checked byte or to
/// the stored checksum is refused.
pub proof fn lemma_motor_payload_round_trip(param: MotorParam, data: Seq<u8>)
    ensures
        motor_payload(param).len() == MOTOR_PARAM_PAYLOAD_SIZE,
        motor_payload_decoded(motor_payload(param)) == Ok::<MotorParam, MotorParamError>(
            MotorParam { checksum: crc32(motor_checked_bytes(param)), ..param },
        ),
        param.checksum == crc32(motor_checked_bytes(param)) ==> motor_payload_decoded(
            motor_payload(param),
        ) == Ok::<MotorParam, MotorParamError>(param),
        motor_payload_decoded(data) == Ok::<MotorParam, MotorParamError>(param) ==> motor_payload(
            param,
        ) == data,
{
    lemma_motor_payload_decodes(param);
    if motor_payload_decoded(data) == Ok::<MotorParam, MotorParamError>(param) {
        lemma_motor_payload_determined(data);
    }
}

} // verus!
