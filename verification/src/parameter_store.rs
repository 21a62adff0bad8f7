//! Power-loss-safe dual-slot record store in on-chip flash.
//!
//! Every record type owns two alternating flash pages. A record is a
//! 16-byte header (magic, schema version, payload size, generation, CRC-32
//! over header and payload), the payload, and an eight-byte commit marker
//! that is programmed last. A save always targets the slot that does not
//! hold the newest record, so an interrupted save can never destroy the
//! record that was valid before it.

use vstd::prelude::*;
use crate::bytes::{push_u16_le, push_u32_le, read_u16_le, read_u32_le, u16_at, u16_le, u32_at, u32_le};
use crate::crc::{crc32, record_crc};
use crate::parameters::{bytes_equal, PARAMETER_PAYLOAD_SIZE};
use vstd::std_specs::cmp::PartialEqSpec;

verus! {

pub const SLOT_SIZE: u32 = 4_096;
pub const SLOT_A_OFFSET: u32 = 0x0003_e000;
pub const SLOT_B_OFFSET: u32 = 0x0003_f000;
pub const RECORD_HEADER_SIZE: usize = 16;
pub const COMMIT_MARKER_SIZE: usize = 8;
/// Largest supported payload; record buffers are sized for this and the
/// unused tail of smaller payloads stays erased (0xFF).
pub const MAX_PAYLOAD_SIZE: usize = PARAMETER_PAYLOAD_SIZE;
pub const PRE_COMMIT_SIZE: usize = RECORD_HEADER_SIZE + MAX_PAYLOAD_SIZE;
pub const RECORD_SIZE: usize = PRE_COMMIT_SIZE + COMMIT_MARKER_SIZE;

/// The ASCII text `COMMITV1`.
pub const COMMIT_MARKER: [u8; 8] = [0x43, 0x4f, 0x4d, 0x4d, 0x49, 0x54, 0x56, 0x31];

pub open spec fn commit_marker() -> Seq<u8> {
    seq![0x43u8, 0x4fu8, 0x4du8, 0x4du8, 0x49u8, 0x54u8, 0x56u8, 0x31u8]
}

/// A payload type that can be persisted in the dual-slot store.
///
/// The store guarantees power-loss safety around any implementor: records
/// carry a type-specific magic and schema version, are CRC-protected, and
/// are committed with a marker written as the very last double word.
/// `payload_size` must be a multiple of 8 and must not exceed
/// `MAX_PAYLOAD_SIZE` so the pre-commit region programs in whole double
/// words. Implementations promise the contracts below; the store's own
/// guarantees are proved from them.
pub trait StoredRecord: Sized + PartialEq {
    type Error;

    closed spec fn spec_magic() -> Seq<u8> {
        arbitrary()
    }

    closed spec fn spec_schema_version() -> u16 {
        arbitrary()
    }

    closed spec fn spec_payload_size() -> nat {
        arbitrary()
    }

    /// Whether the record may be persisted.
    closed spec fn spec_valid(&self) -> bool {
        arbitrary()
    }

    /// The payload bytes of the record.
    closed spec fn spec_payload(&self) -> Seq<u8> {
        arbitrary()
    }

    /// The record a payload decodes to, if any.
    closed spec fn spec_decode(payload: Seq<u8>) -> Option<Self> {
        arbitrary()
    }

    fn magic() -> (magic: [u8; 4])
        ensures
            magic@ == Self::spec_magic(),
    ;

    fn schema_version() -> (version: u16)
        ensures
            version == Self::spec_schema_version(),
    ;

    fn payload_size() -> (size: usize)
        ensures
            size == Self::spec_payload_size(),
            size % 8 == 0,
    ;

    fn validate_record(&self) -> (result: Result<(), Self::Error>)
        ensures
            result is Ok <==> self.spec_valid(),
    ;

    /// Writes exactly `payload_size()` bytes at the start of `payload` and
    /// returns `payload_size()`.
    fn encode_payload_into(&self, payload: &mut [u8]) -> (written: usize)
        requires
            Self::spec_payload_size() <= old(payload)@.len(),
        ensures
            written == Self::spec_payload_size(),
            final(payload)@.len() == old(payload)@.len(),
            final(payload)@.subrange(0, written as int) == self.spec_payload(),
            final(payload)@.subrange(written as int, old(payload)@.len() as int) == old(
                payload,
            )@.subrange(written as int, old(payload)@.len() as int),
    ;

    /// Decodes from a slice of exactly `payload_size()` bytes.
    fn decode_payload(payload: &[u8]) -> (decoded: Result<Self, Self::Error>)
        ensures
            match decoded {
                Ok(record) => Self::spec_decode(payload@) == Some(record),
                Err(_) => Self::spec_decode(payload@) is None,
            },
    ;
}

#[derive(Clone, Copy, Debug, PartialEq, Eq, Structural)]
pub enum Slot {
    A,
    B,
}

/// Base offsets of the two alternating slots for one record type.
#[derive(Clone, Copy, Debug, PartialEq, Eq, Structural)]
pub struct SlotLayout {
    pub slot_a: u32,
    pub slot_b: u32,
    pub size: u32,
}

impl Slot {
    pub fn opposite(self) -> (other: Self)
        ensures
            other != self,
    {
        match self {
            Slot::A => Slot::B,
            Slot::B => Slot::A,
        }
    }

    /// The base offset of this slot in the control-profile layout.
    pub fn offset(self) -> (offset: u32)
        ensures
            offset == profile_slot_layout().base(self),
    {
        match self {
            Slot::A => SLOT_A_OFFSET,
            Slot::B => SLOT_B_OFFSET,
        }
    }
}

/// The control-profile slots at the top of flash.
pub open spec fn profile_slot_layout() -> SlotLayout {
    SlotLayout { slot_a: SLOT_A_OFFSET, slot_b: SLOT_B_OFFSET, size: SLOT_SIZE }
}

/// The control-profile slots at the top of flash.
pub fn profile_layout() -> (layout: SlotLayout)
    ensures
        layout == profile_slot_layout(),
{
    SlotLayout { slot_a: SLOT_A_OFFSET, slot_b: SLOT_B_OFFSET, size: SLOT_SIZE }
}

impl SlotLayout {
    pub open spec fn base(self, slot: Slot) -> u32 {
        match slot {
            Slot::A => self.slot_a,
            Slot::B => self.slot_b,
        }
    }

    /// Both slots leave room for a whole record below the end of the
    /// 32-bit offset space.
    pub open spec fn addressable(self) -> bool {
        &&& self.slot_a as int + RECORD_SIZE <= u32::MAX
        &&& self.slot_b as int + RECORD_SIZE <= u32::MAX
    }

    /// The two slot pages do not overlap.
    pub open spec fn separated(self) -> bool {
        ||| self.slot_a as int + SLOT_SIZE <= self.slot_b
        ||| self.slot_b as int + SLOT_SIZE <= self.slot_a
    }

    pub fn offset(&self, slot: Slot) -> (offset: u32)
        ensures
            offset == self.base(slot),
    {
        match slot {
            Slot::A => self.slot_a,
            Slot::B => self.slot_b,
        }
    }
}

#[derive(Debug, PartialEq, Eq)]
pub enum StoreError<E> {
    Read(E),
    Erase(E),
    Program(E),
    Verify,
    Invalid,
}

#[derive(Clone, Copy, Debug, PartialEq)]
pub struct StoredProfile<P> {
    pub profile: P,
    pub generation: u32,
    pub slot: Slot,
}

#[derive(Clone, Copy, Debug, PartialEq, Eq, Structural)]
pub enum SaveOutcome {
    Saved { generation: u32, slot: Slot },
    Unchanged { generation: u32, slot: Slot },
}

/// Whether `candidate` is newer than `reference` in wrapping generation
/// order: it lies strictly less than half the counter range ahead.
pub open spec fn newer_generation(candidate: u32, reference: u32) -> bool {
    let ahead = if candidate >= reference {
        candidate - reference
    } else {
        candidate - reference + 0x1_0000_0000
    };
    0 < ahead < 0x8000_0000
}

pub fn generation_is_newer(candidate: u32, reference: u32) -> (newer: bool)
    ensures
        newer == newer_generation(candidate, reference),
{
    let ahead = candidate.wrapping_sub(reference);
    ahead != 0 && ahead < 0x8000_0000
}

/// The newer of the records found in the two slots; slot A wins a tie.
pub open spec fn newest<P>(
    slot_a: Option<StoredProfile<P>>,
    slot_b: Option<StoredProfile<P>>,
) -> Option<StoredProfile<P>> {
    match (slot_a, slot_b) {
        (Some(a), Some(b)) => if newer_generation(b.generation, a.generation) {
            Some(b)
        } else {
            Some(a)
        },
        (Some(a), None) => Some(a),
        (None, Some(b)) => Some(b),
        (None, None) => None,
    }
}

pub fn select_latest<P>(
    slot_a: Option<StoredProfile<P>>,
    slot_b: Option<StoredProfile<P>>,
) -> (latest: Option<StoredProfile<P>>)
    ensures
        latest == newest(slot_a, slot_b),
{
    match (slot_a, slot_b) {
        (Some(a), Some(b)) => {
            if generation_is_newer(b.generation, a.generation) {
                Some(b)
            } else {
                Some(a)
            }
        },
        (Some(a), None) => Some(a),
        (None, Some(b)) => Some(b),
        (None, None) => None,
    }
}

/// Header fields before the CRC: magic, schema version, payload size and
/// generation.
pub open spec fn record_header<P: StoredRecord>(generation: u32) -> Seq<u8> {
    P::spec_magic() + u16_le(P::spec_schema_version()) + u16_le(P::spec_payload_size() as u16)
        + u32_le(generation)
}

/// The bytes programmed before the commit marker: header, CRC, payload.
pub open spec fn pre_commit_bytes<P: StoredRecord>(profile: P, generation: u32) -> Seq<u8> {
    let head = record_header::<P>(generation);
    head + u32_le(crc32(head + profile.spec_payload())) + profile.spec_payload()
}

/// `count` erased bytes.
pub open spec fn erased_bytes(count: nat) -> Seq<u8> {
    Seq::new(count, |i: int| 0xffu8)
}

/// A record buffer before it is committed: the pre-commit bytes followed by
/// erased bytes.
pub open spec fn uncommitted_record<P: StoredRecord>(profile: P, generation: u32) -> Seq<u8> {
    let pre = pre_commit_bytes::<P>(profile, generation);
    pre + erased_bytes((RECORD_SIZE - pre.len()) as nat)
}

/// A slot's first `RECORD_SIZE` bytes once a record has been committed.
pub open spec fn committed_record<P: StoredRecord>(profile: P, generation: u32) -> Seq<u8> {
    let pre = pre_commit_bytes::<P>(profile, generation);
    pre + commit_marker() + erased_bytes((RECORD_SIZE - pre.len() - COMMIT_MARKER_SIZE) as nat)
}

/// The record and generation carried by pre-commit bytes, if they hold a
/// well-formed record of type `P`.
pub open spec fn decode_pre_commit<P: StoredRecord>(bytes: Seq<u8>) -> Option<(P, u32)> {
    let size = P::spec_payload_size();
    let payload = bytes.subrange(RECORD_HEADER_SIZE as int, RECORD_HEADER_SIZE + size);
    if bytes.subrange(0, 4) != P::spec_magic() || u16_at(bytes, 4) != P::spec_schema_version()
        || u16_at(bytes, 6) as nat != size {
        None
    } else if u32_at(bytes, 12) != crc32(bytes.subrange(0, 12) + payload) {
        None
    } else {
        match P::spec_decode(payload) {
            Some(profile) => Some((profile, u32_at(bytes, 8))),
            None => None,
        }
    }
}

/// The committed record held by the first `RECORD_SIZE` bytes of a slot.
pub open spec fn decode_slot<P: StoredRecord>(bytes: Seq<u8>, slot: Slot) -> Option<
    StoredProfile<P>,
> {
    let pre = RECORD_HEADER_SIZE + P::spec_payload_size();
    if bytes.subrange(pre, pre + COMMIT_MARKER_SIZE) != commit_marker() {
        None
    } else {
        match decode_pre_commit::<P>(bytes.subrange(0, PRE_COMMIT_SIZE as int)) {
            Some((profile, generation)) => Some(
                StoredProfile { profile, generation, slot },
            ),
            None => None,
        }
    }
}

/// The committed record in `slot` of a flash image.
pub open spec fn slot_record<P: StoredRecord>(image: Seq<u8>, layout: SlotLayout, slot: Slot) -> Option<
    StoredProfile<P>,
> {
    let base = layout.base(slot) as int;
    if base + RECORD_SIZE <= image.len() {
        decode_slot::<P>(image.subrange(base, base + RECORD_SIZE), slot)
    } else {
        None
    }
}

/// The newest committed record of a flash image.
pub open spec fn latest_record<P: StoredRecord>(image: Seq<u8>, layout: SlotLayout) -> Option<
    StoredProfile<P>,
> {
    newest(slot_record::<P>(image, layout, Slot::A), slot_record::<P>(image, layout, Slot::B))
}

/// Where the next save goes and which generation it gets.
pub open spec fn next_save<P>(latest: Option<StoredProfile<P>>) -> (Slot, u32) {
    match latest {
        Some(current) => (
            if current.slot == Slot::A {
                Slot::B
            } else {
                Slot::A
            },
            vstd::wrapping::u32_specs::wrapping_add(current.generation, 1),
        ),
        None => (Slot::A, 1),
    }
}

/// The record a committed save of `profile` leaves in `slot`.
pub open spec fn saved_record<P: StoredRecord>(profile: P, generation: u32, slot: Slot) -> Option<
    StoredProfile<P>,
> {
    decode_slot::<P>(committed_record::<P>(profile, generation), slot)
}


/// Appends `bytes` to `out`.
fn push_all(out: &mut Vec<u8>, bytes: &[u8])
    ensures
        final(out)@ == old(out)@ + bytes@,
{
    let mut index: usize = 0;
    while index < bytes.len()
        invariant
            index <= bytes@.len(),
            out@ == old(out)@ + bytes@.take(index as int),
        decreases bytes@.len() - index,
    {
        out.push(bytes[index]);
        index += 1;
        assert(out@ =~= old(out)@ + bytes@.take(index as int));
    }
    assert(bytes@.take(bytes@.len() as int) =~= bytes@);
}

/// Whether `bytes` starts with `prefix`.
fn starts_with(bytes: &[u8], prefix: &[u8]) -> (same: bool)
    requires
        prefix@.len() <= bytes@.len(),
    ensures
        same <==> bytes@.subrange(0, prefix@.len() as int) == prefix@,
{
    let mut index: usize = 0;
    while index < prefix.len()
        invariant
            prefix@.len() <= bytes@.len(),
            index <= prefix@.len(),
            forall|k: int| 0 <= k < index ==> bytes@[k] == prefix@[k],
        decreases prefix@.len() - index,
    {
        if bytes[index] != prefix[index] {
            return false;
        }
        index += 1;
    }
    assert(bytes@.subrange(0, prefix@.len() as int) =~= prefix@);
    true
}

/// The payload of `profile`, zero-padded to `MAX_PAYLOAD_SIZE` bytes.
pub fn encode_payload_buffer<P: StoredRecord>(profile: &P) -> (buffer: Vec<u8>)
    requires
        P::spec_payload_size() <= MAX_PAYLOAD_SIZE,
    ensures
        buffer@.len() == MAX_PAYLOAD_SIZE,
        buffer@.subrange(0, P::spec_payload_size() as int) == profile.spec_payload(),
        forall|k: int| P::spec_payload_size() <= k < MAX_PAYLOAD_SIZE ==> buffer@[k] == 0,
{
    let mut buffer: Vec<u8> = vec![0u8; MAX_PAYLOAD_SIZE];
    let ghost zeros = buffer@;
    let written = profile.encode_payload_into(buffer.as_mut_slice());
    proof {
        assert forall|k: int| P::spec_payload_size() <= k < MAX_PAYLOAD_SIZE implies buffer@[k]
            == 0 by {
            assert(buffer@[k] == buffer@.subrange(written as int, MAX_PAYLOAD_SIZE as int)[k
                - written]);
            assert(zeros[k] == 0);
        }
    }
    buffer
}

/// The record buffer for `profile` at `generation`, before commit.
pub fn encode_record<P: StoredRecord>(profile: &P, generation: u32) -> (record: Vec<u8>)
    requires
        P::spec_payload_size() <= MAX_PAYLOAD_SIZE,
    ensures
        record@ == uncommitted_record::<P>(*profile, generation),
        record@.len() == RECORD_SIZE,
        P::spec_magic().len() == 4,
        profile.spec_payload().len() == P::spec_payload_size(),
{
    let size = P::payload_size();
    let buffer = encode_payload_buffer(profile);
    let payload = vstd::slice::slice_subrange(buffer.as_slice(), 0, size);
    let magic = P::magic();
    let mut record: Vec<u8> = Vec::new();
    push_all(&mut record, &magic);
    push_u16_le(&mut record, P::schema_version());
    push_u16_le(&mut record, size as u16);
    push_u32_le(&mut record, generation);
    assert(record@ =~= record_header::<P>(generation));
    let crc = record_crc(record.as_slice(), payload);
    push_u32_le(&mut record, crc);
    push_all(&mut record, payload);
    assert(record@ =~= pre_commit_bytes::<P>(*profile, generation));
    let ghost pre = record@;
    while record.len() < RECORD_SIZE
        invariant
            pre.len() <= record@.len() <= RECORD_SIZE,
            record@ == pre + erased_bytes((record@.len() - pre.len()) as nat),
        decreases RECORD_SIZE - record@.len(),
    {
        record.push(0xff);
        assert(record@ =~= pre + erased_bytes((record@.len() - pre.len()) as nat));
    }
    record
}

/// The record and generation held by the pre-commit bytes of a slot.
pub fn validate_pre_commit<P: StoredRecord>(record: &[u8]) -> (decoded: Option<(P, u32)>)
    requires
        record@.len() == PRE_COMMIT_SIZE,
        P::spec_payload_size() <= MAX_PAYLOAD_SIZE,
    ensures
        decoded == decode_pre_commit::<P>(record@),
{
    let magic = P::magic();
    let size = P::payload_size();
    if !starts_with(record, &magic) || read_u16_le(record, 4) != P::schema_version()
        || read_u16_le(record, 6) as usize != size {
        return None;
    }
    let payload = vstd::slice::slice_subrange(record, RECORD_HEADER_SIZE, RECORD_HEADER_SIZE + size);
    let expected_crc = read_u32_le(record, 12);
    if expected_crc != record_crc(vstd::slice::slice_subrange(record, 0, 12), payload) {
        return None;
    }
    match P::decode_payload(payload) {
        Ok(profile) => Some((profile, read_u32_le(record, 8))),
        Err(_) => None,
    }
}

/// The committed record held by the first `RECORD_SIZE` bytes of a slot.
pub fn decode_record<P: StoredRecord>(record: &[u8], slot: Slot) -> (decoded: Option<
    StoredProfile<P>,
>)
    requires
        record@.len() == RECORD_SIZE,
        P::spec_payload_size() <= MAX_PAYLOAD_SIZE,
    ensures
        decoded == decode_slot::<P>(record@, slot),
{
    let pre_commit = RECORD_HEADER_SIZE + P::payload_size();
    let marker = vstd::slice::slice_subrange(record, pre_commit, pre_commit + COMMIT_MARKER_SIZE);
    assert(COMMIT_MARKER@ =~= commit_marker());
    assert(marker@.subrange(0, 8) =~= marker@);
    if !starts_with(marker, &COMMIT_MARKER) {
        return None;
    }
    match validate_pre_commit::<P>(vstd::slice::slice_subrange(record, 0, PRE_COMMIT_SIZE)) {
        Some((profile, generation)) => Some(StoredProfile { profile, generation, slot }),
        None => None,
    }
}


/// The image after erasing the page that starts at `offset`.
pub open spec fn erase_page_image(image: Seq<u8>, offset: int) -> Seq<u8> {
    Seq::new(
        image.len(),
        |i: int|
            if offset <= i < offset + SLOT_SIZE {
                0xffu8
            } else {
                image[i]
            },
    )
}

/// The image after programming a double word at `offset`: flash can only
/// clear bits, so each byte becomes the AND of its old and new value.
pub open spec fn program_image(image: Seq<u8>, offset: int, bytes: Seq<u8>) -> Seq<u8> {
    Seq::new(
        image.len(),
        |i: int|
            if offset <= i < offset + 8 {
                image[i] & bytes[i - offset]
            } else {
                image[i]
            },
    )
}

/// The image with `bytes` placed at `offset`.
pub open spec fn overwrite(image: Seq<u8>, offset: int, bytes: Seq<u8>) -> Seq<u8> {
    Seq::new(
        image.len(),
        |i: int|
            if offset <= i < offset + bytes.len() {
                bytes[i - offset]
            } else {
                image[i]
            },
    )
}

/// The two images agree everywhere outside `[start, start + len)`.
pub open spec fn same_outside(before: Seq<u8>, after: Seq<u8>, start: int, len: int) -> bool {
    &&& after.len() == before.len()
    &&& forall|i: int|
        0 <= i < before.len() && !(start <= i < start + len) ==> #[trigger] after[i] == before[i]
}

/// A flash operation that changes the contents: erasing the page at an
/// offset, or programming the double word at an offset.
#[derive(Clone, Copy, Debug, PartialEq, Eq, Structural)]
pub enum FlashOperation {
    Erase(u32),
    Program(u32),
}

/// One erase or program call as the flash saw it: the operation, whether
/// it succeeded, and the flash contents right after it. A power cut after
/// the call leaves those contents.
pub type FlashStep = (FlashOperation, bool, Seq<u8>);

/// Flash memory as the store sees it: a byte image addressed by absolute
/// offset that can be read, erased a page (`SLOT_SIZE` bytes) at a time,
/// and programmed a double word at a time.
///
/// Implementations promise the contracts below; in particular an erase or
/// program that reports an error may have changed its own page or double
/// word, but nothing else, and every erase or program call is recorded,
/// in order, in `history`. The store's
/// power-loss guarantees are proved from these contracts.
pub trait FlashBackend {
    type Error;

    /// The flash contents, indexed by absolute offset.
    closed spec fn image(&self) -> Seq<u8> {
        arbitrary()
    }

    /// The erase and program calls made so far, oldest first.
    closed spec fn history(&self) -> Seq<FlashStep> {
        arbitrary()
    }

    fn read(&mut self, offset: u32, bytes: &mut [u8]) -> (result: Result<(), Self::Error>)
        ensures
            final(self).image() == old(self).image(),
            final(self).history() == old(self).history(),
            final(bytes)@.len() == old(bytes)@.len(),
            result is Ok ==> offset + old(bytes)@.len() <= old(self).image().len(),
            result is Ok ==> final(bytes)@ == old(self).image().subrange(
                offset as int,
                offset + old(bytes)@.len(),
            ),
    ;

    fn erase_page(&mut self, offset: u32) -> (result: Result<(), Self::Error>)
        ensures
            result is Ok ==> final(self).image() == erase_page_image(old(self).image(), offset as int),
            result is Err ==> same_outside(
                old(self).image(),
                final(self).image(),
                offset as int,
                SLOT_SIZE as int,
            ),
            final(self).history() == old(self).history().push(
                (FlashOperation::Erase(offset), result is Ok, final(self).image()),
            ),
    ;

    fn program_double_word(&mut self, offset: u32, bytes: &[u8; 8]) -> (result: Result<
        (),
        Self::Error,
    >)
        ensures
            result is Ok ==> final(self).image() == program_image(
                old(self).image(),
                offset as int,
                bytes@,
            ),
            result is Err ==> same_outside(old(self).image(), final(self).image(), offset as int, 8),
            final(self).history() == old(self).history().push(
                (FlashOperation::Program(offset), result is Ok, final(self).image()),
            ),
    ;
}

/// Lets several stores share one flash peripheral through reborrowing:
/// stores are constructed on demand over `&mut Backend`.
impl<B: FlashBackend> FlashBackend for &mut B {
    type Error = B::Error;

    open spec fn image(&self) -> Seq<u8> {
        (**self).image()
    }

    open spec fn history(&self) -> Seq<FlashStep> {
        (**self).history()
    }

    fn read(&mut self, offset: u32, bytes: &mut [u8]) -> (result: Result<(), Self::Error>) {
        (**self).read(offset, bytes)
    }

    fn erase_page(&mut self, offset: u32) -> (result: Result<(), Self::Error>) {
        (**self).erase_page(offset)
    }

    fn program_double_word(&mut self, offset: u32, bytes: &[u8; 8]) -> (result: Result<
        (),
        Self::Error,
    >) {
        (**self).program_double_word(offset, bytes)
    }
}

/// The record decodes back from its own payload and compares equal to
/// itself, so a save of it can be read back and confirmed.
pub open spec fn round_trips<P: StoredRecord>(profile: P) -> bool {
    &&& P::spec_decode(profile.spec_payload()) == Some(profile)
    &&& P::obeys_eq_spec()
    &&& profile.eq_spec(&profile)
}

/// What a save promises, whatever the flash backend reports: `before` and
/// `after` are the flash images around the call.
pub open spec fn save_guarantee<P: StoredRecord, E>(
    before: Seq<u8>,
    after: Seq<u8>,
    layout: SlotLayout,
    profile: P,
    force: bool,
    result: Result<SaveOutcome, StoreError<E>>,
) -> bool {
    let previous = latest_record::<P>(before, layout);
    let target = next_save(previous).0;
    let generation = next_save(previous).1;
    let base = layout.base(target) as int;
    let storable = P::spec_payload_size() <= MAX_PAYLOAD_SIZE && profile.spec_valid();
    let unchanged = !force && (previous matches Some(current)
        && current.profile.spec_payload() == profile.spec_payload());
    let saved = saved_record::<P>(profile, generation, target);
    &&& (result matches Err(StoreError::Invalid)) <==> !storable
    &&& (storable && unchanged) ==> (result is Ok ==> result matches Ok(SaveOutcome::Unchanged { .. }))
    &&& match result {
        Err(StoreError::Invalid) => after == before,
        Ok(SaveOutcome::Unchanged { generation: found, slot }) => {
            &&& unchanged
            &&& previous matches Some(current) && found == current.generation && slot
                == current.slot
            &&& after == before
        },
        Ok(SaveOutcome::Saved { generation: written, slot }) => {
            &&& !unchanged
            &&& written == generation
            &&& slot == target
            &&& saved matches Some(record) && record.generation == written && record.slot == slot
                && (P::obeys_eq_spec() ==> record.profile.eq_spec(&profile))
            &&& layout.separated() ==> latest_record::<P>(after, layout) == saved
            &&& same_outside(before, after, base, SLOT_SIZE as int)
        },
        Err(StoreError::Erase(_)) => {
            &&& !unchanged
            &&& same_outside(before, after, base, SLOT_SIZE as int)
        },
        Err(StoreError::Program(_)) => {
            &&& !unchanged
            &&& layout.separated() ==> (latest_record::<P>(after, layout) == previous
                || latest_record::<P>(after, layout) == saved)
            &&& same_outside(before, after, base, SLOT_SIZE as int)
        },
        Err(StoreError::Read(_)) => {
            &&& layout.separated() ==> (latest_record::<P>(after, layout) == previous
                || latest_record::<P>(after, layout) == saved)
            &&& same_outside(before, after, base, SLOT_SIZE as int)
        },
        Err(StoreError::Verify) => {
            &&& !unchanged
            &&& !round_trips::<P>(profile)
            &&& layout.separated() ==> (latest_record::<P>(after, layout) == previous
                || latest_record::<P>(after, layout) == saved)
            &&& same_outside(before, after, base, SLOT_SIZE as int)
        },
    }
    &&& (layout.separated() && previous is Some) ==> slot_record::<P>(after, layout, previous->0.slot)
        == previous
}

/// `after` is `before` with more calls recorded after it.
pub open spec fn log_extends(before: Seq<FlashStep>, after: Seq<FlashStep>) -> bool {
    &&& before.len() <= after.len()
    &&& after.take(before.len() as int) == before
}

/// The calls recorded in `after` beyond those of `before`.
pub open spec fn appended(before: Seq<FlashStep>, after: Seq<FlashStep>) -> Seq<FlashStep> {
    after.skip(before.len() as int)
}

/// Where a save of `profile` over the flash image `before` programs its
/// commit marker.
pub open spec fn commit_offset<P: StoredRecord>(before: Seq<u8>, layout: SlotLayout) -> u32 {
    let target = next_save(latest_record::<P>(before, layout)).0;
    (layout.base(target) + RECORD_HEADER_SIZE + P::spec_payload_size()) as u32
}

/// The erase and program calls a save of `profile` makes over the flash
/// image `before`, each with the flash contents it leaves: erase the target
/// page, program the header and payload a double word at a time, then
/// program the commit marker.
pub open spec fn planned_write<P: StoredRecord>(before: Seq<u8>, layout: SlotLayout, profile: P) -> Seq<
    (FlashOperation, Seq<u8>),
> {
    let previous = latest_record::<P>(before, layout);
    let target = next_save(previous).0;
    let generation = next_save(previous).1;
    let base = layout.base(target) as int;
    let record = uncommitted_record::<P>(profile, generation);
    let chunks = ((RECORD_HEADER_SIZE + P::spec_payload_size()) / 8) as nat;
    let erased = erase_page_image(before, base);
    seq![(FlashOperation::Erase(base as u32), erased)] + Seq::new(
        chunks,
        |k: int|
            (
                FlashOperation::Program((base + 8 * k) as u32),
                overwrite(erased, base, record.take(8 * k + 8)),
            ),
    ) + seq![
        (
            FlashOperation::Program(commit_offset::<P>(before, layout)),
            program_image(
                overwrite(erased, base, record.take((8 * chunks) as int)),
                commit_offset::<P>(before, layout) as int,
                commit_marker(),
            ),
        ),
    ]
}

/// `steps` are the first planned calls, each of which succeeded.
pub open spec fn followed_plan(steps: Seq<FlashStep>, planned: Seq<(FlashOperation, Seq<u8>)>) -> bool {
    &&& steps.len() <= planned.len()
    &&& forall|i: int| 0 <= i < steps.len() ==> #[trigger] steps[i] == (planned[i].0, true, planned[i].1)
}

/// `steps` follow the plan up to their last call, which failed and left
/// the flash as it was before it.
pub open spec fn failed_last_step(before: Seq<u8>, steps: Seq<FlashStep>, planned: Seq<(FlashOperation, Seq<u8>)>) -> bool {
    let n = steps.len() as int;
    &&& 0 < n <= planned.len()
    &&& followed_plan(steps.drop_last(), planned)
    &&& steps[n - 1].0 == planned[n - 1].0
    &&& !steps[n - 1].1
    &&& same_outside(
        if n == 1 {
            before
        } else {
            planned[n - 2].1
        },
        steps[n - 1].2,
        touched_region(planned[n - 1].0).0,
        touched_region(planned[n - 1].0).1,
    )
}

/// The bytes an operation may change: the page it erases or the double
/// word it programs, as a start and a length.
pub open spec fn touched_region(operation: FlashOperation) -> (int, int) {
    match operation {
        FlashOperation::Erase(offset) => (offset as int, SLOT_SIZE as int),
        FlashOperation::Program(offset) => (offset as int, 8),
    }
}

/// The flash after a save is what its last erase or program call left,
/// or what it was before when it made none.
pub open spec fn flash_after_steps(before: Seq<u8>, after: Seq<u8>, steps: Seq<FlashStep>) -> bool {
    after == if steps.len() == 0 {
        before
    } else {
        steps.last().2
    }
}

/// The erase and program calls a save made, given what it returned: none
/// when it wrote nothing; when it saved, every planned call in order,
/// each successful, the commit marker last; when a flash call failed,
/// the planned calls up to that one, and the error names it (an erase
/// error for the erase, a program error for a program); after a read
/// or verify failure, the planned calls up to the read, all successful.
pub open spec fn save_steps<P: StoredRecord, E>(
    before: Seq<u8>,
    layout: SlotLayout,
    profile: P,
    steps: Seq<FlashStep>,
    result: Result<SaveOutcome, StoreError<E>>,
) -> bool {
    let planned = planned_write::<P>(before, layout, profile);
    match result {
        Ok(SaveOutcome::Saved { .. }) => followed_plan(steps, planned) && steps.len() == planned.len(),
        Ok(SaveOutcome::Unchanged { .. }) => steps.len() == 0,
        Err(StoreError::Invalid) => steps.len() == 0,
        Err(StoreError::Erase(_)) => failed_last_step(before, steps, planned) && steps.len() == 1,
        Err(StoreError::Program(_)) => failed_last_step(before, steps, planned) && steps.len() > 1,
        Err(StoreError::Read(_)) => followed_plan(steps, planned) && (steps.len() == 0
            || steps.len() == planned.len() - 1 || steps.len() == planned.len()),
        Err(StoreError::Verify) => followed_plan(steps, planned) && (steps.len() == planned.len()
            - 1 || steps.len() == planned.len()),
    }
}

/// A power cut after any call of a save leaves a record. The record that
/// was newest before the save stays in its slot throughout. After any call
/// other than a failed erase (which may leave the target page in any
/// state), the newest record is still that one until the commit marker is
/// programmed, and that one or the saved one afterwards.
pub open spec fn keeps_a_record<P: StoredRecord>(
    before: Seq<u8>,
    layout: SlotLayout,
    profile: P,
    steps: Seq<FlashStep>,
) -> bool {
    let previous = latest_record::<P>(before, layout);
    let target = next_save(previous).0;
    let generation = next_save(previous).1;
    let saved = saved_record::<P>(profile, generation, target);
    let last = planned_write::<P>(before, layout, profile).len() - 1;
    layout.separated() ==> forall|i: int|
        0 <= i < steps.len() ==> {
            &&& previous is Some ==> slot_record::<P>(#[trigger] steps[i].2, layout, previous->0.slot)
                == previous
            &&& !(steps[i].0 is Erase && !steps[i].1) ==> {
                &&& i < last ==> latest_record::<P>(steps[i].2, layout) == previous
                &&& latest_record::<P>(steps[i].2, layout) == previous || latest_record::<P>(
                    steps[i].2,
                    layout,
                ) == saved
            }
        }
}

/// The planned calls in order: the erase of the target page, the programs
/// of the header and payload, then the commit marker.
proof fn lemma_planned_write_index<P: StoredRecord>(before: Seq<u8>, layout: SlotLayout, profile: P)
    ensures
        ({
            let planned = planned_write::<P>(before, layout, profile);
            let previous = latest_record::<P>(before, layout);
            let target = next_save(previous).0;
            let generation = next_save(previous).1;
            let base = layout.base(target) as int;
            let record = uncommitted_record::<P>(profile, generation);
            let chunks = ((RECORD_HEADER_SIZE + P::spec_payload_size()) / 8) as int;
            let erased = erase_page_image(before, base);
            &&& planned.len() == chunks + 2
            &&& planned[0] == (FlashOperation::Erase(base as u32), erased)
            &&& forall|k: int|
                0 <= k < chunks ==> #[trigger] planned[k + 1] == (
                    FlashOperation::Program((base + 8 * k) as u32),
                    overwrite(erased, base, record.take(8 * k + 8)),
                )
            &&& planned[chunks + 1] == (
                FlashOperation::Program(commit_offset::<P>(before, layout)),
                program_image(
                    overwrite(erased, base, record.take(8 * chunks)),
                    commit_offset::<P>(before, layout) as int,
                    commit_marker(),
                ),
            )
        }),
{
}

proof fn lemma_same_outside_refl(image: Seq<u8>)
    ensures
        forall|start: int, len: int| same_outside(image, image, start, len),
{
}

proof fn lemma_overwrite_nothing(image: Seq<u8>, offset: int)
    ensures
        overwrite(image, offset, Seq::<u8>::empty()) == image,
{
    assert(overwrite(image, offset, Seq::<u8>::empty()) =~= image);
}

proof fn lemma_erased_byte_and(value: u8)
    ensures
        0xffu8 & value == value,
{
    assert(0xffu8 & value == value) by (bit_vector);
}

/// Two zero-padded payload buffers are equal exactly when the payloads are.
proof fn lemma_padded_payloads<P: StoredRecord>(a: P, b: P, padded_a: Seq<u8>, padded_b: Seq<u8>)
    requires
        P::spec_payload_size() <= MAX_PAYLOAD_SIZE,
        padded_a.len() == MAX_PAYLOAD_SIZE,
        padded_b.len() == MAX_PAYLOAD_SIZE,
        padded_a.subrange(0, P::spec_payload_size() as int) == a.spec_payload(),
        padded_b.subrange(0, P::spec_payload_size() as int) == b.spec_payload(),
        forall|k: int| P::spec_payload_size() <= k < MAX_PAYLOAD_SIZE ==> padded_a[k] == 0,
        forall|k: int| P::spec_payload_size() <= k < MAX_PAYLOAD_SIZE ==> padded_b[k] == 0,
    ensures
        (padded_a == padded_b) <==> (a.spec_payload() == b.spec_payload()),
{
    if a.spec_payload() == b.spec_payload() {
        assert forall|k: int| 0 <= k < MAX_PAYLOAD_SIZE implies padded_a[k] == padded_b[k] by {
            if k < P::spec_payload_size() {
                assert(padded_a[k] == padded_a.subrange(0, P::spec_payload_size() as int)[k]);
                assert(padded_b[k] == padded_b.subrange(0, P::spec_payload_size() as int)[k]);
            }
        }
        assert(padded_a =~= padded_b);
    }
}

/// Programming the next chunk of a record over an erased page extends the
/// record prefix in flash by that chunk.
proof fn lemma_program_step(before: Seq<u8>, base: int, record: Seq<u8>, index: int)
    requires
        record.len() == RECORD_SIZE,
        0 <= index,
        8 * index + 8 <= PRE_COMMIT_SIZE,
    ensures
        program_image(
            overwrite(erase_page_image(before, base), base, record.take(8 * index)),
            base + 8 * index,
            record.subrange(8 * index, 8 * index + 8),
        ) == overwrite(erase_page_image(before, base), base, record.take(8 * index + 8)),
{
    let erased = erase_page_image(before, base);
    let left = program_image(
        overwrite(erased, base, record.take(8 * index)),
        base + 8 * index,
        record.subrange(8 * index, 8 * index + 8),
    );
    let right = overwrite(erased, base, record.take(8 * index + 8));
    assert forall|i: int| 0 <= i < left.len() implies left[i] == right[i] by {
        if base + 8 * index <= i < base + 8 * index + 8 {
            lemma_erased_byte_and(record[i - base]);
        }
    }
    assert(left =~= right);
}

/// The record a save commits, decoded from its committed bytes, carries
/// the generation it was written with.
proof fn lemma_saved_generation<P: StoredRecord>(profile: P, generation: u32, slot: Slot)
    requires
        P::spec_magic().len() == 4,
        P::spec_payload_size() <= MAX_PAYLOAD_SIZE,
        profile.spec_payload().len() == P::spec_payload_size(),
    ensures
        saved_record::<P>(profile, generation, slot) matches Some(record) ==> record.generation
            == generation && record.slot == slot,
        committed_record::<P>(profile, generation).len() == RECORD_SIZE,
        uncommitted_record::<P>(profile, generation).len() == RECORD_SIZE,
        pre_commit_bytes::<P>(profile, generation).len() == RECORD_HEADER_SIZE
            + P::spec_payload_size(),
{
    let bytes = committed_record::<P>(profile, generation);
    let pre = bytes.subrange(0, PRE_COMMIT_SIZE as int);
    assert(pre.subrange(8, 12) =~= u32_le(generation));
    crate::bytes::lemma_u32_round_trip(generation);
    assert(u32_at(pre, 8) == u32_at(u32_le(generation), 0));
}

/// While the target slot's commit marker is still erased, the slot holds no
/// record and the newest record is the one that was newest before the save.
proof fn lemma_unfinished_slot<P: StoredRecord>(
    before: Seq<u8>,
    image: Seq<u8>,
    layout: SlotLayout,
    previous: Option<StoredProfile<P>>,
    target: Slot,
    profile: P,
    generation: u32,
    written: Seq<u8>,
)
    requires
        P::spec_payload_size() <= MAX_PAYLOAD_SIZE,
        previous == latest_record::<P>(before, layout),
        (target, generation) == next_save(previous),
        image == overwrite(erase_page_image(before, layout.base(target) as int), layout.base(target) as int, written),
        written.len() <= RECORD_HEADER_SIZE + P::spec_payload_size(),
    ensures
        same_outside(before, image, layout.base(target) as int, SLOT_SIZE as int),
        layout.separated() ==> latest_record::<P>(image, layout) == previous,
        (layout.separated() && previous is Some) ==> slot_record::<P>(image, layout, previous->0.slot)
            == previous,
{
    let base = layout.base(target) as int;
    assert(same_outside(before, image, base, SLOT_SIZE as int));
    let pre = RECORD_HEADER_SIZE + P::spec_payload_size();
    if base + RECORD_SIZE <= image.len() {
        assert(image[base + pre] == 0xffu8);
    }
    lemma_marker_erased::<P>(before, image, layout, previous, target);
}

/// A save only changes its target page, so the record that was newest
/// before it stays in its slot.
proof fn lemma_previous_kept<P: StoredRecord>(
    before: Seq<u8>,
    image: Seq<u8>,
    layout: SlotLayout,
    previous: Option<StoredProfile<P>>,
    target: Slot,
)
    requires
        previous == latest_record::<P>(before, layout),
        target == next_save(previous).0,
        layout.separated(),
        same_outside(before, image, layout.base(target) as int, SLOT_SIZE as int),
    ensures
        previous is Some ==> slot_record::<P>(image, layout, previous->0.slot) == previous,
{
    lemma_other_slot_kept::<P>(before, image, layout, target);
    lemma_previous_comes_from_other_slot::<P>(before, layout, previous, target);
    lemma_slot_tag::<P>(before, layout, Slot::A);
    lemma_slot_tag::<P>(before, layout, Slot::B);
}

/// With the first byte of the target slot's commit marker still erased,
/// the slot holds no record, so the newest record is the one that was
/// newest before the save, still in its slot.
proof fn lemma_marker_erased<P: StoredRecord>(
    before: Seq<u8>,
    image: Seq<u8>,
    layout: SlotLayout,
    previous: Option<StoredProfile<P>>,
    target: Slot,
)
    requires
        P::spec_payload_size() <= MAX_PAYLOAD_SIZE,
        previous == latest_record::<P>(before, layout),
        target == next_save(previous).0,
        same_outside(before, image, layout.base(target) as int, SLOT_SIZE as int),
        layout.base(target) + RECORD_SIZE <= image.len() ==> image[layout.base(target)
            + RECORD_HEADER_SIZE + P::spec_payload_size()] == 0xffu8,
    ensures
        layout.separated() ==> latest_record::<P>(image, layout) == previous,
        (layout.separated() && previous is Some) ==> slot_record::<P>(image, layout, previous->0.slot)
            == previous,
{
    let base = layout.base(target) as int;
    if layout.separated() {
        lemma_other_slot_kept::<P>(before, image, layout, target);
        lemma_previous_kept::<P>(before, image, layout, previous, target);
        let pre = RECORD_HEADER_SIZE + P::spec_payload_size();
        if base + RECORD_SIZE <= image.len() {
            let bytes = image.subrange(base, base + RECORD_SIZE);
            assert(bytes[pre as int] == 0xffu8);
            assert(bytes.subrange(pre as int, pre + COMMIT_MARKER_SIZE)[0] == 0xffu8);
            assert(commit_marker()[0] == 0x43u8);
        }
        assert(slot_record::<P>(image, layout, target) is None);
        lemma_previous_comes_from_other_slot::<P>(before, layout, previous, target);
    }
}

/// Changes confined to a part of a region stay confined to the region.
proof fn lemma_same_outside_within(a: Seq<u8>, b: Seq<u8>, c: Seq<u8>, start: int, len: int, inner: int, inner_len: int)
    requires
        same_outside(a, b, start, len),
        same_outside(b, c, inner, inner_len),
        start <= inner,
        inner + inner_len <= start + len,
    ensures
        same_outside(a, c, start, len),
{
}

/// The slot a save does not target keeps its record.
proof fn lemma_other_slot_kept<P: StoredRecord>(
    before: Seq<u8>,
    after: Seq<u8>,
    layout: SlotLayout,
    target: Slot,
)
    requires
        layout.separated(),
        same_outside(before, after, layout.base(target) as int, SLOT_SIZE as int),
    ensures
        ({
            let other = if target == Slot::A { Slot::B } else { Slot::A };
            slot_record::<P>(after, layout, other) == slot_record::<P>(before, layout, other)
        }),
{
    let other = if target == Slot::A { Slot::B } else { Slot::A };
    let base = layout.base(other) as int;
    if base + RECORD_SIZE <= before.len() {
        assert(after.subrange(base, base + RECORD_SIZE) =~= before.subrange(base, base + RECORD_SIZE));
    }
}

/// Decoded slots carry the slot they were read from.
proof fn lemma_slot_tag<P: StoredRecord>(image: Seq<u8>, layout: SlotLayout, slot: Slot)
    ensures
        slot_record::<P>(image, layout, slot) matches Some(record) ==> record.slot == slot,
{
}

/// The newest record before a save lies in the slot the save does not
/// target; when there was none, neither slot held a record.
proof fn lemma_previous_comes_from_other_slot<P: StoredRecord>(
    before: Seq<u8>,
    layout: SlotLayout,
    previous: Option<StoredProfile<P>>,
    target: Slot,
)
    requires
        previous == latest_record::<P>(before, layout),
        target == next_save(previous).0,
    ensures
        ({
            let other = if target == Slot::A { Slot::B } else { Slot::A };
            &&& previous is Some ==> slot_record::<P>(before, layout, other) == previous
            &&& previous is None ==> slot_record::<P>(before, layout, Slot::A) is None
                && slot_record::<P>(before, layout, Slot::B) is None
        }),
{
    lemma_slot_tag::<P>(before, layout, Slot::A);
    lemma_slot_tag::<P>(before, layout, Slot::B);
}

/// Once the pre-commit bytes have been read back equal to the record, the
/// flash holds the whole pre-commit part of the record.
proof fn lemma_pre_commit_in_flash(
    erased: Seq<u8>,
    programmed: Seq<u8>,
    base: int,
    record: Seq<u8>,
    pre: int,
    readback: Seq<u8>,
    written: int,
)
    requires
        record.len() == RECORD_SIZE,
        0 <= written <= pre <= PRE_COMMIT_SIZE,
        0 <= base,
        base + PRE_COMMIT_SIZE <= programmed.len(),
        programmed == overwrite(erased, base, record.take(written)),
        readback == programmed.subrange(base, base + PRE_COMMIT_SIZE),
        readback.subrange(0, pre) == record.subrange(0, pre),
    ensures
        programmed == overwrite(erased, base, record.take(pre)),
{
    let full = overwrite(erased, base, record.take(pre));
    assert forall|i: int| 0 <= i < programmed.len() implies programmed[i] == full[i] by {
        if base + written <= i < base + pre {
            assert(readback[i - base] == programmed[i]);
            assert(readback.subrange(0, pre)[i - base] == record.subrange(0, pre)[i - base]);
        }
    }
    assert(programmed =~= full);
}

/// Whether pre-commit bytes hold a record depends only on the header and
/// payload, not on the bytes after them.
proof fn lemma_decode_pre_commit_prefix<P: StoredRecord>(x: Seq<u8>, y: Seq<u8>)
    requires
        P::spec_payload_size() <= MAX_PAYLOAD_SIZE,
        x.len() == PRE_COMMIT_SIZE,
        y.len() == PRE_COMMIT_SIZE,
        x.subrange(0, RECORD_HEADER_SIZE + P::spec_payload_size()) == y.subrange(
            0,
            RECORD_HEADER_SIZE + P::spec_payload_size(),
        ),
    ensures
        decode_pre_commit::<P>(x) == decode_pre_commit::<P>(y),
{
    let pre = RECORD_HEADER_SIZE + P::spec_payload_size();
    assert forall|k: int| 0 <= k < pre implies x[k] == y[k] by {
        assert(x.subrange(0, pre)[k] == y.subrange(0, pre)[k]);
    }
    assert(x.subrange(0, 4) =~= y.subrange(0, 4));
    assert(x.subrange(0, 12) =~= y.subrange(0, 12));
    assert(x.subrange(RECORD_HEADER_SIZE as int, pre) =~= y.subrange(RECORD_HEADER_SIZE as int, pre));
}

/// With whole double words, the read-back pre-commit bytes equal the record
/// and fail to decode only when the committed record would not decode.
proof fn lemma_pre_commit_readback<P: StoredRecord>(
    erased: Seq<u8>,
    programmed: Seq<u8>,
    base: int,
    profile: P,
    generation: u32,
    readback: Seq<u8>,
    written: int,
    slot: Slot,
)
    requires
        P::spec_magic().len() == 4,
        P::spec_payload_size() <= MAX_PAYLOAD_SIZE,
        profile.spec_payload().len() == P::spec_payload_size(),
        written == 8 * ((RECORD_HEADER_SIZE + P::spec_payload_size()) / 8),
        0 <= base,
        base + PRE_COMMIT_SIZE <= programmed.len(),
        programmed == overwrite(erased, base, uncommitted_record::<P>(profile, generation).take(written)),
        readback == programmed.subrange(base, base + PRE_COMMIT_SIZE),
    ensures
        P::spec_payload_size() % 8 == 0 ==> {
            let pre = RECORD_HEADER_SIZE + P::spec_payload_size();
            &&& readback.subrange(0, pre) == uncommitted_record::<P>(profile, generation).subrange(0, pre)
            &&& decode_pre_commit::<P>(readback) is None ==> saved_record::<P>(profile, generation, slot) is None
        },
{
    lemma_saved_generation::<P>(profile, generation, slot);
    if P::spec_payload_size() % 8 == 0 {
        let pre = RECORD_HEADER_SIZE + P::spec_payload_size();
        let record = uncommitted_record::<P>(profile, generation);
        let committed = committed_record::<P>(profile, generation);
        assert(written == pre);
        assert(readback.subrange(0, pre) =~= record.subrange(0, pre));
        assert(committed.subrange(0, pre) =~= record.subrange(0, pre));
        let committed_pre = committed.subrange(0, PRE_COMMIT_SIZE as int);
        assert(committed_pre.subrange(0, pre) =~= readback.subrange(0, pre));
        lemma_decode_pre_commit_prefix::<P>(readback, committed_pre);
    }
}

/// After the commit marker has been programmed, the target slot holds the
/// committed record, and the newest record is the saved one whenever it
/// decodes.
proof fn lemma_committed_slot<P: StoredRecord>(
    before: Seq<u8>,
    erased: Seq<u8>,
    programmed: Seq<u8>,
    committed: Seq<u8>,
    layout: SlotLayout,
    previous: Option<StoredProfile<P>>,
    target: Slot,
    profile: P,
    generation: u32,
)
    requires
        P::spec_magic().len() == 4,
        P::spec_payload_size() <= MAX_PAYLOAD_SIZE,
        profile.spec_payload().len() == P::spec_payload_size(),
        previous == latest_record::<P>(before, layout),
        (target, generation) == next_save(previous),
        erased == erase_page_image(before, layout.base(target) as int),
        programmed == overwrite(
            erased,
            layout.base(target) as int,
            uncommitted_record::<P>(profile, generation).take(RECORD_HEADER_SIZE + P::spec_payload_size()),
        ),
        committed == program_image(
            programmed,
            layout.base(target) + RECORD_HEADER_SIZE + P::spec_payload_size(),
            commit_marker(),
        ),
    ensures
        same_outside(before, committed, layout.base(target) as int, SLOT_SIZE as int),
        slot_record::<P>(committed, layout, target) == if layout.base(target) + RECORD_SIZE
            <= before.len() {
            saved_record::<P>(profile, generation, target)
        } else {
            None
        },
        layout.separated() ==> latest_record::<P>(committed, layout) == if slot_record::<P>(
            committed,
            layout,
            target,
        ) is Some {
            saved_record::<P>(profile, generation, target)
        } else {
            previous
        },
{
    let base = layout.base(target) as int;
    let pre = RECORD_HEADER_SIZE + P::spec_payload_size();
    let record = uncommitted_record::<P>(profile, generation);
    lemma_saved_generation::<P>(profile, generation, target);
    assert(same_outside(before, committed, base, SLOT_SIZE as int));
    if base + RECORD_SIZE <= before.len() {
        let expected = committed_record::<P>(profile, generation);
        let actual = committed.subrange(base, base + RECORD_SIZE);
        assert forall|k: int| 0 <= k < RECORD_SIZE implies actual[k] == expected[k] by {
            if pre <= k < pre + 8 {
                lemma_erased_byte_and(commit_marker()[k - pre]);
            }
        }
        assert(actual =~= expected);
    }
    if layout.separated() {
        lemma_other_slot_kept::<P>(before, committed, layout, target);
        lemma_previous_comes_from_other_slot::<P>(before, layout, previous, target);
    }
}

/// A failed program of the commit marker may leave any bytes in the marker
/// but changes nothing else: the target slot then holds either no record
/// or the saved one, so the newest record is the previous one or the saved
/// one, and the previous one stays in its slot.
proof fn lemma_marker_interrupted<P: StoredRecord>(
    before: Seq<u8>,
    erased: Seq<u8>,
    programmed: Seq<u8>,
    image: Seq<u8>,
    layout: SlotLayout,
    previous: Option<StoredProfile<P>>,
    target: Slot,
    profile: P,
    generation: u32,
)
    requires
        P::spec_magic().len() == 4,
        P::spec_payload_size() <= MAX_PAYLOAD_SIZE,
        profile.spec_payload().len() == P::spec_payload_size(),
        previous == latest_record::<P>(before, layout),
        (target, generation) == next_save(previous),
        erased == erase_page_image(before, layout.base(target) as int),
        programmed == overwrite(
            erased,
            layout.base(target) as int,
            uncommitted_record::<P>(profile, generation).take(RECORD_HEADER_SIZE + P::spec_payload_size()),
        ),
        same_outside(
            programmed,
            image,
            layout.base(target) + RECORD_HEADER_SIZE + P::spec_payload_size(),
            8,
        ),
    ensures
        same_outside(before, image, layout.base(target) as int, SLOT_SIZE as int),
        layout.separated() ==> (latest_record::<P>(image, layout) == previous || latest_record::<P>(
            image,
            layout,
        ) == saved_record::<P>(profile, generation, target)),
        (layout.separated() && previous is Some) ==> slot_record::<P>(image, layout, previous->0.slot)
            == previous,
{
    let base = layout.base(target) as int;
    let pre = RECORD_HEADER_SIZE + P::spec_payload_size();
    let committed = program_image(programmed, base + pre, commit_marker());
    lemma_committed_slot::<P>(before, erased, programmed, committed, layout, previous, target,
        profile, generation);
    assert(same_outside(before, programmed, base, SLOT_SIZE as int));
    lemma_same_outside_within(before, programmed, image, base, SLOT_SIZE as int, base + pre, 8);
    if layout.separated() {
        lemma_previous_kept::<P>(before, image, layout, previous, target);
        lemma_other_slot_kept::<P>(before, image, layout, target);
        lemma_other_slot_kept::<P>(before, committed, layout, target);
        lemma_previous_comes_from_other_slot::<P>(before, layout, previous, target);
        if base + RECORD_SIZE <= image.len() {
            let bytes = image.subrange(base, base + RECORD_SIZE);
            let done = committed.subrange(base, base + RECORD_SIZE);
            if bytes.subrange(pre as int, pre + COMMIT_MARKER_SIZE) == commit_marker() {
                assert(bytes.subrange(pre as int, pre + COMMIT_MARKER_SIZE) =~= done.subrange(
                    pre as int,
                    pre + COMMIT_MARKER_SIZE,
                )) by {
                    assert forall|k: int| 0 <= k < 8 implies done[pre + k] == commit_marker()[k] by {
                        lemma_erased_byte_and(commit_marker()[k]);
                    }
                }
                let x = bytes.subrange(0, PRE_COMMIT_SIZE as int);
                let y = done.subrange(0, PRE_COMMIT_SIZE as int);
                assert(x.subrange(0, pre as int) =~= y.subrange(0, pre as int));
                lemma_decode_pre_commit_prefix::<P>(x, y);
                assert(slot_record::<P>(image, layout, target) == slot_record::<P>(
                    committed,
                    layout,
                    target,
                ));
            } else {
                assert(slot_record::<P>(image, layout, target) is None);
            }
        }
    }
}

/// What writing a new record promises, whatever the flash backend reports.
pub open spec fn write_outcome<P: StoredRecord, E>(
    before: Seq<u8>,
    after: Seq<u8>,
    layout: SlotLayout,
    profile: P,
    result: Result<SaveOutcome, StoreError<E>>,
) -> bool {
    let previous = latest_record::<P>(before, layout);
    let target = next_save(previous).0;
    let generation = next_save(previous).1;
    let base = layout.base(target) as int;
    let saved = saved_record::<P>(profile, generation, target);
    &&& same_outside(before, after, base, SLOT_SIZE as int)
    &&& match result {
        Ok(SaveOutcome::Saved { generation: written, slot }) => {
            &&& written == generation
            &&& slot == target
            &&& saved matches Some(record) && record.generation == written && record.slot == slot
                && (P::obeys_eq_spec() ==> record.profile.eq_spec(&profile))
            &&& layout.separated() ==> latest_record::<P>(after, layout) == saved
        },
        Ok(SaveOutcome::Unchanged { .. }) => false,
        Err(StoreError::Erase(_)) => true,
        Err(StoreError::Program(_)) | Err(StoreError::Read(_)) => layout.separated() ==> (
        latest_record::<P>(after, layout) == previous || latest_record::<P>(after, layout)
            == saved),
        Err(StoreError::Verify) => !round_trips::<P>(profile) && (layout.separated() ==> (
        latest_record::<P>(after, layout) == previous || latest_record::<P>(after, layout)
            == saved)),
        Err(StoreError::Invalid) => false,
    }
    &&& (layout.separated() && previous is Some) ==> slot_record::<P>(after, layout, previous->0.slot)
        == previous
}

proof fn lemma_write_gives_save_guarantee<P: StoredRecord, E>(
    before: Seq<u8>,
    after: Seq<u8>,
    layout: SlotLayout,
    profile: P,
    force: bool,
    result: Result<SaveOutcome, StoreError<E>>,
)
    requires
        P::spec_payload_size() <= MAX_PAYLOAD_SIZE,
        profile.spec_valid(),
        !(!force && (latest_record::<P>(before, layout) matches Some(current)
            && current.profile.spec_payload() == profile.spec_payload())),
        write_outcome::<P, E>(before, after, layout, profile, result),
    ensures
        save_guarantee::<P, E>(before, after, layout, profile, force, result),
{
}

/// Dual-slot store of records of type `P` on a flash backend `B`.
pub struct ParameterStore<B, P> {
    backend: B,
    layout: SlotLayout,
    record: core::marker::PhantomData<P>,
}

impl<B: FlashBackend, P: StoredRecord> ParameterStore<B, P> {
    /// The flash contents under the store.
    pub closed spec fn flash(&self) -> Seq<u8> {
        self.backend.image()
    }

    /// The erase and program calls made on the flash so far.
    pub closed spec fn flash_log(&self) -> Seq<FlashStep> {
        self.backend.history()
    }

    /// The slot layout the store uses.
    pub closed spec fn slots(&self) -> SlotLayout {
        self.layout
    }

    /// The newest committed record in the store's slots.
    pub open spec fn latest(&self) -> Option<StoredProfile<P>> {
        latest_record::<P>(self.flash(), self.slots())
    }

    /// A store over the control-profile slots.
    pub fn new(backend: B) -> (store: Self)
        ensures
            store.flash() == backend.image(),
            store.slots() == profile_slot_layout(),
    {
        Self::new_with_layout(backend, profile_layout())
    }

    pub fn new_with_layout(backend: B, layout: SlotLayout) -> (store: Self)
        ensures
            store.flash() == backend.image(),
            store.slots() == layout,
    {
        Self { backend, layout, record: core::marker::PhantomData }
    }

    pub fn into_inner(self) -> (backend: B)
        ensures
            backend.image() == self.flash(),
    {
        self.backend
    }

    /// The newest committed record, or `None` when neither slot holds one.
    pub fn load_latest(&mut self) -> (result: Result<Option<StoredProfile<P>>, StoreError<B::Error>>)
        requires
            P::spec_payload_size() <= MAX_PAYLOAD_SIZE,
        ensures
            final(self).flash() == old(self).flash(),
            final(self).slots() == old(self).slots(),
            final(self).flash_log() == old(self).flash_log(),
            match result {
                Ok(found) => found == old(self).latest(),
                Err(error) => error is Read,
            },
    {
        let (slot_a, slot_b) = match self.scan() {
            Ok(found) => found,
            Err(error) => return Err(error),
        };
        Ok(select_latest(slot_a, slot_b))
    }

    /// Saves `profile` unless the newest record already holds the same
    /// payload.
    pub fn save(&mut self, profile: &P) -> (result: Result<SaveOutcome, StoreError<B::Error>>)
        requires
            old(self).slots().addressable(),
        ensures
            final(self).slots() == old(self).slots(),
            save_guarantee::<P, B::Error>(
                old(self).flash(),
                final(self).flash(),
                old(self).slots(),
                *profile,
                false,
                result,
            ),
            log_extends(old(self).flash_log(), final(self).flash_log()),
            save_steps::<P, B::Error>(
                old(self).flash(),
                old(self).slots(),
                *profile,
                appended(old(self).flash_log(), final(self).flash_log()),
                result,
            ),
            keeps_a_record::<P>(
                old(self).flash(),
                old(self).slots(),
                *profile,
                appended(old(self).flash_log(), final(self).flash_log()),
            ),
            flash_after_steps(
                old(self).flash(),
                final(self).flash(),
                appended(old(self).flash_log(), final(self).flash_log()),
            ),
    {
        self.save_inner(profile, false)
    }

    /// Saves `profile` as a new record even when the newest record holds
    /// the same payload.
    pub fn force_save(&mut self, profile: &P) -> (result: Result<SaveOutcome, StoreError<B::Error>>)
        requires
            old(self).slots().addressable(),
        ensures
            final(self).slots() == old(self).slots(),
            save_guarantee::<P, B::Error>(
                old(self).flash(),
                final(self).flash(),
                old(self).slots(),
                *profile,
                true,
                result,
            ),
            log_extends(old(self).flash_log(), final(self).flash_log()),
            save_steps::<P, B::Error>(
                old(self).flash(),
                old(self).slots(),
                *profile,
                appended(old(self).flash_log(), final(self).flash_log()),
                result,
            ),
            keeps_a_record::<P>(
                old(self).flash(),
                old(self).slots(),
                *profile,
                appended(old(self).flash_log(), final(self).flash_log()),
            ),
            flash_after_steps(
                old(self).flash(),
                final(self).flash(),
                appended(old(self).flash_log(), final(self).flash_log()),
            ),
    {
        self.save_inner(profile, true)
    }

    fn save_inner(&mut self, profile: &P, force: bool) -> (result: Result<
        SaveOutcome,
        StoreError<B::Error>,
    >)
        requires
            old(self).slots().addressable(),
        ensures
            final(self).slots() == old(self).slots(),
            save_guarantee::<P, B::Error>(
                old(self).flash(),
                final(self).flash(),
                old(self).slots(),
                *profile,
                force,
                result,
            ),
            log_extends(old(self).flash_log(), final(self).flash_log()),
            save_steps::<P, B::Error>(
                old(self).flash(),
                old(self).slots(),
                *profile,
                appended(old(self).flash_log(), final(self).flash_log()),
                result,
            ),
            keeps_a_record::<P>(
                old(self).flash(),
                old(self).slots(),
                *profile,
                appended(old(self).flash_log(), final(self).flash_log()),
            ),
            flash_after_steps(
                old(self).flash(),
                final(self).flash(),
                appended(old(self).flash_log(), final(self).flash_log()),
            ),
    {
        let ghost before = old(self).flash();
        let ghost layout = old(self).slots();
        let ghost log0 = old(self).flash_log();
        proof {
            assert(log0.take(log0.len() as int) =~= log0);
            assert(log0.skip(log0.len() as int) =~= Seq::<FlashStep>::empty());
        }
        if P::payload_size() > MAX_PAYLOAD_SIZE {
            return Err(StoreError::Invalid);
        }
        if profile.validate_record().is_err() {
            return Err(StoreError::Invalid);
        }
        let latest = match self.load_latest() {
            Ok(found) => found,
            Err(error) => return Err(error),
        };
        let ghost previous = latest;
        let payload = encode_payload_buffer(profile);
        if !force {
            if let Some(current) = &latest {
                let current_payload = encode_payload_buffer(&current.profile);
                let same = bytes_equal(current_payload.as_slice(), payload.as_slice());
                proof {
                    lemma_padded_payloads(current.profile, *profile, current_payload@, payload@);
                }
                if same {
                    return Ok(
                        SaveOutcome::Unchanged { generation: current.generation, slot: current.slot },
                    );
                }
            }
        }
        let (target, generation) = match &latest {
            Some(current) => (current.slot.opposite(), current.generation.wrapping_add(1)),
            None => (Slot::A, 1),
        };
        assert((target, generation) == next_save(previous));
        let ghost unchanged = !force && (previous matches Some(current)
            && current.profile.spec_payload() == profile.spec_payload());
        assert(!unchanged);
        let result = self.write_record(profile, target, generation, Ghost(previous));
        proof {
            lemma_write_gives_save_guarantee::<P, B::Error>(before, self.flash(), layout, *profile,
                force, result);
        }
        result
    }

    /// Writes a new record for `profile` into `target` with `generation`,
    /// committing it last.
    #[verifier::rlimit(80)]
    fn write_record(
        &mut self,
        profile: &P,
        target: Slot,
        generation: u32,
        Ghost(previous): Ghost<Option<StoredProfile<P>>>,
    ) -> (result: Result<SaveOutcome, StoreError<B::Error>>)
        requires
            old(self).slots().addressable(),
            P::spec_payload_size() <= MAX_PAYLOAD_SIZE,
            P::spec_payload_size() % 8 == 0,
            previous == old(self).latest(),
            (target, generation) == next_save(previous),
        ensures
            final(self).slots() == old(self).slots(),
            write_outcome::<P, B::Error>(
                old(self).flash(),
                final(self).flash(),
                old(self).slots(),
                *profile,
                result,
            ),
            log_extends(old(self).flash_log(), final(self).flash_log()),
            save_steps::<P, B::Error>(
                old(self).flash(),
                old(self).slots(),
                *profile,
                appended(old(self).flash_log(), final(self).flash_log()),
                result,
            ),
            keeps_a_record::<P>(
                old(self).flash(),
                old(self).slots(),
                *profile,
                appended(old(self).flash_log(), final(self).flash_log()),
            ),
            flash_after_steps(
                old(self).flash(),
                final(self).flash(),
                appended(old(self).flash_log(), final(self).flash_log()),
            ),
    {
        let ghost before = old(self).flash();
        let ghost layout = old(self).slots();
        let ghost log0 = old(self).flash_log();
        let ghost planned = planned_write::<P>(before, layout, *profile);
        let ghost saved = saved_record::<P>(*profile, generation, target);
        let record = encode_record(profile, generation);
        let base = self.layout.offset(target);
        let size = P::payload_size();
        let pre_commit = RECORD_HEADER_SIZE + size;
        proof {
            lemma_saved_generation::<P>(*profile, generation, target);
            lemma_planned_write_index::<P>(before, layout, *profile);
            lemma_committed_record_round_trip::<P>(*profile, generation, target);
            assert(log0.skip(log0.len() as int) =~= Seq::<FlashStep>::empty());
        }

        match self.backend.erase_page(base) {
            Ok(()) => {},
            Err(error) => {
                proof {
                    assert(self.flash_log().take(log0.len() as int) =~= log0);
                    let steps = appended(log0, self.flash_log());
                    assert(steps =~= seq![(FlashOperation::Erase(base), false, self.backend.image())]);
                    assert(steps.drop_last() =~= Seq::<FlashStep>::empty());
                    if layout.separated() {
                        lemma_previous_kept::<P>(before, self.backend.image(), layout, previous,
                            target);
                    }
                }
                return Err(StoreError::Erase(error));
            },
        }
        let ghost erased = self.backend.image();
        let chunks = pre_commit / 8;
        let mut index: usize = 0;
        proof {
            assert(record@.take(0) =~= Seq::<u8>::empty());
            lemma_overwrite_nothing(erased, base as int);
            lemma_unfinished_slot(before, erased, layout, previous, target, *profile, generation,
                record@.take(0));
            assert(self.flash_log().take(log0.len() as int) =~= log0);
            assert(appended(log0, self.flash_log()) =~= seq![(planned[0].0, true, planned[0].1)]);
        }
        #[verifier::loop_isolation(false)]
        while index < chunks
            invariant
                self.layout == layout,
                layout.addressable(),
                base == layout.base(target),
                record@.len() == RECORD_SIZE,
                pre_commit == RECORD_HEADER_SIZE + P::spec_payload_size(),
                pre_commit <= PRE_COMMIT_SIZE,
                chunks == pre_commit / 8,
                index <= chunks,
                erased == erase_page_image(before, base as int),
                self.backend.image() == overwrite(erased, base as int, record@.take(8 * index)),
                log_extends(log0, self.flash_log()),
                appended(log0, self.flash_log()).len() == index + 1,
                followed_plan(appended(log0, self.flash_log()), planned),
                keeps_a_record::<P>(before, layout, *profile, appended(log0, self.flash_log())),
                flash_after_steps(before, self.backend.image(), appended(log0, self.flash_log())),
            decreases chunks - index,
        {
            let at = index * 8;
            let bytes: [u8; 8] = [
                record[at],
                record[at + 1],
                record[at + 2],
                record[at + 3],
                record[at + 4],
                record[at + 5],
                record[at + 6],
                record[at + 7],
            ];
            assert(bytes@ =~= record@.subrange(at as int, at + 8));
            let ghost written = self.backend.image();
            let ghost steps0 = appended(log0, self.flash_log());
            let ghost log1 = self.flash_log();
            match self.backend.program_double_word(base + at as u32, &bytes) {
                Ok(()) => {},
                Err(error) => {
                    proof {
                        let image = self.backend.image();
                        lemma_unfinished_slot(before, written, layout, previous, target, *profile,
                            generation, record@.take(8 * index));
                        lemma_same_outside_within(before, written, image, base as int,
                            SLOT_SIZE as int, (base + at) as int, 8);
                        if base + RECORD_SIZE <= image.len() {
                            assert(image[base + pre_commit] == written[base + pre_commit]);
                            assert(written[base + pre_commit] == 0xffu8);
                        }
                        lemma_marker_erased::<P>(before, image, layout, previous, target);
                        assert(self.flash_log().take(log0.len() as int) =~= log0) by {
                            assert(log1.take(log0.len() as int) == log0);
                        }
                        let steps = appended(log0, self.flash_log());
                        assert(steps =~= steps0.push((FlashOperation::Program((base + at) as u32), false, image)));
                        assert(steps.drop_last() =~= steps0);
                        assert(planned[(index as int) + 1].0 == FlashOperation::Program((base + 8 * index) as u32));
                        if index > 0 {
                            assert(steps0[index as int] == (planned[index as int].0, true, planned[index as int].1));
                        }
                    }
                    return Err(StoreError::Program(error));
                },
            }
            proof {
                lemma_program_step(before, base as int, record@, index as int);
                let steps = appended(log0, self.flash_log());
                assert(steps =~= steps0.push(
                    (FlashOperation::Program((base + at) as u32), true, self.backend.image()),
                ));
                assert(planned[(index as int) + 1] == (
                    FlashOperation::Program((base + 8 * index) as u32),
                    overwrite(erased, base as int, record@.take(8 * index + 8)),
                ));
                lemma_unfinished_slot(before, self.backend.image(), layout, previous, target,
                    *profile, generation, record@.take(8 * index + 8));
                assert(self.flash_log().take(log0.len() as int) =~= log0) by {
                    assert(self.flash_log() == log1.push(steps.last()));
                    assert(log1.take(log0.len() as int) == log0);
                }
            }
            index += 1;
        }
        let ghost programmed = self.backend.image();
        let ghost steps_programmed = appended(log0, self.flash_log());
        proof {
            lemma_unfinished_slot(before, programmed, layout, previous, target, *profile,
                generation, record@.take(8 * chunks));
        }

        let mut pre_commit_read: Vec<u8> = vec![0u8; PRE_COMMIT_SIZE];
        match self.backend.read(base, pre_commit_read.as_mut_slice()) {
            Ok(()) => {},
            Err(error) => {
                return Err(StoreError::Read(error));
            },
        }
        proof {
            lemma_pre_commit_readback::<P>(erased, programmed, base as int, *profile, generation,
                pre_commit_read@, 8 * chunks, target);
            assert(pre_commit_read@.subrange(0, pre_commit as int) =~= record@.subrange(
                0,
                pre_commit as int,
            ));
        }
        if !bytes_equal(
            vstd::slice::slice_subrange(pre_commit_read.as_slice(), 0, pre_commit),
            vstd::slice::slice_subrange(record.as_slice(), 0, pre_commit),
        ) || validate_pre_commit::<P>(pre_commit_read.as_slice()).is_none() {
            proof {
                assert(saved is None);
            }
            return Err(StoreError::Verify);
        }
        proof {
            lemma_pre_commit_in_flash(erased, programmed, base as int, record@, pre_commit as int,
                pre_commit_read@, 8 * chunks);
            lemma_saved_generation::<P>(*profile, generation, target);
        }

        let ghost log2 = self.flash_log();
        match self.backend.program_double_word(base + pre_commit as u32, &COMMIT_MARKER) {
            Ok(()) => {},
            Err(error) => {
                proof {
                    let image = self.backend.image();
                    lemma_marker_interrupted::<P>(before, erased, programmed, image, layout,
                        previous, target, *profile, generation);
                    let steps = appended(log0, self.flash_log());
                    assert(steps =~= steps_programmed.push(
                        (FlashOperation::Program((base + pre_commit) as u32), false, image),
                    ));
                    assert(steps.drop_last() =~= steps_programmed);
                    assert(steps_programmed[chunks as int] == (planned[chunks as int].0, true, planned[chunks as int].1));
                    assert(self.flash_log().take(log0.len() as int) =~= log0) by {
                        assert(log2.take(log0.len() as int) == log0);
                    }
                }
                return Err(StoreError::Program(error));
            },
        }
        let ghost committed_image = self.backend.image();
        proof {
            assert(COMMIT_MARKER@ =~= commit_marker());
            lemma_committed_slot(before, erased, programmed, committed_image, layout, previous,
                target, *profile, generation);
            if layout.separated() {
                lemma_previous_kept::<P>(before, committed_image, layout, previous, target);
            }
            let steps = appended(log0, self.flash_log());
            assert(steps =~= steps_programmed.push(
                (FlashOperation::Program((base + pre_commit) as u32), true, committed_image),
            ));
            assert(self.flash_log().take(log0.len() as int) =~= log0) by {
                assert(log2.take(log0.len() as int) == log0);
            }
        }

        let mut committed: Vec<u8> = vec![0u8; RECORD_SIZE];
        match self.backend.read(base, committed.as_mut_slice()) {
            Ok(()) => {},
            Err(error) => return Err(StoreError::Read(error)),
        }
        proof {
            assert(committed@ == committed_image.subrange(base as int, base + RECORD_SIZE));
            assert(slot_record::<P>(committed_image, layout, target) == saved);
        }
        let decoded = match decode_record::<P>(committed.as_slice(), target) {
            Some(decoded) => decoded,
            None => {
                proof {
                    assert(saved is None);
                }
                return Err(StoreError::Verify);
            },
        };
        if decoded.generation != generation || decoded.profile != *profile {
            proof {
                assert(Some(decoded) == saved);
                assert(decoded.generation == generation);
            }
            return Err(StoreError::Verify);
        }
        Ok(SaveOutcome::Saved { generation, slot: target })
    }

    fn scan(&mut self) -> (result: Result<
        (Option<StoredProfile<P>>, Option<StoredProfile<P>>),
        StoreError<B::Error>,
    >)
        requires
            P::spec_payload_size() <= MAX_PAYLOAD_SIZE,
        ensures
            final(self).flash() == old(self).flash(),
            final(self).slots() == old(self).slots(),
            final(self).flash_log() == old(self).flash_log(),
            match result {
                Ok((a, b)) => a == slot_record::<P>(old(self).flash(), old(self).slots(), Slot::A)
                    && b == slot_record::<P>(old(self).flash(), old(self).slots(), Slot::B),
                Err(error) => error is Read,
            },
    {
        let slot_a = match self.read_slot(Slot::A) {
            Ok(found) => found,
            Err(error) => return Err(error),
        };
        let slot_b = match self.read_slot(Slot::B) {
            Ok(found) => found,
            Err(error) => return Err(error),
        };
        Ok((slot_a, slot_b))
    }

    fn read_slot(&mut self, slot: Slot) -> (result: Result<Option<StoredProfile<P>>, StoreError<B::Error>>)
        requires
            P::spec_payload_size() <= MAX_PAYLOAD_SIZE,
        ensures
            final(self).flash() == old(self).flash(),
            final(self).slots() == old(self).slots(),
            final(self).flash_log() == old(self).flash_log(),
            match result {
                Ok(found) => found == slot_record::<P>(old(self).flash(), old(self).slots(), slot),
                Err(error) => error is Read,
            },
    {
        let mut record: Vec<u8> = vec![0xffu8; RECORD_SIZE];
        let base = self.layout.offset(slot);
        match self.backend.read(base, record.as_mut_slice()) {
            Ok(()) => {},
            Err(error) => return Err(StoreError::Read(error)),
        }
        Ok(decode_record(record.as_slice(), slot))
    }
}

} // verus!

verus! {

/// A committed record decodes to the record its payload decodes to, with
/// the generation and slot it was written with.
#[verifier::spinoff_prover]
#[verifier::rlimit(40)]
pub proof fn lemma_committed_record_round_trip<P: StoredRecord>(profile: P, generation: u32, slot: Slot)
    requires
        P::spec_magic().len() == 4,
        P::spec_payload_size() <= MAX_PAYLOAD_SIZE,
        profile.spec_payload().len() == P::spec_payload_size(),
    ensures
        saved_record::<P>(profile, generation, slot) == match P::spec_decode(profile.spec_payload()) {
            Some(decoded) => Some(StoredProfile { profile: decoded, generation, slot }),
            None => None,
        },
{
    let size = P::spec_payload_size();
    let pre = RECORD_HEADER_SIZE + size;
    let head = record_header::<P>(generation);
    let crc = crc32(head + profile.spec_payload());
    let bytes = committed_record::<P>(profile, generation);
    let pre_bytes = bytes.subrange(0, PRE_COMMIT_SIZE as int);
    assert(bytes.subrange(pre as int, pre + COMMIT_MARKER_SIZE) =~= commit_marker());
    assert(pre_bytes.subrange(0, 4) =~= P::spec_magic());
    assert(pre_bytes.subrange(4, 6) =~= u16_le(P::spec_schema_version()));
    assert(pre_bytes.subrange(6, 8) =~= u16_le(size as u16));
    assert(pre_bytes.subrange(8, 12) =~= u32_le(generation));
    assert(pre_bytes.subrange(12, 16) =~= u32_le(crc));
    assert(pre_bytes.subrange(0, 12) =~= head);
    assert(pre_bytes.subrange(RECORD_HEADER_SIZE as int, pre as int) =~= profile.spec_payload());
    crate::bytes::lemma_u16_round_trip(P::spec_schema_version());
    crate::bytes::lemma_u16_round_trip(size as u16);
    crate::bytes::lemma_u32_round_trip(generation);
    crate::bytes::lemma_u32_round_trip(crc);
    assert(u16_at(pre_bytes, 4) == u16_at(u16_le(P::spec_schema_version()), 0));
    assert(u16_at(pre_bytes, 6) == u16_at(u16_le(size as u16), 0));
    assert(u32_at(pre_bytes, 8) == u32_at(u32_le(generation), 0));
    assert(u32_at(pre_bytes, 12) == u32_at(u32_le(crc), 0));
}

/// A save that reports `Saved` is what the next load finds: the newest
/// record is then the one just written, in the reported slot, with the
/// reported generation, and it compares equal to the saved profile.
pub proof fn lemma_saved_record_is_loaded<P: StoredRecord, E>(
    before: Seq<u8>,
    after: Seq<u8>,
    layout: SlotLayout,
    profile: P,
    force: bool,
    generation: u32,
    slot: Slot,
)
    requires
        layout.separated(),
        save_guarantee::<P, E>(
            before,
            after,
            layout,
            profile,
            force,
            Ok(SaveOutcome::Saved { generation, slot }),
        ),
    ensures
        latest_record::<P>(after, layout) matches Some(found) && found.generation == generation
            && found.slot == slot && (P::obeys_eq_spec() ==> found.profile.eq_spec(&profile)),
{
}

/// A save that reports `Saved` programmed its commit marker last: every
/// call it made succeeded, the first erased the target page, the others
/// before the last programmed header and payload below the marker, and a
/// power cut after any call before the last leaves the record that was
/// newest before the save.
pub proof fn lemma_commit_marker_is_programmed_last<P: StoredRecord, E>(
    before: Seq<u8>,
    layout: SlotLayout,
    profile: P,
    steps: Seq<FlashStep>,
    generation: u32,
    slot: Slot,
)
    requires
        layout.addressable(),
        P::spec_payload_size() <= MAX_PAYLOAD_SIZE,
        save_steps::<P, E>(before, layout, profile, steps, Ok(SaveOutcome::Saved { generation, slot })),
        keeps_a_record::<P>(before, layout, profile, steps),
    ensures
        steps.len() > 0,
        steps.last() matches (FlashOperation::Program(offset), true, _) && offset == commit_offset::<P>(
            before,
            layout,
        ),
        forall|i: int| 0 <= i < steps.len() ==> (#[trigger] steps[i]).1,
        steps[0].0 == FlashOperation::Erase(layout.base(next_save(latest_record::<P>(before, layout)).0)),
        forall|i: int|
            0 < i < steps.len() - 1 ==> ((#[trigger] steps[i]).0 matches FlashOperation::Program(offset)
                && layout.base(next_save(latest_record::<P>(before, layout)).0) <= offset
                < commit_offset::<P>(before, layout)),
        layout.separated() ==> forall|i: int|
            0 <= i < steps.len() - 1 ==> latest_record::<P>(#[trigger] steps[i].2, layout)
                == latest_record::<P>(before, layout),
{
    lemma_planned_write_index::<P>(before, layout, profile);
    let planned = planned_write::<P>(before, layout, profile);
    assert(steps.last() == steps[steps.len() - 1]);
    assert(steps[0] == (planned[0].0, true, planned[0].1));
    assert forall|i: int| 0 < i < steps.len() - 1 implies (#[trigger] steps[i]).0 matches FlashOperation::Program(offset)
        && layout.base(next_save(latest_record::<P>(before, layout)).0) <= offset
        < commit_offset::<P>(before, layout) by {
        assert(steps[i] == (planned[i].0, true, planned[i].1));
        assert(planned[(i - 1) + 1] == planned[i]);
    }
}

/// A flash call that fails during a save is the last call the save makes
/// and the save reports it (an erase error for the erase, a program error
/// for a program). An interrupted save never loses the previous record:
/// the record that was newest before stays in its slot; when a program of
/// the header or payload failed it is still the newest, and when the
/// program of the commit marker failed the newest is it or the saved one.
pub proof fn lemma_failed_flash_call_is_reported<P: StoredRecord, E>(
    before: Seq<u8>,
    after: Seq<u8>,
    layout: SlotLayout,
    profile: P,
    force: bool,
    steps: Seq<FlashStep>,
    result: Result<SaveOutcome, StoreError<E>>,
    failed: int,
)
    requires
        save_guarantee::<P, E>(before, after, layout, profile, force, result),
        save_steps::<P, E>(before, layout, profile, steps, result),
        keeps_a_record::<P>(before, layout, profile, steps),
        flash_after_steps(before, after, steps),
        0 <= failed < steps.len(),
        !steps[failed].1,
    ensures
        failed == steps.len() - 1,
        steps[failed].0 is Erase ==> result matches Err(StoreError::Erase(_)),
        steps[failed].0 is Program ==> result matches Err(StoreError::Program(_)),
        ({
            let previous = latest_record::<P>(before, layout);
            let (target, generation) = next_save(previous);
            let last = planned_write::<P>(before, layout, profile).len() - 1;
            &&& (layout.separated() && previous is Some) ==> slot_record::<P>(
                after,
                layout,
                previous->0.slot,
            ) == previous
            &&& (layout.separated() && steps[failed].0 is Program && failed < last)
                ==> latest_record::<P>(after, layout) == previous
            &&& (layout.separated() && steps[failed].0 is Program) ==> (latest_record::<P>(
                after,
                layout,
            ) == previous || latest_record::<P>(after, layout) == saved_record::<P>(
                profile,
                generation,
                target,
            ))
        }),
{
    lemma_planned_write_index::<P>(before, layout, profile);
    let planned = planned_write::<P>(before, layout, profile);
    let n = steps.len() as int;
    if failed < n - 1 {
        match result {
            Err(StoreError::Erase(_)) | Err(StoreError::Program(_)) => {
                assert(steps.drop_last()[failed] == steps[failed]);
            },
            _ => {},
        }
    }
    assert(failed == n - 1);
    match result {
        Err(StoreError::Program(_)) => {
            assert(planned[(n - 2) + 1] == planned[n - 1]);
        },
        _ => {},
    }
    assert(steps.last() == steps[failed]);
}

/// A save of a record that may be stored, reads back as itself and
/// differs from the newest one saves it unless the flash fails: when every
/// erase and program call it made succeeded, it reports `Saved`, or a read
/// error from the flash.
pub proof fn lemma_working_flash_saves<P: StoredRecord, E>(
    before: Seq<u8>,
    after: Seq<u8>,
    layout: SlotLayout,
    profile: P,
    force: bool,
    steps: Seq<FlashStep>,
    result: Result<SaveOutcome, StoreError<E>>,
)
    requires
        save_guarantee::<P, E>(before, after, layout, profile, force, result),
        save_steps::<P, E>(before, layout, profile, steps, result),
        P::spec_payload_size() <= MAX_PAYLOAD_SIZE,
        profile.spec_valid(),
        force || !(latest_record::<P>(before, layout) matches Some(current)
            && current.profile.spec_payload() == profile.spec_payload()),
        round_trips::<P>(profile),
        forall|i: int| 0 <= i < steps.len() ==> (#[trigger] steps[i]).1,
    ensures
        result is Ok ==> result matches Ok(SaveOutcome::Saved { .. }),
        result is Err ==> result matches Err(StoreError::Read(_)),
{
    match result {
        Err(StoreError::Erase(_)) | Err(StoreError::Program(_)) => {
            assert(steps[steps.len() - 1].1);
        },
        _ => {},
    }
}

/// A failed save never loses data: the record that was newest before it
/// stays in its slot; a refused record leaves the flash as it was; after a
/// program or read error the newest record is that one or the complete
/// new record. Either way the flash outside the target slot's page is
/// untouched.
pub proof fn lemma_failed_save_keeps_a_record<P: StoredRecord, E>(
    before: Seq<u8>,
    after: Seq<u8>,
    layout: SlotLayout,
    profile: P,
    force: bool,
    error: StoreError<E>,
)
    requires
        layout.separated(),
        save_guarantee::<P, E>(before, after, layout, profile, force, Err(error)),
    ensures
        ({
            let previous = latest_record::<P>(before, layout);
            let (target, generation) = next_save(previous);
            &&& previous is Some ==> slot_record::<P>(after, layout, previous->0.slot) == previous
            &&& error is Invalid ==> after == before
            &&& (error is Program || error is Read || error is Verify) ==> (latest_record::<P>(after, layout)
                == previous || latest_record::<P>(after, layout) == saved_record::<P>(
                profile,
                generation,
                target,
            ))
            &&& same_outside(before, after, layout.base(target) as int, SLOT_SIZE as int)
        }),
{
    lemma_same_outside_refl(before);
}

/// A save that finds the same payload already newest writes nothing.
pub proof fn lemma_unchanged_save_writes_nothing<P: StoredRecord, E>(
    before: Seq<u8>,
    after: Seq<u8>,
    layout: SlotLayout,
    profile: P,
    force: bool,
    generation: u32,
    slot: Slot,
)
    requires
        save_guarantee::<P, E>(
            before,
            after,
            layout,
            profile,
            force,
            Ok(SaveOutcome::Unchanged { generation, slot }),
        ),
    ensures
        after == before,
        !force,
        latest_record::<P>(before, layout) matches Some(current) && current.generation
            == generation && current.slot == slot && current.profile.spec_payload()
            == profile.spec_payload(),
{
}

/// Successive saves alternate between the two slots, and each new record's
/// generation is the previous generation plus one (wrapping), which the
/// wrapping generation order always ranks as newer.
pub proof fn lemma_saves_alternate_slots<P: StoredRecord, E>(
    before: Seq<u8>,
    after: Seq<u8>,
    layout: SlotLayout,
    profile: P,
    force: bool,
    generation: u32,
    slot: Slot,
)
    requires
        save_guarantee::<P, E>(
            before,
            after,
            layout,
            profile,
            force,
            Ok(SaveOutcome::Saved { generation, slot }),
        ),
    ensures
        latest_record::<P>(before, layout) matches Some(current) ==> {
            &&& slot != current.slot
            &&& generation == vstd::wrapping::u32_specs::wrapping_add(current.generation, 1)
            &&& newer_generation(generation, current.generation)
            &&& !newer_generation(current.generation, generation)
        },
        latest_record::<P>(before, layout) is None ==> slot == Slot::A && generation == 1,
{
}

/// The wrapping successor of any generation is newer than it, and never
/// the other way round; in particular 0 is newer than `u32::MAX`.
pub proof fn lemma_successor_generation_is_newer(generation: u32)
    ensures
        newer_generation(vstd::wrapping::u32_specs::wrapping_add(generation, 1), generation),
        !newer_generation(generation, vstd::wrapping::u32_specs::wrapping_add(generation, 1)),
        !newer_generation(generation, generation),
{
}

} // verus!
