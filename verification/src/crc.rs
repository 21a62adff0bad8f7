//! CRC-32 (IEEE 802.3, reflected polynomial 0xEDB88320) as used by the
//! parameter records and the motor commissioning payload.

use vstd::prelude::*;

verus! {

/// One bit step of the reflected CRC-32 shift register.
pub open spec fn crc32_shift(register: u32) -> u32 {
    if register & 1 != 0 {
        (register >> 1u32) ^ 0xedb8_8320u32
    } else {
        register >> 1u32
    }
}

/// `count` consecutive bit steps of the shift register.
pub open spec fn crc32_shifts(register: u32, count: nat) -> u32
    decreases count,
{
    if count == 0 {
        register
    } else {
        crc32_shift(crc32_shifts(register, (count - 1) as nat))
    }
}

/// The register after absorbing one byte.
pub open spec fn crc32_absorb(register: u32, byte: u8) -> u32 {
    crc32_shifts(register ^ (byte as u32), 8)
}

/// The register after absorbing `bytes`, starting from all ones.
pub open spec fn crc32_register(bytes: Seq<u8>) -> u32
    decreases bytes.len(),
{
    if bytes.len() == 0 {
        0xffff_ffffu32
    } else {
        crc32_absorb(crc32_register(bytes.drop_last()), bytes.last())
    }
}

/// CRC-32 of `bytes`: the final register, inverted.
pub open spec fn crc32(bytes: Seq<u8>) -> u32 {
    !crc32_register(bytes)
}

fn absorb_byte(register: u32, byte: u8) -> (out: u32)
    ensures
        out == crc32_absorb(register, byte),
{
    let mut crc = register ^ (byte as u32);
    let mut step: u32 = 0;
    while step < 8
        invariant
            step <= 8,
            crc == crc32_shifts(register ^ (byte as u32), step as nat),
        decreases 8 - step,
    {
        crc = if crc & 1 != 0 {
            (crc >> 1) ^ 0xedb8_8320
        } else {
            crc >> 1
        };
        step += 1;
    }
    crc
}

fn absorb_all(register: u32, bytes: &[u8], Ghost(prefix): Ghost<Seq<u8>>) -> (out: u32)
    requires
        register == crc32_register(prefix),
    ensures
        out == crc32_register(prefix + bytes@),
{
    let mut crc = register;
    let mut index: usize = 0;
    while index < bytes.len()
        invariant
            index <= bytes@.len(),
            crc == crc32_register(prefix + bytes@.take(index as int)),
        decreases bytes@.len() - index,
    {
        let ghost done = prefix + bytes@.take(index as int);
        crc = absorb_byte(crc, bytes[index]);
        proof {
            let next = prefix + bytes@.take(index + 1);
            assert(next.drop_last() =~= done);
            assert(next.last() == bytes@[index as int]);
        }
        index += 1;
    }
    assert(bytes@.take(bytes@.len() as int) =~= bytes@);
    crc
}

/// CRC-32 of `bytes`.
pub fn crc32_of(bytes: &[u8]) -> (crc: u32)
    ensures
        crc == crc32(bytes@),
{
    let ghost empty = Seq::<u8>::empty();
    let register = absorb_all(0xffff_ffff, bytes, Ghost(empty));
    assert(empty + bytes@ =~= bytes@);
    !register
}

/// CRC-32 over `head` followed by `tail`, without concatenating them.
pub fn record_crc(head: &[u8], tail: &[u8]) -> (crc: u32)
    ensures
        crc == crc32(head@ + tail@),
{
    let ghost empty = Seq::<u8>::empty();
    let first = absorb_all(0xffff_ffff, head, Ghost(empty));
    assert(empty + head@ =~= head@);
    let second = absorb_all(first, tail, Ghost(head@));
    !second
}

} // verus!
