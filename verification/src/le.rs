//! Little-endian integer fields at fixed offsets of a byte sequence.

use vstd::prelude::*;

use crate::error::ElfError;

verus! {

/// The value of the two bytes at `at`, least significant byte first.
pub open spec fn le_u16(bytes: Seq<u8>, at: int) -> int {
    bytes[at] as int + 0x100 * (bytes[at + 1] as int)
}

/// The value of the four bytes at `at`, least significant byte first.
pub open spec fn le_u32(bytes: Seq<u8>, at: int) -> int {
    le_u16(bytes, at) + 0x1_0000 * le_u16(bytes, at + 2)
}

/// The value of the eight bytes at `at`, least significant byte first.
pub open spec fn le_u64(bytes: Seq<u8>, at: int) -> int {
    le_u32(bytes, at) + 0x1_0000_0000 * le_u32(bytes, at + 4)
}

/// Whether `width` bytes starting at `at` lie inside a buffer of `len` bytes.
pub open spec fn field_fits(len: int, at: int, width: int) -> bool {
    0 <= at && at + width <= len
}

/// Reads the 16-bit little-endian field at `at`, or reports that the buffer
/// ends before the field does.
pub fn read_u16_le(bytes: &[u8], at: usize) -> (r: Result<u16, ElfError>)
    ensures
        match r {
            Ok(value) => field_fits(bytes@.len() as int, at as int, 2) && value == le_u16(
                bytes@,
                at as int,
            ),
            Err(e) => !field_fits(bytes@.len() as int, at as int, 2) && e
                == ElfError::TruncatedHeader,
        },
{
    if bytes.len() < 2 || at > bytes.len() - 2 {
        return Err(ElfError::TruncatedHeader);
    }
    let lo: u16 = bytes[at] as u16;
    let hi: u16 = bytes[at + 1] as u16;
    Ok(lo + 0x100 * hi)
}

/// Reads the 32-bit little-endian field at `at`, or reports that the buffer
/// ends before the field does.
pub fn read_u32_le(bytes: &[u8], at: usize) -> (r: Result<u32, ElfError>)
    ensures
        match r {
            Ok(value) => field_fits(bytes@.len() as int, at as int, 4) && value == le_u32(
                bytes@,
                at as int,
            ),
            Err(e) => !field_fits(bytes@.len() as int, at as int, 4) && e
                == ElfError::TruncatedHeader,
        },
{
    if bytes.len() < 4 || at > bytes.len() - 4 {
        return Err(ElfError::TruncatedHeader);
    }
    let b0: u32 = bytes[at] as u32;
    let b1: u32 = bytes[at + 1] as u32;
    let b2: u32 = bytes[at + 2] as u32;
    let b3: u32 = bytes[at + 3] as u32;
    Ok(b0 + 0x100 * b1 + 0x1_0000 * b2 + 0x100_0000 * b3)
}

/// Reads the 64-bit little-endian field at `at`, or reports that the buffer
/// ends before the field does.
pub fn read_u64_le(bytes: &[u8], at: usize) -> (r: Result<u64, ElfError>)
    ensures
        match r {
            Ok(value) => field_fits(bytes@.len() as int, at as int, 8) && value == le_u64(
                bytes@,
                at as int,
            ),
            Err(e) => !field_fits(bytes@.len() as int, at as int, 8) && e
                == ElfError::TruncatedHeader,
        },
{
    if bytes.len() < 8 || at > bytes.len() - 8 {
        return Err(ElfError::TruncatedHeader);
    }
    let b0: u64 = bytes[at] as u64;
    let b1: u64 = bytes[at + 1] as u64;
    let b2: u64 = bytes[at + 2] as u64;
    let b3: u64 = bytes[at + 3] as u64;
    let b4: u64 = bytes[at + 4] as u64;
    let b5: u64 = bytes[at + 5] as u64;
    let b6: u64 = bytes[at + 6] as u64;
    let b7: u64 = bytes[at + 7] as u64;
    let low: u64 = b0 + 0x100 * b1 + 0x1_0000 * b2 + 0x100_0000 * b3;
    let high: u64 = b4 + 0x100 * b5 + 0x1_0000 * b6 + 0x100_0000 * b7;
    Ok(low + 0x1_0000_0000 * high)
}

} // verus!
