//! Values as the game lays them out in memory: little-endian integers, and
//! the chain of 32-bit pointers that leads to the scene code.

use vstd::prelude::*;

verus! {

/// The number of reads that lead to the scene code: three pointers, then the
/// code itself.
pub const SCENE_PATH_LEN: usize = 4;

/// The 16-bit value that two little-endian bytes hold; nothing where `bytes`
/// is not exactly two bytes long.
pub open spec fn spec_u16_le(bytes: Seq<u8>) -> Option<u16> {
    if bytes.len() == 2 {
        Some((bytes[0] + bytes[1] * 0x100) as u16)
    } else {
        None
    }
}

/// The 32-bit value that four little-endian bytes hold; nothing where
/// `bytes` is not exactly four bytes long.
pub open spec fn spec_u32_le(bytes: Seq<u8>) -> Option<u32> {
    if bytes.len() == 4 {
        Some((bytes[0] + bytes[1] * 0x100 + bytes[2] * 0x1_0000 + bytes[3] * 0x100_0000) as u32)
    } else {
        None
    }
}

/// Decodes two little-endian bytes.
pub fn u16_le(bytes: &[u8]) -> (value: Option<u16>)
    ensures
        value == spec_u16_le(bytes@),
{
    if bytes.len() != 2 {
        return None;
    }
    let low: u16 = bytes[0] as u16;
    let high: u16 = bytes[1] as u16;
    Some(low + high * 0x100)
}

/// Decodes four little-endian bytes.
pub fn u32_le(bytes: &[u8]) -> (value: Option<u32>)
    ensures
        value == spec_u32_le(bytes@),
{
    if bytes.len() != 4 {
        return None;
    }
    let b0: u32 = bytes[0] as u32;
    let b1: u32 = bytes[1] as u32;
    let b2: u32 = bytes[2] as u32;
    let b3: u32 = bytes[3] as u32;
    Some(b0 + b1 * 0x100 + b2 * 0x1_0000 + b3 * 0x100_0000)
}

/// The offset added to the pointer at hand before the read of step `hop` on
/// the way to the scene code.
pub open spec fn spec_scene_offset(hop: int) -> u32 {
    if hop == 2 {
        0x268
    } else if hop == 3 {
        0x2C8
    } else {
        0
    }
}

/// The number of bytes that the read of step `hop` asks for: a 32-bit
/// pointer on every step but the last, which reads the 16-bit scene code.
pub open spec fn spec_scene_width(hop: int) -> u64 {
    if hop == 3 {
        2
    } else {
        4
    }
}

/// The address that step `hop` reads, given the pointer that the step before
/// it gave (for the first step, the resolved base). Pointers are 32 bits
/// wide, and so is the sum, which wraps around.
pub open spec fn spec_scene_address(pointer: u32, hop: int) -> u32 {
    pointer.wrapping_add(spec_scene_offset(hop))
}

/// Computes the address that step `hop` reads.
pub fn scene_address(pointer: u32, hop: usize) -> (address: u32)
    ensures
        address == spec_scene_address(pointer, hop as int),
{
    let offset: u32 = if hop == 2 {
        0x268
    } else if hop == 3 {
        0x2C8
    } else {
        0
    };
    pointer.wrapping_add(offset)
}

/// Gives the number of bytes that step `hop` reads.
pub fn scene_width(hop: usize) -> (width: u64)
    ensures
        width == spec_scene_width(hop as int),
{
    if hop == 3 {
        2
    } else {
        4
    }
}

} // verus!
