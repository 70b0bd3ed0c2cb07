//! What is known of the game's process: the names its executable goes by,
//! where its main module lies, and the pointer resolved inside it.

use crate::memory::{spec_u32_le, u32_le};
use crate::signature::{first_match, lemma_first_match, scan};
use vstd::prelude::*;
use vstd::slice::slice_subrange;

verus! {

/// The number of executable names the game is known by.
pub const PROCESS_COUNT: usize = 17;

/// The distance from the start of the signature to the address operand
/// embedded in it.
pub const OPERAND_SKIP: usize = 2;

/// The name under which the game's executable is looked for at `index` of
/// the search order, one per released version; nothing past the last.
pub open spec fn spec_process_name(index: usize) -> Option<Seq<char>> {
    match index {
        0 => Some("Sonic3D2d 1.26rc.exe"@),
        1 => Some("Sonic3D2d 1.26.exe"@),
        2 => Some("Sonic3D2d 1.26b.exe"@),
        3 => Some("Sonic3D2d 1.27.exe"@),
        4 => Some("Sonic3D2d 1.28.exe"@),
        5 => Some("Sonic3D2d 1.29.exe"@),
        6 => Some("Sonic3D2d 1.30.exe"@),
        7 => Some("Sonic3D2d 1.31.exe"@),
        8 => Some("Sonic3D2d 1.32.exe"@),
        9 => Some("Sonic3D2d 1.33.exe"@),
        10 => Some("Sonic3D2d 1.34.exe"@),
        11 => Some("Sonic3D2d 1.35.exe"@),
        12 => Some("Sonic3D2d 1.36.exe"@),
        13 => Some("Sonic3D2d 1.37.exe"@),
        14 => Some("Sonic3D2d 1.38.exe"@),
        15 => Some("Sonic3D2d 1.39.exe"@),
        16 => Some("Sonic3D2d 1.40.exe"@),
        _ => None,
    }
}

/// Gives the executable name at `index` of the search order.
pub fn process_name(index: usize) -> (name: Option<&'static str>)
    ensures
        name is Some <==> index < PROCESS_COUNT,
        match name {
            Some(name) => spec_process_name(index) == Some(name@),
            None => spec_process_name(index) is None,
        },
{
    match index {
        0 => Some("Sonic3D2d 1.26rc.exe"),
        1 => Some("Sonic3D2d 1.26.exe"),
        2 => Some("Sonic3D2d 1.26b.exe"),
        3 => Some("Sonic3D2d 1.27.exe"),
        4 => Some("Sonic3D2d 1.28.exe"),
        5 => Some("Sonic3D2d 1.29.exe"),
        6 => Some("Sonic3D2d 1.30.exe"),
        7 => Some("Sonic3D2d 1.31.exe"),
        8 => Some("Sonic3D2d 1.32.exe"),
        9 => Some("Sonic3D2d 1.33.exe"),
        10 => Some("Sonic3D2d 1.34.exe"),
        11 => Some("Sonic3D2d 1.35.exe"),
        12 => Some("Sonic3D2d 1.36.exe"),
        13 => Some("Sonic3D2d 1.37.exe"),
        14 => Some("Sonic3D2d 1.38.exe"),
        15 => Some("Sonic3D2d 1.39.exe"),
        16 => Some("Sonic3D2d 1.40.exe"),
        _ => None,
    }
}

/// The bytes of the instruction sequence that loads the scene pointer. The
/// four bytes after the first two are the operand and match anything.
pub open spec fn scene_needle() -> Seq<u8> {
    seq![0x8Bu8, 0x3Du8, 0u8, 0u8, 0u8, 0u8, 0x8Bu8, 0x0Cu8, 0x87u8]
}

/// The positions of `scene_needle` that match any byte.
pub open spec fn scene_wildcard() -> Seq<bool> {
    seq![false, false, true, true, true, true, false, false, false]
}

/// The address of the game's scene structure, resolved once per attachment.
#[derive(Clone, Copy, PartialEq, Eq, Debug, Structural)]
pub struct MemoryPtr {
    pub base_address: u64,
}

/// The attached process as far as decisions need it: where its main module
/// lies, and the scene pointer once it is resolved.
#[derive(Clone, Copy, PartialEq, Eq, Debug, Structural)]
pub struct ProcessInfo {
    pub main_module_base: u64,
    pub main_module_size: u64,
    pub addresses: Option<MemoryPtr>,
}

impl ProcessInfo {
    /// The record of a process that was attached a moment ago: its module is
    /// located, its scene pointer is not resolved yet. Where the module could
    /// not be located there is no record.
    pub open spec fn spec_attach_process(module: Option<(u64, u64)>) -> Option<ProcessInfo> {
        match module {
            Some((base, size)) => Some(
                ProcessInfo { main_module_base: base, main_module_size: size, addresses: None },
            ),
            None => None,
        }
    }

    /// Builds the record of a process that was attached a moment ago from the
    /// base address and size of its main module.
    pub fn attach_process(module: Option<(u64, u64)>) -> (info: Option<ProcessInfo>)
        ensures
            info == ProcessInfo::spec_attach_process(module),
    {
        match module {
            Some((base, size)) => Some(
                ProcessInfo { main_module_base: base, main_module_size: size, addresses: None },
            ),
            None => None,
        }
    }

    /// The scene pointer that the bytes of the main module give: the 32-bit
    /// little-endian operand that stands two bytes into the first occurrence
    /// of the signature, widened to an address. Nothing where the signature
    /// does not occur.
    pub open spec fn spec_look_for_addresses(module: Seq<u8>) -> Option<MemoryPtr> {
        match first_match(module, scene_needle(), scene_wildcard()) {
            Some(offset) => match spec_u32_le(
                module.subrange(offset + OPERAND_SKIP, offset + OPERAND_SKIP + 4),
            ) {
                Some(operand) => Some(MemoryPtr { base_address: operand as u64 }),
                None => None,
            },
            None => None,
        }
    }

    /// Resolves the scene pointer from the bytes of the main module.
    pub fn look_for_addresses(module: &[u8]) -> (addresses: Option<MemoryPtr>)
        ensures
            addresses == ProcessInfo::spec_look_for_addresses(module@),
    {
        let needle: [u8; 9] = [0x8B, 0x3D, 0, 0, 0, 0, 0x8B, 0x0C, 0x87];
        let wildcard: [bool; 9] = [false, false, true, true, true, true, false, false, false];
        assert(needle@ =~= scene_needle());
        assert(wildcard@ =~= scene_wildcard());
        match scan(module, needle.as_slice(), wildcard.as_slice()) {
            Some(offset) => {
                assert(offset + 9 <= module.len()) by {
                    lemma_first_match(module@, needle@, wildcard@);
                }
                let operand = slice_subrange(module, offset + OPERAND_SKIP, offset + OPERAND_SKIP + 4);
                match u32_le(operand) {
                    Some(value) => Some(MemoryPtr { base_address: value as u64 }),
                    None => None,
                }
            },
            None => None,
        }
    }
}

/// A match of the signature always holds its operand: where the signature
/// occurs, the scene pointer is resolved.
pub proof fn lemma_match_resolves(module: Seq<u8>)
    ensures
        ProcessInfo::spec_look_for_addresses(module) is Some <==> first_match(
            module,
            scene_needle(),
            scene_wildcard(),
        ) is Some,
{
    lemma_first_match(module, scene_needle(), scene_wildcard());
}

} // verus!
