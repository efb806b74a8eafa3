//! Where the ELF64 layout keeps the fields that the traversal reads.

use vstd::prelude::*;

verus! {

/// Size in bytes of the ELF64 file header.
pub const ELF_HEADER_SIZE: usize = 0x40;

/// Number of bytes of the magic sequence at the start of the file.
pub const MAGIC_SIZE: usize = 4;

/// Index of the byte that gives the object's class.
pub const EI_CLASS: usize = 4;

/// Index of the byte that gives the object's data encoding.
pub const EI_DATA: usize = 5;

/// Class marker of a 64-bit object.
pub const ELFCLASS64: u8 = 2;

/// Data encoding marker of a little-endian object.
pub const ELFDATA2LSB: u8 = 1;

/// Offset in the file header of the program header table's offset (64 bits).
pub const E_PHOFF: usize = 0x20;

/// Offset in the file header of the size of a program header entry (16 bits).
pub const E_PHENTSIZE: usize = 0x36;

/// Offset in the file header of the number of program header entries (16 bits).
pub const E_PHNUM: usize = 0x38;

/// Number of leading bytes of a program header entry that hold the fields
/// read here; an entry may be longer, but not shorter.
pub const PROGRAM_HEADER_SIZE: usize = 0x28;

/// Offset in a program header entry of the segment type (32 bits).
pub const P_TYPE: usize = 0x00;

/// Offset in a program header entry of the segment's file offset (64 bits).
pub const P_OFFSET: usize = 0x08;

/// Offset in a program header entry of the segment's size in the file (64 bits).
pub const P_FILESZ: usize = 0x20;

/// Size in bytes of one entry of the dynamic section.
pub const DYNAMIC_ENTRY_SIZE: usize = 0x10;

/// Offset in a dynamic entry of its tag (64 bits).
pub const D_TAG: usize = 0x00;

/// Offset in a dynamic entry of its value (64 bits).
pub const D_VAL: usize = 0x08;

} // verus!
