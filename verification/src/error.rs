//! The ways in which reading an ELF image can fail.

use vstd::prelude::*;

verus! {

/// Why no list of library names could be produced.
#[derive(Clone, Copy, Debug, PartialEq, Eq, Structural)]
pub enum ElfError {
    /// The file could not be read. The traversal itself never reports this;
    /// the variant is there for the code that acquires the bytes.
    IoFailure,
    /// The buffer does not start with the ELF magic bytes.
    NotElf,
    /// The object is not 64-bit, or not little-endian.
    UnsupportedFormat,
    /// A fixed-offset field lies partly or wholly past the end of the bytes
    /// it is read from.
    TruncatedHeader,
    /// The file header gives zero as the offset of the program header table.
    NoProgramHeaders,
    /// No program header entry is of the dynamic type.
    MissingDynamicSegment,
    /// The dynamic section has no string table offset entry.
    MissingStringTable,
    /// The dynamic section has no string table size entry.
    MissingStringTableSize,
    /// A computed byte range does not lie inside the buffer.
    OutOfBounds,
    /// A library name is not valid UTF-8.
    InvalidEncoding,
}

} // verus!
