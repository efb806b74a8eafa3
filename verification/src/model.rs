//! What each stage of the traversal computes, as a function of the bytes.
//!
//! Everything here is specification: sequences of bytes in, values or error
//! kinds out. The executable stages are proved equal to these functions.

use vstd::prelude::*;
use vstd::utf8::{decode_utf8, valid_utf8};

use crate::error::ElfError;
use crate::layout::{
    DYNAMIC_ENTRY_SIZE, D_TAG, D_VAL, EI_CLASS, EI_DATA, ELFCLASS64, ELFDATA2LSB, ELF_HEADER_SIZE,
    E_PHENTSIZE, E_PHNUM, E_PHOFF, MAGIC_SIZE, PROGRAM_HEADER_SIZE, P_FILESZ, P_OFFSET, P_TYPE,
};
use crate::le::{le_u16, le_u32, le_u64};
use crate::types::{
    DynSectionElement, DynSectionTag, DynamicSectionCriticals, DynamicSectionSummary,
    Elf64SHeaderMeta, ElfProgramSection, ElfSegmentType,
};

verus! {

/// The four bytes that every ELF file starts with: `0x7f`, `E`, `L`, `F`.
pub open spec fn elf_magic() -> Seq<u8> {
    seq![0x7fu8, 0x45u8, 0x4cu8, 0x46u8]
}

/// The buffer starts with the ELF magic bytes.
pub open spec fn has_elf_magic(bytes: Seq<u8>) -> bool {
    bytes.len() >= MAGIC_SIZE && bytes.subrange(0, MAGIC_SIZE as int) == elf_magic()
}

/// The identification bytes declare a 64-bit, little-endian object.
pub open spec fn is_elf64_le(bytes: Seq<u8>) -> bool {
    &&& bytes.len() > EI_DATA
    &&& bytes[EI_CLASS as int] == ELFCLASS64
    &&& bytes[EI_DATA as int] == ELFDATA2LSB
}

/// The header validator: the magic bytes first, the class and encoding after.
pub open spec fn validate_header_spec(bytes: Seq<u8>) -> Result<(), ElfError> {
    if !has_elf_magic(bytes) {
        Err(ElfError::NotElf)
    } else if !is_elf64_le(bytes) {
        Err(ElfError::UnsupportedFormat)
    } else {
        Ok(())
    }
}

/// The program header locator: where the file header says the program
/// header table lies, `None` where it says there is none.
pub open spec fn header_meta_spec(bytes: Seq<u8>) -> Result<Option<Elf64SHeaderMeta>, ElfError> {
    if bytes.len() < ELF_HEADER_SIZE {
        Err(ElfError::TruncatedHeader)
    } else if le_u64(bytes, E_PHOFF as int) == 0 {
        Ok(None)
    } else {
        Ok(
            Some(
                Elf64SHeaderMeta {
                    e_phoff: le_u64(bytes, E_PHOFF as int) as u64,
                    e_phentsize: le_u16(bytes, E_PHENTSIZE as int) as u16,
                    e_phnum: le_u16(bytes, E_PHNUM as int) as u16,
                },
            ),
        )
    }
}

/// The fields of the program header entry that `chunk` starts with.
pub open spec fn program_header_fields(chunk: Seq<u8>) -> ElfProgramSection {
    ElfProgramSection {
        p_type: ElfSegmentType::of_raw(le_u32(chunk, P_TYPE as int) as u32),
        p_offset: le_u64(chunk, P_OFFSET as int) as u64,
        p_filesz: le_u64(chunk, P_FILESZ as int) as u64,
    }
}

/// Decoding one program header entry: its fields, unless the entry is too
/// short to hold them.
pub open spec fn program_header_spec(chunk: Seq<u8>) -> Result<ElfProgramSection, ElfError> {
    if chunk.len() < PROGRAM_HEADER_SIZE {
        Err(ElfError::TruncatedHeader)
    } else {
        Ok(program_header_fields(chunk))
    }
}

/// The bytes of entry `i` of the program header table.
pub open spec fn program_header_chunk(bytes: Seq<u8>, meta: Elf64SHeaderMeta, i: int) -> Seq<u8> {
    bytes.subrange(meta.entry_start(i), meta.entry_start(i + 1))
}

/// The entries of the program header table, in table order.
pub open spec fn program_headers(bytes: Seq<u8>, meta: Elf64SHeaderMeta) -> Seq<
    ElfProgramSection,
> {
    Seq::new(
        meta.e_phnum as nat,
        |i: int| program_header_fields(program_header_chunk(bytes, meta, i)),
    )
}

/// The test for a program header entry of the dynamic type.
pub open spec fn is_dynamic() -> spec_fn(ElfProgramSection) -> bool {
    |entry: ElfProgramSection| entry.p_type == ElfSegmentType::PtDynamic
}

/// The first element of `s` that satisfies `pred`, if there is one.
pub open spec fn first_match<A>(s: Seq<A>, pred: spec_fn(A) -> bool) -> Option<A> {
    let hits = s.filter(pred);
    if hits.len() == 0 {
        None
    } else {
        Some(hits.first())
    }
}

/// The dynamic segment scanner: the first program header entry of the
/// dynamic type.
pub open spec fn dynamic_segment_spec(bytes: Seq<u8>, meta: Elf64SHeaderMeta) -> Result<
    ElfProgramSection,
    ElfError,
> {
    if meta.table_end() > bytes.len() {
        Err(ElfError::OutOfBounds)
    } else if meta.e_phnum > 0 && meta.e_phentsize < PROGRAM_HEADER_SIZE {
        Err(ElfError::TruncatedHeader)
    } else {
        match first_match(program_headers(bytes, meta), is_dynamic()) {
            Some(entry) => Ok(entry),
            None => Err(ElfError::MissingDynamicSegment),
        }
    }
}

/// The fields of the dynamic entry that `chunk` starts with.
pub open spec fn dynamic_entry_fields(chunk: Seq<u8>) -> DynSectionElement {
    DynSectionElement {
        d_tag: DynSectionTag::of_raw(le_u64(chunk, D_TAG as int) as u64),
        d_thing: le_u64(chunk, D_VAL as int) as u64,
    }
}

/// Decoding one dynamic entry: its fields, unless fewer than sixteen bytes
/// are there.
pub open spec fn dynamic_entry_spec(chunk: Seq<u8>) -> Result<DynSectionElement, ElfError> {
    if chunk.len() < DYNAMIC_ENTRY_SIZE {
        Err(ElfError::TruncatedHeader)
    } else {
        Ok(dynamic_entry_fields(chunk))
    }
}

/// The bytes of entry `i` of the dynamic section that `segment` locates.
pub open spec fn dynamic_entry_chunk(bytes: Seq<u8>, segment: ElfProgramSection, i: int) -> Seq<
    u8,
> {
    bytes.subrange(
        segment.p_offset + i * DYNAMIC_ENTRY_SIZE,
        segment.p_offset + (i + 1) * DYNAMIC_ENTRY_SIZE,
    )
}

/// The whole entries of the dynamic section, in section order.
pub open spec fn dynamic_entries(bytes: Seq<u8>, segment: ElfProgramSection) -> Seq<
    DynSectionElement,
> {
    Seq::new(
        (segment.p_filesz as nat) / (DYNAMIC_ENTRY_SIZE as nat),
        |i: int| dynamic_entry_fields(dynamic_entry_chunk(bytes, segment, i)),
    )
}

/// The test for a dynamic entry with the given tag.
pub open spec fn has_tag(tag: DynSectionTag) -> spec_fn(DynSectionElement) -> bool {
    |entry: DynSectionElement| entry.d_tag == tag
}

/// The dynamic section decoder: the first string table offset entry, the
/// value of the first string table size entry, and every needed-library
/// entry in section order.
pub open spec fn dynamic_section_spec(bytes: Seq<u8>, segment: ElfProgramSection) -> Result<
    DynamicSectionSummary,
    ElfError,
> {
    let entries = dynamic_entries(bytes, segment);
    if segment.file_end() > bytes.len() {
        Err(ElfError::OutOfBounds)
    } else if segment.p_filesz as int % DYNAMIC_ENTRY_SIZE as int != 0 {
        Err(ElfError::TruncatedHeader)
    } else {
        match first_match(entries, has_tag(DynSectionTag::DtStrTab)) {
            None => Err(ElfError::MissingStringTable),
            Some(strtab) => match first_match(entries, has_tag(DynSectionTag::DtStrSz)) {
                None => Err(ElfError::MissingStringTableSize),
                Some(strsz) => Ok(
                    DynamicSectionSummary {
                        dt_needed: entries.filter(has_tag(DynSectionTag::DtNeeded)),
                        dt_strtab: strtab,
                        dt_strsz: strsz.d_thing,
                    },
                ),
            },
        }
    }
}

/// What the dynamic section decoder returned, as a mathematical value.
pub open spec fn summary_of(r: Result<DynamicSectionCriticals, ElfError>) -> Result<
    DynamicSectionSummary,
    ElfError,
> {
    match r {
        Ok(criticals) => Ok(criticals@),
        Err(e) => Err(e),
    }
}

/// `end` is the index of the first zero byte of `table` at or after `start`.
pub open spec fn is_name_end(table: Seq<u8>, start: int, end: int) -> bool {
    &&& 0 <= start <= end < table.len()
    &&& table[end] == 0
    &&& forall|k: int| start <= k < end ==> table[k] != 0
}

/// The index of the zero byte that ends the name starting at `start`, if a
/// zero byte follows before the table ends.
pub open spec fn name_end(table: Seq<u8>, start: int) -> Option<int> {
    if exists|end: int| is_name_end(table, start, end) {
        Some(choose|end: int| is_name_end(table, start, end))
    } else {
        None
    }
}

/// The text of the string table entry that starts at `start`: the bytes up
/// to the next zero byte, read as UTF-8.
pub open spec fn library_name_spec(table: Seq<u8>, start: int) -> Result<Seq<char>, ElfError> {
    match name_end(table, start) {
        None => Err(ElfError::OutOfBounds),
        Some(end) => {
            let name = table.subrange(start, end);
            if valid_utf8(name) {
                Ok(decode_utf8(name))
            } else {
                Err(ElfError::InvalidEncoding)
            }
        },
    }
}

/// The names that the entries of `needed` point at, one per entry and in
/// the same order, or the failure of the first entry that has no name.
pub open spec fn collect_names(table: Seq<u8>, needed: Seq<DynSectionElement>) -> Result<
    Seq<Seq<char>>,
    ElfError,
>
    decreases needed.len(),
{
    if needed.len() == 0 {
        Ok(Seq::empty())
    } else {
        match collect_names(table, needed.drop_last()) {
            Err(e) => Err(e),
            Ok(names) => match library_name_spec(table, needed.last().d_thing as int) {
                Err(e) => Err(e),
                Ok(name) => Ok(names.push(name)),
            },
        }
    }
}

/// What reading one name returned, as a mathematical value.
pub open spec fn text_of(r: Result<String, ElfError>) -> Result<Seq<char>, ElfError> {
    match r {
        Ok(text) => Ok(text@),
        Err(e) => Err(e),
    }
}

/// What resolving the names returned, as a mathematical value.
pub open spec fn names_of(r: Result<Vec<String>, ElfError>) -> Result<Seq<Seq<char>>, ElfError> {
    match r {
        Ok(names) => Ok(names.deep_view()),
        Err(e) => Err(e),
    }
}

/// The bytes of the string table that `summary` locates.
pub open spec fn string_table(bytes: Seq<u8>, summary: DynamicSectionSummary) -> Seq<u8> {
    bytes.subrange(summary.dt_strtab.d_thing as int, summary.table_end())
}

/// The string table resolver: the name of every needed library, in the
/// order of the needed entries.
pub open spec fn library_names_spec(bytes: Seq<u8>, summary: DynamicSectionSummary) -> Result<
    Seq<Seq<char>>,
    ElfError,
> {
    if summary.table_end() > bytes.len() {
        Err(ElfError::OutOfBounds)
    } else {
        collect_names(string_table(bytes, summary), summary.dt_needed)
    }
}

/// The whole traversal, stage after stage; the first failure ends it.
pub open spec fn resolve_spec(bytes: Seq<u8>) -> Result<Seq<Seq<char>>, ElfError> {
    match validate_header_spec(bytes) {
        Err(e) => Err(e),
        Ok(_) => match header_meta_spec(bytes) {
            Err(e) => Err(e),
            Ok(None) => Err(ElfError::NoProgramHeaders),
            Ok(Some(meta)) => match dynamic_segment_spec(bytes, meta) {
                Err(e) => Err(e),
                Ok(segment) => match dynamic_section_spec(bytes, segment) {
                    Err(e) => Err(e),
                    Ok(summary) => library_names_spec(bytes, summary),
                },
            },
        },
    }
}

} // verus!
