//! The executable stages of the traversal.

use vstd::prelude::*;
use vstd::slice::{slice_subrange, slice_to_vec};

use crate::error::ElfError;
use crate::layout::{
    DYNAMIC_ENTRY_SIZE, D_TAG, D_VAL, EI_CLASS, EI_DATA, ELFCLASS64, ELFDATA2LSB, ELF_HEADER_SIZE,
    E_PHENTSIZE, E_PHNUM, E_PHOFF, MAGIC_SIZE, PROGRAM_HEADER_SIZE, P_FILESZ, P_OFFSET, P_TYPE,
};
use crate::le::{read_u16_le, read_u32_le, read_u64_le};
use crate::model::{
    collect_names, dynamic_entries, dynamic_entry_chunk, dynamic_entry_spec, dynamic_section_spec,
    dynamic_segment_spec, elf_magic, first_match, has_tag, header_meta_spec, is_dynamic,
    is_name_end, library_name_spec, library_names_spec, names_of, program_header_chunk,
    program_header_spec, program_headers, resolve_spec, string_table, summary_of, text_of,
    validate_header_spec,
};
use crate::lemmas::{
    lemma_collect_names_prefix_error, lemma_filter_empty, lemma_filter_push,
    lemma_first_match_prefix, lemma_first_match_push, lemma_name_end_unique, lemma_take_push,
};
use crate::types::{
    DynSectionElement, DynSectionTag, DynamicSectionCriticals, Elf64SHeaderMeta,
    ElfProgramSection, ElfSegmentType,
};
use crate::utf8::string_from_utf8;

verus! {

/// Decodes the program header entry at the start of `chunk`.
///
/// Fails with `TruncatedHeader` exactly when `chunk` is too short to hold
/// the fields of an entry.
pub fn decode_program_header(chunk: &[u8]) -> (r: Result<ElfProgramSection, ElfError>)
    ensures
        r == program_header_spec(chunk@),
{
    let raw_type = read_u32_le(chunk, P_TYPE)?;
    let p_offset = read_u64_le(chunk, P_OFFSET)?;
    let p_filesz = read_u64_le(chunk, P_FILESZ)?;
    Ok(ElfProgramSection { p_type: ElfSegmentType::from(raw_type), p_offset, p_filesz })
}

/// Decodes the dynamic entry at the start of `chunk`.
///
/// Fails with `TruncatedHeader` exactly when `chunk` holds fewer than
/// sixteen bytes.
pub fn decode_dynamic_entry(chunk: &[u8]) -> (r: Result<DynSectionElement, ElfError>)
    ensures
        r == dynamic_entry_spec(chunk@),
{
    let raw_tag = read_u64_le(chunk, D_TAG)?;
    let d_thing = read_u64_le(chunk, D_VAL)?;
    Ok(DynSectionElement { d_tag: DynSectionTag::from(raw_tag), d_thing })
}

/// Reads the name that starts at `index` of the string table `table`: the
/// bytes up to the next zero byte, as text.
///
/// Fails with `OutOfBounds` where `index` lies outside the table or no
/// zero byte follows it inside the table, and with `InvalidEncoding` where
/// the bytes of the name are not UTF-8.
pub fn read_library_name(table: &[u8], index: u64) -> (r: Result<String, ElfError>)
    ensures
        text_of(r) == library_name_spec(table@, index as int),
{
    let len = table.len();
    if index >= len as u64 {
        assert(forall|e: int| !is_name_end(table@, index as int, e));
        return Err(ElfError::OutOfBounds);
    }
    let start = index as usize;
    let mut end = start;
    while end < len && table[end] != 0
        invariant
            len == table@.len(),
            start <= end <= len,
            forall|k: int| start <= k < end ==> table@[k] != 0,
        decreases len - end,
    {
        end = end + 1;
    }
    if end == len {
        assert(forall|e: int| !is_name_end(table@, start as int, e));
        return Err(ElfError::OutOfBounds);
    }
    proof {
        lemma_name_end_unique(table@, start as int, end as int);
    }
    let name = slice_to_vec(slice_subrange(table, start, end));
    match string_from_utf8(name) {
        Ok(text) => Ok(text),
        Err(_) => Err(ElfError::InvalidEncoding),
    }
}

/// The stages of the traversal of an ELF64 little-endian image.
pub struct Elf64;

impl Elf64 {
    /// Checks that `buffer` starts as a 64-bit little-endian ELF object
    /// does.
    ///
    /// Fails with `NotElf` where the first four bytes are not the magic
    /// sequence, and with `UnsupportedFormat` where they are but the class
    /// or the data encoding is another.
    pub fn validate_header(buffer: &[u8]) -> (r: Result<(), ElfError>)
        ensures
            r == validate_header_spec(buffer@),
    {
        if buffer.len() < MAGIC_SIZE || buffer[0] != 0x7f || buffer[1] != 0x45 || buffer[2] != 0x4c
            || buffer[3] != 0x46 {
            proof {
                if buffer@.len() >= MAGIC_SIZE {
                    let head = buffer@.subrange(0, MAGIC_SIZE as int);
                    assert(head[0] == buffer@[0] && head[1] == buffer@[1] && head[2] == buffer@[2]
                        && head[3] == buffer@[3]);
                }
            }
            return Err(ElfError::NotElf);
        }
        assert(buffer@.subrange(0, MAGIC_SIZE as int) =~= elf_magic());
        if buffer.len() <= EI_DATA || buffer[EI_CLASS] != ELFCLASS64 || buffer[EI_DATA]
            != ELFDATA2LSB {
            return Err(ElfError::UnsupportedFormat);
        }
        Ok(())
    }

    /// Reads from the file header where the program header table lies.
    ///
    /// Fails with `TruncatedHeader` where `buffer` is shorter than a file
    /// header. Gives `None` where the header holds zero as the table's
    /// offset, which stands for an object without program headers.
    pub fn extract_section_header_meta(buffer: &[u8]) -> (r: Result<
        Option<Elf64SHeaderMeta>,
        ElfError,
    >)
        ensures
            r == header_meta_spec(buffer@),
            r matches Ok(Some(meta)) ==> meta.wf(),
    {
        if buffer.len() < ELF_HEADER_SIZE {
            return Err(ElfError::TruncatedHeader);
        }
        let e_phoff = read_u64_le(buffer, E_PHOFF)?;
        let e_phentsize = read_u16_le(buffer, E_PHENTSIZE)?;
        let e_phnum = read_u16_le(buffer, E_PHNUM)?;
        Ok(Elf64SHeaderMeta::new(e_phoff, e_phentsize, e_phnum))
    }

    /// Finds the program header entry of the dynamic-linking segment: the
    /// first entry of the dynamic type in the table that `h_meta` locates.
    ///
    /// Fails with `OutOfBounds` where the table does not lie inside
    /// `buffer`, with `TruncatedHeader` where the table has entries that
    /// are too short to hold their fields, and with `MissingDynamicSegment`
    /// where no entry is of the dynamic type.
    pub fn extract_program_section_meta(buffer: &[u8], h_meta: &Elf64SHeaderMeta) -> (r: Result<
        ElfProgramSection,
        ElfError,
    >)
        ensures
            r == dynamic_segment_spec(buffer@, *h_meta),
            r matches Ok(entry) ==> entry.p_type == ElfSegmentType::PtDynamic,
    {
        let len = buffer.len();
        let entry_size = h_meta.e_phentsize as u64;
        let entry_count = h_meta.e_phnum as u64;
        assert(entry_size * entry_count <= 0xffff * 0xffff) by (nonlinear_arith)
            requires
                entry_size <= 0xffff,
                entry_count <= 0xffff,
        ;
        let table_end = match h_meta.e_phoff.checked_add(entry_size * entry_count) {
            Some(end) => end,
            None => { return Err(ElfError::OutOfBounds) },
        };
        if table_end > len as u64 {
            return Err(ElfError::OutOfBounds);
        }
        let size = h_meta.e_phentsize as usize;
        let count = h_meta.e_phnum as usize;
        let ghost entries = program_headers(buffer@, *h_meta);
        let mut start = h_meta.e_phoff as usize;
        let mut i: usize = 0;
        proof {
            lemma_filter_empty(is_dynamic());
            assert(entries.take(0) =~= Seq::empty());
        }
        while i < count
            invariant
                i <= count,
                len == buffer@.len(),
                size == h_meta.e_phentsize,
                count == h_meta.e_phnum,
                start == h_meta.entry_start(i as int),
                h_meta.table_end() <= buffer@.len(),
                entries == program_headers(buffer@, *h_meta),
                i > 0 ==> size >= PROGRAM_HEADER_SIZE,
                first_match(entries.take(i as int), is_dynamic()) is None,
            decreases count - i,
        {
            assert(start + size == h_meta.entry_start(i + 1) && h_meta.entry_start(i + 1)
                <= h_meta.table_end()) by (nonlinear_arith)
                requires
                    start == h_meta.entry_start(i as int),
                    size == h_meta.e_phentsize,
                    count == h_meta.e_phnum,
                    i < count,
            ;
            let chunk = slice_subrange(buffer, start, start + size);
            let entry = decode_program_header(chunk)?;
            proof {
                assert(chunk@ == program_header_chunk(buffer@, *h_meta, i as int));
                assert(entries[i as int] == entry);
                lemma_take_push(entries, i as int);
                lemma_first_match_push(entries.take(i as int), entry, is_dynamic());
            }
            if entry.p_type == ElfSegmentType::PtDynamic {
                proof {
                    lemma_first_match_prefix(entries, i + 1, is_dynamic());
                }
                return Ok(entry);
            }
            start = start + size;
            i = i + 1;
        }
        assert(entries.take(count as int) =~= entries);
        Err(ElfError::MissingDynamicSegment)
    }

    /// Decodes the dynamic section that `dyn_meta` locates and keeps what
    /// the resolution of names needs: the first string table offset entry,
    /// the value of the first string table size entry, and the needed
    /// entries in section order.
    ///
    /// Fails with `OutOfBounds` where the section does not lie inside
    /// `buffer`, with `TruncatedHeader` where it ends in a partial entry,
    /// with `MissingStringTable` where no entry holds the string table's
    /// offset, and with `MissingStringTableSize` where one does but none
    /// holds its size.
    pub fn read_dynamic_section(buffer: &[u8], dyn_meta: &ElfProgramSection) -> (r: Result<
        DynamicSectionCriticals,
        ElfError,
    >)
        ensures
            summary_of(r) == dynamic_section_spec(buffer@, *dyn_meta),
            r matches Ok(criticals) ==> criticals@.wf(),
    {
        let len = buffer.len();
        let section_end = match dyn_meta.p_offset.checked_add(dyn_meta.p_filesz) {
            Some(end) => end,
            None => { return Err(ElfError::OutOfBounds) },
        };
        if section_end > len as u64 {
            return Err(ElfError::OutOfBounds);
        }
        let offset = dyn_meta.p_offset as usize;
        let size = dyn_meta.p_filesz as usize;
        let ghost entries = dynamic_entries(buffer@, *dyn_meta);
        let mut str_table: Option<DynSectionElement> = None;
        let mut str_sz: Option<DynSectionElement> = None;
        let mut needed: Vec<DynSectionElement> = Vec::new();
        let mut done: usize = 0;
        let mut i: usize = 0;
        proof {
            lemma_filter_empty(has_tag(DynSectionTag::DtStrTab));
            lemma_filter_empty(has_tag(DynSectionTag::DtStrSz));
            lemma_filter_empty(has_tag(DynSectionTag::DtNeeded));
            assert(entries.take(0) =~= Seq::empty());
        }
        while done < size
            invariant
                len == buffer@.len(),
                offset == dyn_meta.p_offset,
                size == dyn_meta.p_filesz,
                offset + size <= buffer@.len(),
                entries == dynamic_entries(buffer@, *dyn_meta),
                done == i * DYNAMIC_ENTRY_SIZE,
                done <= size,
                str_table == first_match(entries.take(i as int), has_tag(DynSectionTag::DtStrTab)),
                str_sz == first_match(entries.take(i as int), has_tag(DynSectionTag::DtStrSz)),
                needed@ == entries.take(i as int).filter(has_tag(DynSectionTag::DtNeeded)),
                forall|k: int|
                    0 <= k < needed@.len() ==> (#[trigger] needed@[k]).d_tag
                        == DynSectionTag::DtNeeded,
                str_table matches Some(entry) ==> entry.d_tag == DynSectionTag::DtStrTab,
            decreases size - done,
        {
            let left = size - done;
            let chunk_size = if left < DYNAMIC_ENTRY_SIZE {
                left
            } else {
                DYNAMIC_ENTRY_SIZE
            };
            let chunk = slice_subrange(buffer, offset + done, offset + done + chunk_size);
            let entry = decode_dynamic_entry(chunk)?;
            proof {
                assert(chunk@ == dynamic_entry_chunk(buffer@, *dyn_meta, i as int));
                assert(entries[i as int] == entry);
                lemma_take_push(entries, i as int);
                lemma_first_match_push(
                    entries.take(i as int),
                    entry,
                    has_tag(DynSectionTag::DtStrTab),
                );
                lemma_first_match_push(
                    entries.take(i as int),
                    entry,
                    has_tag(DynSectionTag::DtStrSz),
                );
                lemma_filter_push(entries.take(i as int), entry, has_tag(DynSectionTag::DtNeeded));
            }
            match entry.d_tag {
                DynSectionTag::DtNeeded => {
                    needed.push(entry);
                },
                DynSectionTag::DtStrTab => {
                    if str_table.is_none() {
                        str_table = Some(entry);
                    }
                },
                DynSectionTag::DtStrSz => {
                    if str_sz.is_none() {
                        str_sz = Some(entry);
                    }
                },
                DynSectionTag::Irrelevant => {},
            }
            done = done + DYNAMIC_ENTRY_SIZE;
            i = i + 1;
        }
        assert(entries.take(i as int) =~= entries);
        let dt_strtab = match str_table {
            Some(entry) => entry,
            None => { return Err(ElfError::MissingStringTable) },
        };
        let dt_strsz = match str_sz {
            Some(entry) => entry.d_thing,
            None => { return Err(ElfError::MissingStringTableSize) },
        };
        Ok(DynamicSectionCriticals { dt_needed: needed, dt_strtab, dt_strsz })
    }

    /// Resolves every needed entry of `criticals` to the name that it
    /// points at in the string table, in the order of the entries.
    ///
    /// Fails with `OutOfBounds` where the string table does not lie inside
    /// `buffer`; otherwise with the failure of the first entry whose name
    /// cannot be read (see [`read_library_name`]).
    pub fn extract_library_names(buffer: &[u8], criticals: &DynamicSectionCriticals) -> (r: Result<
        Vec<String>,
        ElfError,
    >)
        ensures
            names_of(r) == library_names_spec(buffer@, criticals@),
    {
        let len = buffer.len();
        let table_end = match criticals.dt_strtab.d_thing.checked_add(criticals.dt_strsz) {
            Some(end) => end,
            None => { return Err(ElfError::OutOfBounds) },
        };
        if table_end > len as u64 {
            return Err(ElfError::OutOfBounds);
        }
        let table = slice_subrange(
            buffer,
            criticals.dt_strtab.d_thing as usize,
            table_end as usize,
        );
        let count = criticals.dt_needed.len();
        let ghost needed = criticals.dt_needed@;
        let mut results: Vec<String> = Vec::new();
        let mut i: usize = 0;
        proof {
            assert(needed.take(0) =~= Seq::empty());
            assert(results.deep_view() =~= Seq::empty());
        }
        while i < count
            invariant
                i <= count,
                count == needed.len(),
                needed == criticals.dt_needed@,
                criticals@.table_end() <= buffer@.len(),
                table@ == string_table(buffer@, criticals@),
                collect_names(table@, needed.take(i as int)) == Ok::<Seq<Seq<char>>, ElfError>(
                    results.deep_view(),
                ),
            decreases count - i,
        {
            let entry = criticals.dt_needed[i];
            let ghost before = results.deep_view();
            proof {
                lemma_take_push(needed, i as int);
                assert(needed.take(i + 1).drop_last() =~= needed.take(i as int));
            }
            match read_library_name(table, entry.d_thing) {
                Ok(name) => {
                    results.push(name);
                    assert(results.deep_view() =~= before.push(name@));
                },
                Err(e) => {
                    proof {
                        lemma_collect_names_prefix_error(table@, needed, i + 1);
                    }
                    return Err(e);
                },
            }
            i = i + 1;
        }
        assert(needed.take(count as int) =~= needed);
        Ok(results)
    }

    /// Lists the names of the shared libraries that the ELF64 image in
    /// `buffer` declares as needed, in the order of their declaration.
    ///
    /// Runs the stages one after the other and fails with the error of the
    /// first that fails; an image without program headers fails with
    /// `NoProgramHeaders`.
    pub fn resolve_dependencies(buffer: &[u8]) -> (r: Result<Vec<String>, ElfError>)
        ensures
            names_of(r) == resolve_spec(buffer@),
    {
        Elf64::validate_header(buffer)?;
        let h_meta = match Elf64::extract_section_header_meta(buffer) {
            Ok(Some(meta)) => meta,
            Ok(None) => { return Err(ElfError::NoProgramHeaders) },
            Err(e) => { return Err(e) },
        };
        let dyn_meta = Elf64::extract_program_section_meta(buffer, &h_meta)?;
        let criticals = Elf64::read_dynamic_section(buffer, &dyn_meta)?;
        Elf64::extract_library_names(buffer, &criticals)
    }
}

} // verus!
