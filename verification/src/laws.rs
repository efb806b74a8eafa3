//! What holds of the traversal on every buffer, proved from the model.

use vstd::prelude::*;

use crate::error::ElfError;
use crate::layout::PROGRAM_HEADER_SIZE;
use crate::model::{
    collect_names, dynamic_entries, dynamic_section_spec, dynamic_segment_spec, has_elf_magic,
    has_tag, header_meta_spec, is_dynamic, library_name_spec, library_names_spec, name_end,
    names_of, program_headers, resolve_spec, string_table, validate_header_spec,
};
use crate::lemmas::{lemma_first_match_at, lemma_first_match_index, lemma_no_match};
use crate::types::{
    DynSectionElement, DynSectionTag, DynamicSectionSummary, Elf64SHeaderMeta, ElfProgramSection,
    ElfSegmentType,
};

verus! {

/// A buffer that does not start with the four magic bytes is rejected as
/// `NotElf` by the header validator, and so by the traversal as a whole: no
/// later stage has a say.
pub proof fn lemma_not_elf_rejected(bytes: Seq<u8>)
    requires
        !has_elf_magic(bytes),
    ensures
        validate_header_spec(bytes) == Err::<(), ElfError>(ElfError::NotElf),
        resolve_spec(bytes) == Err::<Seq<Seq<char>>, ElfError>(ElfError::NotElf),
{
}

/// Where the program header table lies inside the buffer, its entries are
/// long enough to decode, and exactly one of them is of the dynamic type,
/// the scanner returns that entry.
pub proof fn lemma_single_dynamic_entry(bytes: Seq<u8>, meta: Elf64SHeaderMeta, i: int)
    requires
        meta.table_end() <= bytes.len(),
        meta.e_phentsize >= PROGRAM_HEADER_SIZE,
        0 <= i < meta.e_phnum,
        forall|j: int|
            0 <= j < meta.e_phnum ==> ((#[trigger] program_headers(bytes, meta)[j]).p_type
                == ElfSegmentType::PtDynamic <==> j == i),
    ensures
        dynamic_segment_spec(bytes, meta) == Ok::<ElfProgramSection, ElfError>(
            program_headers(bytes, meta)[i],
        ),
{
    let entries = program_headers(bytes, meta);
    assert(is_dynamic()(entries[i]));
    assert forall|j: int| 0 <= j < i implies !is_dynamic()(#[trigger] entries[j]) by {}
    lemma_first_match_at(entries, i, is_dynamic());
}

/// Where the scanner succeeds, what it returns is an entry of the table, of
/// the dynamic type, and no entry before it is of that type. The index of
/// the entry is handed back.
pub proof fn lemma_dynamic_segment_is_first(bytes: Seq<u8>, meta: Elf64SHeaderMeta) -> (i: int)
    requires
        dynamic_segment_spec(bytes, meta) is Ok,
    ensures
        0 <= i < meta.e_phnum,
        dynamic_segment_spec(bytes, meta) == Ok::<ElfProgramSection, ElfError>(
            program_headers(bytes, meta)[i],
        ),
        program_headers(bytes, meta)[i].p_type == ElfSegmentType::PtDynamic,
        forall|j: int|
            0 <= j < i ==> (#[trigger] program_headers(bytes, meta)[j]).p_type
                != ElfSegmentType::PtDynamic,
{
    let entries = program_headers(bytes, meta);
    let i = lemma_first_match_index(entries, is_dynamic());
    assert forall|j: int| 0 <= j < i implies (#[trigger] entries[j]).p_type
        != ElfSegmentType::PtDynamic by {
        assert(!is_dynamic()(entries[j]));
    }
    i
}

/// Where the program header table lies inside the buffer, its entries are
/// long enough to decode, and none of them is of the dynamic type, the
/// scanner fails with `MissingDynamicSegment`.
pub proof fn lemma_no_dynamic_entry(bytes: Seq<u8>, meta: Elf64SHeaderMeta)
    requires
        meta.table_end() <= bytes.len(),
        meta.e_phnum == 0 || meta.e_phentsize >= PROGRAM_HEADER_SIZE,
        forall|j: int|
            0 <= j < meta.e_phnum ==> (#[trigger] program_headers(bytes, meta)[j]).p_type
                != ElfSegmentType::PtDynamic,
    ensures
        dynamic_segment_spec(bytes, meta) == Err::<ElfProgramSection, ElfError>(
            ElfError::MissingDynamicSegment,
        ),
{
    let entries = program_headers(bytes, meta);
    assert forall|j: int| 0 <= j < entries.len() implies !is_dynamic()(#[trigger] entries[j]) by {}
    lemma_no_match(entries, is_dynamic());
}

/// A program header table that ends past the end of the buffer makes the
/// scanner fail with `OutOfBounds`, whatever else the buffer holds.
pub proof fn lemma_program_header_table_out_of_bounds(bytes: Seq<u8>, meta: Elf64SHeaderMeta)
    requires
        meta.table_end() > bytes.len(),
    ensures
        dynamic_segment_spec(bytes, meta) == Err::<ElfProgramSection, ElfError>(
            ElfError::OutOfBounds,
        ),
{
}

/// A dynamic section that ends past the end of the buffer makes the
/// decoder fail with `OutOfBounds`, whatever else the buffer holds.
pub proof fn lemma_dynamic_section_out_of_bounds(bytes: Seq<u8>, segment: ElfProgramSection)
    requires
        segment.file_end() > bytes.len(),
    ensures
        dynamic_section_spec(bytes, segment) == Err::<DynamicSectionSummary, ElfError>(
            ElfError::OutOfBounds,
        ),
{
}

/// Where the decoder succeeds, the string table offset it keeps comes from
/// an entry with the string table offset tag, and every entry it keeps as
/// needed has the needed tag.
pub proof fn lemma_summary_wf(bytes: Seq<u8>, segment: ElfProgramSection)
    requires
        dynamic_section_spec(bytes, segment) is Ok,
    ensures
        dynamic_section_spec(bytes, segment)->Ok_0.wf(),
{
    let entries = dynamic_entries(bytes, segment);
    let summary = dynamic_section_spec(bytes, segment)->Ok_0;
    let at = lemma_first_match_index(entries, has_tag(DynSectionTag::DtStrTab));
    assert(has_tag(DynSectionTag::DtStrTab)(entries[at]));
    assert forall|i: int| 0 <= i < summary.dt_needed.len() implies (#[trigger] summary.dt_needed[i]).d_tag
        == DynSectionTag::DtNeeded by {
        entries.lemma_filter_pred(has_tag(DynSectionTag::DtNeeded), i);
    }
}

/// A string table that ends past the end of the buffer makes the resolver
/// fail with `OutOfBounds`, whatever the needed entries are.
pub proof fn lemma_string_table_out_of_bounds(bytes: Seq<u8>, summary: DynamicSectionSummary)
    requires
        summary.table_end() > bytes.len(),
    ensures
        library_names_spec(bytes, summary) == Err::<Seq<Seq<char>>, ElfError>(
            ElfError::OutOfBounds,
        ),
{
}

/// A name that starts at or past the end of the string table, or that no
/// zero byte ends inside the table, cannot be read: `OutOfBounds`.
pub proof fn lemma_name_out_of_bounds(table: Seq<u8>, start: int)
    requires
        start >= table.len() || forall|k: int| start <= k < table.len() ==> table[k] != 0,
    ensures
        library_name_spec(table, start) == Err::<Seq<char>, ElfError>(ElfError::OutOfBounds),
{
    assert(name_end(table, start) is None);
}

/// Where the resolver succeeds, it gives one name for each needed entry,
/// and the name at each position is the one that the entry at that
/// position points at: nothing is dropped, repeated or reordered.
pub proof fn lemma_names_follow_needed(bytes: Seq<u8>, summary: DynamicSectionSummary)
    requires
        library_names_spec(bytes, summary) is Ok,
    ensures
        library_names_spec(bytes, summary)->Ok_0.len() == summary.dt_needed.len(),
        forall|i: int|
            0 <= i < summary.dt_needed.len() ==> library_name_spec(
                string_table(bytes, summary),
                (#[trigger] summary.dt_needed[i]).d_thing as int,
            ) == Ok::<Seq<char>, ElfError>(library_names_spec(bytes, summary)->Ok_0[i]),
{
    lemma_collected_names(string_table(bytes, summary), summary.dt_needed);
}

/// The same as [`lemma_names_follow_needed`], for a string table that is
/// already cut out of the buffer.
pub proof fn lemma_collected_names(table: Seq<u8>, needed: Seq<DynSectionElement>)
    requires
        collect_names(table, needed) is Ok,
    ensures
        collect_names(table, needed)->Ok_0.len() == needed.len(),
        forall|i: int|
            0 <= i < needed.len() ==> library_name_spec(
                table,
                (#[trigger] needed[i]).d_thing as int,
            ) == Ok::<Seq<char>, ElfError>(collect_names(table, needed)->Ok_0[i]),
    decreases needed.len(),
{
    if needed.len() > 0 {
        lemma_collected_names(table, needed.drop_last());
        assert forall|i: int| 0 <= i < needed.len() implies library_name_spec(
            table,
            (#[trigger] needed[i]).d_thing as int,
        ) == Ok::<Seq<char>, ElfError>(collect_names(table, needed)->Ok_0[i]) by {
            if i < needed.len() - 1 {
                assert(needed.drop_last()[i] == needed[i]);
            }
        }
    }
}

/// A dynamic section without needed entries, whose string table lies
/// inside the buffer, resolves to the empty list of names and not to an
/// error.
pub proof fn lemma_no_needed_no_names(bytes: Seq<u8>, summary: DynamicSectionSummary)
    requires
        summary.dt_needed.len() == 0,
        summary.table_end() <= bytes.len(),
    ensures
        library_names_spec(bytes, summary) == Ok::<Seq<Seq<char>>, ElfError>(Seq::empty()),
{
}

/// Reading the names fails in two ways only: `OutOfBounds` and
/// `InvalidEncoding`.
pub proof fn lemma_collect_names_errors(table: Seq<u8>, needed: Seq<DynSectionElement>)
    ensures
        collect_names(table, needed) matches Err(e) ==> e == ElfError::OutOfBounds || e
            == ElfError::InvalidEncoding,
    decreases needed.len(),
{
    if needed.len() > 0 {
        lemma_collect_names_errors(table, needed.drop_last());
    }
}

/// Each stage fails only in the ways that belong to it.
pub proof fn lemma_error_kinds(
    bytes: Seq<u8>,
    meta: Elf64SHeaderMeta,
    segment: ElfProgramSection,
    summary: DynamicSectionSummary,
)
    ensures
        validate_header_spec(bytes) matches Err(e) ==> e == ElfError::NotElf || e
            == ElfError::UnsupportedFormat,
        header_meta_spec(bytes) matches Err(e) ==> e == ElfError::TruncatedHeader,
        dynamic_segment_spec(bytes, meta) matches Err(e) ==> e == ElfError::OutOfBounds || e
            == ElfError::TruncatedHeader || e == ElfError::MissingDynamicSegment,
        dynamic_section_spec(bytes, segment) matches Err(e) ==> e == ElfError::OutOfBounds || e
            == ElfError::TruncatedHeader || e == ElfError::MissingStringTable || e
            == ElfError::MissingStringTableSize,
        library_names_spec(bytes, summary) matches Err(e) ==> e == ElfError::OutOfBounds || e
            == ElfError::InvalidEncoding,
{
    lemma_collect_names_errors(string_table(bytes, summary), summary.dt_needed);
}

/// The traversal as a whole never reports `IoFailure`: that kind is for
/// whoever reads the file.
pub proof fn lemma_never_io_failure(bytes: Seq<u8>)
    ensures
        resolve_spec(bytes) != Err::<Seq<Seq<char>>, ElfError>(ElfError::IoFailure),
{
    if let Ok(Some(meta)) = header_meta_spec(bytes) {
        if let Ok(segment) = dynamic_segment_spec(bytes, meta) {
            if let Ok(summary) = dynamic_section_spec(bytes, segment) {
                lemma_error_kinds(bytes, meta, segment, summary);
            }
        }
    }
}

/// Two runs of the traversal on the same bytes give the same outcome: the
/// same names in the same order, or the same error.
pub proof fn lemma_resolve_idempotent(
    bytes: Seq<u8>,
    first: Result<Vec<String>, ElfError>,
    second: Result<Vec<String>, ElfError>,
)
    requires
        names_of(first) == resolve_spec(bytes),
        names_of(second) == resolve_spec(bytes),
    ensures
        names_of(first) == names_of(second),
        first is Ok <==> second is Ok,
        first matches Ok(a) ==> second matches Ok(b) ==> a.len() == b.len() && forall|i: int|
            0 <= i < a.len() ==> a[i]@ == b[i]@,
{
    if let Ok(a) = first {
        if let Ok(b) = second {
            assert(a.deep_view() == b.deep_view());
            assert(a.deep_view().len() == a.len());
            assert(b.deep_view().len() == b.len());
            assert forall|i: int| 0 <= i < a.len() implies a[i]@ == b[i]@ by {
                assert(a.deep_view()[i] == a[i]@);
                assert(b.deep_view()[i] == b[i]@);
            }
        }
    }
}

} // verus!
