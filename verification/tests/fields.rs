use elf_needed::le::{read_u16_le, read_u32_le, read_u64_le};
use elf_needed::{DynSectionTag, Elf64SHeaderMeta, ElfError, ElfSegmentType};

#[test]
fn u16_is_read_least_significant_byte_first() {
    assert_eq!(read_u16_le(&[0x34, 0x12], 0), Ok(0x1234));
    assert_eq!(read_u16_le(&[0xff, 0xff], 0), Ok(u16::MAX));
    assert_eq!(read_u16_le(&[0x00, 0x34, 0x12, 0x00], 1), Ok(0x1234));
}

#[test]
fn u32_is_read_least_significant_byte_first() {
    assert_eq!(read_u32_le(&[0x78, 0x56, 0x34, 0x12], 0), Ok(0x1234_5678));
    assert_eq!(read_u32_le(&[0xff, 0xff, 0xff, 0xff], 0), Ok(u32::MAX));
    assert_eq!(read_u32_le(&[0xaa, 0x02, 0x00, 0x00, 0x00], 1), Ok(2));
}

#[test]
fn u64_is_read_least_significant_byte_first() {
    let bytes = [0xef, 0xcd, 0xab, 0x89, 0x67, 0x45, 0x23, 0x01];
    assert_eq!(read_u64_le(&bytes, 0), Ok(0x0123_4567_89ab_cdef));
    assert_eq!(read_u64_le(&[0xff; 8], 0), Ok(u64::MAX));
    assert_eq!(read_u64_le(&[0; 8], 0), Ok(0));
}

#[test]
fn reads_agree_with_std() {
    let bytes: Vec<u8> = (0u8..32).map(|i| i.wrapping_mul(37).wrapping_add(11)).collect();
    for at in 0..=24 {
        let two = [bytes[at], bytes[at + 1]];
        assert_eq!(read_u16_le(&bytes, at), Ok(u16::from_le_bytes(two)));
        let four = [bytes[at], bytes[at + 1], bytes[at + 2], bytes[at + 3]];
        assert_eq!(read_u32_le(&bytes, at), Ok(u32::from_le_bytes(four)));
        let mut eight = [0u8; 8];
        eight.copy_from_slice(&bytes[at..at + 8]);
        assert_eq!(read_u64_le(&bytes, at), Ok(u64::from_le_bytes(eight)));
    }
}

#[test]
fn a_field_that_does_not_fit_is_truncated() {
    assert_eq!(read_u16_le(&[], 0), Err(ElfError::TruncatedHeader));
    assert_eq!(read_u16_le(&[1], 0), Err(ElfError::TruncatedHeader));
    assert_eq!(read_u16_le(&[1, 2], 1), Err(ElfError::TruncatedHeader));
    assert_eq!(read_u16_le(&[1, 2], usize::MAX), Err(ElfError::TruncatedHeader));
    assert_eq!(read_u32_le(&[1, 2, 3], 0), Err(ElfError::TruncatedHeader));
    assert_eq!(read_u32_le(&[1, 2, 3, 4], 1), Err(ElfError::TruncatedHeader));
    assert_eq!(read_u32_le(&[1, 2, 3, 4], usize::MAX), Err(ElfError::TruncatedHeader));
    assert_eq!(read_u64_le(&[0; 7], 0), Err(ElfError::TruncatedHeader));
    assert_eq!(read_u64_le(&[0; 8], 1), Err(ElfError::TruncatedHeader));
    assert_eq!(read_u64_le(&[0; 8], usize::MAX), Err(ElfError::TruncatedHeader));
}

#[test]
fn segment_type_of_raw_value() {
    assert_eq!(ElfSegmentType::from(2u32), ElfSegmentType::PtDynamic);
    assert_eq!(ElfSegmentType::from(0u32), ElfSegmentType::Irrelevant);
    assert_eq!(ElfSegmentType::from(1u32), ElfSegmentType::Irrelevant);
    assert_eq!(ElfSegmentType::from(3u32), ElfSegmentType::Irrelevant);
    assert_eq!(ElfSegmentType::from(0x6474_e551u32), ElfSegmentType::Irrelevant);
    assert_eq!(ElfSegmentType::from(u32::MAX), ElfSegmentType::Irrelevant);
}

#[test]
fn dynamic_tag_of_raw_value() {
    assert_eq!(DynSectionTag::from(1u64), DynSectionTag::DtNeeded);
    assert_eq!(DynSectionTag::from(5u64), DynSectionTag::DtStrTab);
    assert_eq!(DynSectionTag::from(10u64), DynSectionTag::DtStrSz);
    assert_eq!(DynSectionTag::from(0u64), DynSectionTag::Irrelevant);
    assert_eq!(DynSectionTag::from(6u64), DynSectionTag::Irrelevant);
    assert_eq!(DynSectionTag::from(0x1_0000_0001u64), DynSectionTag::Irrelevant);
    assert_eq!(DynSectionTag::from(u64::MAX), DynSectionTag::Irrelevant);
}

#[test]
fn header_meta_needs_a_table_offset() {
    assert_eq!(Elf64SHeaderMeta::new(0, 56, 3), None);
    assert_eq!(
        Elf64SHeaderMeta::new(64, 56, 3),
        Some(Elf64SHeaderMeta { e_phoff: 64, e_phentsize: 56, e_phnum: 3 })
    );
    assert_eq!(
        Elf64SHeaderMeta::new(u64::MAX, 0, 0),
        Some(Elf64SHeaderMeta { e_phoff: u64::MAX, e_phentsize: 0, e_phnum: 0 })
    );
}
