//! The records that the stages of the traversal hand to one another.

use vstd::prelude::*;

verus! {

/// Raw value of the type field of a program header that describes the
/// dynamic-linking segment.
pub const PT_DYNAMIC: u32 = 2;

/// Raw tag of a dynamic entry that names a needed library.
pub const DT_NEEDED: u64 = 1;

/// Raw tag of the dynamic entry that holds the offset of the string table.
pub const DT_STRTAB: u64 = 5;

/// Raw tag of the dynamic entry that holds the size of the string table.
pub const DT_STRSZ: u64 = 10;

/// What a program header entry describes, as far as this library cares.
#[derive(Clone, Copy, Debug, PartialEq, Eq, Structural)]
pub enum ElfSegmentType {
    /// The dynamic-linking segment.
    PtDynamic,
    /// Any other segment.
    Irrelevant,
}

impl ElfSegmentType {
    /// The segment type that a raw type field stands for.
    pub open spec fn of_raw(value: u32) -> ElfSegmentType {
        if value == PT_DYNAMIC {
            ElfSegmentType::PtDynamic
        } else {
            ElfSegmentType::Irrelevant
        }
    }
}

impl vstd::std_specs::convert::FromSpecImpl<u32> for ElfSegmentType {
    open spec fn obeys_from_spec() -> bool {
        true
    }

    open spec fn from_spec(value: u32) -> Self {
        ElfSegmentType::of_raw(value)
    }
}

impl From<u32> for ElfSegmentType {
    fn from(value: u32) -> (r: Self) {
        match value {
            0x02 => Self::PtDynamic,
            _ => Self::Irrelevant,
        }
    }
}

/// What a dynamic entry holds, as far as this library cares.
#[derive(Clone, Copy, Debug, PartialEq, Eq, Structural)]
pub enum DynSectionTag {
    /// The value is the string table index of a needed library's name.
    DtNeeded,
    /// The value is the offset of the string table from the start of the
    /// file.
    DtStrTab,
    /// The value is the size of the string table in bytes.
    DtStrSz,
    /// Any other entry.
    Irrelevant,
}

impl DynSectionTag {
    /// The tag that a raw tag field stands for.
    pub open spec fn of_raw(value: u64) -> DynSectionTag {
        if value == DT_NEEDED {
            DynSectionTag::DtNeeded
        } else if value == DT_STRTAB {
            DynSectionTag::DtStrTab
        } else if value == DT_STRSZ {
            DynSectionTag::DtStrSz
        } else {
            DynSectionTag::Irrelevant
        }
    }
}

impl vstd::std_specs::convert::FromSpecImpl<u64> for DynSectionTag {
    open spec fn obeys_from_spec() -> bool {
        true
    }

    open spec fn from_spec(value: u64) -> Self {
        DynSectionTag::of_raw(value)
    }
}

impl From<u64> for DynSectionTag {
    fn from(value: u64) -> (r: Self) {
        match value {
            0x01 => Self::DtNeeded,
            0x05 => Self::DtStrTab,
            0x0a => Self::DtStrSz,
            _ => Self::Irrelevant,
        }
    }
}

/// What the file header says about the program header table.
///
/// A table offset of zero stands for "no program headers", so a meta record
/// that describes a table has a non-zero offset: see [`Elf64SHeaderMeta::wf`].
#[derive(Clone, Copy, Debug, PartialEq, Eq, Structural)]
pub struct Elf64SHeaderMeta {
    /// Offset of the program header table from the start of the file.
    pub e_phoff: u64,
    /// Size in bytes of one entry of the table.
    pub e_phentsize: u16,
    /// Number of entries in the table.
    pub e_phnum: u16,
}

impl Elf64SHeaderMeta {
    /// The record describes a table that is present.
    pub open spec fn wf(&self) -> bool {
        self.e_phoff != 0
    }

    /// Offset of the first byte after the program header table.
    pub open spec fn table_end(&self) -> int {
        self.e_phoff + self.e_phentsize * self.e_phnum
    }

    /// Offset of the first byte of entry `i` of the table.
    pub open spec fn entry_start(&self, i: int) -> int {
        self.e_phoff + i * self.e_phentsize
    }

    /// Builds the record for a table at `e_phoff`, or `None` where the offset
    /// is zero and so no table exists.
    pub fn new(e_phoff: u64, e_phentsize: u16, e_phnum: u16) -> (r: Option<Self>)
        ensures
            r == if e_phoff == 0 {
                None
            } else {
                Some(Elf64SHeaderMeta { e_phoff, e_phentsize, e_phnum })
            },
            r matches Some(meta) ==> meta.wf(),
    {
        if e_phoff == 0 {
            None
        } else {
            Some(Elf64SHeaderMeta { e_phoff, e_phentsize, e_phnum })
        }
    }
}

/// One entry of the program header table.
#[derive(Clone, Copy, Debug, PartialEq, Eq, Structural)]
pub struct ElfProgramSection {
    /// What the segment is.
    pub p_type: ElfSegmentType,
    /// Offset of the segment's bytes from the start of the file.
    pub p_offset: u64,
    /// Number of bytes that the segment takes in the file.
    pub p_filesz: u64,
}

impl ElfProgramSection {
    /// Offset of the first byte after the segment.
    pub open spec fn file_end(&self) -> int {
        self.p_offset + self.p_filesz
    }
}

/// One entry of the dynamic section: a tag, and a value whose meaning the
/// tag decides (an offset, a size or a string table index).
#[derive(Clone, Copy, Debug, PartialEq, Eq, Structural)]
pub struct DynSectionElement {
    /// What the value means.
    pub d_tag: DynSectionTag,
    /// The value.
    pub d_thing: u64,
}

/// What the dynamic section says about the libraries that the object needs.
#[derive(Debug, PartialEq, Eq)]
pub struct DynamicSectionCriticals {
    /// The entries that name needed libraries, in the order in which the
    /// dynamic section lists them.
    pub dt_needed: Vec<DynSectionElement>,
    /// The entry that holds the offset of the string table.
    pub dt_strtab: DynSectionElement,
    /// The size of the string table in bytes.
    pub dt_strsz: u64,
}

/// The mathematical value of a [`DynamicSectionCriticals`].
pub struct DynamicSectionSummary {
    /// The entries that name needed libraries, in declaration order.
    pub dt_needed: Seq<DynSectionElement>,
    /// The entry that holds the offset of the string table.
    pub dt_strtab: DynSectionElement,
    /// The size of the string table in bytes.
    pub dt_strsz: u64,
}

impl DynamicSectionSummary {
    /// Every entry is kept under the tag that it was found with.
    pub open spec fn wf(&self) -> bool {
        &&& self.dt_strtab.d_tag == DynSectionTag::DtStrTab
        &&& forall|i: int|
            0 <= i < self.dt_needed.len() ==> (#[trigger] self.dt_needed[i]).d_tag
                == DynSectionTag::DtNeeded
    }

    /// Offset of the first byte after the string table.
    pub open spec fn table_end(&self) -> int {
        self.dt_strtab.d_thing + self.dt_strsz
    }
}

impl View for DynamicSectionCriticals {
    type V = DynamicSectionSummary;

    open spec fn view(&self) -> DynamicSectionSummary {
        DynamicSectionSummary {
            dt_needed: self.dt_needed@,
            dt_strtab: self.dt_strtab,
            dt_strsz: self.dt_strsz,
        }
    }
}

} // verus!
