//! Lists the shared libraries that an ELF64 little-endian object declares as
//! runtime dependencies, working from the raw bytes of the file alone.
//!
//! The traversal is a chain of five pure stages: the header validator, the
//! program header locator, the dynamic segment scanner, the dynamic section
//! decoder and the string table resolver. Each stage has a specification
//! function over `Seq<u8>` in [`model`], and the executable stage in
//! [`elf64`] is proved to compute exactly that function. [`laws`] holds
//! what follows for every buffer.

pub mod elf64;
pub mod error;
pub mod laws;
pub mod layout;
pub mod le;
pub mod lemmas;
pub mod model;
pub mod types;
mod utf8;

pub use elf64::{decode_dynamic_entry, decode_program_header, read_library_name, Elf64};
pub use error::ElfError;
pub use types::{
    DynSectionElement, DynSectionTag, DynamicSectionCriticals, Elf64SHeaderMeta,
    ElfProgramSection, ElfSegmentType,
};
