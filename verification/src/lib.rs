//! Decoding of the header region and the section table of a Portable
//! Executable (PE/COFF) image.
//!
//! Every decoder is proved against a model of the on-disk layout over
//! `Seq<u8>`: [`header::header_of`] says what header a byte sequence holds,
//! [`header::sections_of`] what section table. [`parse_pe`] and
//! [`get_sections`] return these in the flat shapes of [`export`]. What
//! holds of every image is collected in [`laws`].

pub mod coff;
pub mod dos;
pub mod error;
pub mod export;
pub mod header;
pub mod laws;
pub mod le;
pub mod optional;
pub mod section;

pub use error::DecodeError;
pub use export::{
    get_sections, parse_pe, sections_as_text, CoffHeaderExport, DataDirectoriesExport,
    DataDirectoryExport, DosHeaderExport, HeaderExport, OptionalHeaderExport, SectionTableExport,
    SectionText, StandardFieldsExport, WindowsFieldsExport, WindowsHeaderExport,
};
