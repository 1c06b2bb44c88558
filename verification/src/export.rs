//! The flat shapes in which a decoded image crosses a boundary that knows
//! neither sum types nor arrays, and the two operations that decode an image
//! into them.

use vstd::prelude::*;
use vstd::utf8::{decode_utf8, valid_utf8};
use crate::coff::CoffHeader;
use crate::dos::DosHeader;
use crate::header::{
    decode_header,
    decode_sections,
    header_decodes,
    header_of,
    sections_of,
    Header,
};
use crate::optional::{
    DataDirectories,
    DataDirectory,
    OptionalHeader,
    StandardFields32,
    StandardFields64,
    WindowsFields32,
    WindowsFields64,
};
use crate::section::{section_models, SectionModel, SectionTable};

verus! {

/// The DOS header, as exported.
#[derive(Debug, Clone, Copy, PartialEq, Eq)]
pub struct DosHeaderExport {
    pub signature: u16,
    pub pe_header_offset: u32,
}

/// The COFF header, as exported.
#[derive(Debug, Clone, Copy, PartialEq, Eq)]
pub struct CoffHeaderExport {
    pub machine: u16,
    pub number_of_sections: u16,
    pub time_date_stamp: u32,
    pub pointer_to_symbol_table: u32,
    pub number_of_symbols: u32,
    pub size_of_optional_header: u16,
    pub characteristics: u16,
}

/// The standard fields in the one shape that both layouts share: sizes and
/// addresses are 64 bits wide, and `base_of_data` is zero for PE32+, which
/// does not store it.
#[derive(Debug, Clone, Copy, PartialEq, Eq)]
pub struct StandardFieldsExport {
    pub magic: u16,
    pub major_linker_version: u8,
    pub minor_linker_version: u8,
    pub size_of_code: u64,
    pub size_of_initialized_data: u64,
    pub size_of_uninitialized_data: u64,
    pub address_of_entry_point: u64,
    pub base_of_code: u64,
    pub base_of_data: u64,
}

/// The Windows fields in the one shape that both layouts share: the image
/// base and the stack and heap sizes are 64 bits wide.
#[derive(Debug, Clone, Copy, PartialEq, Eq)]
pub struct WindowsFieldsExport {
    pub image_base: u64,
    pub section_alignment: u32,
    pub file_alignment: u32,
    pub major_operating_system_version: u16,
    pub minor_operating_system_version: u16,
    pub major_image_version: u16,
    pub minor_image_version: u16,
    pub major_subsystem_version: u16,
    pub minor_subsystem_version: u16,
    pub win32_version_value: u32,
    pub size_of_image: u32,
    pub size_of_headers: u32,
    pub check_sum: u32,
    pub subsystem: u16,
    pub dll_characteristics: u16,
    pub size_of_stack_reserve: u64,
    pub size_of_stack_commit: u64,
    pub size_of_heap_reserve: u64,
    pub size_of_heap_commit: u64,
    pub loader_flags: u32,
    pub number_of_rva_and_sizes: u32,
}

/// One data directory, as exported.
#[derive(Debug, Clone, Copy, PartialEq, Eq)]
pub struct DataDirectoryExport {
    pub virtual_address: u32,
    pub size: u32,
}

/// The sixteen slots of the data directory table, each a field of its own.
#[derive(Debug, Clone, Copy, PartialEq, Eq)]
pub struct DataDirectoriesExport {
    pub data_directories0: Option<DataDirectoryExport>,
    pub data_directories1: Option<DataDirectoryExport>,
    pub data_directories2: Option<DataDirectoryExport>,
    pub data_directories3: Option<DataDirectoryExport>,
    pub data_directories4: Option<DataDirectoryExport>,
    pub data_directories5: Option<DataDirectoryExport>,
    pub data_directories6: Option<DataDirectoryExport>,
    pub data_directories7: Option<DataDirectoryExport>,
    pub data_directories8: Option<DataDirectoryExport>,
    pub data_directories9: Option<DataDirectoryExport>,
    pub data_directories10: Option<DataDirectoryExport>,
    pub data_directories11: Option<DataDirectoryExport>,
    pub data_directories12: Option<DataDirectoryExport>,
    pub data_directories13: Option<DataDirectoryExport>,
    pub data_directories14: Option<DataDirectoryExport>,
    pub data_directories15: Option<DataDirectoryExport>,
}

/// The optional header, as exported.
#[derive(Debug, Clone, Copy, PartialEq, Eq)]
pub struct OptionalHeaderExport {
    pub standard_fields: StandardFieldsExport,
    pub windows_fields: WindowsFieldsExport,
    pub data_directories: DataDirectoriesExport,
}

/// A summary of an image as a loader sees it.
#[derive(Debug, Clone, PartialEq, Eq)]
pub struct WindowsHeaderExport {
    /// The size of the binary.
    pub size: usize,
    /// The name of this library, if it has one.
    pub name: Option<String>,
    /// Whether this is a library.
    pub is_lib: bool,
    /// Whether the binary is 64-bit (PE32+).
    pub is_64: bool,
    /// The entry point of the binary.
    pub entry: usize,
    /// The image base, from which virtual addresses are computed.
    pub image_base: usize,
}

/// One entry of the section table, as exported. The short name stays as
/// stored: whoever wants it as text trims the padding.
#[derive(Debug, Clone, PartialEq, Eq)]
pub struct SectionTableExport {
    pub short_name: [u8; 8],
    pub resolved_name: Option<String>,
    pub virtual_size: u32,
    pub virtual_address: u32,
    pub size_of_raw_data: u32,
    pub pointer_to_raw_data: u32,
    pub pointer_to_relocations: u32,
    pub pointer_to_linenumbers: u32,
    pub number_of_relocations: u16,
    pub number_of_linenumbers: u16,
    pub characteristics: u32,
}

/// One entry of the section table with its short name as text, padding
/// included: the shape in which an entry is written out.
#[derive(Debug, Clone, PartialEq, Eq)]
pub struct SectionText {
    pub short_name: String,
    pub resolved_name: Option<String>,
    pub virtual_size: u32,
    pub virtual_address: u32,
    pub size_of_raw_data: u32,
    pub pointer_to_raw_data: u32,
    pub pointer_to_relocations: u32,
    pub pointer_to_linenumbers: u32,
    pub number_of_relocations: u16,
    pub number_of_linenumbers: u16,
    pub characteristics: u32,
}

/// The header of an image, as exported.
#[derive(Debug, Clone, Copy, PartialEq, Eq)]
pub struct HeaderExport {
    pub dos_header: DosHeaderExport,
    pub signature: u32,
    pub coff_header: CoffHeaderExport,
    pub optional_header: Option<OptionalHeaderExport>,
}

impl View for SectionTableExport {
    type V = SectionModel;

    open spec fn view(&self) -> SectionModel {
        SectionModel {
            short_name: self.short_name@,
            resolved_name: match self.resolved_name {
                Some(name) => Some(name@),
                None => None,
            },
            virtual_size: self.virtual_size,
            virtual_address: self.virtual_address,
            size_of_raw_data: self.size_of_raw_data,
            pointer_to_raw_data: self.pointer_to_raw_data,
            pointer_to_relocations: self.pointer_to_relocations,
            pointer_to_linenumbers: self.pointer_to_linenumbers,
            number_of_relocations: self.number_of_relocations,
            number_of_linenumbers: self.number_of_linenumbers,
            characteristics: self.characteristics,
        }
    }
}

impl From<DosHeader> for DosHeaderExport {
    /// Copies the two fields.
    fn from(raw: DosHeader) -> (r: Self) {
        Self {
            signature: raw.signature,
            pe_header_offset: raw.pe_header_offset,
        }
    }
}

/// The DOS header, exported.
pub open spec fn exported_dos_header(raw: DosHeader) -> DosHeaderExport {
    DosHeaderExport {
        signature: raw.signature,
        pe_header_offset: raw.pe_header_offset,
    }
}

impl vstd::std_specs::convert::FromSpecImpl<DosHeader> for DosHeaderExport {
    open spec fn obeys_from_spec() -> bool {
        true
    }

    open spec fn from_spec(raw: DosHeader) -> Self {
        exported_dos_header(raw)
    }
}

impl From<CoffHeader> for CoffHeaderExport {
    /// Copies the seven fields.
    fn from(raw: CoffHeader) -> (r: Self) {
        Self {
            machine: raw.machine,
            number_of_sections: raw.number_of_sections,
            time_date_stamp: raw.time_date_stamp,
            pointer_to_symbol_table: raw.pointer_to_symbol_table,
            number_of_symbols: raw.number_of_symbols,
            size_of_optional_header: raw.size_of_optional_header,
            characteristics: raw.characteristics,
        }
    }
}

/// The COFF header, exported.
pub open spec fn exported_coff_header(raw: CoffHeader) -> CoffHeaderExport {
    CoffHeaderExport {
        machine: raw.machine,
        number_of_sections: raw.number_of_sections,
        time_date_stamp: raw.time_date_stamp,
        pointer_to_symbol_table: raw.pointer_to_symbol_table,
        number_of_symbols: raw.number_of_symbols,
        size_of_optional_header: raw.size_of_optional_header,
        characteristics: raw.characteristics,
    }
}

impl vstd::std_specs::convert::FromSpecImpl<CoffHeader> for CoffHeaderExport {
    open spec fn obeys_from_spec() -> bool {
        true
    }

    open spec fn from_spec(raw: CoffHeader) -> Self {
        exported_coff_header(raw)
    }
}

impl From<StandardFields32> for StandardFieldsExport {
    /// Widens the PE32 fields to 64 bits.
    fn from(raw: StandardFields32) -> (r: Self) {
        Self {
            magic: raw.magic,
            major_linker_version: raw.major_linker_version,
            minor_linker_version: raw.minor_linker_version,
            size_of_code: raw.size_of_code as u64,
            size_of_initialized_data: raw.size_of_initialized_data as u64,
            size_of_uninitialized_data: raw.size_of_uninitialized_data as u64,
            address_of_entry_point: raw.address_of_entry_point as u64,
            base_of_code: raw.base_of_code as u64,
            base_of_data: raw.base_of_data as u64,
        }
    }
}

/// The PE32 standard fields, exported: each 32-bit field widened to 64 bits.
pub open spec fn exported_standard_fields32(raw: StandardFields32) -> StandardFieldsExport {
    StandardFieldsExport {
        magic: raw.magic,
        major_linker_version: raw.major_linker_version,
        minor_linker_version: raw.minor_linker_version,
        size_of_code: raw.size_of_code as u64,
        size_of_initialized_data: raw.size_of_initialized_data as u64,
        size_of_uninitialized_data: raw.size_of_uninitialized_data as u64,
        address_of_entry_point: raw.address_of_entry_point as u64,
        base_of_code: raw.base_of_code as u64,
        base_of_data: raw.base_of_data as u64,
    }
}

impl vstd::std_specs::convert::FromSpecImpl<StandardFields32> for StandardFieldsExport {
    open spec fn obeys_from_spec() -> bool {
        true
    }

    open spec fn from_spec(raw: StandardFields32) -> Self {
        exported_standard_fields32(raw)
    }
}

impl From<StandardFields64> for StandardFieldsExport {
    /// Widens the PE32+ fields to 64 bits and fills `base_of_data` with zero.
    fn from(raw: StandardFields64) -> (r: Self) {
        Self {
            magic: raw.magic,
            major_linker_version: raw.major_linker_version,
            minor_linker_version: raw.minor_linker_version,
            size_of_code: raw.size_of_code as u64,
            size_of_initialized_data: raw.size_of_initialized_data as u64,
            size_of_uninitialized_data: raw.size_of_uninitialized_data as u64,
            address_of_entry_point: raw.address_of_entry_point as u64,
            base_of_code: raw.base_of_code as u64,
            base_of_data: 0,
        }
    }
}

/// The PE32+ standard fields, exported: each 32-bit field widened to 64 bits, and
/// `base_of_data`, which PE32+ does not store, zero.
pub open spec fn exported_standard_fields64(raw: StandardFields64) -> StandardFieldsExport {
    StandardFieldsExport {
        magic: raw.magic,
        major_linker_version: raw.major_linker_version,
        minor_linker_version: raw.minor_linker_version,
        size_of_code: raw.size_of_code as u64,
        size_of_initialized_data: raw.size_of_initialized_data as u64,
        size_of_uninitialized_data: raw.size_of_uninitialized_data as u64,
        address_of_entry_point: raw.address_of_entry_point as u64,
        base_of_code: raw.base_of_code as u64,
        base_of_data: 0,
    }
}

impl vstd::std_specs::convert::FromSpecImpl<StandardFields64> for StandardFieldsExport {
    open spec fn obeys_from_spec() -> bool {
        true
    }

    open spec fn from_spec(raw: StandardFields64) -> Self {
        exported_standard_fields64(raw)
    }
}

impl From<WindowsFields32> for WindowsFieldsExport {
    /// Widens the PE32 image base and stack and heap sizes to 64 bits.
    fn from(raw: WindowsFields32) -> (r: Self) {
        Self {
            image_base: raw.image_base as u64,
            section_alignment: raw.section_alignment,
            file_alignment: raw.file_alignment,
            major_operating_system_version: raw.major_operating_system_version,
            minor_operating_system_version: raw.minor_operating_system_version,
            major_image_version: raw.major_image_version,
            minor_image_version: raw.minor_image_version,
            major_subsystem_version: raw.major_subsystem_version,
            minor_subsystem_version: raw.minor_subsystem_version,
            win32_version_value: raw.win32_version_value,
            size_of_image: raw.size_of_image,
            size_of_headers: raw.size_of_headers,
            check_sum: raw.check_sum,
            subsystem: raw.subsystem,
            dll_characteristics: raw.dll_characteristics,
            size_of_stack_reserve: raw.size_of_stack_reserve as u64,
            size_of_stack_commit: raw.size_of_stack_commit as u64,
            size_of_heap_reserve: raw.size_of_heap_reserve as u64,
            size_of_heap_commit: raw.size_of_heap_commit as u64,
            loader_flags: raw.loader_flags,
            number_of_rva_and_sizes: raw.number_of_rva_and_sizes,
        }
    }
}

/// The PE32 Windows fields, exported: the image base and the stack and heap sizes
/// widened to 64 bits.
pub open spec fn exported_windows_fields32(raw: WindowsFields32) -> WindowsFieldsExport {
    WindowsFieldsExport {
        image_base: raw.image_base as u64,
        section_alignment: raw.section_alignment,
        file_alignment: raw.file_alignment,
        major_operating_system_version: raw.major_operating_system_version,
        minor_operating_system_version: raw.minor_operating_system_version,
        major_image_version: raw.major_image_version,
        minor_image_version: raw.minor_image_version,
        major_subsystem_version: raw.major_subsystem_version,
        minor_subsystem_version: raw.minor_subsystem_version,
        win32_version_value: raw.win32_version_value,
        size_of_image: raw.size_of_image,
        size_of_headers: raw.size_of_headers,
        check_sum: raw.check_sum,
        subsystem: raw.subsystem,
        dll_characteristics: raw.dll_characteristics,
        size_of_stack_reserve: raw.size_of_stack_reserve as u64,
        size_of_stack_commit: raw.size_of_stack_commit as u64,
        size_of_heap_reserve: raw.size_of_heap_reserve as u64,
        size_of_heap_commit: raw.size_of_heap_commit as u64,
        loader_flags: raw.loader_flags,
        number_of_rva_and_sizes: raw.number_of_rva_and_sizes,
    }
}

impl vstd::std_specs::convert::FromSpecImpl<WindowsFields32> for WindowsFieldsExport {
    open spec fn obeys_from_spec() -> bool {
        true
    }

    open spec fn from_spec(raw: WindowsFields32) -> Self {
        exported_windows_fields32(raw)
    }
}

impl From<WindowsFields64> for WindowsFieldsExport {
    /// Copies the PE32+ fields, which are as wide as the exported ones.
    fn from(raw: WindowsFields64) -> (r: Self) {
        Self {
            image_base: raw.image_base,
            section_alignment: raw.section_alignment,
            file_alignment: raw.file_alignment,
            major_operating_system_version: raw.major_operating_system_version,
            minor_operating_system_version: raw.minor_operating_system_version,
            major_image_version: raw.major_image_version,
            minor_image_version: raw.minor_image_version,
            major_subsystem_version: raw.major_subsystem_version,
            minor_subsystem_version: raw.minor_subsystem_version,
            win32_version_value: raw.win32_version_value,
            size_of_image: raw.size_of_image,
            size_of_headers: raw.size_of_headers,
            check_sum: raw.check_sum,
            subsystem: raw.subsystem,
            dll_characteristics: raw.dll_characteristics,
            size_of_stack_reserve: raw.size_of_stack_reserve,
            size_of_stack_commit: raw.size_of_stack_commit,
            size_of_heap_reserve: raw.size_of_heap_reserve,
            size_of_heap_commit: raw.size_of_heap_commit,
            loader_flags: raw.loader_flags,
            number_of_rva_and_sizes: raw.number_of_rva_and_sizes,
        }
    }
}

/// The PE32+ Windows fields, exported as they are.
pub open spec fn exported_windows_fields64(raw: WindowsFields64) -> WindowsFieldsExport {
    WindowsFieldsExport {
        image_base: raw.image_base,
        section_alignment: raw.section_alignment,
        file_alignment: raw.file_alignment,
        major_operating_system_version: raw.major_operating_system_version,
        minor_operating_system_version: raw.minor_operating_system_version,
        major_image_version: raw.major_image_version,
        minor_image_version: raw.minor_image_version,
        major_subsystem_version: raw.major_subsystem_version,
        minor_subsystem_version: raw.minor_subsystem_version,
        win32_version_value: raw.win32_version_value,
        size_of_image: raw.size_of_image,
        size_of_headers: raw.size_of_headers,
        check_sum: raw.check_sum,
        subsystem: raw.subsystem,
        dll_characteristics: raw.dll_characteristics,
        size_of_stack_reserve: raw.size_of_stack_reserve,
        size_of_stack_commit: raw.size_of_stack_commit,
        size_of_heap_reserve: raw.size_of_heap_reserve,
        size_of_heap_commit: raw.size_of_heap_commit,
        loader_flags: raw.loader_flags,
        number_of_rva_and_sizes: raw.number_of_rva_and_sizes,
    }
}

impl vstd::std_specs::convert::FromSpecImpl<WindowsFields64> for WindowsFieldsExport {
    open spec fn obeys_from_spec() -> bool {
        true
    }

    open spec fn from_spec(raw: WindowsFields64) -> Self {
        exported_windows_fields64(raw)
    }
}

impl From<DataDirectory> for DataDirectoryExport {
    /// Copies the two fields.
    fn from(raw: DataDirectory) -> (r: Self) {
        Self {
            virtual_address: raw.virtual_address,
            size: raw.size,
        }
    }
}

/// A data directory, exported.
pub open spec fn exported_directory(raw: DataDirectory) -> DataDirectoryExport {
    DataDirectoryExport {
        virtual_address: raw.virtual_address,
        size: raw.size,
    }
}

impl vstd::std_specs::convert::FromSpecImpl<DataDirectory> for DataDirectoryExport {
    open spec fn obeys_from_spec() -> bool {
        true
    }

    open spec fn from_spec(raw: DataDirectory) -> Self {
        exported_directory(raw)
    }
}

/// A slot of the table, exported: absent where the slot is absent.
pub open spec fn exported_slot(slot: Option<DataDirectory>) -> Option<DataDirectoryExport> {
    match slot {
        Some(directory) => Some(exported_directory(directory)),
        None => None,
    }
}

/// Exports one slot of the table.
pub fn export_slot(slot: Option<DataDirectory>) -> (r: Option<DataDirectoryExport>)
    ensures
        r == exported_slot(slot),
{
    match slot {
        Some(directory) => Some(DataDirectoryExport::from(directory)),
        None => None,
    }
}

impl From<DataDirectories> for DataDirectoriesExport {
    /// Gives each of the sixteen slots a field of its own.
    fn from(raw: DataDirectories) -> (r: Self) {
        Self {
            data_directories0: export_slot(raw.data_directories[0]),
            data_directories1: export_slot(raw.data_directories[1]),
            data_directories2: export_slot(raw.data_directories[2]),
            data_directories3: export_slot(raw.data_directories[3]),
            data_directories4: export_slot(raw.data_directories[4]),
            data_directories5: export_slot(raw.data_directories[5]),
            data_directories6: export_slot(raw.data_directories[6]),
            data_directories7: export_slot(raw.data_directories[7]),
            data_directories8: export_slot(raw.data_directories[8]),
            data_directories9: export_slot(raw.data_directories[9]),
            data_directories10: export_slot(raw.data_directories[10]),
            data_directories11: export_slot(raw.data_directories[11]),
            data_directories12: export_slot(raw.data_directories[12]),
            data_directories13: export_slot(raw.data_directories[13]),
            data_directories14: export_slot(raw.data_directories[14]),
            data_directories15: export_slot(raw.data_directories[15]),
        }
    }
}

/// The table of data directories, exported: slot `i` becomes the field
/// `data_directories` with `i` behind it.
pub open spec fn exported_directories(raw: DataDirectories) -> DataDirectoriesExport {
    DataDirectoriesExport {
        data_directories0: exported_slot(raw.data_directories[0]),
        data_directories1: exported_slot(raw.data_directories[1]),
        data_directories2: exported_slot(raw.data_directories[2]),
        data_directories3: exported_slot(raw.data_directories[3]),
        data_directories4: exported_slot(raw.data_directories[4]),
        data_directories5: exported_slot(raw.data_directories[5]),
        data_directories6: exported_slot(raw.data_directories[6]),
        data_directories7: exported_slot(raw.data_directories[7]),
        data_directories8: exported_slot(raw.data_directories[8]),
        data_directories9: exported_slot(raw.data_directories[9]),
        data_directories10: exported_slot(raw.data_directories[10]),
        data_directories11: exported_slot(raw.data_directories[11]),
        data_directories12: exported_slot(raw.data_directories[12]),
        data_directories13: exported_slot(raw.data_directories[13]),
        data_directories14: exported_slot(raw.data_directories[14]),
        data_directories15: exported_slot(raw.data_directories[15]),
    }
}

impl vstd::std_specs::convert::FromSpecImpl<DataDirectories> for DataDirectoriesExport {
    open spec fn obeys_from_spec() -> bool {
        true
    }

    open spec fn from_spec(raw: DataDirectories) -> Self {
        exported_directories(raw)
    }
}

impl From<OptionalHeader> for OptionalHeaderExport {
    /// Brings either layout into the shared shape.
    fn from(raw: OptionalHeader) -> (r: Self) {
        match raw {
            OptionalHeader::Pe32 { standard_fields, windows_fields, data_directories } => Self {
                standard_fields: StandardFieldsExport::from(standard_fields),
                windows_fields: WindowsFieldsExport::from(windows_fields),
                data_directories: DataDirectoriesExport::from(data_directories),
            },
            OptionalHeader::Pe32Plus { standard_fields, windows_fields, data_directories } => Self {
                standard_fields: StandardFieldsExport::from(standard_fields),
                windows_fields: WindowsFieldsExport::from(windows_fields),
                data_directories: DataDirectoriesExport::from(data_directories),
            },
        }
    }
}

/// The optional header of either layout, exported in the shared shape.
pub open spec fn exported_optional_header(raw: OptionalHeader) -> OptionalHeaderExport {
    match raw {
        OptionalHeader::Pe32 { standard_fields, windows_fields, data_directories } => OptionalHeaderExport {
            standard_fields: exported_standard_fields32(standard_fields),
            windows_fields: exported_windows_fields32(windows_fields),
            data_directories: exported_directories(data_directories),
        },
        OptionalHeader::Pe32Plus { standard_fields, windows_fields, data_directories } => OptionalHeaderExport {
            standard_fields: exported_standard_fields64(standard_fields),
            windows_fields: exported_windows_fields64(windows_fields),
            data_directories: exported_directories(data_directories),
        },
    }
}

impl vstd::std_specs::convert::FromSpecImpl<OptionalHeader> for OptionalHeaderExport {
    open spec fn obeys_from_spec() -> bool {
        true
    }

    open spec fn from_spec(raw: OptionalHeader) -> Self {
        exported_optional_header(raw)
    }
}

impl From<SectionTable> for SectionTableExport {
    /// Moves every field over, the raw short name and the resolved name alike.
    fn from(raw: SectionTable) -> (r: Self) {
        Self {
            short_name: raw.short_name,
            resolved_name: raw.resolved_name,
            virtual_size: raw.virtual_size,
            virtual_address: raw.virtual_address,
            size_of_raw_data: raw.size_of_raw_data,
            pointer_to_raw_data: raw.pointer_to_raw_data,
            pointer_to_relocations: raw.pointer_to_relocations,
            pointer_to_linenumbers: raw.pointer_to_linenumbers,
            number_of_relocations: raw.number_of_relocations,
            number_of_linenumbers: raw.number_of_linenumbers,
            characteristics: raw.characteristics,
        }
    }
}

/// An entry of the section table, exported with every field as it is.
pub open spec fn exported_section(raw: SectionTable) -> SectionTableExport {
    SectionTableExport {
        short_name: raw.short_name,
        resolved_name: raw.resolved_name,
        virtual_size: raw.virtual_size,
        virtual_address: raw.virtual_address,
        size_of_raw_data: raw.size_of_raw_data,
        pointer_to_raw_data: raw.pointer_to_raw_data,
        pointer_to_relocations: raw.pointer_to_relocations,
        pointer_to_linenumbers: raw.pointer_to_linenumbers,
        number_of_relocations: raw.number_of_relocations,
        number_of_linenumbers: raw.number_of_linenumbers,
        characteristics: raw.characteristics,
    }
}

impl vstd::std_specs::convert::FromSpecImpl<SectionTable> for SectionTableExport {
    open spec fn obeys_from_spec() -> bool {
        true
    }

    open spec fn from_spec(raw: SectionTable) -> Self {
        exported_section(raw)
    }
}

/// The optional header, exported: absent where the header has none.
pub open spec fn exported_optional(optional: Option<OptionalHeader>) -> Option<
    OptionalHeaderExport,
> {
    match optional {
        Some(header) => Some(exported_optional_header(header)),
        None => None,
    }
}

impl From<Header> for HeaderExport {
    /// Exports each part of the header.
    fn from(raw: Header) -> (r: Self) {
        Self {
            dos_header: DosHeaderExport::from(raw.dos_header),
            signature: raw.signature,
            coff_header: CoffHeaderExport::from(raw.coff_header),
            optional_header: match raw.optional_header {
                Some(header) => Some(OptionalHeaderExport::from(header)),
                None => None,
            },
        }
    }
}

/// The header, exported part by part.
pub open spec fn exported_header(raw: Header) -> HeaderExport {
    HeaderExport {
        dos_header: exported_dos_header(raw.dos_header),
        signature: raw.signature,
        coff_header: exported_coff_header(raw.coff_header),
        optional_header: exported_optional(raw.optional_header),
    }
}

impl vstd::std_specs::convert::FromSpecImpl<Header> for HeaderExport {
    open spec fn obeys_from_spec() -> bool {
        true
    }

    open spec fn from_spec(raw: Header) -> Self {
        exported_header(raw)
    }
}

/// The models of a sequence of exported entries, in the same order.
pub open spec fn exported_models(v: Seq<SectionTableExport>) -> Seq<SectionModel> {
    Seq::new(v.len(), |i: int| v[i]@)
}

/// What `parse_pe` returns for the image `s`: the exported header where the
/// header decodes, and nothing where any step of the decoding fails.
pub open spec fn exported_header_of(s: Seq<u8>) -> Option<HeaderExport> {
    match header_of(s) {
        Ok(header) => Some(exported_header(header)),
        Err(_) => None,
    }
}

/// Whether `s` starts with the two bytes "MZ".
pub open spec fn starts_with_mz(s: Seq<u8>) -> bool {
    s.len() >= 2 && s[0] == 0x4D && s[1] == 0x5A
}

/// Decodes the header of the image in `bytes` and exports it.
///
/// The result is the whole header or nothing, and depends on nothing but
/// the bytes. It is a header exactly where `header_decodes` holds: a buffer
/// that ends inside the table of data directories, or before the declared
/// size of the optional header, still gives one. A buffer that does not
/// start with "MZ" gives nothing.
pub fn parse_pe(bytes: &[u8]) -> (r: Option<HeaderExport>)
    ensures
        r == exported_header_of(bytes@),
        r is Some <==> header_decodes(bytes@),
        !starts_with_mz(bytes@) ==> r is None,
{
    match decode_header(bytes) {
        Ok(header) => Some(HeaderExport::from(header)),
        Err(_) => None,
    }
}

/// Decodes the section table of the image in `bytes` and exports its
/// entries in file order.
///
/// The result is the whole table or nothing, and depends on nothing but the
/// bytes; it is nothing where the header does not decode, where the buffer
/// ends before the last entry does, and where the buffer does not start
/// with "MZ".
pub fn get_sections(bytes: &[u8]) -> (r: Option<Vec<SectionTableExport>>)
    ensures
        match (r, sections_of(bytes@)) {
            (Some(entries), Ok(model)) => exported_models(entries@) == model,
            (None, Err(_)) => true,
            _ => false,
        },
        !starts_with_mz(bytes@) ==> r is None,
{
    let entries = match decode_sections(bytes) {
        Ok(entries) => entries,
        Err(_) => {
            return None;
        },
    };
    let ghost decoded = entries@;
    let mut exported: Vec<SectionTableExport> = Vec::new();
    for entry in it: entries.into_iter()
        invariant
            it.seq() == decoded,
            exported@.len() == it.index(),
            forall|j: int| 0 <= j < exported@.len() ==> (#[trigger] exported@[j])@ == decoded[j]@,
    {
        exported.push(SectionTableExport::from(entry));
    }
    assert(exported_models(exported@) =~= section_models(decoded));
    Some(exported)
}

/// Whether `text` is `entry` with its short name read as UTF-8 and every
/// other field as it is.
pub open spec fn is_text_of(text: SectionText, entry: SectionTableExport) -> bool {
    &&& text.short_name@ == decode_utf8(entry.short_name@)
    &&& text.resolved_name == entry.resolved_name
    &&& text.virtual_size == entry.virtual_size
    &&& text.virtual_address == entry.virtual_address
    &&& text.size_of_raw_data == entry.size_of_raw_data
    &&& text.pointer_to_raw_data == entry.pointer_to_raw_data
    &&& text.pointer_to_relocations == entry.pointer_to_relocations
    &&& text.pointer_to_linenumbers == entry.pointer_to_linenumbers
    &&& text.number_of_relocations == entry.number_of_relocations
    &&& text.number_of_linenumbers == entry.number_of_linenumbers
    &&& text.characteristics == entry.characteristics
}

/// Whether the short name of every entry is well-formed UTF-8.
pub open spec fn all_names_are_text(entries: Seq<SectionTableExport>) -> bool {
    forall|i: int| 0 <= i < entries.len() ==> valid_utf8((#[trigger] entries[i]).short_name@)
}

/// Reads the short name of every entry as text, in the same order.
///
/// One short name that is not well-formed UTF-8 makes the whole result
/// nothing: no entry is dropped or patched.
pub fn sections_as_text(entries: Vec<SectionTableExport>) -> (r: Option<Vec<SectionText>>)
    ensures
        r is Some <==> all_names_are_text(entries@),
        r matches Some(texts) ==> texts@.len() == entries@.len() && forall|i: int|
            0 <= i < texts@.len() ==> is_text_of(#[trigger] texts@[i], entries@[i]),
{
    let ghost all = entries@;
    let mut texts: Vec<SectionText> = Vec::new();
    for entry in it: entries.into_iter()
        invariant
            it.seq() == all,
            texts@.len() == it.index(),
            forall|j: int| 0 <= j < texts@.len() ==> is_text_of(#[trigger] texts@[j], all[j]),
            forall|j: int| 0 <= j < it.index() ==> valid_utf8((#[trigger] all[j]).short_name@),
    {
        let short_name = match entry.short_name_text() {
            Some(text) => text,
            None => {
                assert(!valid_utf8(all[it.index()].short_name@));
                return None;
            },
        };
        texts.push(
            SectionText {
                short_name,
                resolved_name: entry.resolved_name,
                virtual_size: entry.virtual_size,
                virtual_address: entry.virtual_address,
                size_of_raw_data: entry.size_of_raw_data,
                pointer_to_raw_data: entry.pointer_to_raw_data,
                pointer_to_relocations: entry.pointer_to_relocations,
                pointer_to_linenumbers: entry.pointer_to_linenumbers,
                number_of_relocations: entry.number_of_relocations,
                number_of_linenumbers: entry.number_of_linenumbers,
                characteristics: entry.characteristics,
            },
        );
    }
    Some(texts)
}

impl SectionTableExport {
    /// The eight bytes of the short name read as UTF-8 text, padding
    /// included, or `None` where they are not well-formed UTF-8.
    pub fn short_name_text(&self) -> (r: Option<String>)
        ensures
            r is Some <==> valid_utf8(self.short_name@),
            r matches Some(text) ==> text@ == decode_utf8(self.short_name@),
    {
        match crate::section::text_of_utf8(self.short_name.as_slice()) {
            Some(text) => Some(text.to_owned()),
            None => None,
        }
    }
}

} // verus!
