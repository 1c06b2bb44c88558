//! The optional header: standard fields, Windows-specific fields and the
//! table of data directories, in the PE32 and the PE32+ layout.

use vstd::prelude::*;
use vstd::slice::slice_subrange;
use crate::error::DecodeError;
use crate::le::{le_u16, le_u32, le_u64, read_u16, read_u32, read_u64, read_u8};

verus! {

/// The magic of a PE32 optional header.
pub const MAGIC_PE32: u16 = 0x10B;

/// The magic of a PE32+ optional header.
pub const MAGIC_PE32_PLUS: u16 = 0x20B;

/// The bytes that the standard and the Windows fields take in PE32.
pub const PE32_FIELDS_SIZE: usize = 96;

/// The bytes that the standard and the Windows fields take in PE32+.
pub const PE32_PLUS_FIELDS_SIZE: usize = 112;

/// The size of one data directory entry in bytes.
pub const DATA_DIRECTORY_SIZE: usize = 8;

/// How many slots the table of data directories has.
pub const DATA_DIRECTORY_SLOTS: usize = 16;

/// The standard fields as PE32 stores them.
#[derive(Debug, Clone, Copy, PartialEq, Eq)]
pub struct StandardFields32 {
    pub magic: u16,
    pub major_linker_version: u8,
    pub minor_linker_version: u8,
    pub size_of_code: u32,
    pub size_of_initialized_data: u32,
    pub size_of_uninitialized_data: u32,
    pub address_of_entry_point: u32,
    pub base_of_code: u32,
    pub base_of_data: u32,
}

/// The standard fields as PE32+ stores them: there is no `base_of_data`.
#[derive(Debug, Clone, Copy, PartialEq, Eq)]
pub struct StandardFields64 {
    pub magic: u16,
    pub major_linker_version: u8,
    pub minor_linker_version: u8,
    pub size_of_code: u32,
    pub size_of_initialized_data: u32,
    pub size_of_uninitialized_data: u32,
    pub address_of_entry_point: u32,
    pub base_of_code: u32,
}

/// The Windows-specific fields as PE32 stores them.
#[derive(Debug, Clone, Copy, PartialEq, Eq)]
pub struct WindowsFields32 {
    pub image_base: u32,
    pub section_alignment: u32,
    pub file_alignment: u32,
    pub major_operating_system_version: u16,
    pub minor_operating_system_version: u16,
    pub major_image_version: u16,
    pub minor_image_version: u16,
    pub major_subsystem_version: u16,
    pub minor_subsystem_version: u16,
    pub win32_version_value: u32,
    pub size_of_image: u32,
    pub size_of_headers: u32,
    pub check_sum: u32,
    pub subsystem: u16,
    pub dll_characteristics: u16,
    pub size_of_stack_reserve: u32,
    pub size_of_stack_commit: u32,
    pub size_of_heap_reserve: u32,
    pub size_of_heap_commit: u32,
    pub loader_flags: u32,
    pub number_of_rva_and_sizes: u32,
}

/// The Windows-specific fields as PE32+ stores them: the image base and the
/// stack and heap sizes are 64 bits wide.
#[derive(Debug, Clone, Copy, PartialEq, Eq)]
pub struct WindowsFields64 {
    pub image_base: u64,
    pub section_alignment: u32,
    pub file_alignment: u32,
    pub major_operating_system_version: u16,
    pub minor_operating_system_version: u16,
    pub major_image_version: u16,
    pub minor_image_version: u16,
    pub major_subsystem_version: u16,
    pub minor_subsystem_version: u16,
    pub win32_version_value: u32,
    pub size_of_image: u32,
    pub size_of_headers: u32,
    pub check_sum: u32,
    pub subsystem: u16,
    pub dll_characteristics: u16,
    pub size_of_stack_reserve: u64,
    pub size_of_stack_commit: u64,
    pub size_of_heap_reserve: u64,
    pub size_of_heap_commit: u64,
    pub loader_flags: u32,
    pub number_of_rva_and_sizes: u32,
}

/// Where a table of the image lies once it is loaded, and how large it is.
#[derive(Debug, Clone, Copy, PartialEq, Eq)]
pub struct DataDirectory {
    pub virtual_address: u32,
    pub size: u32,
}

/// The sixteen slots of the data directory table, in the order Export,
/// Import, Resource, Exception, Certificate, Base Relocation, Debug,
/// Architecture, Global Pointer, TLS, Load Config, Bound Import, IAT, Delay
/// Import, CLR Runtime, Reserved.
///
/// A slot that was not read is `None`; one that was read is `Some`, also
/// where both its fields are zero.
#[derive(Debug, Clone, Copy, PartialEq, Eq)]
pub struct DataDirectories {
    pub data_directories: [Option<DataDirectory>; 16],
}

/// A decoded optional header, in the layout that its magic announced.
#[derive(Debug, Clone, Copy, PartialEq, Eq)]
pub enum OptionalHeader {
    Pe32 {
        standard_fields: StandardFields32,
        windows_fields: WindowsFields32,
        data_directories: DataDirectories,
    },
    Pe32Plus {
        standard_fields: StandardFields64,
        windows_fields: WindowsFields64,
        data_directories: DataDirectories,
    },
}

/// The PE32 standard fields at the start of `w`.
pub open spec fn standard_fields32_of(w: Seq<u8>) -> StandardFields32 {
    StandardFields32 {
        magic: le_u16(w, 0),
        major_linker_version: w[2],
        minor_linker_version: w[3],
        size_of_code: le_u32(w, 4),
        size_of_initialized_data: le_u32(w, 8),
        size_of_uninitialized_data: le_u32(w, 12),
        address_of_entry_point: le_u32(w, 16),
        base_of_code: le_u32(w, 20),
        base_of_data: le_u32(w, 24),
    }
}

/// The PE32+ standard fields at the start of `w`.
pub open spec fn standard_fields64_of(w: Seq<u8>) -> StandardFields64 {
    StandardFields64 {
        magic: le_u16(w, 0),
        major_linker_version: w[2],
        minor_linker_version: w[3],
        size_of_code: le_u32(w, 4),
        size_of_initialized_data: le_u32(w, 8),
        size_of_uninitialized_data: le_u32(w, 12),
        address_of_entry_point: le_u32(w, 16),
        base_of_code: le_u32(w, 20),
    }
}

/// The PE32 Windows fields, which follow the standard fields at offset 28.
pub open spec fn windows_fields32_of(w: Seq<u8>) -> WindowsFields32 {
    WindowsFields32 {
        image_base: le_u32(w, 28),
        section_alignment: le_u32(w, 32),
        file_alignment: le_u32(w, 36),
        major_operating_system_version: le_u16(w, 40),
        minor_operating_system_version: le_u16(w, 42),
        major_image_version: le_u16(w, 44),
        minor_image_version: le_u16(w, 46),
        major_subsystem_version: le_u16(w, 48),
        minor_subsystem_version: le_u16(w, 50),
        win32_version_value: le_u32(w, 52),
        size_of_image: le_u32(w, 56),
        size_of_headers: le_u32(w, 60),
        check_sum: le_u32(w, 64),
        subsystem: le_u16(w, 68),
        dll_characteristics: le_u16(w, 70),
        size_of_stack_reserve: le_u32(w, 72),
        size_of_stack_commit: le_u32(w, 76),
        size_of_heap_reserve: le_u32(w, 80),
        size_of_heap_commit: le_u32(w, 84),
        loader_flags: le_u32(w, 88),
        number_of_rva_and_sizes: le_u32(w, 92),
    }
}

/// The PE32+ Windows fields, which follow the standard fields at offset 24.
pub open spec fn windows_fields64_of(w: Seq<u8>) -> WindowsFields64 {
    WindowsFields64 {
        image_base: le_u64(w, 24),
        section_alignment: le_u32(w, 32),
        file_alignment: le_u32(w, 36),
        major_operating_system_version: le_u16(w, 40),
        minor_operating_system_version: le_u16(w, 42),
        major_image_version: le_u16(w, 44),
        minor_image_version: le_u16(w, 46),
        major_subsystem_version: le_u16(w, 48),
        minor_subsystem_version: le_u16(w, 50),
        win32_version_value: le_u32(w, 52),
        size_of_image: le_u32(w, 56),
        size_of_headers: le_u32(w, 60),
        check_sum: le_u32(w, 64),
        subsystem: le_u16(w, 68),
        dll_characteristics: le_u16(w, 70),
        size_of_stack_reserve: le_u64(w, 72),
        size_of_stack_commit: le_u64(w, 80),
        size_of_heap_reserve: le_u64(w, 88),
        size_of_heap_commit: le_u64(w, 96),
        loader_flags: le_u32(w, 104),
        number_of_rva_and_sizes: le_u32(w, 108),
    }
}

/// Slot `i` of the data directory table that starts at `base` in the
/// optional header `w`, whose Windows fields declare `declared` entries.
///
/// The slot is present where `i` is below both the declared count and
/// sixteen, and the header still holds the slot's eight bytes whole.
pub open spec fn directory_slot(w: Seq<u8>, base: int, declared: int, i: int) -> Option<
    DataDirectory,
> {
    if 0 <= i < DATA_DIRECTORY_SLOTS && i < declared && base + DATA_DIRECTORY_SIZE * (i + 1)
        <= w.len() {
        Some(
            DataDirectory {
                virtual_address: le_u32(w, base + DATA_DIRECTORY_SIZE * i),
                size: le_u32(w, base + DATA_DIRECTORY_SIZE * i + 4),
            },
        )
    } else {
        None
    }
}

/// The table of data directories that starts at `base` in the optional
/// header `w`.
pub open spec fn data_directories_of(w: Seq<u8>, base: int, declared: int) -> DataDirectories {
    DataDirectories {
        data_directories: [
            directory_slot(w, base, declared, 0),
            directory_slot(w, base, declared, 1),
            directory_slot(w, base, declared, 2),
            directory_slot(w, base, declared, 3),
            directory_slot(w, base, declared, 4),
            directory_slot(w, base, declared, 5),
            directory_slot(w, base, declared, 6),
            directory_slot(w, base, declared, 7),
            directory_slot(w, base, declared, 8),
            directory_slot(w, base, declared, 9),
            directory_slot(w, base, declared, 10),
            directory_slot(w, base, declared, 11),
            directory_slot(w, base, declared, 12),
            directory_slot(w, base, declared, 13),
            directory_slot(w, base, declared, 14),
            directory_slot(w, base, declared, 15),
        ],
    }
}

/// The optional header that the byte sequence `w` holds, where `w` is what
/// can be read of it: the bytes that the COFF header sets aside for the
/// optional header, as far as the buffer holds them.
///
/// Nothing behind `w` is looked at. A `w` too short for the magic, or for
/// the standard and Windows fields of its layout, is truncated; one that
/// ends inside the table of data directories is not, and merely has fewer
/// slots present.
pub open spec fn optional_header_of(w: Seq<u8>) -> Result<OptionalHeader, DecodeError> {
    if w.len() < 2 {
        Err(DecodeError::Truncated)
    } else if le_u16(w, 0) == MAGIC_PE32 {
        if w.len() < PE32_FIELDS_SIZE {
            Err(DecodeError::Truncated)
        } else {
            Ok(
                OptionalHeader::Pe32 {
                    standard_fields: standard_fields32_of(w),
                    windows_fields: windows_fields32_of(w),
                    data_directories: data_directories_of(
                        w,
                        PE32_FIELDS_SIZE as int,
                        windows_fields32_of(w).number_of_rva_and_sizes as int,
                    ),
                },
            )
        }
    } else if le_u16(w, 0) == MAGIC_PE32_PLUS {
        if w.len() < PE32_PLUS_FIELDS_SIZE {
            Err(DecodeError::Truncated)
        } else {
            Ok(
                OptionalHeader::Pe32Plus {
                    standard_fields: standard_fields64_of(w),
                    windows_fields: windows_fields64_of(w),
                    data_directories: data_directories_of(
                        w,
                        PE32_PLUS_FIELDS_SIZE as int,
                        windows_fields64_of(w).number_of_rva_and_sizes as int,
                    ),
                },
            )
        }
    } else {
        Err(DecodeError::UnknownOptionalHeaderMagic)
    }
}

/// What can be read of an optional header of declared size `size` that
/// starts at `at` in `s`: its bytes up to the declared size or to the end
/// of the buffer, whichever comes first.
pub open spec fn optional_header_window(s: Seq<u8>, at: int, size: int) -> Seq<u8> {
    if at + size <= s.len() {
        s.subrange(at, at + size)
    } else {
        s.subrange(at, s.len() as int)
    }
}

/// The optional header of declared size `size` that starts at `at` in `s`.
///
/// The declared size is a bound on what is read, not a demand on the
/// buffer: a buffer that ends before the declared size is decoded as far as
/// it goes.
pub open spec fn optional_header_at(s: Seq<u8>, at: int, size: int) -> Result<
    OptionalHeader,
    DecodeError,
> {
    if s.len() < at {
        Err(DecodeError::Truncated)
    } else {
        optional_header_of(optional_header_window(s, at, size))
    }
}

/// Decodes the PE32 standard fields.
pub fn decode_standard_fields32(w: &[u8]) -> (r: StandardFields32)
    requires
        w.len() >= 28,
    ensures
        r == standard_fields32_of(w@),
{
    StandardFields32 {
        magic: read_u16(w, 0),
        major_linker_version: read_u8(w, 2),
        minor_linker_version: read_u8(w, 3),
        size_of_code: read_u32(w, 4),
        size_of_initialized_data: read_u32(w, 8),
        size_of_uninitialized_data: read_u32(w, 12),
        address_of_entry_point: read_u32(w, 16),
        base_of_code: read_u32(w, 20),
        base_of_data: read_u32(w, 24),
    }
}

/// Decodes the PE32+ standard fields.
pub fn decode_standard_fields64(w: &[u8]) -> (r: StandardFields64)
    requires
        w.len() >= 24,
    ensures
        r == standard_fields64_of(w@),
{
    StandardFields64 {
        magic: read_u16(w, 0),
        major_linker_version: read_u8(w, 2),
        minor_linker_version: read_u8(w, 3),
        size_of_code: read_u32(w, 4),
        size_of_initialized_data: read_u32(w, 8),
        size_of_uninitialized_data: read_u32(w, 12),
        address_of_entry_point: read_u32(w, 16),
        base_of_code: read_u32(w, 20),
    }
}

/// Decodes the PE32 Windows fields.
pub fn decode_windows_fields32(w: &[u8]) -> (r: WindowsFields32)
    requires
        w.len() >= PE32_FIELDS_SIZE,
    ensures
        r == windows_fields32_of(w@),
{
    WindowsFields32 {
        image_base: read_u32(w, 28),
        section_alignment: read_u32(w, 32),
        file_alignment: read_u32(w, 36),
        major_operating_system_version: read_u16(w, 40),
        minor_operating_system_version: read_u16(w, 42),
        major_image_version: read_u16(w, 44),
        minor_image_version: read_u16(w, 46),
        major_subsystem_version: read_u16(w, 48),
        minor_subsystem_version: read_u16(w, 50),
        win32_version_value: read_u32(w, 52),
        size_of_image: read_u32(w, 56),
        size_of_headers: read_u32(w, 60),
        check_sum: read_u32(w, 64),
        subsystem: read_u16(w, 68),
        dll_characteristics: read_u16(w, 70),
        size_of_stack_reserve: read_u32(w, 72),
        size_of_stack_commit: read_u32(w, 76),
        size_of_heap_reserve: read_u32(w, 80),
        size_of_heap_commit: read_u32(w, 84),
        loader_flags: read_u32(w, 88),
        number_of_rva_and_sizes: read_u32(w, 92),
    }
}

/// Decodes the PE32+ Windows fields.
pub fn decode_windows_fields64(w: &[u8]) -> (r: WindowsFields64)
    requires
        w.len() >= PE32_PLUS_FIELDS_SIZE,
    ensures
        r == windows_fields64_of(w@),
{
    WindowsFields64 {
        image_base: read_u64(w, 24),
        section_alignment: read_u32(w, 32),
        file_alignment: read_u32(w, 36),
        major_operating_system_version: read_u16(w, 40),
        minor_operating_system_version: read_u16(w, 42),
        major_image_version: read_u16(w, 44),
        minor_image_version: read_u16(w, 46),
        major_subsystem_version: read_u16(w, 48),
        minor_subsystem_version: read_u16(w, 50),
        win32_version_value: read_u32(w, 52),
        size_of_image: read_u32(w, 56),
        size_of_headers: read_u32(w, 60),
        check_sum: read_u32(w, 64),
        subsystem: read_u16(w, 68),
        dll_characteristics: read_u16(w, 70),
        size_of_stack_reserve: read_u64(w, 72),
        size_of_stack_commit: read_u64(w, 80),
        size_of_heap_reserve: read_u64(w, 88),
        size_of_heap_commit: read_u64(w, 96),
        loader_flags: read_u32(w, 104),
        number_of_rva_and_sizes: read_u32(w, 108),
    }
}

/// Decodes the table of data directories that starts at `base` in the
/// optional header `w`: as many entries as `declared` says, sixteen at
/// most, and none that the header does not hold whole.
pub fn decode_data_directories(w: &[u8], base: usize, declared: u32) -> (r: DataDirectories)
    requires
        base <= w.len(),
    ensures
        r == data_directories_of(w@, base as int, declared as int),
{
    let mut slots: [Option<DataDirectory>; 16] = [None;16];
    let count: usize = if declared > 16 {
        DATA_DIRECTORY_SLOTS
    } else {
        declared as usize
    };
    let room: usize = (w.len() - base) / DATA_DIRECTORY_SIZE;
    let mut i: usize = 0;
    while i < count && i < room
        invariant
            i <= count <= 16,
            base <= w.len(),
            room == (w.len() - base) / 8,
            count == if declared > 16 { 16 } else { declared as int },
            forall|j: int| 0 <= j < i ==> slots[j] == directory_slot(w@, base as int, declared as int, j),
            forall|j: int| i <= j < 16 ==> slots[j] is None,
        decreases count - i,
    {
        let at: usize = base + DATA_DIRECTORY_SIZE * i;
        slots[i] = Some(
            DataDirectory { virtual_address: read_u32(w, at), size: read_u32(w, at + 4) },
        );
        i += 1;
    }
    proof {
        let want = data_directories_of(w@, base as int, declared as int).data_directories;
        assert forall|j: int| 0 <= j < 16 implies slots[j] == want[j] by {
            if j >= i {
                assert(directory_slot(w@, base as int, declared as int, j) is None);
            }
        }
        assert(slots =~= want);
    }
    DataDirectories { data_directories: slots }
}

/// Decodes the optional header from `w`, what can be read of it.
pub fn decode_optional_header(w: &[u8]) -> (r: Result<OptionalHeader, DecodeError>)
    ensures
        r == optional_header_of(w@),
{
    if w.len() < 2 {
        return Err(DecodeError::Truncated);
    }
    let magic: u16 = read_u16(w, 0);
    if magic == MAGIC_PE32 {
        if w.len() < PE32_FIELDS_SIZE {
            return Err(DecodeError::Truncated);
        }
        let standard_fields = decode_standard_fields32(w);
        let windows_fields = decode_windows_fields32(w);
        let data_directories = decode_data_directories(
            w,
            PE32_FIELDS_SIZE,
            windows_fields.number_of_rva_and_sizes,
        );
        Ok(OptionalHeader::Pe32 { standard_fields, windows_fields, data_directories })
    } else if magic == MAGIC_PE32_PLUS {
        if w.len() < PE32_PLUS_FIELDS_SIZE {
            return Err(DecodeError::Truncated);
        }
        let standard_fields = decode_standard_fields64(w);
        let windows_fields = decode_windows_fields64(w);
        let data_directories = decode_data_directories(
            w,
            PE32_PLUS_FIELDS_SIZE,
            windows_fields.number_of_rva_and_sizes,
        );
        Ok(OptionalHeader::Pe32Plus { standard_fields, windows_fields, data_directories })
    } else {
        Err(DecodeError::UnknownOptionalHeaderMagic)
    }
}

/// Decodes the optional header of declared size `size` that starts at `at`
/// in `bytes`, reading nothing beyond that size.
pub fn decode_optional_header_at(bytes: &[u8], at: usize, size: u16) -> (r: Result<
    OptionalHeader,
    DecodeError,
>)
    ensures
        r == optional_header_at(bytes@, at as int, size as int),
{
    if at > bytes.len() {
        return Err(DecodeError::Truncated);
    }
    let end: usize = if size as usize <= bytes.len() - at {
        at + size as usize
    } else {
        bytes.len()
    };
    decode_optional_header(slice_subrange(bytes, at, end))
}

} // verus!
