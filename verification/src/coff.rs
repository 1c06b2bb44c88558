//! The PE signature and the COFF file header that follows it.

use vstd::prelude::*;
use crate::error::DecodeError;
use crate::le::{le_u16, le_u32, read_u16, read_u32};

verus! {

/// "PE\0\0", read as a little-endian `u32`.
pub const PE_SIGNATURE: u32 = 0x0000_4550;

/// The size of the PE signature in bytes.
pub const PE_SIGNATURE_SIZE: usize = 4;

/// The size of the COFF header in bytes.
pub const COFF_HEADER_SIZE: usize = 20;

/// The COFF file header.
#[derive(Debug, Clone, Copy, PartialEq, Eq)]
pub struct CoffHeader {
    /// The target machine.
    pub machine: u16,
    /// How many entries the section table has.
    pub number_of_sections: u16,
    /// When the image was made, in seconds since 1970.
    pub time_date_stamp: u32,
    /// The offset in the image of the COFF symbol table.
    pub pointer_to_symbol_table: u32,
    /// How many records the symbol table has.
    pub number_of_symbols: u32,
    /// The size in bytes of the optional header; zero where there is none.
    pub size_of_optional_header: u16,
    /// Flags that describe the image.
    pub characteristics: u16,
}

/// The COFF header laid out in the twenty bytes of `s` from `at` on.
pub open spec fn coff_fields_at(s: Seq<u8>, at: int) -> CoffHeader {
    CoffHeader {
        machine: le_u16(s, at),
        number_of_sections: le_u16(s, at + 2),
        time_date_stamp: le_u32(s, at + 4),
        pointer_to_symbol_table: le_u32(s, at + 8),
        number_of_symbols: le_u32(s, at + 12),
        size_of_optional_header: le_u16(s, at + 16),
        characteristics: le_u16(s, at + 18),
    }
}

/// The COFF header of an image whose PE signature is expected at
/// `signature_offset`; the header itself starts four bytes later.
///
/// The signature is tested as soon as the buffer holds it, before the
/// header's own twenty bytes are asked for.
pub open spec fn coff_header_of(s: Seq<u8>, signature_offset: int) -> Result<
    CoffHeader,
    DecodeError,
> {
    if s.len() < signature_offset + PE_SIGNATURE_SIZE {
        Err(DecodeError::Truncated)
    } else if le_u32(s, signature_offset) != PE_SIGNATURE {
        Err(DecodeError::NotAPeFile)
    } else if s.len() < signature_offset + PE_SIGNATURE_SIZE + COFF_HEADER_SIZE {
        Err(DecodeError::Truncated)
    } else {
        Ok(coff_fields_at(s, signature_offset + PE_SIGNATURE_SIZE))
    }
}

/// Checks the PE signature at `signature_offset` and decodes the COFF header
/// behind it.
pub fn decode_coff_header(bytes: &[u8], signature_offset: u32) -> (r: Result<
    CoffHeader,
    DecodeError,
>)
    ensures
        r == coff_header_of(bytes@, signature_offset as int),
{
    let len: usize = bytes.len();
    let sig: usize = signature_offset as usize;
    if len < PE_SIGNATURE_SIZE || sig > len - PE_SIGNATURE_SIZE {
        return Err(DecodeError::Truncated);
    }
    if read_u32(bytes, sig) != PE_SIGNATURE {
        return Err(DecodeError::NotAPeFile);
    }
    let at: usize = sig + PE_SIGNATURE_SIZE;
    if len - at < COFF_HEADER_SIZE {
        return Err(DecodeError::Truncated);
    }
    Ok(
        CoffHeader {
            machine: read_u16(bytes, at),
            number_of_sections: read_u16(bytes, at + 2),
            time_date_stamp: read_u32(bytes, at + 4),
            pointer_to_symbol_table: read_u32(bytes, at + 8),
            number_of_symbols: read_u32(bytes, at + 12),
            size_of_optional_header: read_u16(bytes, at + 16),
            characteristics: read_u16(bytes, at + 18),
        },
    )
}

} // verus!
