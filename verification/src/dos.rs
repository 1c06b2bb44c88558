//! The DOS header: the legacy structure at the start of an image, which
//! points to the PE header.

use vstd::prelude::*;
use crate::error::DecodeError;
use crate::le::{le_u16, le_u32, read_u16, read_u32};

verus! {

/// "MZ", read as a little-endian `u16`.
pub const DOS_SIGNATURE: u16 = 0x5A4D;

/// The size of the DOS header in bytes.
pub const DOS_HEADER_SIZE: usize = 0x40;

/// Where in the DOS header the offset of the PE header is stored.
pub const PE_POINTER_AT: usize = 0x3C;

/// The two fields of the DOS header that matter to a PE reader.
#[derive(Debug, Clone, Copy, PartialEq, Eq)]
pub struct DosHeader {
    /// The first two bytes of the image; "MZ" in a valid one.
    pub signature: u16,
    /// The offset in the image of the PE signature.
    pub pe_header_offset: u32,
}

/// The DOS header that a byte sequence starts with.
///
/// The signature is read, not judged: whether it has to be "MZ" is for the
/// reader of the whole header to decide.
pub open spec fn dos_header_of(s: Seq<u8>) -> Result<DosHeader, DecodeError> {
    if s.len() < DOS_HEADER_SIZE {
        Err(DecodeError::Truncated)
    } else {
        Ok(
            DosHeader {
                signature: le_u16(s, 0),
                pe_header_offset: le_u32(s, PE_POINTER_AT as int),
            },
        )
    }
}

/// Decodes the DOS header at the start of `bytes`.
pub fn decode_dos_header(bytes: &[u8]) -> (r: Result<DosHeader, DecodeError>)
    ensures
        r == dos_header_of(bytes@),
{
    if bytes.len() < DOS_HEADER_SIZE {
        return Err(DecodeError::Truncated);
    }
    Ok(DosHeader { signature: read_u16(bytes, 0), pe_header_offset: read_u32(bytes, PE_POINTER_AT) })
}

} // verus!
