//! The header of an image as a whole: DOS header, PE signature, COFF header
//! and optional header, decoded in that order.

use vstd::prelude::*;
use crate::coff::{
    coff_header_of,
    decode_coff_header,
    CoffHeader,
    COFF_HEADER_SIZE,
    PE_SIGNATURE,
    PE_SIGNATURE_SIZE,
};
use crate::dos::{
    decode_dos_header,
    dos_header_of,
    DosHeader,
    DOS_HEADER_SIZE,
    DOS_SIGNATURE,
    PE_POINTER_AT,
};
use crate::le::{le_u16, le_u32};
use crate::error::DecodeError;
use crate::optional::{
    decode_optional_header_at,
    optional_header_at,
    optional_header_window,
    OptionalHeader,
    MAGIC_PE32,
    MAGIC_PE32_PLUS,
    PE32_FIELDS_SIZE,
    PE32_PLUS_FIELDS_SIZE,
};
use crate::section::{
    decode_section_table,
    section_models,
    section_table_of,
    SectionModel,
    SectionTable,
};

verus! {

/// The decoded header of a PE image.
#[derive(Debug, Clone, Copy, PartialEq, Eq)]
pub struct Header {
    pub dos_header: DosHeader,
    /// The PE signature as read; "PE\0\0" in every header that decodes.
    pub signature: u32,
    pub coff_header: CoffHeader,
    /// Absent where the COFF header gives the optional header no bytes.
    pub optional_header: Option<OptionalHeader>,
}

/// Where the optional header starts: behind the PE signature and the COFF
/// header.
pub open spec fn optional_header_start(dos: DosHeader) -> int {
    dos.pe_header_offset + PE_SIGNATURE_SIZE + COFF_HEADER_SIZE
}

/// Where the section table starts: behind the optional header.
pub open spec fn section_table_start(header: Header) -> int {
    optional_header_start(header.dos_header) + header.coff_header.size_of_optional_header
}

/// The header that the image `s` starts with.
///
/// The DOS header is read first and has to carry "MZ"; then the PE
/// signature is tested and the COFF header read; then the optional header,
/// unless its declared size is zero. The first step that fails gives the
/// error, and nothing of what was read before it is returned.
pub open spec fn header_of(s: Seq<u8>) -> Result<Header, DecodeError> {
    match dos_header_of(s) {
        Err(e) => Err(e),
        Ok(dos) => if dos.signature != DOS_SIGNATURE {
            Err(DecodeError::NotAPeFile)
        } else {
            match coff_header_of(s, dos.pe_header_offset as int) {
                Err(e) => Err(e),
                Ok(coff) => if coff.size_of_optional_header == 0 {
                    Ok(
                        Header {
                            dos_header: dos,
                            signature: PE_SIGNATURE,
                            coff_header: coff,
                            optional_header: None,
                        },
                    )
                } else {
                    match optional_header_at(
                        s,
                        optional_header_start(dos),
                        coff.size_of_optional_header as int,
                    ) {
                        Err(e) => Err(e),
                        Ok(optional) => Ok(
                            Header {
                                dos_header: dos,
                                signature: PE_SIGNATURE,
                                coff_header: coff,
                                optional_header: Some(optional),
                            },
                        ),
                    }
                },
            }
        },
    }
}

/// The section table of the image `s`: that of its header, which has to
/// decode first. That the header decodes does not mean that the buffer
/// reaches the table: the optional header may be cut inside its directories.
pub open spec fn sections_of(s: Seq<u8>) -> Result<Seq<SectionModel>, DecodeError> {
    match header_of(s) {
        Err(e) => Err(e),
        Ok(header) => section_table_of(s, section_table_start(header), header.coff_header),
    }
}

/// Whether the header of the image `s` decodes, said over the bytes alone.
///
/// The buffer holds the DOS header, which carries "MZ"; it holds the PE
/// signature, which is "PE\0\0", and the COFF header behind it; and where
/// the COFF header declares an optional header, the magic is one of the two
/// known and the fields of its layout lie within both the declared size and
/// the buffer. Nothing is asked of the table of data directories.
pub open spec fn header_decodes(s: Seq<u8>) -> bool {
    &&& s.len() >= DOS_HEADER_SIZE
    &&& le_u16(s, 0) == DOS_SIGNATURE
    &&& {
        let signature_at = le_u32(s, PE_POINTER_AT as int) as int;
        let start = signature_at + PE_SIGNATURE_SIZE + COFF_HEADER_SIZE;
        let declared = le_u16(s, signature_at + PE_SIGNATURE_SIZE + 16) as int;
        let readable = if declared <= s.len() - start {
            declared
        } else {
            s.len() - start
        };
        &&& start <= s.len()
        &&& le_u32(s, signature_at) == PE_SIGNATURE
        &&& (declared == 0 || (readable >= 2 && {
            ||| le_u16(s, start) == MAGIC_PE32 && readable >= PE32_FIELDS_SIZE
            ||| le_u16(s, start) == MAGIC_PE32_PLUS && readable >= PE32_PLUS_FIELDS_SIZE
        }))
    }
}

/// The header decodes on exactly the buffers that `header_decodes` names.
pub proof fn lemma_header_decodes(s: Seq<u8>)
    ensures
        header_of(s) is Ok <==> header_decodes(s),
{
    if s.len() >= DOS_HEADER_SIZE {
        let signature_at = le_u32(s, PE_POINTER_AT as int) as int;
        let start = signature_at + PE_SIGNATURE_SIZE + COFF_HEADER_SIZE;
        if start <= s.len() {
            let declared = le_u16(s, signature_at + PE_SIGNATURE_SIZE + 16) as int;
            let w = optional_header_window(s, start, declared);
            if w.len() >= 2 {
                assert(le_u16(w, 0) == le_u16(s, start));
            }
        }
    }
}

/// An image whose header decodes holds the DOS header and everything up
/// to the start of the optional header, and the parts of the header are
/// what the decoders of the parts give.
pub proof fn lemma_header_region(s: Seq<u8>)
    requires
        header_of(s) is Ok,
    ensures
        DOS_HEADER_SIZE <= s.len(),
        optional_header_start(header_of(s)->Ok_0.dos_header) <= s.len(),
        header_of(s)->Ok_0.dos_header == dos_header_of(s)->Ok_0,
        header_of(s)->Ok_0.dos_header.signature == DOS_SIGNATURE,
        coff_header_of(s, header_of(s)->Ok_0.dos_header.pe_header_offset as int) == Ok::<
            CoffHeader,
            DecodeError,
        >(header_of(s)->Ok_0.coff_header),
{
}

/// Decodes the header of the image in `bytes`.
pub fn decode_header(bytes: &[u8]) -> (r: Result<Header, DecodeError>)
    ensures
        r == header_of(bytes@),
        r is Ok <==> header_decodes(bytes@),
{
    proof {
        lemma_header_decodes(bytes@);
    }
    let dos_header = match decode_dos_header(bytes) {
        Ok(dos) => dos,
        Err(e) => {
            return Err(e);
        },
    };
    if dos_header.signature != DOS_SIGNATURE {
        return Err(DecodeError::NotAPeFile);
    }
    let coff_header = match decode_coff_header(bytes, dos_header.pe_header_offset) {
        Ok(coff) => coff,
        Err(e) => {
            return Err(e);
        },
    };
    if coff_header.size_of_optional_header == 0 {
        return Ok(
            Header { dos_header, signature: PE_SIGNATURE, coff_header, optional_header: None },
        );
    }
    assert(dos_header.pe_header_offset + PE_SIGNATURE_SIZE + COFF_HEADER_SIZE <= bytes.len());
    let start: usize = dos_header.pe_header_offset as usize + PE_SIGNATURE_SIZE + COFF_HEADER_SIZE;
    match decode_optional_header_at(bytes, start, coff_header.size_of_optional_header) {
        Ok(optional) => Ok(
            Header {
                dos_header,
                signature: PE_SIGNATURE,
                coff_header,
                optional_header: Some(optional),
            },
        ),
        Err(e) => Err(e),
    }
}

/// Decodes the section table of the image in `bytes`, after its header.
pub fn decode_sections(bytes: &[u8]) -> (r: Result<Vec<SectionTable>, DecodeError>)
    ensures
        match (r, sections_of(bytes@)) {
            (Ok(entries), Ok(model)) => section_models(entries@) == model,
            (Err(e), Err(model)) => e == model,
            _ => false,
        },
{
    let header = match decode_header(bytes) {
        Ok(header) => header,
        Err(e) => {
            return Err(e);
        },
    };
    proof {
        lemma_header_region(bytes@);
    }
    assert(optional_header_start(header.dos_header) <= bytes.len());
    let optional_start: usize = header.dos_header.pe_header_offset as usize + PE_SIGNATURE_SIZE
        + COFF_HEADER_SIZE;
    let size: usize = header.coff_header.size_of_optional_header as usize;
    if size > bytes.len() - optional_start {
        // The table starts behind the buffer: there is room for no entry.
        if header.coff_header.number_of_sections == 0 {
            let entries: Vec<SectionTable> = Vec::new();
            assert(section_models(entries@) =~= sections_of(bytes@)->Ok_0);
            return Ok(entries);
        }
        return Err(DecodeError::Truncated);
    }
    decode_section_table(bytes, optional_start + size, &header.coff_header)
}

} // verus!
