//! What holds of every image: laws that relate the decoders to the bytes
//! they read, each proved from the models in the other modules.

use vstd::prelude::*;
use crate::coff::{coff_fields_at, coff_header_of, COFF_HEADER_SIZE, PE_SIGNATURE, PE_SIGNATURE_SIZE};
use crate::dos::{dos_header_of, DOS_HEADER_SIZE, DOS_SIGNATURE, PE_POINTER_AT};
use crate::error::DecodeError;
use crate::export::{
    exported_coff_header,
    exported_directories,
    exported_header_of,
    exported_slot,
    starts_with_mz,
    DataDirectoriesExport,
    DataDirectoryExport,
};
use crate::header::{
    header_of,
    lemma_header_region,
    optional_header_start,
    section_table_start,
    sections_of,
    Header,
};
use crate::le::{le_u16, le_u32, le_u64};
use crate::optional::{
    data_directories_of,
    directory_slot,
    optional_header_of,
    optional_header_window,
    DataDirectories,
    OptionalHeader,
    DATA_DIRECTORY_SIZE,
    DATA_DIRECTORY_SLOTS,
    MAGIC_PE32,
    MAGIC_PE32_PLUS,
    PE32_FIELDS_SIZE,
    PE32_PLUS_FIELDS_SIZE,
};
use crate::section::{SectionModel, SECTION_ENTRY_SIZE};

verus! {

/// The sixteen exported slots as a sequence, slot `i` at index `i`.
pub open spec fn exported_slots(d: DataDirectoriesExport) -> Seq<Option<DataDirectoryExport>> {
    seq![
        d.data_directories0,
        d.data_directories1,
        d.data_directories2,
        d.data_directories3,
        d.data_directories4,
        d.data_directories5,
        d.data_directories6,
        d.data_directories7,
        d.data_directories8,
        d.data_directories9,
        d.data_directories10,
        d.data_directories11,
        d.data_directories12,
        d.data_directories13,
        d.data_directories14,
        d.data_directories15,
    ]
}

/// The bytes that the standard and the Windows fields take in the layout
/// that `magic` announces.
pub open spec fn fields_size(magic: u16) -> int {
    if magic == MAGIC_PE32 {
        PE32_FIELDS_SIZE as int
    } else {
        PE32_PLUS_FIELDS_SIZE as int
    }
}

/// Where the header region of a decoded header ends: behind the DOS header
/// or behind the declared size of the optional header, whichever lies
/// further back.
pub open spec fn header_region_end(header: Header) -> int {
    if section_table_start(header) < DOS_HEADER_SIZE {
        DOS_HEADER_SIZE as int
    } else {
        section_table_start(header)
    }
}

/// A header that decodes carries both signatures, and has an optional
/// header exactly where the COFF header gives it a size other than zero.
pub proof fn lemma_decoded_header_shape(s: Seq<u8>)
    requires
        header_of(s) is Ok,
    ensures
        header_of(s)->Ok_0.dos_header.signature == DOS_SIGNATURE,
        header_of(s)->Ok_0.signature == PE_SIGNATURE,
        header_of(s)->Ok_0.optional_header is None <==> header_of(
            s,
        )->Ok_0.coff_header.size_of_optional_header == 0,
        starts_with_mz(s),
{
}

/// A buffer that does not start with "MZ" decodes to nothing: neither a
/// header nor a section table.
pub proof fn lemma_without_mz_nothing_decodes(s: Seq<u8>)
    requires
        !starts_with_mz(s),
    ensures
        exported_header_of(s) is None,
        sections_of(s) is Err,
{
}

/// Where the DOS and PE signatures are in order, the buffer holds the COFF
/// header, and that header gives the optional header no bytes, the header
/// decodes without an optional header, and its COFF fields are those of the
/// twenty bytes behind the PE signature.
pub proof fn lemma_header_without_optional_header(s: Seq<u8>)
    requires
        s.len() >= DOS_HEADER_SIZE,
        le_u16(s, 0) == DOS_SIGNATURE,
        s.len() >= le_u32(s, PE_POINTER_AT as int) + PE_SIGNATURE_SIZE + COFF_HEADER_SIZE,
        le_u32(s, le_u32(s, PE_POINTER_AT as int) as int) == PE_SIGNATURE,
        le_u16(s, le_u32(s, PE_POINTER_AT as int) + PE_SIGNATURE_SIZE + 16) == 0,
    ensures
        exported_header_of(s) is Some,
        exported_header_of(s)->Some_0.optional_header is None,
        exported_header_of(s)->Some_0.signature == PE_SIGNATURE,
        exported_header_of(s)->Some_0.coff_header == exported_coff_header(
            coff_fields_at(s, le_u32(s, PE_POINTER_AT as int) + PE_SIGNATURE_SIZE),
        ),
{
}

/// In a PE32 image the exported entry point is the four bytes at offset 16
/// of the optional header, `base_of_data` the four bytes at offset 24, and
/// the image base the four bytes at offset 28, each widened to 64 bits.
pub proof fn lemma_pe32_fields(s: Seq<u8>)
    requires
        exported_header_of(s) is Some,
        exported_header_of(s)->Some_0.optional_header is Some,
        exported_header_of(s)->Some_0.optional_header->Some_0.standard_fields.magic == MAGIC_PE32,
    ensures
        ({
            let start = optional_header_start(header_of(s)->Ok_0.dos_header);
            let optional = exported_header_of(s)->Some_0.optional_header->Some_0;
            &&& optional.standard_fields.address_of_entry_point == le_u32(s, start + 16)
            &&& optional.standard_fields.base_of_data == le_u32(s, start + 24)
            &&& optional.windows_fields.image_base == le_u32(s, start + 28)
        }),
{
    lemma_header_region(s);
    let header = header_of(s)->Ok_0;
    let start = optional_header_start(header.dos_header);
    let w = optional_header_window(s, start, header.coff_header.size_of_optional_header as int);
    assert(optional_header_of(w) is Ok);
    lemma_window_fields(s, start, w.len() as int);
    assert(w =~= s.subrange(start, start + w.len()));
}

/// In a PE32+ image the exported `base_of_data` is zero, the entry point is
/// the four bytes at offset 16 of the optional header, and the image base
/// the eight bytes at offset 24.
pub proof fn lemma_pe32_plus_fields(s: Seq<u8>)
    requires
        exported_header_of(s) is Some,
        exported_header_of(s)->Some_0.optional_header is Some,
        exported_header_of(s)->Some_0.optional_header->Some_0.standard_fields.magic
            == MAGIC_PE32_PLUS,
    ensures
        ({
            let start = optional_header_start(header_of(s)->Ok_0.dos_header);
            let optional = exported_header_of(s)->Some_0.optional_header->Some_0;
            &&& optional.standard_fields.base_of_data == 0
            &&& optional.standard_fields.address_of_entry_point == le_u32(s, start + 16)
            &&& optional.windows_fields.image_base == le_u64(s, start + 24)
        }),
{
    lemma_header_region(s);
    let header = header_of(s)->Ok_0;
    let start = optional_header_start(header.dos_header);
    let w = optional_header_window(s, start, header.coff_header.size_of_optional_header as int);
    assert(optional_header_of(w) is Ok);
    lemma_window_fields(s, start, w.len() as int);
    assert(w =~= s.subrange(start, start + w.len()));
}

/// The integers of a window of `s` are the integers of `s` at the same
/// place, counted from the start of the window.
proof fn lemma_window_fields(s: Seq<u8>, start: int, size: int)
    requires
        0 <= start,
        0 <= size,
        start + size <= s.len(),
    ensures
        forall|at: int|
            0 <= at && at + 2 <= size ==> #[trigger] le_u16(s.subrange(start, start + size), at)
                == le_u16(s, start + at),
        forall|at: int|
            0 <= at && at + 4 <= size ==> #[trigger] le_u32(s.subrange(start, start + size), at)
                == le_u32(s, start + at),
        forall|at: int|
            0 <= at && at + 8 <= size ==> #[trigger] le_u64(s.subrange(start, start + size), at)
                == le_u64(s, start + at),
{
}

/// Slot `i` of the table that `data_directories_of` describes is
/// `directory_slot` at `i`.
pub proof fn lemma_directory_slots(w: Seq<u8>, base: int, declared: int, i: int)
    requires
        0 <= i < DATA_DIRECTORY_SLOTS,
    ensures
        data_directories_of(w, base, declared).data_directories[i] == directory_slot(
            w,
            base,
            declared,
            i,
        ),
{
    let table = data_directories_of(w, base, declared).data_directories;
    assert(table[0] == directory_slot(w, base, declared, 0));
    assert(table[1] == directory_slot(w, base, declared, 1));
    assert(table[2] == directory_slot(w, base, declared, 2));
    assert(table[3] == directory_slot(w, base, declared, 3));
    assert(table[4] == directory_slot(w, base, declared, 4));
    assert(table[5] == directory_slot(w, base, declared, 5));
    assert(table[6] == directory_slot(w, base, declared, 6));
    assert(table[7] == directory_slot(w, base, declared, 7));
    assert(table[8] == directory_slot(w, base, declared, 8));
    assert(table[9] == directory_slot(w, base, declared, 9));
    assert(table[10] == directory_slot(w, base, declared, 10));
    assert(table[11] == directory_slot(w, base, declared, 11));
    assert(table[12] == directory_slot(w, base, declared, 12));
    assert(table[13] == directory_slot(w, base, declared, 13));
    assert(table[14] == directory_slot(w, base, declared, 14));
    assert(table[15] == directory_slot(w, base, declared, 15));
}

/// Exporting the table keeps the order of its slots: exported slot `i` is
/// slot `i`, exported.
pub proof fn lemma_exported_slots(raw: DataDirectories, i: int)
    requires
        0 <= i < DATA_DIRECTORY_SLOTS,
    ensures
        exported_slots(exported_directories(raw))[i] == exported_slot(raw.data_directories[i]),
{
    let slots = exported_slots(exported_directories(raw));
    assert(slots[0] == exported_slot(raw.data_directories[0]));
    assert(slots[1] == exported_slot(raw.data_directories[1]));
    assert(slots[2] == exported_slot(raw.data_directories[2]));
    assert(slots[3] == exported_slot(raw.data_directories[3]));
    assert(slots[4] == exported_slot(raw.data_directories[4]));
    assert(slots[5] == exported_slot(raw.data_directories[5]));
    assert(slots[6] == exported_slot(raw.data_directories[6]));
    assert(slots[7] == exported_slot(raw.data_directories[7]));
    assert(slots[8] == exported_slot(raw.data_directories[8]));
    assert(slots[9] == exported_slot(raw.data_directories[9]));
    assert(slots[10] == exported_slot(raw.data_directories[10]));
    assert(slots[11] == exported_slot(raw.data_directories[11]));
    assert(slots[12] == exported_slot(raw.data_directories[12]));
    assert(slots[13] == exported_slot(raw.data_directories[13]));
    assert(slots[14] == exported_slot(raw.data_directories[14]));
    assert(slots[15] == exported_slot(raw.data_directories[15]));
}

/// An exported slot is present exactly where it is declared, below
/// sixteen, covered by the declared size of the optional header, and whole
/// in the buffer. The present slots are therefore the first `k`, for some
/// `k`.
pub proof fn lemma_present_directories(s: Seq<u8>, i: int)
    requires
        exported_header_of(s) is Some,
        exported_header_of(s)->Some_0.optional_header is Some,
        0 <= i < DATA_DIRECTORY_SLOTS,
    ensures
        ({
            let header = exported_header_of(s)->Some_0;
            let optional = header.optional_header->Some_0;
            let end = fields_size(optional.standard_fields.magic) + DATA_DIRECTORY_SIZE * (i + 1);
            exported_slots(optional.data_directories)[i] is Some <==> {
                &&& i < optional.windows_fields.number_of_rva_and_sizes
                &&& end <= header.coff_header.size_of_optional_header
                &&& optional_header_start(header_of(s)->Ok_0.dos_header) + end <= s.len()
            }
        }),
{
    lemma_header_region(s);
    let header = header_of(s)->Ok_0;
    let start = optional_header_start(header.dos_header);
    let w = optional_header_window(s, start, header.coff_header.size_of_optional_header as int);
    assert(optional_header_of(w) is Ok);
    match optional_header_of(w)->Ok_0 {
        OptionalHeader::Pe32 { standard_fields, windows_fields, data_directories } => {
            lemma_directory_slots(
                w,
                PE32_FIELDS_SIZE as int,
                windows_fields.number_of_rva_and_sizes as int,
                i,
            );
            lemma_exported_slots(data_directories, i);
        },
        OptionalHeader::Pe32Plus { standard_fields, windows_fields, data_directories } => {
            lemma_directory_slots(
                w,
                PE32_PLUS_FIELDS_SIZE as int,
                windows_fields.number_of_rva_and_sizes as int,
                i,
            );
            lemma_exported_slots(data_directories, i);
        },
    }
}

/// Where the Windows fields declare five data directories, the declared
/// size of the optional header covers them and the buffer holds them,
/// slots 0 to 4 are present and slots 5 to 15 are absent, whatever follows
/// in the buffer.
pub proof fn lemma_five_directories(s: Seq<u8>)
    requires
        exported_header_of(s) is Some,
        exported_header_of(s)->Some_0.optional_header is Some,
        exported_header_of(s)->Some_0.optional_header->Some_0.windows_fields.number_of_rva_and_sizes
            == 5,
        exported_header_of(s)->Some_0.coff_header.size_of_optional_header >= fields_size(
            exported_header_of(s)->Some_0.optional_header->Some_0.standard_fields.magic,
        ) + 5 * DATA_DIRECTORY_SIZE,
        s.len() >= optional_header_start(header_of(s)->Ok_0.dos_header) + fields_size(
            exported_header_of(s)->Some_0.optional_header->Some_0.standard_fields.magic,
        ) + 5 * DATA_DIRECTORY_SIZE,
    ensures
        forall|i: int|
            0 <= i < 5 ==> (#[trigger] exported_slots(
                exported_header_of(s)->Some_0.optional_header->Some_0.data_directories,
            )[i]) is Some,
        forall|i: int|
            5 <= i < 16 ==> (#[trigger] exported_slots(
                exported_header_of(s)->Some_0.optional_header->Some_0.data_directories,
            )[i]) is None,
{
    let slots = exported_slots(
        exported_header_of(s)->Some_0.optional_header->Some_0.data_directories,
    );
    assert forall|i: int| 0 <= i < 16 implies ((#[trigger] slots[i]) is Some <==> i < 5) by {
        lemma_present_directories(s, i);
    }
}

/// The header depends on the header region alone: where `a` holds its
/// header region whole, a buffer that agrees with `a` on every byte of it
/// decodes to the same header.
pub proof fn lemma_header_reads_header_region(a: Seq<u8>, b: Seq<u8>)
    requires
        header_of(a) is Ok,
        header_region_end(header_of(a)->Ok_0) <= a.len(),
        header_region_end(header_of(a)->Ok_0) <= b.len(),
        forall|i: int| 0 <= i < header_region_end(header_of(a)->Ok_0) ==> a[i] == b[i],
    ensures
        header_of(b) == header_of(a),
{
    lemma_header_region(a);
    let header = header_of(a)->Ok_0;
    let dos = header.dos_header;
    let coff = header.coff_header;
    assert(dos_header_of(b) == dos_header_of(a));
    assert(coff_header_of(b, dos.pe_header_offset as int) == coff_header_of(
        a,
        dos.pe_header_offset as int,
    ));
    if coff.size_of_optional_header != 0 {
        let start = optional_header_start(dos);
        let size = coff.size_of_optional_header as int;
        assert(optional_header_window(a, start, size) =~= optional_header_window(b, start, size));
    }
}

/// Cutting an image anywhere behind its header region and before the end
/// of its section table leaves the header as it was and the section table
/// truncated.
pub proof fn lemma_cut_inside_section_table(s: Seq<u8>, n: int)
    requires
        header_of(s) is Ok,
        header_region_end(header_of(s)->Ok_0) <= n <= s.len(),
        n < section_table_start(header_of(s)->Ok_0) + SECTION_ENTRY_SIZE * header_of(
            s,
        )->Ok_0.coff_header.number_of_sections,
    ensures
        header_of(s.subrange(0, n)) == header_of(s),
        exported_header_of(s.subrange(0, n)) == exported_header_of(s),
        exported_header_of(s.subrange(0, n)) is Some,
        sections_of(s.subrange(0, n)) == Err::<Seq<SectionModel>, DecodeError>(
            DecodeError::Truncated,
        ),
{
    lemma_header_reads_header_region(s, s.subrange(0, n));
}

/// Decoding has no hidden state: buffers with the same contents decode to
/// the same header and the same section table.
pub proof fn lemma_decoding_is_deterministic(a: Seq<u8>, b: Seq<u8>)
    requires
        a =~= b,
    ensures
        exported_header_of(a) == exported_header_of(b),
        sections_of(a) == sections_of(b),
{
}

} // verus!
