use pe_headers::coff::{decode_coff_header, CoffHeader};
use pe_headers::dos::{decode_dos_header, DosHeader};
use pe_headers::header::{decode_header, decode_sections};
use pe_headers::le::{read_u16, read_u32, read_u64, read_u8};
use pe_headers::optional::{
    decode_data_directories, decode_optional_header, decode_optional_header_at, DataDirectory,
    OptionalHeader,
};
use pe_headers::section::{
    decode_section, decode_section_table, find_nul, parse_name_offset, resolve_long_name,
    string_table_offset,
};
use pe_headers::{
    get_sections, parse_pe, sections_as_text, CoffHeaderExport, DataDirectoryExport, DecodeError,
    DosHeaderExport, HeaderExport, OptionalHeaderExport, SectionTableExport, SectionText,
};

const PE_AT: u32 = 0x80;

fn put16(out: &mut Vec<u8>, v: u16) {
    out.extend_from_slice(&v.to_le_bytes());
}

fn put32(out: &mut Vec<u8>, v: u32) {
    out.extend_from_slice(&v.to_le_bytes());
}

fn put64(out: &mut Vec<u8>, v: u64) {
    out.extend_from_slice(&v.to_le_bytes());
}

/// A DOS header with "MZ" and the PE offset, padded with 0xCC up to that offset.
fn dos_part(pe_at: u32) -> Vec<u8> {
    let mut out = vec![0u8; 0x40];
    out[0] = 0x4D;
    out[1] = 0x5A;
    out[0x3C..0x40].copy_from_slice(&pe_at.to_le_bytes());
    while out.len() < pe_at as usize {
        out.push(0xCC);
    }
    out
}

fn coff_part(sections: u16, symbols_at: u32, symbols: u32, optional_size: u16) -> Vec<u8> {
    let mut out = Vec::new();
    out.extend_from_slice(b"PE\0\0");
    put16(&mut out, 0x014C);
    put16(&mut out, sections);
    put32(&mut out, 0x5215_8FD9);
    put32(&mut out, symbols_at);
    put32(&mut out, symbols);
    put16(&mut out, optional_size);
    put16(&mut out, 0x0102);
    out
}

fn expected_coff(sections: u16, symbols_at: u32, symbols: u32, optional_size: u16) -> CoffHeaderExport {
    CoffHeaderExport {
        machine: 0x014C,
        number_of_sections: sections,
        time_date_stamp: 0x5215_8FD9,
        pointer_to_symbol_table: symbols_at,
        number_of_symbols: symbols,
        size_of_optional_header: optional_size,
        characteristics: 0x0102,
    }
}

/// The 96 bytes of PE32 standard and Windows fields, with `count` as the declared directory count.
fn fields32(entry: u32, base_of_data: u32, image_base: u32, count: u32) -> Vec<u8> {
    let mut out = Vec::new();
    put16(&mut out, 0x10B);
    out.push(14);
    out.push(29);
    put32(&mut out, 0x0000_0800); // size_of_code
    put32(&mut out, 0x0000_1000); // size_of_initialized_data
    put32(&mut out, 0x0000_0200); // size_of_uninitialized_data
    put32(&mut out, entry);
    put32(&mut out, 0x0000_1000); // base_of_code
    put32(&mut out, base_of_data);
    put32(&mut out, image_base);
    put32(&mut out, 0x1000); // section_alignment
    put32(&mut out, 0x200); // file_alignment
    put16(&mut out, 6);
    put16(&mut out, 1);
    put16(&mut out, 7);
    put16(&mut out, 2);
    put16(&mut out, 8);
    put16(&mut out, 3);
    put32(&mut out, 0x0A0B_0C0D); // win32_version_value
    put32(&mut out, 0x6000); // size_of_image
    put32(&mut out, 0x400); // size_of_headers
    put32(&mut out, 0x0000_ABE4); // check_sum
    put16(&mut out, 3); // subsystem
    put16(&mut out, 0x8140); // dll_characteristics
    put32(&mut out, 0x0010_0000);
    put32(&mut out, 0x0000_1000);
    put32(&mut out, 0x0020_0000);
    put32(&mut out, 0x0000_2000);
    put32(&mut out, 0x11); // loader_flags
    put32(&mut out, count);
    assert_eq!(out.len(), 96);
    out
}

/// The 112 bytes of PE32+ standard and Windows fields.
fn fields64(entry: u32, image_base: u64, count: u32) -> Vec<u8> {
    let mut out = Vec::new();
    put16(&mut out, 0x20B);
    out.push(14);
    out.push(29);
    put32(&mut out, 0x0000_0800);
    put32(&mut out, 0x0000_1000);
    put32(&mut out, 0x0000_0200);
    put32(&mut out, entry);
    put32(&mut out, 0x0000_1000);
    put64(&mut out, image_base);
    put32(&mut out, 0x1000);
    put32(&mut out, 0x200);
    put16(&mut out, 6);
    put16(&mut out, 1);
    put16(&mut out, 7);
    put16(&mut out, 2);
    put16(&mut out, 8);
    put16(&mut out, 3);
    put32(&mut out, 0x0A0B_0C0D);
    put32(&mut out, 0x6000);
    put32(&mut out, 0x400);
    put32(&mut out, 0x0000_ABE4);
    put16(&mut out, 3);
    put16(&mut out, 0x8140);
    put64(&mut out, 0x0000_0001_0010_0000);
    put64(&mut out, 0x0000_0002_0000_1000);
    put64(&mut out, 0x0000_0003_0020_0000);
    put64(&mut out, 0x0000_0004_0000_2000);
    put32(&mut out, 0x11);
    put32(&mut out, count);
    assert_eq!(out.len(), 112);
    out
}

/// Directory `i` of the test images: address and size that tell the slots apart.
fn directory(i: u32) -> (u32, u32) {
    (0x1000 * (i + 1), 0x10 + i)
}

fn directories(n: u32) -> Vec<u8> {
    let mut out = Vec::new();
    for i in 0..n {
        let (address, size) = directory(i);
        put32(&mut out, address);
        put32(&mut out, size);
    }
    out
}

fn section_part(name: &[u8; 8], seed: u32) -> Vec<u8> {
    let mut out = Vec::new();
    out.extend_from_slice(name);
    put32(&mut out, seed + 1);
    put32(&mut out, seed + 2);
    put32(&mut out, seed + 3);
    put32(&mut out, seed + 4);
    put32(&mut out, seed + 5);
    put32(&mut out, seed + 6);
    put16(&mut out, (seed + 7) as u16);
    put16(&mut out, (seed + 8) as u16);
    put32(&mut out, seed + 9);
    assert_eq!(out.len(), 40);
    out
}

fn expected_section(name: &[u8; 8], resolved: Option<&str>, seed: u32) -> SectionTableExport {
    SectionTableExport {
        short_name: *name,
        resolved_name: resolved.map(|s| s.to_string()),
        virtual_size: seed + 1,
        virtual_address: seed + 2,
        size_of_raw_data: seed + 3,
        pointer_to_raw_data: seed + 4,
        pointer_to_relocations: seed + 5,
        pointer_to_linenumbers: seed + 6,
        number_of_relocations: (seed + 7) as u16,
        number_of_linenumbers: (seed + 8) as u16,
        characteristics: seed + 9,
    }
}

/// A PE32 image: `count` declared directories, `stored` of them in the optional header.
fn image32(count: u32, stored: u32, sections: &[Vec<u8>]) -> Vec<u8> {
    let mut out = dos_part(PE_AT);
    out.extend(coff_part(sections.len() as u16, 0, 0, (96 + 8 * stored) as u16));
    out.extend(fields32(0x1000, 0x2000, 0x0040_0000, count));
    out.extend(directories(stored));
    for s in sections {
        out.extend_from_slice(s);
    }
    out
}

fn image64(count: u32, stored: u32, sections: &[Vec<u8>]) -> Vec<u8> {
    let mut out = dos_part(PE_AT);
    out.extend(coff_part(sections.len() as u16, 0, 0, (112 + 8 * stored) as u16));
    out.extend(fields64(0x1000, 0x0000_0001_4000_0000, count));
    out.extend(directories(stored));
    for s in sections {
        out.extend_from_slice(s);
    }
    out
}

fn slots(o: &OptionalHeaderExport) -> [Option<DataDirectoryExport>; 16] {
    let d = &o.data_directories;
    [
        d.data_directories0,
        d.data_directories1,
        d.data_directories2,
        d.data_directories3,
        d.data_directories4,
        d.data_directories5,
        d.data_directories6,
        d.data_directories7,
        d.data_directories8,
        d.data_directories9,
        d.data_directories10,
        d.data_directories11,
        d.data_directories12,
        d.data_directories13,
        d.data_directories14,
        d.data_directories15,
    ]
}

fn expected_slot(i: u32) -> Option<DataDirectoryExport> {
    let (virtual_address, size) = directory(i);
    Some(DataDirectoryExport { virtual_address, size })
}

// ---- little-endian readers ----

#[test]
fn reads_little_endian_integers() {
    let bytes = [0x01u8, 0x02, 0x03, 0x04, 0x05, 0x06, 0x07, 0x08, 0xFF];
    assert_eq!(read_u8(&bytes, 8), 0xFF);
    assert_eq!(read_u16(&bytes, 0), 0x0201);
    assert_eq!(read_u16(&bytes, 7), 0xFF08);
    assert_eq!(read_u32(&bytes, 0), 0x0403_0201);
    assert_eq!(read_u32(&bytes, 5), 0xFF08_0706);
    assert_eq!(read_u64(&bytes, 0), 0x0807_0605_0403_0201);
    assert_eq!(read_u64(&bytes, 1), 0xFF08_0706_0504_0302);
}

#[test]
fn reads_largest_integers_without_overflow() {
    let bytes = [0xFFu8; 8];
    assert_eq!(read_u16(&bytes, 0), u16::MAX);
    assert_eq!(read_u32(&bytes, 0), u32::MAX);
    assert_eq!(read_u64(&bytes, 0), u64::MAX);
}

// ---- DOS header ----

#[test]
fn dos_header_needs_sixty_four_bytes() {
    let image = dos_part(PE_AT);
    assert_eq!(decode_dos_header(&image[..0x3F]), Err(DecodeError::Truncated));
    assert_eq!(
        decode_dos_header(&image[..0x40]),
        Ok(DosHeader { signature: 0x5A4D, pe_header_offset: PE_AT })
    );
    assert_eq!(decode_dos_header(&[]), Err(DecodeError::Truncated));
}

#[test]
fn dos_header_does_not_judge_the_signature() {
    let mut image = dos_part(PE_AT);
    image[0] = b'Z';
    image[1] = b'M';
    assert_eq!(
        decode_dos_header(&image),
        Ok(DosHeader { signature: 0x4D5A, pe_header_offset: PE_AT })
    );
}

// ---- COFF header ----

#[test]
fn coff_header_fields_in_order() {
    let mut image = dos_part(PE_AT);
    image.extend(coff_part(3, 0x1234, 5, 0));
    assert_eq!(
        decode_coff_header(&image, PE_AT),
        Ok(CoffHeader {
            machine: 0x014C,
            number_of_sections: 3,
            time_date_stamp: 0x5215_8FD9,
            pointer_to_symbol_table: 0x1234,
            number_of_symbols: 5,
            size_of_optional_header: 0,
            characteristics: 0x0102,
        })
    );
}

#[test]
fn coff_header_rejects_wrong_pe_signature() {
    let mut image = dos_part(PE_AT);
    image.extend(coff_part(0, 0, 0, 0));
    image[PE_AT as usize + 2] = 1;
    assert_eq!(decode_coff_header(&image, PE_AT), Err(DecodeError::NotAPeFile));
}

#[test]
fn coff_header_truncated() {
    let mut image = dos_part(PE_AT);
    image.extend(coff_part(0, 0, 0, 0));
    let full = image.len();
    assert_eq!(decode_coff_header(&image[..full - 1], PE_AT), Err(DecodeError::Truncated));
    assert_eq!(decode_coff_header(&image[..PE_AT as usize + 3], PE_AT), Err(DecodeError::Truncated));
    assert_eq!(decode_coff_header(&image[..PE_AT as usize + 4], PE_AT), Err(DecodeError::Truncated));
    assert_eq!(decode_coff_header(&image, u32::MAX), Err(DecodeError::Truncated));
    assert!(decode_coff_header(&image, PE_AT).is_ok());
}

#[test]
fn wrong_signature_is_told_before_missing_header_bytes() {
    let mut image = dos_part(PE_AT);
    image.extend_from_slice(b"PX\0\0");
    assert_eq!(decode_coff_header(&image, PE_AT), Err(DecodeError::NotAPeFile));
}

// ---- optional header ----

#[test]
fn optional_header_unknown_magic() {
    let mut window = fields32(0x1000, 0x2000, 0x0040_0000, 0);
    window[0] = 0x07;
    window[1] = 0x01;
    assert_eq!(decode_optional_header(&window), Err(DecodeError::UnknownOptionalHeaderMagic));
    assert_eq!(decode_optional_header(&[0x0B, 0x03]), Err(DecodeError::UnknownOptionalHeaderMagic));
}

#[test]
fn optional_header_cut_inside_fields_is_truncated() {
    let window32 = fields32(0x1000, 0x2000, 0x0040_0000, 0);
    assert_eq!(decode_optional_header(&window32[..95]), Err(DecodeError::Truncated));
    assert_eq!(decode_optional_header(&window32[..2]), Err(DecodeError::Truncated));
    assert_eq!(decode_optional_header(&window32[..1]), Err(DecodeError::Truncated));
    assert!(decode_optional_header(&window32).is_ok());
    let window64 = fields64(0x1000, 0x1_4000_0000, 0);
    assert_eq!(decode_optional_header(&window64[..111]), Err(DecodeError::Truncated));
    assert_eq!(decode_optional_header(&window64[..96]), Err(DecodeError::Truncated));
    assert!(decode_optional_header(&window64).is_ok());
}

#[test]
fn declared_size_may_exceed_the_buffer() {
    let image = image32(2, 2, &[]);
    let start = PE_AT as usize + 24;
    let whole = decode_optional_header_at(&image, start, 112);
    assert!(whole.is_ok());
    // A larger declared size reads the same bytes and gives the same header.
    assert_eq!(decode_optional_header_at(&image, start, 113), whole);
    assert_eq!(decode_optional_header_at(&image, start, 224), whole);
    assert_eq!(decode_optional_header_at(&image, start, u16::MAX), whole);
    // The fields have to be whole, in the buffer and in the declared size.
    assert_eq!(decode_optional_header_at(&image[..start + 95], start, 224), Err(DecodeError::Truncated));
    assert_eq!(decode_optional_header_at(&image, start, 95), Err(DecodeError::Truncated));
    assert_eq!(decode_optional_header_at(&image, image.len(), 224), Err(DecodeError::Truncated));
    assert_eq!(decode_optional_header_at(&image, image.len() + 1, 0), Err(DecodeError::Truncated));
}

#[test]
fn directories_cut_by_the_buffer_are_absent() {
    let image = image32(3, 3, &[]);
    let start = PE_AT as usize + 24;
    // The buffer ends one byte before the third entry does.
    let cut = &image[..image.len() - 1];
    match decode_optional_header_at(cut, start, 120).unwrap() {
        OptionalHeader::Pe32 { data_directories, .. } => {
            let table = data_directories.data_directories;
            assert_eq!(table[0], Some(DataDirectory { virtual_address: 0x1000, size: 0x10 }));
            assert_eq!(table[1], Some(DataDirectory { virtual_address: 0x2000, size: 0x11 }));
            for slot in &table[2..] {
                assert_eq!(*slot, None);
            }
        }
        OptionalHeader::Pe32Plus { .. } => panic!("PE32 expected"),
    }
    let header = parse_pe(cut).unwrap();
    let table = slots(&header.optional_header.unwrap());
    assert_eq!(table[0], expected_slot(0));
    assert_eq!(table[1], expected_slot(1));
    assert_eq!(table[2], None);
}

#[test]
fn buffer_shorter_than_the_declared_optional_header() {
    // 184 bytes: DOS header, signature, COFF header and the 96 bytes of PE32 fields, while the
    // COFF header declares an optional header of 224 bytes, no directories and no sections.
    let mut image = dos_part(0x40);
    image.extend(coff_part(0, 0, 0, 224));
    image.extend(fields32(0x1000, 0x2000, 0x0040_0000, 0));
    assert_eq!(image.len(), 184);
    let header = parse_pe(&image).unwrap();
    assert_eq!(header.dos_header, DosHeaderExport { signature: 0x5A4D, pe_header_offset: 0x40 });
    assert_eq!(header.coff_header, expected_coff(0, 0, 0, 224));
    let optional = header.optional_header.unwrap();
    assert_eq!(optional.standard_fields.address_of_entry_point, 0x1000);
    assert_eq!(optional.standard_fields.base_of_data, 0x2000);
    assert_eq!(optional.windows_fields.image_base, 0x0040_0000);
    assert_eq!(optional.windows_fields.number_of_rva_and_sizes, 0);
    assert_eq!(slots(&optional), [None; 16]);
    assert_eq!(get_sections(&image), Some(Vec::new()));
    // One byte less cuts the fields.
    assert_eq!(parse_pe(&image[..183]), None);
    assert_eq!(decode_header(&image[..183]), Err(DecodeError::Truncated));
    // With a section declared, the table it would start behind the buffer is truncated.
    let mut counted = dos_part(0x40);
    counted.extend(coff_part(1, 0, 0, 224));
    counted.extend(fields32(0x1000, 0x2000, 0x0040_0000, 0));
    assert!(parse_pe(&counted).is_some());
    assert_eq!(decode_sections(&counted), Err(DecodeError::Truncated));
    assert_eq!(get_sections(&counted), None);
}

#[test]
fn optional_header_reads_nothing_behind_its_size() {
    let image = image32(4, 4, &[]);
    let start = PE_AT as usize + 24;
    // The buffer holds four entries; a declared size of 96 + 16 shows two.
    let decoded = decode_optional_header_at(&image, start, 112).unwrap();
    match decoded {
        OptionalHeader::Pe32 { data_directories, .. } => {
            let table = data_directories.data_directories;
            assert_eq!(table[0], Some(DataDirectory { virtual_address: 0x1000, size: 0x10 }));
            assert_eq!(table[1], Some(DataDirectory { virtual_address: 0x2000, size: 0x11 }));
            for slot in &table[2..] {
                assert_eq!(*slot, None);
            }
        }
        OptionalHeader::Pe32Plus { .. } => panic!("PE32 expected"),
    }
}

#[test]
fn pe32_fields_decode_exactly() {
    let window = fields32(0x1000, 0x2000, 0x0040_0000, 0);
    match decode_optional_header(&window).unwrap() {
        OptionalHeader::Pe32 { standard_fields: s, windows_fields: w, data_directories: d } => {
            assert_eq!(s.magic, 0x10B);
            assert_eq!(s.major_linker_version, 14);
            assert_eq!(s.minor_linker_version, 29);
            assert_eq!(s.size_of_code, 0x800);
            assert_eq!(s.size_of_initialized_data, 0x1000);
            assert_eq!(s.size_of_uninitialized_data, 0x200);
            assert_eq!(s.address_of_entry_point, 0x1000);
            assert_eq!(s.base_of_code, 0x1000);
            assert_eq!(s.base_of_data, 0x2000);
            assert_eq!(w.image_base, 0x0040_0000);
            assert_eq!(w.section_alignment, 0x1000);
            assert_eq!(w.file_alignment, 0x200);
            assert_eq!(w.major_operating_system_version, 6);
            assert_eq!(w.minor_operating_system_version, 1);
            assert_eq!(w.major_image_version, 7);
            assert_eq!(w.minor_image_version, 2);
            assert_eq!(w.major_subsystem_version, 8);
            assert_eq!(w.minor_subsystem_version, 3);
            assert_eq!(w.win32_version_value, 0x0A0B_0C0D);
            assert_eq!(w.size_of_image, 0x6000);
            assert_eq!(w.size_of_headers, 0x400);
            assert_eq!(w.check_sum, 0xABE4);
            assert_eq!(w.subsystem, 3);
            assert_eq!(w.dll_characteristics, 0x8140);
            assert_eq!(w.size_of_stack_reserve, 0x0010_0000);
            assert_eq!(w.size_of_stack_commit, 0x1000);
            assert_eq!(w.size_of_heap_reserve, 0x0020_0000);
            assert_eq!(w.size_of_heap_commit, 0x2000);
            assert_eq!(w.loader_flags, 0x11);
            assert_eq!(w.number_of_rva_and_sizes, 0);
            assert_eq!(d.data_directories, [None; 16]);
        }
        OptionalHeader::Pe32Plus { .. } => panic!("PE32 expected"),
    }
}

#[test]
fn pe32_plus_fields_decode_exactly() {
    let window = fields64(0x1000, 0x0000_0001_4000_0000, 0);
    match decode_optional_header(&window).unwrap() {
        OptionalHeader::Pe32Plus { standard_fields: s, windows_fields: w, data_directories: d } => {
            assert_eq!(s.magic, 0x20B);
            assert_eq!(s.address_of_entry_point, 0x1000);
            assert_eq!(s.base_of_code, 0x1000);
            assert_eq!(w.image_base, 0x0000_0001_4000_0000);
            assert_eq!(w.section_alignment, 0x1000);
            assert_eq!(w.minor_subsystem_version, 3);
            assert_eq!(w.check_sum, 0xABE4);
            assert_eq!(w.dll_characteristics, 0x8140);
            assert_eq!(w.size_of_stack_reserve, 0x0000_0001_0010_0000);
            assert_eq!(w.size_of_stack_commit, 0x0000_0002_0000_1000);
            assert_eq!(w.size_of_heap_reserve, 0x0000_0003_0020_0000);
            assert_eq!(w.size_of_heap_commit, 0x0000_0004_0000_2000);
            assert_eq!(w.loader_flags, 0x11);
            assert_eq!(w.number_of_rva_and_sizes, 0);
            assert_eq!(d.data_directories, [None; 16]);
        }
        OptionalHeader::Pe32 { .. } => panic!("PE32+ expected"),
    }
}

#[test]
fn directories_stop_at_declared_count() {
    let bytes = directories(16);
    let table = decode_data_directories(&bytes, 0, 3).data_directories;
    for i in 0..16u32 {
        let want = if i < 3 {
            let (virtual_address, size) = directory(i);
            Some(DataDirectory { virtual_address, size })
        } else {
            None
        };
        assert_eq!(table[i as usize], want);
    }
}

#[test]
fn directories_are_capped_at_sixteen() {
    let bytes = directories(20);
    for declared in [16u32, 17, 1000, u32::MAX] {
        let table = decode_data_directories(&bytes, 0, declared).data_directories;
        for i in 0..16u32 {
            let (virtual_address, size) = directory(i);
            assert_eq!(table[i as usize], Some(DataDirectory { virtual_address, size }));
        }
    }
}

#[test]
fn directories_stop_where_the_header_ends() {
    let bytes = directories(3);
    // Two whole entries and seven bytes of a third.
    let table = decode_data_directories(&bytes[..23], 0, 16).data_directories;
    assert!(table[0].is_some());
    assert!(table[1].is_some());
    for slot in &table[2..] {
        assert_eq!(*slot, None);
    }
    let none = decode_data_directories(&bytes, bytes.len(), 16).data_directories;
    assert_eq!(none, [None; 16]);
}

#[test]
fn zero_directory_is_present() {
    let bytes = [0u8; 16];
    let table = decode_data_directories(&bytes, 0, 2).data_directories;
    assert_eq!(table[0], Some(DataDirectory { virtual_address: 0, size: 0 }));
    assert_eq!(table[1], Some(DataDirectory { virtual_address: 0, size: 0 }));
    assert_eq!(table[2], None);
}

// ---- header ----

#[test]
fn buffer_without_mz_gives_nothing() {
    let mut image = image32(2, 2, &[section_part(b".text\0\0\0", 0)]);
    assert!(parse_pe(&image).is_some());
    assert!(get_sections(&image).is_some());
    image[0] = 0x4E;
    assert_eq!(parse_pe(&image), None);
    assert_eq!(get_sections(&image), None);
    image[0] = 0x4D;
    image[1] = 0x5B;
    assert_eq!(parse_pe(&image), None);
    assert_eq!(get_sections(&image), None);
    assert_eq!(parse_pe(&[]), None);
    assert_eq!(get_sections(&[]), None);
    assert_eq!(parse_pe(&[0x4D]), None);
    assert_eq!(get_sections(&[0x4D]), None);
    assert_eq!(parse_pe(&[0x7F, b'E', b'L', b'F']), None);
}

#[test]
fn wrong_dos_signature_is_not_a_pe_file() {
    let mut image = image32(0, 0, &[]);
    image[1] = 0;
    assert_eq!(decode_header(&image), Err(DecodeError::NotAPeFile));
    assert_eq!(decode_sections(&image), Err(DecodeError::NotAPeFile));
}

#[test]
fn short_buffer_is_truncated_even_without_mz() {
    assert_eq!(decode_header(&[0u8; 0x3F]), Err(DecodeError::Truncated));
    assert_eq!(decode_header(&[0u8; 0x40]), Err(DecodeError::NotAPeFile));
}

#[test]
fn header_without_optional_header() {
    let mut image = dos_part(PE_AT);
    image.extend(coff_part(0, 0x0102_0304, 7, 0));
    let header = parse_pe(&image).unwrap();
    assert_eq!(
        header,
        HeaderExport {
            dos_header: DosHeaderExport { signature: 0x5A4D, pe_header_offset: PE_AT },
            signature: 0x0000_4550,
            coff_header: expected_coff(0, 0x0102_0304, 7, 0),
            optional_header: None,
        }
    );
    // Bytes behind the COFF header change nothing.
    image.extend_from_slice(&[0xFF; 200]);
    assert_eq!(parse_pe(&image), Some(header));
}

#[test]
fn minimal_pe32_image() {
    let image = image32(0, 0, &[]);
    let header = parse_pe(&image).unwrap();
    assert_eq!(header.dos_header, DosHeaderExport { signature: 0x5A4D, pe_header_offset: PE_AT });
    assert_eq!(header.signature, 0x4550);
    assert_eq!(header.coff_header, expected_coff(0, 0, 0, 96));
    let optional = header.optional_header.unwrap();
    let s = optional.standard_fields;
    assert_eq!(s.magic, 0x10B);
    assert_eq!(s.major_linker_version, 14);
    assert_eq!(s.minor_linker_version, 29);
    assert_eq!(s.size_of_code, 0x800u64);
    assert_eq!(s.size_of_initialized_data, 0x1000u64);
    assert_eq!(s.size_of_uninitialized_data, 0x200u64);
    assert_eq!(s.address_of_entry_point, 0x1000u64);
    assert_eq!(s.base_of_code, 0x1000u64);
    assert_eq!(s.base_of_data, 0x2000u64);
    let w = optional.windows_fields;
    assert_eq!(w.image_base, 0x0040_0000u64);
    assert_eq!(w.major_operating_system_version, 6);
    assert_eq!(w.minor_operating_system_version, 1);
    assert_eq!(w.major_image_version, 7);
    assert_eq!(w.minor_image_version, 2);
    assert_eq!(w.size_of_stack_reserve, 0x0010_0000u64);
    assert_eq!(w.size_of_stack_commit, 0x1000u64);
    assert_eq!(w.size_of_heap_reserve, 0x0020_0000u64);
    assert_eq!(w.size_of_heap_commit, 0x2000u64);
    assert_eq!(w.number_of_rva_and_sizes, 0);
    assert_eq!(slots(&optional), [None; 16]);
}

#[test]
fn pe32_widens_the_largest_values() {
    let mut image = dos_part(PE_AT);
    image.extend(coff_part(0, 0, 0, 96));
    image.extend(fields32(0xFFFF_FFFF, 0xFFFF_FFFE, 0xFFFF_FFFD, 0));
    let optional = parse_pe(&image).unwrap().optional_header.unwrap();
    assert_eq!(optional.standard_fields.address_of_entry_point, 0xFFFF_FFFFu64);
    assert_eq!(optional.standard_fields.base_of_data, 0xFFFF_FFFEu64);
    assert_eq!(optional.windows_fields.image_base, 0xFFFF_FFFDu64);
}

#[test]
fn pe32_plus_image() {
    let image = image64(0, 0, &[]);
    let optional = parse_pe(&image).unwrap().optional_header.unwrap();
    assert_eq!(optional.standard_fields.magic, 0x20B);
    assert_eq!(optional.standard_fields.base_of_data, 0);
    assert_eq!(optional.standard_fields.address_of_entry_point, 0x1000);
    assert_eq!(optional.windows_fields.image_base, 0x0000_0001_4000_0000);
    assert_eq!(optional.windows_fields.size_of_stack_reserve, 0x0000_0001_0010_0000);
    assert_eq!(optional.windows_fields.size_of_stack_commit, 0x0000_0002_0000_1000);
    assert_eq!(optional.windows_fields.size_of_heap_reserve, 0x0000_0003_0020_0000);
    assert_eq!(optional.windows_fields.size_of_heap_commit, 0x0000_0004_0000_2000);
    assert_eq!(optional.windows_fields.loader_flags, 0x11);
    assert_eq!(slots(&optional), [None; 16]);
}

#[test]
fn pe32_plus_image_base_uses_all_eight_bytes() {
    let mut image = dos_part(PE_AT);
    image.extend(coff_part(0, 0, 0, 112));
    image.extend(fields64(0x1000, 0xFEDC_BA98_7654_3210, 0));
    let optional = parse_pe(&image).unwrap().optional_header.unwrap();
    assert_eq!(optional.windows_fields.image_base, 0xFEDC_BA98_7654_3210);
    assert_eq!(optional.standard_fields.base_of_data, 0);
}

#[test]
fn five_directories_fill_slots_zero_to_four() {
    for image in [image32(5, 5, &[]), image64(5, 5, &[])] {
        let mut image = image;
        let check = |bytes: &[u8]| {
            let optional = parse_pe(bytes).unwrap().optional_header.unwrap();
            let table = slots(&optional);
            for i in 0..16u32 {
                let want = if i < 5 { expected_slot(i) } else { None };
                assert_eq!(table[i as usize], want);
            }
        };
        check(&image);
        image.extend_from_slice(&[0xAB; 128]);
        check(&image);
    }
}

#[test]
fn five_empty_directories_are_present() {
    let mut image = dos_part(PE_AT);
    image.extend(coff_part(0, 0, 0, 96 + 40));
    image.extend(fields32(0x1000, 0x2000, 0x0040_0000, 5));
    image.extend_from_slice(&[0u8; 40]);
    let optional = parse_pe(&image).unwrap().optional_header.unwrap();
    let table = slots(&optional);
    for i in 0..5 {
        assert_eq!(table[i], Some(DataDirectoryExport { virtual_address: 0, size: 0 }));
    }
    for i in 5..16 {
        assert_eq!(table[i], None);
    }
}

#[test]
fn declared_directories_beyond_the_header_are_absent() {
    // Five declared, but the declared size of the optional header holds one.
    let image = image32(5, 1, &[]);
    let optional = parse_pe(&image).unwrap().optional_header.unwrap();
    let table = slots(&optional);
    assert_eq!(table[0], expected_slot(0));
    for i in 1..16 {
        assert_eq!(table[i], None);
    }
}

#[test]
fn more_than_sixteen_declared_directories() {
    let image = image64(40, 16, &[]);
    let optional = parse_pe(&image).unwrap().optional_header.unwrap();
    assert_eq!(optional.windows_fields.number_of_rva_and_sizes, 40);
    let table = slots(&optional);
    for i in 0..16u32 {
        assert_eq!(table[i as usize], expected_slot(i));
    }
}

#[test]
fn header_failures_give_nothing() {
    let image = image32(2, 2, &[]);
    // The buffer ends inside the fields of the optional header.
    let fields_end = PE_AT as usize + 24 + 96;
    assert_eq!(decode_header(&image[..fields_end - 1]), Err(DecodeError::Truncated));
    assert_eq!(parse_pe(&image[..fields_end - 1]), None);
    assert_eq!(get_sections(&image[..fields_end - 1]), None);
    assert!(parse_pe(&image[..fields_end]).is_some());
    // The buffer ends inside the magic.
    assert_eq!(decode_header(&image[..PE_AT as usize + 25]), Err(DecodeError::Truncated));
    assert_eq!(decode_header(&image[..PE_AT as usize + 24]), Err(DecodeError::Truncated));
    // Unknown magic.
    let mut odd = image.clone();
    odd[PE_AT as usize + 24] = 0x0C;
    assert_eq!(decode_header(&odd), Err(DecodeError::UnknownOptionalHeaderMagic));
    assert_eq!(parse_pe(&odd), None);
    assert_eq!(get_sections(&odd), None);
    // Wrong PE signature.
    let mut unsigned = image.clone();
    unsigned[PE_AT as usize] = b'N';
    assert_eq!(decode_header(&unsigned), Err(DecodeError::NotAPeFile));
    assert_eq!(parse_pe(&unsigned), None);
    // A declared size too small for the fields.
    let mut small = dos_part(PE_AT);
    small.extend(coff_part(0, 0, 0, 95));
    small.extend(fields32(0x1000, 0x2000, 0x0040_0000, 0));
    assert_eq!(decode_header(&small), Err(DecodeError::Truncated));
}

#[test]
fn pe_header_may_overlap_the_dos_header() {
    let mut image = vec![0u8; 0x40];
    image[0] = 0x4D;
    image[1] = 0x5A;
    image[0x3C] = 0x04;
    image[4..8].copy_from_slice(b"PE\0\0");
    image[4 + 4] = 0x64;
    image[4 + 5] = 0x86;
    let header = parse_pe(&image).unwrap();
    assert_eq!(header.dos_header.pe_header_offset, 4);
    assert_eq!(header.coff_header.machine, 0x8664);
    assert_eq!(header.coff_header.size_of_optional_header, 0);
    assert_eq!(header.optional_header, None);
}

// ---- section names ----

#[test]
fn name_offset_is_a_slash_and_decimal_digits() {
    assert_eq!(parse_name_offset(b"/14\0\0\0\0\0"), Some(14));
    assert_eq!(parse_name_offset(b"/0\0\0\0\0\0\0"), Some(0));
    assert_eq!(parse_name_offset(b"/007\0\0\0\0"), Some(7));
    assert_eq!(parse_name_offset(b"/9999999"), Some(9_999_999));
    assert_eq!(parse_name_offset(b"/1234567"), Some(1_234_567));
    assert_eq!(parse_name_offset(b"/1\0junk\0"), Some(1));
}

#[test]
fn other_names_spell_no_offset() {
    assert_eq!(parse_name_offset(b".text\0\0\0"), None);
    assert_eq!(parse_name_offset(b"/\0\0\0\0\0\0\0"), None);
    assert_eq!(parse_name_offset(b"/12a\0\0\0\0"), None);
    assert_eq!(parse_name_offset(b"/ 12\0\0\0\0"), None);
    assert_eq!(parse_name_offset(b"/+12\0\0\0\0"), None);
    assert_eq!(parse_name_offset(b"//AAAAAA"), None);
    assert_eq!(parse_name_offset(b"14\0\0\0\0\0\0"), None);
    assert_eq!(parse_name_offset(b"\0/14\0\0\0\0"), None);
}

#[test]
fn finds_the_first_zero_byte() {
    let bytes = b"ab\0cd\0";
    assert_eq!(find_nul(bytes, 0), 2);
    assert_eq!(find_nul(bytes, 2), 2);
    assert_eq!(find_nul(bytes, 3), 5);
    assert_eq!(find_nul(bytes, 6), 6);
    assert_eq!(find_nul(b"abc", 1), 3);
    assert_eq!(find_nul(b"", 0), 0);
}

#[test]
fn string_table_follows_the_symbol_table() {
    let coff = CoffHeader {
        machine: 0,
        number_of_sections: 0,
        time_date_stamp: 0,
        pointer_to_symbol_table: 0x400,
        number_of_symbols: 3,
        size_of_optional_header: 0,
        characteristics: 0,
    };
    assert_eq!(string_table_offset(&coff), 0x400 + 54);
    let largest = CoffHeader { pointer_to_symbol_table: u32::MAX, number_of_symbols: u32::MAX, ..coff };
    assert_eq!(string_table_offset(&largest), 19 * (u32::MAX as u64));
}

fn coff_with_symbols(at: u32, symbols: u32) -> CoffHeader {
    CoffHeader {
        machine: 0x014C,
        number_of_sections: 1,
        time_date_stamp: 0,
        pointer_to_symbol_table: at,
        number_of_symbols: symbols,
        size_of_optional_header: 0,
        characteristics: 0,
    }
}

#[test]
fn long_name_is_read_up_to_the_zero_byte() {
    // Symbol table of two records at 8, so the string table starts at 44.
    let mut bytes = vec![0xEEu8; 44];
    bytes.extend_from_slice(&[0x20, 0, 0, 0]);
    bytes.extend_from_slice(b".debug_abbrev\0.debug_info\0tail");
    let coff = coff_with_symbols(8, 2);
    assert_eq!(resolve_long_name(&bytes, &coff, b"/4\0\0\0\0\0\0"), Ok(".debug_abbrev".to_string()));
    assert_eq!(resolve_long_name(&bytes, &coff, b"/18\0\0\0\0\0"), Ok(".debug_info".to_string()));
    assert_eq!(resolve_long_name(&bytes, &coff, b"/17\0\0\0\0\0"), Ok(String::new()));
    // No zero byte follows: the name runs to the end of the buffer.
    assert_eq!(resolve_long_name(&bytes, &coff, b"/30\0\0\0\0\0"), Ok("tail".to_string()));
}

#[test]
fn long_name_outside_the_buffer() {
    let bytes = vec![b'a'; 64];
    let coff = coff_with_symbols(8, 2);
    assert_eq!(resolve_long_name(&bytes, &coff, b"/19\0\0\0\0\0"), Ok("a".to_string()));
    assert_eq!(
        resolve_long_name(&bytes, &coff, b"/20\0\0\0\0\0"),
        Err(DecodeError::InvalidStringTableOffset)
    );
    assert_eq!(
        resolve_long_name(&bytes, &coff, b"/9999999"),
        Err(DecodeError::InvalidStringTableOffset)
    );
    let far = coff_with_symbols(u32::MAX, u32::MAX);
    assert_eq!(
        resolve_long_name(&bytes, &far, b"/0\0\0\0\0\0\0"),
        Err(DecodeError::InvalidStringTableOffset)
    );
    assert_eq!(
        resolve_long_name(&bytes, &coff, b"/x\0\0\0\0\0\0"),
        Err(DecodeError::InvalidStringTableOffset)
    );
}

#[test]
fn long_name_must_be_utf8() {
    let mut bytes = vec![0u8; 16];
    bytes.extend_from_slice(&[b'.', 0xFF, b'x', 0]);
    bytes.extend_from_slice(&[0xC3, 0xA9, b't', 0xC3, 0xA9, 0]);
    bytes.extend_from_slice(&[0xED, 0xA0, 0x80, 0]);
    bytes.extend_from_slice(&[0xC3, 0]);
    let coff = coff_with_symbols(16, 0);
    assert_eq!(resolve_long_name(&bytes, &coff, b"/0\0\0\0\0\0\0"), Err(DecodeError::InvalidLongName));
    assert_eq!(resolve_long_name(&bytes, &coff, b"/4\0\0\0\0\0\0"), Ok("\u{e9}t\u{e9}".to_string()));
    assert_eq!(resolve_long_name(&bytes, &coff, b"/10\0\0\0\0\0"), Err(DecodeError::InvalidLongName));
    assert_eq!(resolve_long_name(&bytes, &coff, b"/14\0\0\0\0\0"), Err(DecodeError::InvalidLongName));
}

// ---- section table ----

/// An image with two sections, a symbol table of one record and a string table behind it.
fn image_with_long_name() -> (Vec<u8>, usize) {
    let mut image = dos_part(PE_AT);
    let table_at = PE_AT as usize + 24 + 96;
    let symbols_at = (table_at + 80) as u32;
    image.extend(coff_part(2, symbols_at, 1, 96));
    image.extend(fields32(0x1000, 0x2000, 0x0040_0000, 0));
    image.extend(section_part(b".text\0\0\0", 100));
    image.extend(section_part(b"/14\0\0\0\0\0", 200));
    image.extend_from_slice(&[0x55; 18]);
    // The string table: four bytes of size, ten of another name, then the name at 14.
    image.extend_from_slice(&[30, 0, 0, 0]);
    image.extend_from_slice(b".category\0");
    image.extend_from_slice(b".debug_info\0");
    (image, table_at)
}

#[test]
fn long_section_name_is_resolved() {
    let (image, _) = image_with_long_name();
    let sections = get_sections(&image).unwrap();
    assert_eq!(
        sections,
        vec![
            expected_section(b".text\0\0\0", None, 100),
            expected_section(b"/14\0\0\0\0\0", Some(".debug_info"), 200),
        ]
    );
    assert_eq!(sections[1].resolved_name.as_deref(), Some(".debug_info"));
    assert_eq!(sections[0].resolved_name, None);
    assert_eq!(sections[0].short_name, *b".text\0\0\0");
    assert_eq!(sections[1].short_name, *b"/14\0\0\0\0\0");
}

#[test]
fn section_fields_decode_exactly() {
    let (image, table_at) = image_with_long_name();
    let coff = decode_header(&image).unwrap().coff_header;
    let first = decode_section(&image, table_at, &coff);
    assert_eq!(first.short_name, *b".text\0\0\0");
    assert_eq!(first.resolved_name, None);
    assert_eq!(first.virtual_size, 101);
    assert_eq!(first.virtual_address, 102);
    assert_eq!(first.size_of_raw_data, 103);
    assert_eq!(first.pointer_to_raw_data, 104);
    assert_eq!(first.pointer_to_relocations, 105);
    assert_eq!(first.pointer_to_linenumbers, 106);
    assert_eq!(first.number_of_relocations, 107);
    assert_eq!(first.number_of_linenumbers, 108);
    assert_eq!(first.characteristics, 109);
    let second = decode_section(&image, table_at + 40, &coff);
    assert_eq!(second.resolved_name, Some(".debug_info".to_string()));
    assert_eq!(second.virtual_size, 201);
}

#[test]
fn failed_name_lookup_does_not_fail_the_table() {
    let sections = [
        section_part(b"/999999\0", 10),
        section_part(b"/abc\0\0\0\0", 20),
        section_part(b"/\0\0\0\0\0\0\0", 30),
        section_part(b"plain\0\0\0", 40),
    ];
    let image = image32(0, 0, &sections);
    assert_eq!(
        get_sections(&image).unwrap(),
        vec![
            expected_section(b"/999999\0", None, 10),
            expected_section(b"/abc\0\0\0\0", None, 20),
            expected_section(b"/\0\0\0\0\0\0\0", None, 30),
            expected_section(b"plain\0\0\0", None, 40),
        ]
    );
}

#[test]
fn sections_keep_file_order_and_duplicates() {
    let sections = [
        section_part(b".zzz\0\0\0\0", 900),
        section_part(b".aaa\0\0\0\0", 100),
        section_part(b".aaa\0\0\0\0", 100),
        section_part(b"\xFF\xFE\0\0\0\0\0\0", 500),
    ];
    let image = image64(3, 3, &sections);
    let decoded = get_sections(&image).unwrap();
    assert_eq!(
        decoded,
        vec![
            expected_section(b".zzz\0\0\0\0", None, 900),
            expected_section(b".aaa\0\0\0\0", None, 100),
            expected_section(b".aaa\0\0\0\0", None, 100),
            expected_section(b"\xFF\xFE\0\0\0\0\0\0", None, 500),
        ]
    );
}

#[test]
fn image_without_sections() {
    let image = image32(1, 1, &[]);
    assert_eq!(get_sections(&image), Some(Vec::new()));
    let mut bare = dos_part(PE_AT);
    bare.extend(coff_part(0, 0, 0, 0));
    assert_eq!(get_sections(&bare), Some(Vec::new()));
}

#[test]
fn sections_follow_a_missing_optional_header() {
    let mut image = dos_part(PE_AT);
    image.extend(coff_part(1, 0, 0, 0));
    image.extend(section_part(b".data\0\0\0", 7));
    assert_eq!(get_sections(&image), Some(vec![expected_section(b".data\0\0\0", None, 7)]));
}

#[test]
fn truncated_section_table() {
    let sections = [section_part(b".text\0\0\0", 1), section_part(b".data\0\0\0", 2)];
    let image = image32(2, 2, &sections);
    let header = parse_pe(&image).unwrap();
    let table_at = PE_AT as usize + 24 + 112;
    assert_eq!(image.len(), table_at + 80);
    for cut in [table_at, table_at + 1, table_at + 40, table_at + 79] {
        let short = &image[..cut];
        assert_eq!(get_sections(short), None);
        assert_eq!(decode_sections(short), Err(DecodeError::Truncated));
        assert_eq!(parse_pe(short), Some(header));
    }
    assert!(get_sections(&image).is_some());
    // A cut inside the directories leaves a header with fewer slots and no section table.
    let inside = parse_pe(&image[..table_at - 1]).unwrap();
    assert_eq!(inside.coff_header, header.coff_header);
    assert_eq!(slots(&inside.optional_header.unwrap())[0], expected_slot(0));
    assert_eq!(slots(&inside.optional_header.unwrap())[1], None);
    assert_eq!(get_sections(&image[..table_at - 1]), None);
    // A cut inside the fields fails both.
    assert_eq!(parse_pe(&image[..table_at - 17]), None);
    assert_eq!(get_sections(&image[..table_at - 17]), None);
}

#[test]
fn section_table_start_outside_the_buffer() {
    let coff = coff_with_symbols(0, 0);
    let bytes = [0u8; 40];
    assert_eq!(decode_section_table(&bytes, 41, &coff), Err(DecodeError::Truncated));
    assert_eq!(decode_section_table(&bytes, 1, &coff), Err(DecodeError::Truncated));
    assert_eq!(decode_section_table(&bytes, usize::MAX, &coff), Err(DecodeError::Truncated));
    assert_eq!(decode_section_table(&bytes, 0, &coff).map(|v| v.len()), Ok(1));
    // A table of no entries asks nothing of the buffer.
    let none = CoffHeader { number_of_sections: 0, ..coff };
    assert_eq!(decode_section_table(&bytes, 40, &none), Ok(Vec::new()));
    assert_eq!(decode_section_table(&bytes, 41, &none), Ok(Vec::new()));
    assert_eq!(decode_section_table(&bytes, usize::MAX, &none), Ok(Vec::new()));
    assert_eq!(decode_section_table(&[], 0, &none), Ok(Vec::new()));
}

#[test]
fn decoding_twice_gives_the_same() {
    let (image, _) = image_with_long_name();
    let copy = image.clone();
    assert_eq!(parse_pe(&image), parse_pe(&image));
    assert_eq!(parse_pe(&image), parse_pe(&copy));
    assert_eq!(get_sections(&image), get_sections(&image));
    assert_eq!(get_sections(&image), get_sections(&copy));
    assert_eq!(decode_header(&image), decode_header(&copy));
    assert_eq!(decode_sections(&image), decode_sections(&copy));
}

#[test]
fn short_name_as_text() {
    let (image, _) = image_with_long_name();
    let sections = get_sections(&image).unwrap();
    assert_eq!(sections[0].short_name_text(), Some(".text\0\0\0".to_string()));
    let odd = expected_section(b"\xFF\xFE\0\0\0\0\0\0", None, 0);
    assert_eq!(odd.short_name_text(), None);
    let accented = expected_section(b"caf\xC3\xA9\0\0\0", None, 0);
    assert_eq!(accented.short_name_text(), Some("caf\u{e9}\0\0\0".to_string()));
}

fn expected_text(name: &str, resolved: Option<&str>, seed: u32) -> SectionText {
    SectionText {
        short_name: name.to_string(),
        resolved_name: resolved.map(|s| s.to_string()),
        virtual_size: seed + 1,
        virtual_address: seed + 2,
        size_of_raw_data: seed + 3,
        pointer_to_raw_data: seed + 4,
        pointer_to_relocations: seed + 5,
        pointer_to_linenumbers: seed + 6,
        number_of_relocations: (seed + 7) as u16,
        number_of_linenumbers: (seed + 8) as u16,
        characteristics: seed + 9,
    }
}

#[test]
fn sections_as_text_keeps_order_and_fields() {
    let (image, _) = image_with_long_name();
    let texts = sections_as_text(get_sections(&image).unwrap()).unwrap();
    assert_eq!(
        texts,
        vec![
            expected_text(".text\0\0\0", None, 100),
            expected_text("/14\0\0\0\0\0", Some(".debug_info"), 200),
        ]
    );
    let accented = vec![
        expected_section(b"caf\xC3\xA9\0\0\0", None, 1),
        expected_section(b"12345678", Some("long"), 2),
    ];
    assert_eq!(
        sections_as_text(accented),
        Some(vec![
            expected_text("caf\u{e9}\0\0\0", None, 1),
            expected_text("12345678", Some("long"), 2),
        ])
    );
    assert_eq!(sections_as_text(Vec::new()), Some(Vec::new()));
}

#[test]
fn one_name_that_is_no_text_gives_nothing() {
    let good = expected_section(b".text\0\0\0", None, 1);
    let bad = expected_section(b"\xFF\xFE\0\0\0\0\0\0", None, 2);
    let cut = expected_section(b"1234567\xC3", None, 3);
    assert_eq!(sections_as_text(vec![bad.clone()]), None);
    assert_eq!(sections_as_text(vec![good.clone(), bad.clone()]), None);
    assert_eq!(sections_as_text(vec![bad, good.clone()]), None);
    assert_eq!(sections_as_text(vec![good.clone(), cut, good.clone()]), None);
    assert!(sections_as_text(vec![good.clone(), good]).is_some());
}
