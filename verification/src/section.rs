//! The section table, and the long names that its entries may point to in
//! the COFF string table.

use vstd::prelude::*;
use vstd::slice::slice_subrange;
use vstd::utf8::{decode_utf8, valid_utf8};
use crate::coff::CoffHeader;
use crate::error::DecodeError;
use crate::le::{le_u16, le_u32, read_u16, read_u32};

verus! {

/// The size of one entry of the section table in bytes.
pub const SECTION_ENTRY_SIZE: usize = 40;

/// The size of one record of the COFF symbol table in bytes.
pub const SYMBOL_SIZE: u64 = 18;

/// The byte `/`, which opens a short name that stands for a long one.
pub const SLASH: u8 = 0x2F;

/// One entry of the section table.
#[derive(Debug, Clone, PartialEq, Eq)]
pub struct SectionTable {
    /// The eight bytes of the name field as stored, padding included.
    pub short_name: [u8; 8],
    /// The long name, where the short name pointed to one that could be
    /// read.
    pub resolved_name: Option<String>,
    pub virtual_size: u32,
    pub virtual_address: u32,
    pub size_of_raw_data: u32,
    pub pointer_to_raw_data: u32,
    pub pointer_to_relocations: u32,
    pub pointer_to_linenumbers: u32,
    pub number_of_relocations: u16,
    pub number_of_linenumbers: u16,
    pub characteristics: u32,
}

/// What a section table entry holds, with its names as sequences.
pub struct SectionModel {
    pub short_name: Seq<u8>,
    pub resolved_name: Option<Seq<char>>,
    pub virtual_size: u32,
    pub virtual_address: u32,
    pub size_of_raw_data: u32,
    pub pointer_to_raw_data: u32,
    pub pointer_to_relocations: u32,
    pub pointer_to_linenumbers: u32,
    pub number_of_relocations: u16,
    pub number_of_linenumbers: u16,
    pub characteristics: u32,
}

impl View for SectionTable {
    type V = SectionModel;

    open spec fn view(&self) -> SectionModel {
        SectionModel {
            short_name: self.short_name@,
            resolved_name: match self.resolved_name {
                Some(name) => Some(name@),
                None => None,
            },
            virtual_size: self.virtual_size,
            virtual_address: self.virtual_address,
            size_of_raw_data: self.size_of_raw_data,
            pointer_to_raw_data: self.pointer_to_raw_data,
            pointer_to_relocations: self.pointer_to_relocations,
            pointer_to_linenumbers: self.pointer_to_linenumbers,
            number_of_relocations: self.number_of_relocations,
            number_of_linenumbers: self.number_of_linenumbers,
            characteristics: self.characteristics,
        }
    }
}

/// The models of a sequence of entries, in the same order.
pub open spec fn section_models(v: Seq<SectionTable>) -> Seq<SectionModel> {
    Seq::new(v.len(), |i: int| v[i]@)
}

/// The position of the first zero byte of `s` at or after `from`, or the
/// length of `s` where there is none.
pub open spec fn nul_end(s: Seq<u8>, from: int) -> int
    recommends
        0 <= from,
    decreases s.len() - from,
{
    if from >= s.len() || s[from] == 0 {
        from
    } else {
        nul_end(s, from + 1)
    }
}

/// Whether `b` is one of the ASCII digits `0` to `9`.
pub open spec fn is_digit(b: u8) -> bool {
    0x30 <= b <= 0x39
}

/// Whether every byte of `d` is an ASCII digit.
pub open spec fn all_digits(d: Seq<u8>) -> bool {
    forall|i: int| 0 <= i < d.len() ==> is_digit(#[trigger] d[i])
}

/// The number that the ASCII digits `d` spell in base ten.
pub open spec fn decimal_value(d: Seq<u8>) -> nat
    decreases d.len(),
{
    if d.len() == 0 {
        0
    } else {
        (10 * decimal_value(d.drop_last()) + (d.last() - 0x30)) as nat
    }
}

/// The largest number that `n` decimal digits spell.
pub open spec fn max_decimal(n: nat) -> nat
    decreases n,
{
    if n == 0 {
        0
    } else {
        10 * max_decimal((n - 1) as nat) + 9
    }
}

/// The offset into the string table that a short name spells: the name is
/// a `/`, then one or more ASCII digits, then a zero byte or the end of the
/// field. Any other name spells none.
pub open spec fn long_name_offset(name: Seq<u8>) -> Option<nat> {
    let digits = name.subrange(1, nul_end(name, 1));
    if name.len() == 8 && name[0] == SLASH && digits.len() > 0 && all_digits(digits) {
        Some(decimal_value(digits))
    } else {
        None
    }
}

/// Where the COFF string table starts: directly behind the symbol table.
pub open spec fn string_table_start(coff: CoffHeader) -> int {
    coff.pointer_to_symbol_table + SYMBOL_SIZE * coff.number_of_symbols
}

/// The long name that the short name `name` points to in the string table
/// at `string_table`, or why there is none.
///
/// The name runs from the offset that `name` spells to the next zero byte,
/// or to the end of the buffer where no zero byte follows.
pub open spec fn long_name_of(s: Seq<u8>, string_table: int, name: Seq<u8>) -> Result<
    Seq<char>,
    DecodeError,
> {
    match long_name_offset(name) {
        None => Err(DecodeError::InvalidStringTableOffset),
        Some(offset) => {
            let at = string_table + offset;
            if at >= s.len() {
                Err(DecodeError::InvalidStringTableOffset)
            } else if !valid_utf8(s.subrange(at, nul_end(s, at))) {
                Err(DecodeError::InvalidLongName)
            } else {
                Ok(decode_utf8(s.subrange(at, nul_end(s, at))))
            }
        },
    }
}

/// The resolved name of an entry: the long name that its short name points
/// to where that can be read, and absent otherwise. A short name that does
/// not start with `/` points to none.
pub open spec fn resolved_name_of(s: Seq<u8>, string_table: int, name: Seq<u8>) -> Option<
    Seq<char>,
> {
    match long_name_of(s, string_table, name) {
        Ok(text) => Some(text),
        Err(_) => None,
    }
}

/// The entry laid out in the forty bytes of `s` from `at` on.
pub open spec fn section_at(s: Seq<u8>, at: int, string_table: int) -> SectionModel {
    SectionModel {
        short_name: s.subrange(at, at + 8),
        resolved_name: resolved_name_of(s, string_table, s.subrange(at, at + 8)),
        virtual_size: le_u32(s, at + 8),
        virtual_address: le_u32(s, at + 12),
        size_of_raw_data: le_u32(s, at + 16),
        pointer_to_raw_data: le_u32(s, at + 20),
        pointer_to_relocations: le_u32(s, at + 24),
        pointer_to_linenumbers: le_u32(s, at + 28),
        number_of_relocations: le_u16(s, at + 32),
        number_of_linenumbers: le_u16(s, at + 34),
        characteristics: le_u32(s, at + 36),
    }
}

/// The section table that starts at `at` in `s`: as many entries as the
/// COFF header counts, in file order. A table of no entries asks nothing
/// of the buffer, wherever it starts.
pub open spec fn section_table_of(s: Seq<u8>, at: int, coff: CoffHeader) -> Result<
    Seq<SectionModel>,
    DecodeError,
> {
    if coff.number_of_sections > 0 && s.len() < at + SECTION_ENTRY_SIZE
        * coff.number_of_sections {
        Err(DecodeError::Truncated)
    } else {
        Ok(
            Seq::new(
                coff.number_of_sections as nat,
                |i: int| section_at(s, at + SECTION_ENTRY_SIZE * i, string_table_start(coff)),
            ),
        )
    }
}

/// `nul_end` finds the first zero byte: it lies between `from` and the
/// length, no byte before it is zero, and it is the length or points at a
/// zero byte.
pub proof fn lemma_nul_end(s: Seq<u8>, from: int)
    requires
        0 <= from <= s.len(),
    ensures
        from <= nul_end(s, from) <= s.len(),
        forall|i: int| from <= i < nul_end(s, from) ==> s[i] != 0,
        nul_end(s, from) == s.len() || s[nul_end(s, from)] == 0,
    decreases s.len() - from,
{
    if from < s.len() && s[from] != 0 {
        lemma_nul_end(s, from + 1);
    }
}

/// Digits spell a number below the next power of ten.
pub proof fn lemma_decimal_value_bound(d: Seq<u8>)
    requires
        all_digits(d),
    ensures
        decimal_value(d) <= max_decimal(d.len()),
    decreases d.len(),
{
    if d.len() > 0 {
        let front = d.drop_last();
        assert forall|i: int| 0 <= i < front.len() implies is_digit(#[trigger] front[i]) by {
            assert(front[i] == d[i]);
        }
        lemma_decimal_value_bound(front);
        assert(is_digit(d[d.len() - 1]));
    }
}

/// Finds the first zero byte of `bytes` at or after `from`.
pub fn find_nul(bytes: &[u8], from: usize) -> (end: usize)
    requires
        from <= bytes.len(),
    ensures
        end == nul_end(bytes@, from as int),
        from <= end <= bytes.len(),
{
    let mut i: usize = from;
    while i < bytes.len() && bytes[i] != 0
        invariant
            from <= i <= bytes.len(),
            nul_end(bytes@, from as int) == nul_end(bytes@, i as int),
        decreases bytes.len() - i,
    {
        i += 1;
    }
    i
}

/// Reads the string table offset that a short name spells.
pub fn parse_name_offset(name: &[u8; 8]) -> (r: Option<u32>)
    ensures
        match r {
            Some(v) => long_name_offset(name@) == Some(v as nat),
            None => long_name_offset(name@) is None,
        },
{
    if name[0] != SLASH {
        return None;
    }
    let mut i: usize = 1;
    let mut value: u32 = 0;
    while i < 8 && name[i] != 0
        invariant
            1 <= i <= 8,
            name@.len() == 8,
            nul_end(name@, 1) == nul_end(name@, i as int),
            all_digits(name@.subrange(1, i as int)),
            value == decimal_value(name@.subrange(1, i as int)),
        decreases 8 - i,
    {
        let d: u8 = name[i];
        proof {
            lemma_nul_end(name@, i as int + 1);
        }
        if d < 0x30 || d > 0x39 {
            proof {
                let digits = name@.subrange(1, nul_end(name@, 1));
                assert(!is_digit(digits[i as int - 1]));
            }
            return None;
        }
        proof {
            let before = name@.subrange(1, i as int);
            let after = name@.subrange(1, i as int + 1);
            assert(after.drop_last() =~= before);
            assert forall|j: int| 0 <= j < after.len() implies is_digit(#[trigger] after[j]) by {
                if j < before.len() {
                    assert(after[j] == before[j]);
                }
            }
            lemma_decimal_value_bound(before);
            reveal_with_fuel(max_decimal, 8);
        }
        value = value * 10 + (d - 0x30) as u32;
        i += 1;
    }
    if i == 1 {
        None
    } else {
        Some(value)
    }
}

/// Computes where the COFF string table starts.
pub fn string_table_offset(coff: &CoffHeader) -> (r: u64)
    ensures
        r == string_table_start(*coff),
{
    coff.pointer_to_symbol_table as u64 + SYMBOL_SIZE * (coff.number_of_symbols as u64)
}

/// `core::str::from_utf8`: the text that `bytes` encode, where they are
/// well-formed UTF-8, and `None` where they are not. Well-formedness and
/// decoding are those of `vstd::utf8`.
#[verifier::external_body]
pub(crate) fn text_of_utf8(bytes: &[u8]) -> (r: Option<&str>)
    ensures
        r is Some <==> valid_utf8(bytes@),
        r matches Some(text) ==> text@ == decode_utf8(bytes@),
{
    match core::str::from_utf8(bytes) {
        Ok(text) => Some(text),
        Err(_) => None,
    }
}

/// Looks up the long name that the short name `name` points to.
pub fn resolve_long_name(bytes: &[u8], coff: &CoffHeader, name: &[u8; 8]) -> (r: Result<
    String,
    DecodeError,
>)
    ensures
        match (r, long_name_of(bytes@, string_table_start(*coff), name@)) {
            (Ok(text), Ok(model)) => text@ == model,
            (Err(e), Err(model)) => e == model,
            _ => false,
        },
{
    let offset: u32 = match parse_name_offset(name) {
        Some(v) => v,
        None => {
            return Err(DecodeError::InvalidStringTableOffset);
        },
    };
    let position: u64 = string_table_offset(coff) + offset as u64;
    if position >= bytes.len() as u64 {
        return Err(DecodeError::InvalidStringTableOffset);
    }
    let at: usize = position as usize;
    let end: usize = find_nul(bytes, at);
    match text_of_utf8(slice_subrange(bytes, at, end)) {
        Some(text) => Ok(text.to_owned()),
        None => Err(DecodeError::InvalidLongName),
    }
}

/// Decodes the entry in the forty bytes of `bytes` from `at` on. A long
/// name that cannot be read leaves the resolved name absent and is no
/// failure.
pub fn decode_section(bytes: &[u8], at: usize, coff: &CoffHeader) -> (r: SectionTable)
    requires
        at + SECTION_ENTRY_SIZE <= bytes.len(),
    ensures
        r@ == section_at(bytes@, at as int, string_table_start(*coff)),
{
    let short_name: [u8; 8] = [
        bytes[at],
        bytes[at + 1],
        bytes[at + 2],
        bytes[at + 3],
        bytes[at + 4],
        bytes[at + 5],
        bytes[at + 6],
        bytes[at + 7],
    ];
    assert(short_name@ =~= bytes@.subrange(at as int, at + 8));
    let resolved_name: Option<String> = if short_name[0] == SLASH {
        match resolve_long_name(bytes, coff, &short_name) {
            Ok(text) => Some(text),
            Err(_) => None,
        }
    } else {
        None
    };
    SectionTable {
        short_name,
        resolved_name,
        virtual_size: read_u32(bytes, at + 8),
        virtual_address: read_u32(bytes, at + 12),
        size_of_raw_data: read_u32(bytes, at + 16),
        pointer_to_raw_data: read_u32(bytes, at + 20),
        pointer_to_relocations: read_u32(bytes, at + 24),
        pointer_to_linenumbers: read_u32(bytes, at + 28),
        number_of_relocations: read_u16(bytes, at + 32),
        number_of_linenumbers: read_u16(bytes, at + 34),
        characteristics: read_u32(bytes, at + 36),
    }
}

/// Decodes the section table that starts at `at`: one entry for each
/// section that the COFF header counts, in file order, or `Truncated`
/// where the buffer does not hold them all.
pub fn decode_section_table(bytes: &[u8], at: usize, coff: &CoffHeader) -> (r: Result<
    Vec<SectionTable>,
    DecodeError,
>)
    ensures
        match (r, section_table_of(bytes@, at as int, *coff)) {
            (Ok(entries), Ok(model)) => section_models(entries@) == model,
            (Err(e), Err(model)) => e == model,
            _ => false,
        },
{
    let count: usize = coff.number_of_sections as usize;
    let mut entries: Vec<SectionTable> = Vec::new();
    if count == 0 {
        assert(section_models(entries@) =~= section_table_of(bytes@, at as int, *coff)->Ok_0);
        return Ok(entries);
    }
    if at > bytes.len() || (bytes.len() - at) / SECTION_ENTRY_SIZE < count {
        return Err(DecodeError::Truncated);
    }
    let mut i: usize = 0;
    while i < count
        invariant
            i <= count,
            count == coff.number_of_sections,
            at + SECTION_ENTRY_SIZE * count <= bytes.len(),
            entries@.len() == i,
            forall|j: int|
                0 <= j < i ==> (#[trigger] entries@[j])@ == section_at(
                    bytes@,
                    at + SECTION_ENTRY_SIZE * j,
                    string_table_start(*coff),
                ),
        decreases count - i,
    {
        let entry = decode_section(bytes, at + SECTION_ENTRY_SIZE * i, coff);
        entries.push(entry);
        i += 1;
    }
    assert(section_models(entries@) =~= section_table_of(bytes@, at as int, *coff)->Ok_0);
    Ok(entries)
}

} // verus!
