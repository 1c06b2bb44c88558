//! The ways in which decoding can fail.

use vstd::prelude::*;

verus! {

/// Why a buffer could not be decoded.
///
/// The first three abort a decode. The last two arise only while a long
/// section name is looked up, and the section decoder recovers from them by
/// leaving the resolved name absent.
#[derive(Debug, Clone, Copy, PartialEq, Eq)]
pub enum DecodeError {
    /// The DOS signature is not "MZ", or the PE signature is not "PE\0\0".
    NotAPeFile,
    /// The buffer, or the declared size of the optional header, is shorter
    /// than a structure that has to be read from it.
    Truncated,
    /// The optional header's magic is neither PE32 nor PE32+.
    UnknownOptionalHeaderMagic,
    /// A long section name points outside the buffer, or its short name
    /// does not spell a decimal offset.
    InvalidStringTableOffset,
    /// The bytes of a long section name are not valid UTF-8.
    InvalidLongName,
}

} // verus!
